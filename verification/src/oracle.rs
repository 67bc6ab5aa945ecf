//! The priority resolver: validation of two-source rank configurations and
//! selection of the highest-priority available reading.
//!
//! Each of the two price sources carries a signed rank: negative means
//! disabled, and an enabled rank must lie in `[0, 2]`. Validation rejects a
//! configuration in which both sources are disabled, an enabled rank is out
//! of range, or two enabled sources share a rank. Resolution places each
//! present reading in the slot of its source's rank and picks the first
//! occupied slot in increasing rank order; lower rank wins.

use vstd::prelude::*;

use crate::decimal::{spec_to_account, Decimal};
use crate::errors::OracleError;

verus! {

/// Staleness bound, in seconds, passed to the source reader that checks one.
pub const MAXIMUM_AGE: u64 = 30;

/// Largest rank an enabled source may carry.
pub const MAX_RANK: i8 = 2;

/// A rank marks its source enabled exactly when it is non-negative.
pub open spec fn enabled(rank: int) -> bool {
    rank >= 0
}

/// A priority configuration is valid when at least one source is enabled,
/// every enabled rank lies in `[0, MAX_RANK]`, and no two enabled sources
/// share a rank.
pub open spec fn valid_priorities(pyth: int, switchboard: int) -> bool {
    &&& enabled(pyth) || enabled(switchboard)
    &&& enabled(pyth) ==> pyth <= MAX_RANK
    &&& enabled(switchboard) ==> switchboard <= MAX_RANK
    &&& enabled(pyth) && enabled(switchboard) ==> pyth != switchboard
}

/// Decides whether a proposed pair of priority ranks may be stored.
pub fn check_oracle_priorities(pyth: i8, switchboard: i8) -> (r: bool)
    ensures
        r == valid_priorities(pyth as int, switchboard as int),
{
    // At least one oracle must be enabled
    if pyth < 0 && switchboard < 0 {
        return false;
    }

    // Validate priority ranges
    if (pyth >= 0 && pyth > MAX_RANK) || (switchboard >= 0 && switchboard > MAX_RANK) {
        return false;
    }

    // Check for duplicate priorities
    if pyth >= 0 && switchboard >= 0 && pyth == switchboard {
        return false;
    }

    true
}

/// The per-asset configuration and resolution record: which sources are
/// enabled and at which rank, their feed identifiers, and the most recently
/// resolved price (compact form) with its timestamp.
#[derive(Clone, Debug)]
pub struct OracleInfo {
    /// Key of the asset class this record belongs to; fixed at creation.
    pub vault_type: [u8; 32],
    /// Feed identifier of the first source (raw 32-byte identifier).
    pub oracle_pyth: [u8; 32],
    /// Feed identifier of the second source (address-like identifier).
    pub oracle_switchboard: [u8; 32],
    /// Rank of the first source; negative means disabled.
    pub priority_pyth: i8,
    /// Rank of the second source; negative means disabled.
    pub priority_switchboard: i8,
    /// Human-readable name of the asset class.
    pub vault_type_name: String,
    /// Most recently resolved price, in compact fixed-point form.
    pub recent_price: u128,
    /// Unix timestamp of the most recent resolution.
    pub last_update: u64,
}

/// The reading sitting in the slot of rank `rank`: the reading of the source
/// configured at that rank, when that reading is present.
pub open spec fn slot_candidate(
    info: OracleInfo,
    rank: int,
    pyth_reading: Option<Decimal>,
    switchboard_reading: Option<Decimal>,
) -> Option<Decimal> {
    if info.priority_pyth == rank && pyth_reading is Some {
        pyth_reading
    } else if info.priority_switchboard == rank && switchboard_reading is Some {
        switchboard_reading
    } else {
        Option::None
    }
}

/// The reading resolution selects: the first occupied slot in increasing
/// rank order (rank 0, then 1, then 2), or nothing when every slot is empty.
pub open spec fn selected_reading(
    info: OracleInfo,
    pyth_reading: Option<Decimal>,
    switchboard_reading: Option<Decimal>,
) -> Option<Decimal> {
    if slot_candidate(info, 0, pyth_reading, switchboard_reading) is Some {
        slot_candidate(info, 0, pyth_reading, switchboard_reading)
    } else if slot_candidate(info, 1, pyth_reading, switchboard_reading) is Some {
        slot_candidate(info, 1, pyth_reading, switchboard_reading)
    } else {
        slot_candidate(info, 2, pyth_reading, switchboard_reading)
    }
}

/// Some enabled source produced a reading.
pub open spec fn has_candidate(
    info: OracleInfo,
    pyth_reading: Option<Decimal>,
    switchboard_reading: Option<Decimal>,
) -> bool {
    ||| enabled(info.priority_pyth as int) && pyth_reading is Some
    ||| enabled(info.priority_switchboard as int) && switchboard_reading is Some
}

/// The record a successful resolution stores: the selected reading in
/// compact form together with the clock value, everything else unchanged.
/// `None` when no reading is selected or the compact form overflows.
pub open spec fn spec_resolve(
    info: OracleInfo,
    pyth_reading: Option<Decimal>,
    switchboard_reading: Option<Decimal>,
    now: u64,
) -> Option<OracleInfo> {
    match selected_reading(info, pyth_reading, switchboard_reading) {
        Option::None => Option::None,
        Option::Some(d) => if spec_to_account(d) <= u128::MAX {
            Option::Some(
                OracleInfo {
                    vault_type: info.vault_type,
                    oracle_pyth: info.oracle_pyth,
                    oracle_switchboard: info.oracle_switchboard,
                    priority_pyth: info.priority_pyth,
                    priority_switchboard: info.priority_switchboard,
                    vault_type_name: info.vault_type_name,
                    recent_price: spec_to_account(d) as u128,
                    last_update: now,
                },
            )
        } else {
            Option::None
        },
    }
}

/// Lower numeric rank wins: when both sources are enabled and both readings
/// are present, resolution selects the reading of the lower-ranked source —
/// whichever order the readings were fetched in, since selection depends
/// only on the configured ranks.
pub proof fn lemma_lower_rank_wins(
    info: OracleInfo,
    pyth_reading: Option<Decimal>,
    switchboard_reading: Option<Decimal>,
)
    requires
        info.wf(),
        enabled(info.priority_pyth as int),
        enabled(info.priority_switchboard as int),
        pyth_reading is Some,
        switchboard_reading is Some,
    ensures
        info.priority_pyth < info.priority_switchboard ==> selected_reading(
            info,
            pyth_reading,
            switchboard_reading,
        ) == pyth_reading,
        info.priority_switchboard < info.priority_pyth ==> selected_reading(
            info,
            pyth_reading,
            switchboard_reading,
        ) == switchboard_reading,
{
}

/// Fallback: when one source contributes no candidate (disabled, or its
/// fetch failed) while the other is enabled with a present reading, the
/// present reading is selected.
pub proof fn lemma_fallback(
    info: OracleInfo,
    pyth_reading: Option<Decimal>,
    switchboard_reading: Option<Decimal>,
)
    requires
        info.wf(),
    ensures
        enabled(info.priority_pyth as int) && pyth_reading is Some && !(enabled(
            info.priority_switchboard as int,
        ) && switchboard_reading is Some) ==> selected_reading(
            info,
            pyth_reading,
            switchboard_reading,
        ) == pyth_reading,
        enabled(info.priority_switchboard as int) && switchboard_reading is Some && !(enabled(
            info.priority_pyth as int,
        ) && pyth_reading is Some) ==> selected_reading(
            info,
            pyth_reading,
            switchboard_reading,
        ) == switchboard_reading,
{
}

/// A reading is selected exactly when some enabled source produced one; in
/// particular, resolution reports no price available iff every enabled
/// source's fetch failed or every source is disabled.
pub proof fn lemma_availability(
    info: OracleInfo,
    pyth_reading: Option<Decimal>,
    switchboard_reading: Option<Decimal>,
)
    requires
        info.wf(),
    ensures
        selected_reading(info, pyth_reading, switchboard_reading) is Some <==> has_candidate(
            info,
            pyth_reading,
            switchboard_reading,
        ),
{
}

/// Idempotent re-resolution: after a successful resolve, resolving again
/// with the same readings and a later clock succeeds, stores the same price,
/// and updates only the timestamp — selection reads nothing a resolve
/// writes.
pub proof fn lemma_reresolve_keeps_price(
    info: OracleInfo,
    pyth_reading: Option<Decimal>,
    switchboard_reading: Option<Decimal>,
    t1: u64,
    t2: u64,
)
    requires
        spec_resolve(info, pyth_reading, switchboard_reading, t1) is Some,
    ensures
        spec_resolve(
            spec_resolve(info, pyth_reading, switchboard_reading, t1)->Some_0,
            pyth_reading,
            switchboard_reading,
            t2,
        ) matches Some(again)
            && again.recent_price == spec_resolve(
            info,
            pyth_reading,
            switchboard_reading,
            t1,
        )->Some_0.recent_price
            && again.last_update == t2,
{
    let once = spec_resolve(info, pyth_reading, switchboard_reading, t1)->Some_0;
    assert(selected_reading(once, pyth_reading, switchboard_reading) == selected_reading(
        info,
        pyth_reading,
        switchboard_reading,
    ));
}

impl OracleInfo {
    /// The record's priorities could only have been written by `initialize`
    /// or a validated update: enabled ranks stay in `[0, MAX_RANK]` and two
    /// enabled sources never share a rank.
    pub open spec fn wf(self) -> bool {
        &&& self.priority_pyth <= MAX_RANK
        &&& self.priority_switchboard <= MAX_RANK
        &&& enabled(self.priority_pyth as int) && enabled(self.priority_switchboard as int)
            ==> self.priority_pyth != self.priority_switchboard
    }

    /// Creates the record for one asset class: both sources disabled, both
    /// identifiers zeroed, price and timestamp zeroed.
    pub fn initialize(vault_type: [u8; 32], vault_type_name: String) -> (r: OracleInfo)
        ensures
            r.vault_type == vault_type,
            forall|i: int| 0 <= i < 32 ==> r.oracle_pyth@[i] == 0,
            forall|i: int| 0 <= i < 32 ==> r.oracle_switchboard@[i] == 0,
            r.priority_pyth == -1,
            r.priority_switchboard == -1,
            r.vault_type_name@ == vault_type_name@,
            r.recent_price == 0,
            r.last_update == 0,
            r.wf(),
    {
        OracleInfo {
            vault_type,
            oracle_pyth: [0u8; 32],
            oracle_switchboard: [0u8; 32],
            priority_pyth: -1,
            priority_switchboard: -1,
            vault_type_name,
            recent_price: 0,
            last_update: 0,
        }
    }

    /// Overwrites both ranks atomically after validation; on rejection the
    /// record is untouched.
    pub fn update_priority(&mut self, pyth_priority: i8, switchboard_priority: i8) -> (r: Result<
        (),
        OracleError,
    >)
        ensures
            r is Ok <==> valid_priorities(pyth_priority as int, switchboard_priority as int),
            r is Ok ==> final(self).priority_pyth == pyth_priority
                && final(self).priority_switchboard == switchboard_priority && final(self).wf(),
            r matches Err(e) ==> e == OracleError::InvalidPriorities && *final(self) == *old(self),
            final(self).vault_type == old(self).vault_type,
            final(self).oracle_pyth == old(self).oracle_pyth,
            final(self).oracle_switchboard == old(self).oracle_switchboard,
            final(self).vault_type_name == old(self).vault_type_name,
            final(self).recent_price == old(self).recent_price,
            final(self).last_update == old(self).last_update,
    {
        if !check_oracle_priorities(pyth_priority, switchboard_priority) {
            return Err(OracleError::InvalidPriorities);
        }

        self.priority_pyth = pyth_priority;
        self.priority_switchboard = switchboard_priority;

        Ok(())
    }

    /// Overwrites both feed identifiers atomically.
    pub fn update_oracles(&mut self, pyth_oracle: [u8; 32], switchboard_oracle: [u8; 32])
        ensures
            final(self).oracle_pyth == pyth_oracle,
            final(self).oracle_switchboard == switchboard_oracle,
            final(self).vault_type == old(self).vault_type,
            final(self).priority_pyth == old(self).priority_pyth,
            final(self).priority_switchboard == old(self).priority_switchboard,
            final(self).vault_type_name == old(self).vault_type_name,
            final(self).recent_price == old(self).recent_price,
            final(self).last_update == old(self).last_update,
            old(self).wf() ==> final(self).wf(),
    {
        self.oracle_pyth = pyth_oracle;
        self.oracle_switchboard = switchboard_oracle;
    }

    /// The reading in the slot of rank `rank`, as `slot_candidate` states.
    fn candidate_at(
        &self,
        rank: i8,
        pyth_reading: &Option<Decimal>,
        switchboard_reading: &Option<Decimal>,
    ) -> (r: Option<Decimal>)
        ensures
            r == slot_candidate(*self, rank as int, *pyth_reading, *switchboard_reading),
    {
        if self.priority_pyth == rank && pyth_reading.is_some() {
            *pyth_reading
        } else if self.priority_switchboard == rank && switchboard_reading.is_some() {
            *switchboard_reading
        } else {
            None
        }
    }

    /// Recomputes the stored price: selects the highest-priority present
    /// reading, converts it to compact form, and stores it together with the
    /// clock value `now` as one atomic update. A fetch failure is an absent
    /// reading, not an error; only the absence of every candidate, or an
    /// overflowing conversion, fails, and then the record is untouched.
    pub fn get_price(
        &mut self,
        pyth_reading: Option<Decimal>,
        switchboard_reading: Option<Decimal>,
        now: u64,
    ) -> (r: Result<(), OracleError>)
        requires
            old(self).wf(),
            pyth_reading matches Some(d) ==> d.wf(),
            switchboard_reading matches Some(d) ==> d.wf(),
        ensures
            r is Ok <==> spec_resolve(*old(self), pyth_reading, switchboard_reading, now) is Some,
            r is Ok ==> Some(*final(self)) == spec_resolve(
                *old(self),
                pyth_reading,
                switchboard_reading,
                now,
            ),
            r is Err ==> *final(self) == *old(self),
            r matches Err(e) ==> (e == OracleError::NoPriceAvailable <==> selected_reading(
                *old(self),
                pyth_reading,
                switchboard_reading,
            ) is None) && (e == OracleError::Overflow <==> selected_reading(
                *old(self),
                pyth_reading,
                switchboard_reading,
            ) is Some),
            final(self).priority_pyth == old(self).priority_pyth,
            final(self).priority_switchboard == old(self).priority_switchboard,
            final(self).wf(),
    {
        let slot0 = self.candidate_at(0, &pyth_reading, &switchboard_reading);
        let slot1 = self.candidate_at(1, &pyth_reading, &switchboard_reading);
        let slot2 = self.candidate_at(2, &pyth_reading, &switchboard_reading);

        // Use first available price based on priority
        let selected = if slot0.is_some() {
            slot0
        } else if slot1.is_some() {
            slot1
        } else {
            slot2
        };

        match selected {
            Some(price) => match price.to_account() {
                Ok(compact) => {
                    self.recent_price = compact;
                    self.last_update = now;
                    Ok(())
                },
                Err(e) => Err(e),
            },
            None => Err(OracleError::NoPriceAvailable),
        }
    }
}

} // verus!
