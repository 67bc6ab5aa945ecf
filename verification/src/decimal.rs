//! Lossless fixed-point conversion between normalized decimal prices and
//! their integer encodings.
//!
//! A price is a non-negative decimal number `mantissa / 10^scale`. Two
//! integer encodings exist: the compact form (the value scaled by `10^18`,
//! persisted in the price record) and the subunit form (a token quantity
//! expressed in the chain's smallest unit, `10^9` subunits per whole unit).
//! All arithmetic is base-10 scaled-integer arithmetic; scale factors are
//! powers of ten, so the conversions are exact whenever the scale does not
//! exceed the compact form's 18 fractional digits.

use vstd::prelude::*;
use vstd::arithmetic::power::{
    pow, lemma_pow0, lemma_pow_adds, lemma_pow_increases, lemma_pow_positive,
};
use vstd::arithmetic::mul::{lemma_mul_is_associative, lemma_mul_nonnegative};
use vstd::arithmetic::div_mod::lemma_div_nonincreasing;

use crate::errors::OracleError;

verus! {

/// Number of fractional digits of the compact (persisted) encoding.
pub const COMPACT_SCALE: u32 = 18;

/// Largest scale a `Decimal` may carry (the source-native precision bound).
pub const MAX_SCALE: u32 = 28;

/// Number of fractional digits of the subunit (smallest token unit) form.
pub const SUBUNIT_SCALE: u32 = 9;

/// Subunits per whole token unit; equals `10^SUBUNIT_SCALE`.
pub const SUBUNITS_PER_UNIT: u64 = 1_000_000_000;

/// `10^e`, the scale factor attached to `e` fractional digits.
pub open spec fn pow10(e: nat) -> int {
    pow(10, e)
}

/// A non-negative decimal number, `mantissa / 10^scale`.
#[derive(Clone, Copy, Debug, PartialEq, Eq, Structural)]
pub struct Decimal {
    pub mantissa: u128,
    pub scale: u32,
}

/// The compact integer encoding of `d`: its value scaled by `10^18`,
/// truncated toward zero when `d` carries more than 18 fractional digits.
pub open spec fn spec_to_account(d: Decimal) -> int {
    if d.scale <= COMPACT_SCALE {
        d.mantissa * pow10((COMPACT_SCALE - d.scale) as nat)
    } else {
        d.mantissa as int / pow10((d.scale - COMPACT_SCALE) as nat)
    }
}

/// The decimal value encoded by a stored compact integer: `stored / 10^18`.
pub open spec fn spec_from_account(stored: u128) -> Decimal {
    Decimal { mantissa: stored, scale: COMPACT_SCALE }
}

impl Decimal {
    /// The scale stays within the source-native precision bound.
    pub open spec fn wf(self) -> bool {
        self.scale <= MAX_SCALE
    }

    /// Two decimals denote the same number, regardless of scale:
    /// `a/10^sa == b/10^sb` iff `a*10^sb == b*10^sa`.
    pub open spec fn same_value(self, other: Decimal) -> bool {
        self.mantissa * pow10(other.scale as nat) == other.mantissa * pow10(self.scale as nat)
    }

    /// Builds `mantissa / 10^scale`; rejects scales beyond the precision bound.
    pub fn new(mantissa: u128, scale: u32) -> (r: Option<Decimal>)
        ensures
            r is Some <==> scale <= MAX_SCALE,
            r matches Some(d) ==> d == (Decimal { mantissa, scale }) && d.wf(),
    {
        if scale <= MAX_SCALE {
            Some(Decimal { mantissa, scale })
        } else {
            None
        }
    }

    /// Encodes the value in compact form, `value * 10^18` truncated toward
    /// zero; fails exactly when that integer exceeds the storage range.
    pub fn to_account(&self) -> (r: Result<u128, OracleError>)
        requires
            self.wf(),
        ensures
            r is Ok <==> spec_to_account(*self) <= u128::MAX,
            r matches Ok(c) ==> c == spec_to_account(*self),
            r matches Err(e) ==> e == OracleError::Overflow,
    {
        if self.scale <= COMPACT_SCALE {
            let factor = pow10_u128(COMPACT_SCALE - self.scale);
            match self.mantissa.checked_mul(factor) {
                Some(c) => Ok(c),
                None => Err(OracleError::Overflow),
            }
        } else {
            let divisor = pow10_u128(self.scale - COMPACT_SCALE);
            proof {
                lemma_div_nonincreasing(self.mantissa as int, divisor as int);
            }
            Ok(self.mantissa / divisor)
        }
    }

    /// Decodes a stored compact integer back to the value `stored / 10^18`.
    pub fn from_account(a: u128) -> (r: Decimal)
        ensures
            r == spec_from_account(a),
            r.wf(),
    {
        Decimal { mantissa: a, scale: COMPACT_SCALE }
    }

    /// The value of a token quantity given in smallest subunits:
    /// `subunits / 10^9`.
    pub fn from_lamport_offset(a: u64) -> (r: Decimal)
        ensures
            r == (Decimal { mantissa: a as u128, scale: SUBUNIT_SCALE }),
            r.wf(),
    {
        Decimal { mantissa: a as u128, scale: SUBUNIT_SCALE }
    }

    /// The number of smallest subunits in one whole token unit, as a decimal.
    pub fn lamports_per_sol() -> (r: Decimal)
        ensures
            r == (Decimal { mantissa: SUBUNITS_PER_UNIT as u128, scale: 0 }),
            r.wf(),
            SUBUNITS_PER_UNIT == pow10(SUBUNIT_SCALE as nat),
    {
        proof {
            reveal_with_fuel(pow, 10);
        }
        Decimal { mantissa: SUBUNITS_PER_UNIT as u128, scale: 0 }
    }
}

/// Round-trip law: a representable value with at most 18 fractional digits
/// whose compact form fits the storage range decodes back to the same value.
pub proof fn lemma_round_trip(d: Decimal)
    requires
        d.wf(),
        d.scale <= COMPACT_SCALE,
        spec_to_account(d) <= u128::MAX,
    ensures
        spec_to_account(d) >= 0,
        spec_from_account(spec_to_account(d) as u128).same_value(d),
{
    let e = (COMPACT_SCALE - d.scale) as nat;
    let s = d.scale as nat;
    lemma_pow_positive(10, e);
    lemma_pow_positive(10, s);
    lemma_mul_nonnegative(d.mantissa as int, pow10(e));
    lemma_pow_adds(10, e, s);
    assert((d.mantissa * pow10(e)) * pow10(s) == d.mantissa * (pow10(e) * pow10(s))) by {
        lemma_mul_is_associative(d.mantissa as int, pow10(e), pow10(s));
    }
}

/// `10^e` as a machine integer.
fn pow10_u128(e: u32) -> (r: u128)
    requires
        e <= COMPACT_SCALE,
    ensures
        r == pow10(e as nat),
        r >= 1,
{
    proof {
        lemma_pow10_compact_value();
        lemma_pow0(10);
    }
    let mut acc: u128 = 1;
    let mut i: u32 = 0;
    while i < e
        invariant
            i <= e,
            e <= COMPACT_SCALE,
            acc == pow10(i as nat),
            acc >= 1,
            pow10(COMPACT_SCALE as nat) == 1_000_000_000_000_000_000,
        decreases e - i,
    {
        proof {
            assert(pow10((i + 1) as nat) == 10 * pow10(i as nat)) by {
                reveal(pow);
            }
            lemma_pow_increases(10, (i + 1) as nat, COMPACT_SCALE as nat);
        }
        acc = acc * 10;
        i = i + 1;
    }
    acc
}

/// `10^18` written out, so that machine-integer bounds on the scale factors
/// can be discharged without evaluating the recursive definition at use sites.
pub proof fn lemma_pow10_compact_value()
    ensures
        pow10(COMPACT_SCALE as nat) == 1_000_000_000_000_000_000,
{
    reveal_with_fuel(pow, 19);
}

} // verus!
