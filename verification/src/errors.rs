use vstd::prelude::*;

verus! {

/// Errors surfaced by the oracle-priority core.
#[derive(Clone, Copy, Debug, PartialEq, Eq, Structural)]
pub enum OracleError {
    /// A proposed priority configuration breaks the validation rules:
    /// every source disabled, an enabled rank outside the allowed range,
    /// or two enabled sources sharing a rank.
    InvalidPriorities,
    /// No enabled source produced a usable reading during resolution.
    NoPriceAvailable,
    /// A fixed-point conversion exceeded the storage integer's range.
    Overflow,
}

} // verus!
