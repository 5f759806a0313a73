use vstd::prelude::*;

verus! {

/// Why an operation on the ledger was refused.
#[derive(Clone, Copy, Debug, PartialEq, Eq, Structural)]
pub enum TxGuardError {
    /// The fee tier is not one of the five that the ledger keeps.
    InvalidPriorityFeeTier,
    /// A counter already holds the largest value of its type.
    CountOverflow,
}

} // verus!
