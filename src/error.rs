use vstd::prelude::*;

verus! {

/// Every way an operation on the pool can fail. Each failure aborts the whole
/// operation: no balance, reserve or position is changed.
#[derive(Debug, Clone, Copy, PartialEq, Eq, Structural)]
pub enum TokenSwapError {
    /// The output of a swap out of vault A would exceed the reserve of A.
    InsufficientTokenA,
    /// The output of a swap out of vault B would exceed the reserve of B.
    InsufficientTokenB,
    /// Wide arithmetic overflowed, a subtraction underflowed, a value did not
    /// narrow back to 64 bits, or a division had a zero divisor.
    CalculationError,
    /// A withdrawal asked for more than the position has staked.
    InsufficientLiquidityTokens,
    /// The position's lock has not expired yet.
    TimeConstraint,
    /// The swap's output is below the caller's minimum.
    SlippageExceeded,
    /// A token transfer could not be made: the source holds less than the
    /// amount, or the destination's balance would overflow 64 bits.
    TransferFailed,
}

} // verus!
