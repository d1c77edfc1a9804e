use vstd::prelude::*;

verus! {

/// Why an operation was rejected. Every failure is terminal for the
/// invocation and leaves all state unchanged.
#[derive(Clone, Copy, Debug, PartialEq, Eq)]
pub enum DexError {
    /// The computed output fell below the caller's minimum.
    SlippageExceeded,
    /// The operation would contribute or consume no liquidity.
    InsufficientLiquidity,
    /// The tick bounds do not form a valid range.
    InvalidTickRange,
    /// The order's expiry has passed (reserved: nothing checks it yet).
    OrderExpired,
    /// Arithmetic overflow, underflow, or an invalid division.
    MathOverflow,
}

} // verus!
