//! Failures of a quote.
use vstd::prelude::*;

verus! {

/// Why a quote could not be computed.
#[derive(Clone, Copy, Debug, PartialEq, Eq, Structural)]
pub enum QuoteError {
    /// The pool is not enabled.
    PoolDisabled,
    /// The pool's activation point has not been reached.
    SwapNotYetActive,
    /// The input mint is neither of the pool's mints.
    InvalidInputMint,
    /// A checked operation overflowed, or divided by zero.
    MathOverflow,
    /// A checked subtraction went below zero.
    MathUnderflow,
    /// The stable-curve solver did not converge within its iteration budget.
    CurveConvergenceFailure,
    /// The output would meet or exceed the out-vault's token reserve.
    InsufficientLiquidity,
    /// A fresh virtual price was needed and the stake pool gave none.
    DepegDecodeFailure,
}

} // verus!
