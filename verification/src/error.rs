//! Error kinds surfaced by the adapter. All are terminal: any failure aborts
//! the whole call, and the surrounding transaction boundary rolls back every
//! token movement attempted so far.

use vstd::prelude::*;

verus! {

/// Domain-level failure kinds of the adapter's two entry points.
#[derive(Clone, Copy, Debug, PartialEq, Eq, Structural)]
pub enum SwapError {
    /// A second initialization attempt was made.
    AlreadyInitialized,
    /// The requested input amount was zero.
    InvalidAmount,
    /// The caller's input-token balance is below the requested amount.
    InsufficientBalance,
    /// Reserved: declared by the interface but not triggered by any check.
    SlippageExceeded,
    /// A pool vault holds less native value than the configured floor.
    InsufficientLiquidity,
    /// Reserved: declared by the interface but not triggered by any check.
    InvalidForwardAddress,
    /// Reserved: declared by the interface but not triggered by any check.
    SwapTimeout,
}

impl SwapError {
    /// A human-readable message for each error kind.
    pub fn message(&self) -> (r: &'static str)
        ensures
            self is AlreadyInitialized ==> r@ == "Program is already initialized"@,
            self is InvalidAmount ==> r@ == "Amount must be greater than 0"@,
            self is InsufficientBalance ==> r@ == "Insufficient balance"@,
            self is SlippageExceeded ==> r@ == "Slippage tolerance exceeded"@,
            self is InsufficientLiquidity ==> r@ == "Pool has insufficient liquidity"@,
            self is InvalidForwardAddress ==> r@ == "Invalid forward address"@,
            self is SwapTimeout ==> r@ == "Swap timeout exceeded"@,
    {
        match self {
            SwapError::AlreadyInitialized => "Program is already initialized",
            SwapError::InvalidAmount => "Amount must be greater than 0",
            SwapError::InsufficientBalance => "Insufficient balance",
            SwapError::SlippageExceeded => "Slippage tolerance exceeded",
            SwapError::InsufficientLiquidity => "Pool has insufficient liquidity",
            SwapError::InvalidForwardAddress => "Invalid forward address",
            SwapError::SwapTimeout => "Swap timeout exceeded",
        }
    }
}

} // verus!
