use vstd::prelude::*;

verus! {

/// The ways a pool operation can fail. Every failure is terminal for the
/// requested operation: no reserve is updated unless the whole computation
/// succeeds.
#[derive(Clone, Copy, Debug, PartialEq, Eq, Structural)]
pub enum SwapError {
    /// A fee rate has a numerator above its denominator, or a numerator
    /// with a zero denominator.
    InvalidFeeRate,
    /// A reserve is empty, or the trade would drain the output reserve.
    InsufficientLiquidity,
    /// The requested input amount is zero.
    ZeroAmount,
    /// The pool has not been initialized yet.
    PoolUninitialized,
    /// The pool was already initialized.
    AlreadyInitialized,
    /// The output amount fell below the caller's stated minimum.
    SlippageExceeded,
    /// A computation would not fit the fixed-width pool fields.
    ArithmeticOverflow,
}

impl SwapError {
    /// A short description of the error, for hosts that surface failures
    /// to their callers.
    pub fn message(&self) -> (r: &'static str)
        ensures
            r@.len() > 0,
    {
        let s = match self {
            SwapError::InvalidFeeRate => "fee numerator exceeds denominator",
            SwapError::InsufficientLiquidity => "insufficient liquidity for the trade",
            SwapError::ZeroAmount => "swap amount must be positive",
            SwapError::PoolUninitialized => "pool is not initialized",
            SwapError::AlreadyInitialized => "pool is already initialized",
            SwapError::SlippageExceeded => "output amount below the stated minimum",
            SwapError::ArithmeticOverflow => "amount does not fit the pool's fields",
        };
        proof {
            reveal_strlit("fee numerator exceeds denominator");
            reveal_strlit("insufficient liquidity for the trade");
            reveal_strlit("swap amount must be positive");
            reveal_strlit("pool is not initialized");
            reveal_strlit("pool is already initialized");
            reveal_strlit("output amount below the stated minimum");
            reveal_strlit("amount does not fit the pool's fields");
        }
        s
    }
}

} // verus!
