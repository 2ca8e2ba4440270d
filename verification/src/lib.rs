//! A constant-product automated-market-maker (AMM) pool engine.
//!
//! The engine is purely arithmetic: it validates a swap request, splits
//! rational fees off the input amount, prices the trade on the
//! constant-product curve, and commits the updated reserves. Token custody,
//! account management and transfer execution are the host's concern; the
//! engine only computes amounts and state transitions.

pub mod curve;
pub mod engine;
pub mod error;
pub mod fees;
pub mod layout;
pub mod pool;
