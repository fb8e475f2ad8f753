//! The engine's error taxonomy. Every failing operation reports one of these
//! kinds and rolls back: no operation leaves partial state behind.

use vstd::prelude::*;

verus! {

/// Why an engine operation was rejected.
#[derive(Clone, Copy, Debug, PartialEq, Eq, Structural)]
pub enum EngineError {
    /// An amount is zero, below the dust floor, or above the overflow ceiling.
    InvalidAmount,
    /// A checked arithmetic step would overflow; always a hard abort.
    ArithmeticOverflow,
    /// The oracle price is older than the staleness limit allows.
    StaleOracle,
    /// The oracle price or its confidence interval is outside the accepted bounds.
    OracleOutOfBounds,
    /// The pool cannot cover the requested withdrawal, redemption or borrow.
    InsufficientLiquidity,
    /// A value moved more than the caller's slippage tolerance allows.
    SlippageExceeded,
    /// The caller is not allowed to perform the operation.
    Unauthorized,
    /// The actual pooled balance disagrees with the tracked expectation.
    VaultBalanceMismatch,
    /// The position has already been closed or liquidated.
    PositionNotOpen,
    /// The position is still healthy enough that liquidation is refused.
    NotLiquidatable,
    /// The vault or market is paused.
    ProtocolPaused,
    /// A configuration parameter or administrative transition is invalid.
    InvalidConfig,
}

impl EngineError {
    /// A short human-readable description of the error kind.
    pub fn describe(&self) -> (s: &'static str)
        ensures s@.len() > 0,
    {
        let s: &'static str = match self {
            EngineError::InvalidAmount => "invalid amount",
            EngineError::ArithmeticOverflow => "arithmetic overflow",
            EngineError::StaleOracle => "oracle price is stale",
            EngineError::OracleOutOfBounds => "oracle price out of bounds",
            EngineError::InsufficientLiquidity => "insufficient liquidity",
            EngineError::SlippageExceeded => "slippage tolerance exceeded",
            EngineError::Unauthorized => "unauthorized",
            EngineError::VaultBalanceMismatch => "vault balance mismatch",
            EngineError::PositionNotOpen => "position is not open",
            EngineError::NotLiquidatable => "position is not liquidatable",
            EngineError::ProtocolPaused => "protocol is paused",
            EngineError::InvalidConfig => "invalid configuration",
        };
        proof {
            reveal_strlit("invalid amount");
            reveal_strlit("arithmetic overflow");
            reveal_strlit("oracle price is stale");
            reveal_strlit("oracle price out of bounds");
            reveal_strlit("insufficient liquidity");
            reveal_strlit("slippage tolerance exceeded");
            reveal_strlit("unauthorized");
            reveal_strlit("vault balance mismatch");
            reveal_strlit("position is not open");
            reveal_strlit("position is not liquidatable");
            reveal_strlit("protocol is paused");
            reveal_strlit("invalid configuration");
        }
        s
    }
}

} // verus!
