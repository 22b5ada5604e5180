//! Error taxonomy of the token exchange.
//!
//! Every engine operation is all-or-nothing: on any of these errors the pool
//! snapshot passed in is left unchanged and no transfer is proposed.

use vstd::prelude::*;

verus! {

/// Typed failures of the token exchange operations.
#[derive(Clone, Copy, Debug, PartialEq, Eq, Structural)]
pub enum TokenExchangeError {
    /// The instruction data is malformed: unknown tag or truncated field region.
    InvalidInstruction,
    /// Attempted to initialize a pool that is already initialized.
    PoolAlreadyInitialized,
    /// Attempted to operate on a pool that has not been initialized.
    PoolNotInitialized,
    /// The provided authority does not match the pool's authority.
    InvalidPoolAuthority,
    /// The token mint does not match the pool's configured token mint.
    InvalidTokenMint,
    /// The pool does not hold enough liquidity for the requested operation.
    InsufficientLiquidity,
    /// The computed output is below the caller-supplied minimum.
    SlippageExceeded,
    /// The fee rate is outside the acceptable range `[0, 10000)`.
    InvalidFeeRate,
    /// A mathematical operation overflowed, underflowed, or divided by zero.
    MathOverflow,
    /// The user position account is invalid.
    InvalidUserPosition,
}

impl TokenExchangeError {
    /// The stable numeric code of each error, in declaration order, as a host
    /// environment would expose it in a custom program error.
    pub fn code(&self) -> (c: u32)
        ensures
            c == self.spec_code(),
    {
        match self {
            TokenExchangeError::InvalidInstruction => 0,
            TokenExchangeError::PoolAlreadyInitialized => 1,
            TokenExchangeError::PoolNotInitialized => 2,
            TokenExchangeError::InvalidPoolAuthority => 3,
            TokenExchangeError::InvalidTokenMint => 4,
            TokenExchangeError::InsufficientLiquidity => 5,
            TokenExchangeError::SlippageExceeded => 6,
            TokenExchangeError::InvalidFeeRate => 7,
            TokenExchangeError::MathOverflow => 8,
            TokenExchangeError::InvalidUserPosition => 9,
        }
    }

    /// The numeric code of each error, for use in contracts.
    pub open spec fn spec_code(self) -> u32 {
        match self {
            TokenExchangeError::InvalidInstruction => 0,
            TokenExchangeError::PoolAlreadyInitialized => 1,
            TokenExchangeError::PoolNotInitialized => 2,
            TokenExchangeError::InvalidPoolAuthority => 3,
            TokenExchangeError::InvalidTokenMint => 4,
            TokenExchangeError::InsufficientLiquidity => 5,
            TokenExchangeError::SlippageExceeded => 6,
            TokenExchangeError::InvalidFeeRate => 7,
            TokenExchangeError::MathOverflow => 8,
            TokenExchangeError::InvalidUserPosition => 9,
        }
    }
}

} // verus!
