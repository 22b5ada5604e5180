//! Request decoding: the tag-prefixed, little-endian instruction layout.
//!
//! Every request is one tag byte followed by fixed-offset fields:
//!
//! | tag | request           | fields (offset: type)                                      |
//! |-----|-------------------|------------------------------------------------------------|
//! | 0   | `InitializePool`  | 0: u64 sol_amount, 8: u64 token_amount, 16: u64 fee_rate   |
//! | 1   | `Swap`            | 0: u64 amount_in, 8: u64 minimum_amount_out, 16: u8 dir    |
//! | 2   | `AddLiquidity`    | 0: u64 sol_amount, 8: u64 token_amount, 16: u64 min_lp     |
//! | 3   | `RemoveLiquidity` | 0: u64 lp_tokens, 8: u64 minimum_sol, 16: u64 minimum_token|
//!
//! Decoding fails with `InvalidInstruction` for any unknown tag or truncated
//! field region.

use crate::error::TokenExchangeError;
use vstd::bytes::spec_u64_from_le_bytes;
use vstd::bytes::u64_from_le_bytes;
use vstd::prelude::*;
use vstd::slice::slice_subrange;

verus! {

/// The four requests the token exchange can execute.
#[derive(Clone, Debug, PartialEq, Eq, Structural)]
pub enum TokenExchangeInstruction {
    /// Create and initialize a new liquidity pool.
    InitializePool {
        /// Initial amount of SOL to deposit.
        sol_amount: u64,
        /// Initial amount of SPL tokens to deposit.
        token_amount: u64,
        /// Trading fee in basis points (1 bp = 0.01%).
        fee_rate: u64,
    },
    /// Trade one asset of the pair for the other at the constant-product price.
    Swap {
        /// Amount of the input asset to swap.
        amount_in: u64,
        /// Minimum amount of the output asset to accept (slippage protection).
        minimum_amount_out: u64,
        /// Direction of the swap (true = SOL in, token out; false = the reverse).
        is_sol_input: bool,
    },
    /// Deposit both assets in exchange for LP share tokens.
    AddLiquidity {
        /// Amount of SOL to deposit.
        sol_amount: u64,
        /// Amount of SPL tokens to deposit.
        token_amount: u64,
        /// Minimum LP tokens to accept (slippage protection).
        minimum_lp_tokens: u64,
    },
    /// Burn LP share tokens and withdraw the proportional share of both assets.
    RemoveLiquidity {
        /// Amount of LP tokens to burn.
        lp_tokens: u64,
        /// Minimum SOL to accept (slippage protection).
        minimum_sol: u64,
        /// Minimum tokens to accept (slippage protection).
        minimum_token: u64,
    },
}

/// The u64 field stored little-endian at `off..off + 8` of `s`.
pub open spec fn spec_u64_field(s: Seq<u8>, off: int) -> u64 {
    spec_u64_from_le_bytes(s.subrange(off, off + 8))
}

impl TokenExchangeInstruction {
    /// The decoding of `input`, if `input` is a well-formed request.
    ///
    /// The first byte selects the variant; the remaining bytes carry its
    /// fields at fixed offsets.  Extra trailing bytes are tolerated, a
    /// truncated field region is not.
    pub open spec fn spec_unpack(input: Seq<u8>) -> Option<TokenExchangeInstruction> {
        if input.len() == 0 {
            None
        } else {
            let rest = input.subrange(1, input.len() as int);
            if input[0] == 0 && rest.len() >= 24 {
                Some(TokenExchangeInstruction::InitializePool {
                    sol_amount: spec_u64_field(rest, 0),
                    token_amount: spec_u64_field(rest, 8),
                    fee_rate: spec_u64_field(rest, 16),
                })
            } else if input[0] == 1 && rest.len() >= 17 {
                Some(TokenExchangeInstruction::Swap {
                    amount_in: spec_u64_field(rest, 0),
                    minimum_amount_out: spec_u64_field(rest, 8),
                    is_sol_input: rest[16] != 0,
                })
            } else if input[0] == 2 && rest.len() >= 24 {
                Some(TokenExchangeInstruction::AddLiquidity {
                    sol_amount: spec_u64_field(rest, 0),
                    token_amount: spec_u64_field(rest, 8),
                    minimum_lp_tokens: spec_u64_field(rest, 16),
                })
            } else if input[0] == 3 && rest.len() >= 24 {
                Some(TokenExchangeInstruction::RemoveLiquidity {
                    lp_tokens: spec_u64_field(rest, 0),
                    minimum_sol: spec_u64_field(rest, 8),
                    minimum_token: spec_u64_field(rest, 16),
                })
            } else {
                None
            }
        }
    }

    /// Decodes a request from its byte encoding.
    ///
    /// Fails with `InvalidInstruction` exactly on an unknown tag or a
    /// truncated field region.
    pub fn unpack(input: &[u8]) -> (r: Result<TokenExchangeInstruction, TokenExchangeError>)
        ensures
            match Self::spec_unpack(input@) {
                Some(instruction) => r == Ok::<_, TokenExchangeError>(instruction),
                None => r == Err::<TokenExchangeInstruction, _>(
                    TokenExchangeError::InvalidInstruction,
                ),
            },
    {
        if input.len() == 0 {
            return Err(TokenExchangeError::InvalidInstruction);
        }
        let tag = input[0];
        let rest = slice_subrange(input, 1, input.len());
        match tag {
            0 => Ok(TokenExchangeInstruction::InitializePool {
                sol_amount: unpack_u64(rest, 0)?,
                token_amount: unpack_u64(rest, 8)?,
                fee_rate: unpack_u64(rest, 16)?,
            }),
            1 => {
                let amount_in = unpack_u64(rest, 0)?;
                let minimum_amount_out = unpack_u64(rest, 8)?;
                if rest.len() < 17 {
                    return Err(TokenExchangeError::InvalidInstruction);
                }
                Ok(TokenExchangeInstruction::Swap {
                    amount_in,
                    minimum_amount_out,
                    is_sol_input: rest[16] != 0,
                })
            },
            2 => Ok(TokenExchangeInstruction::AddLiquidity {
                sol_amount: unpack_u64(rest, 0)?,
                token_amount: unpack_u64(rest, 8)?,
                minimum_lp_tokens: unpack_u64(rest, 16)?,
            }),
            3 => Ok(TokenExchangeInstruction::RemoveLiquidity {
                lp_tokens: unpack_u64(rest, 0)?,
                minimum_sol: unpack_u64(rest, 8)?,
                minimum_token: unpack_u64(rest, 16)?,
            }),
            _ => Err(TokenExchangeError::InvalidInstruction),
        }
    }
}

/// Reads the little-endian u64 at `start..start + 8` of `input`, or fails
/// with `InvalidInstruction` if the region is out of bounds.
fn unpack_u64(input: &[u8], start: usize) -> (r: Result<u64, TokenExchangeError>)
    requires
        start <= 24,
    ensures
        start + 8 <= input@.len() ==> r == Ok::<_, TokenExchangeError>(
            spec_u64_field(input@, start as int),
        ),
        start + 8 > input@.len() ==> r == Err::<u64, _>(TokenExchangeError::InvalidInstruction),
{
    if input.len() >= 8 && start <= input.len() - 8 {
        Ok(u64_from_le_bytes(slice_subrange(input, start, start + 8)))
    } else {
        Err(TokenExchangeError::InvalidInstruction)
    }
}

} // verus!
