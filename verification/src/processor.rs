//! The engines: swap, liquidity provisioning, liquidity withdrawal, pool
//! initialization, and the dispatcher that routes a decoded request.
//!
//! Every operation takes a snapshot of the pool state and either commits a
//! new state together with the transfer amounts the host must execute, or
//! fails with a typed error and leaves the snapshot untouched.  All
//! arithmetic is overflow-checked integer arithmetic; multiply-then-divide
//! sequences run in 128-bit intermediates so that no in-range computation is
//! ever rejected for an intermediate overflow.

use crate::error::TokenExchangeError;
use crate::instruction::TokenExchangeInstruction;
use crate::math::lemma_isqrt_bounds;
use crate::math::spec_isqrt;
use crate::math::isqrt_u128;
use crate::state::PoolState;
use vstd::arithmetic::div_mod::lemma_div_pos_is_pos;
use vstd::arithmetic::div_mod::lemma_div_by_multiple;
use vstd::arithmetic::div_mod::lemma_div_is_ordered;
use vstd::arithmetic::div_mod::lemma_remainder;
use vstd::prelude::*;

verus! {

/// Fee denominator: fees are quoted in basis points, 1/10000 each.
pub const FEE_DENOMINATOR: u64 = 10000;

/// The portion of `amount_in` that participates in pricing after the fee is
/// removed: `amount_in * (10000 - fee_rate) / 10000`, truncated.
pub open spec fn spec_net_input(amount_in: int, fee_rate: int) -> int {
    amount_in * (10000 - fee_rate) / 10000
}

/// The constant-product output amount for a swap:
/// `reserve_out * net / (reserve_in + net)` where `net` is the fee-reduced
/// input, truncated.
pub open spec fn spec_output_amount(
    amount_in: int,
    reserve_in: int,
    reserve_out: int,
    fee_rate: int,
) -> int {
    reserve_out * spec_net_input(amount_in, fee_rate) / (reserve_in + spec_net_input(
        amount_in,
        fee_rate,
    ))
}

/// Parts-per-million fixed-point scale used for deposit ratios.
pub const RATIO_SCALE: u64 = 1000000;

/// LP shares minted for the first deposit into an empty pool: the floor of
/// the geometric mean `sqrt(sol_amount * token_amount)`, in integers.
pub open spec fn spec_first_deposit_shares(sol_amount: int, token_amount: int) -> int {
    spec_isqrt((sol_amount * token_amount) as nat) as int
}

/// LP shares minted for a deposit into a pool with existing liquidity: each
/// asset's deposit ratio is taken at parts-per-million scale, the smaller
/// (binding) ratio decides, and the shares are that fraction of the current
/// supply, truncated.
pub open spec fn spec_proportional_shares(
    sol_reserve: int,
    token_reserve: int,
    sol_amount: int,
    token_amount: int,
    total_lp_supply: int,
) -> int {
    let ratio_sol = sol_amount * 1000000 / sol_reserve;
    let ratio_token = token_amount * 1000000 / token_reserve;
    let min_ratio = if ratio_sol <= ratio_token {
        ratio_sol
    } else {
        ratio_token
    };
    min_ratio * total_lp_supply / 1000000
}

/// The proportional share of `reserve` that `lp_tokens` out of
/// `total_lp_supply` outstanding shares can claim, truncated.
pub open spec fn spec_withdraw_amount(reserve: int, lp_tokens: int, total_lp_supply: int) -> int {
    reserve * lp_tokens / total_lp_supply
}

/// Both requested deposit amounts were added in full to the reserves and
/// nothing else about the pool changed.
pub open spec fn deposit_committed(
    pre: PoolState,
    post: PoolState,
    sol_amount: u64,
    token_amount: u64,
) -> bool {
    &&& post.sol_reserve == pre.sol_reserve + sol_amount
    &&& post.token_reserve == pre.token_reserve + token_amount
    &&& post.authority == pre.authority
    &&& post.lp_mint == pre.lp_mint
    &&& post.token_mint == pre.token_mint
    &&& post.fee_rate == pre.fee_rate
    &&& post.initialized == pre.initialized
}

/// The full outcome of adding liquidity: which error is returned on which
/// inputs, how many shares are minted, and that the full requested deposit
/// is accepted on success.  On any error the pool snapshot is unchanged.
pub open spec fn add_liquidity_post(
    pre: PoolState,
    post: PoolState,
    r: Result<u64, TokenExchangeError>,
    sol_amount: u64,
    token_amount: u64,
    minimum_lp_tokens: u64,
    total_lp_supply: u64,
) -> bool {
    &&& (r is Err ==> post == pre)
    &&& (!pre.initialized ==> r == Err::<u64, TokenExchangeError>(
        TokenExchangeError::PoolNotInitialized,
    ))
    &&& (pre.initialized && pre.sol_reserve == 0 ==> {
        let minted = spec_first_deposit_shares(sol_amount as int, token_amount as int);
        &&& (minted < minimum_lp_tokens ==> r == Err::<u64, TokenExchangeError>(
            TokenExchangeError::SlippageExceeded,
        ))
        &&& (minted >= minimum_lp_tokens && pre.token_reserve + token_amount > u64::MAX ==> r
            == Err::<u64, TokenExchangeError>(TokenExchangeError::MathOverflow))
        &&& (minted >= minimum_lp_tokens && pre.token_reserve + token_amount <= u64::MAX ==> {
            &&& r == Ok::<u64, TokenExchangeError>(minted as u64)
            &&& deposit_committed(pre, post, sol_amount, token_amount)
        })
    })
    &&& (pre.initialized && pre.sol_reserve != 0 ==> {
        &&& (pre.token_reserve == 0 ==> r == Err::<u64, TokenExchangeError>(
            TokenExchangeError::MathOverflow,
        ))
        &&& (pre.token_reserve != 0 ==> {
            let minted = spec_proportional_shares(
                pre.sol_reserve as int,
                pre.token_reserve as int,
                sol_amount as int,
                token_amount as int,
                total_lp_supply as int,
            );
            &&& (minted > u64::MAX ==> r == Err::<u64, TokenExchangeError>(
                TokenExchangeError::MathOverflow,
            ))
            &&& (minted <= u64::MAX && minted < minimum_lp_tokens ==> r == Err::<
                u64,
                TokenExchangeError,
            >(TokenExchangeError::SlippageExceeded))
            &&& (minted <= u64::MAX && minted >= minimum_lp_tokens && (pre.sol_reserve
                + sol_amount > u64::MAX || pre.token_reserve + token_amount > u64::MAX) ==> r
                == Err::<u64, TokenExchangeError>(TokenExchangeError::MathOverflow))
            &&& (minted <= u64::MAX && minted >= minimum_lp_tokens && pre.sol_reserve + sol_amount
                <= u64::MAX && pre.token_reserve + token_amount <= u64::MAX ==> {
                &&& r == Ok::<u64, TokenExchangeError>(minted as u64)
                &&& deposit_committed(pre, post, sol_amount, token_amount)
            })
        })
    })
}

/// The full outcome of removing liquidity: which error is returned on which
/// inputs, and that exactly the proportional amounts leave the reserves on
/// success.  On any error the pool snapshot is unchanged.
pub open spec fn remove_liquidity_post(
    pre: PoolState,
    post: PoolState,
    r: Result<(u64, u64), TokenExchangeError>,
    lp_tokens: u64,
    minimum_sol: u64,
    minimum_token: u64,
    total_lp_supply: u64,
) -> bool {
    &&& (r is Err ==> post == pre)
    &&& (!pre.initialized ==> r == Err::<(u64, u64), TokenExchangeError>(
        TokenExchangeError::PoolNotInitialized,
    ))
    &&& (pre.initialized ==> {
        &&& (total_lp_supply == 0 ==> r == Err::<(u64, u64), TokenExchangeError>(
            TokenExchangeError::MathOverflow,
        ))
        &&& (total_lp_supply > 0 ==> {
            let sol_out = spec_withdraw_amount(
                pre.sol_reserve as int,
                lp_tokens as int,
                total_lp_supply as int,
            );
            let token_out = spec_withdraw_amount(
                pre.token_reserve as int,
                lp_tokens as int,
                total_lp_supply as int,
            );
            &&& ((sol_out < minimum_sol || token_out < minimum_token) ==> r == Err::<
                (u64, u64),
                TokenExchangeError,
            >(TokenExchangeError::SlippageExceeded))
            &&& (sol_out >= minimum_sol && token_out >= minimum_token && (sol_out
                > pre.sol_reserve || token_out > pre.token_reserve) ==> r == Err::<
                (u64, u64),
                TokenExchangeError,
            >(TokenExchangeError::MathOverflow))
            &&& (sol_out >= minimum_sol && token_out >= minimum_token && sol_out
                <= pre.sol_reserve && token_out <= pre.token_reserve ==> {
                &&& r == Ok::<(u64, u64), TokenExchangeError>((sol_out as u64, token_out as u64))
                &&& post.sol_reserve == pre.sol_reserve - sol_out
                &&& post.token_reserve == pre.token_reserve - token_out
                &&& post.authority == pre.authority
                &&& post.lp_mint == pre.lp_mint
                &&& post.token_mint == pre.token_mint
                &&& post.fee_rate == pre.fee_rate
                &&& post.initialized == pre.initialized
            })
        })
    })
}

/// The full outcome of pool initialization: a pool is created exactly once,
/// with a fee below 100%, and starts out holding the initial deposits.
pub open spec fn initialize_post(
    pre: PoolState,
    post: PoolState,
    r: Result<(), TokenExchangeError>,
    authority: Seq<u8>,
    lp_mint: Seq<u8>,
    token_mint: Seq<u8>,
    sol_amount: u64,
    token_amount: u64,
    fee_rate: u64,
) -> bool {
    &&& (r is Err ==> post == pre)
    &&& (pre.initialized ==> r == Err::<(), TokenExchangeError>(
        TokenExchangeError::PoolAlreadyInitialized,
    ))
    &&& (!pre.initialized && fee_rate >= 10000 ==> r == Err::<(), TokenExchangeError>(
        TokenExchangeError::InvalidFeeRate,
    ))
    &&& (!pre.initialized && fee_rate < 10000 ==> {
        &&& r == Ok::<(), TokenExchangeError>(())
        &&& post.authority@ == authority
        &&& post.sol_reserve == sol_amount
        &&& post.token_reserve == token_amount
        &&& post.lp_mint@ == lp_mint
        &&& post.fee_rate == fee_rate
        &&& post.token_mint@ == token_mint
        &&& post.initialized
    })
}

/// What a successfully dispatched request did, with the transfer amounts
/// the host must now execute atomically together with persisting the state.
#[derive(Clone, Copy, Debug, PartialEq, Eq, Structural)]
pub enum ExchangeEffect {
    /// A new pool was created; the host must move both initial deposits in.
    PoolInitialized,
    /// A swap completed; the host must move `amount_in` in and `amount_out`
    /// out, in the requested direction.
    Swapped {
        /// Amount of the output asset owed to the trader.
        amount_out: u64,
    },
    /// Liquidity was added; the host must move both deposits in and mint
    /// the LP tokens.
    LiquidityAdded {
        /// LP share tokens owed to the provider.
        lp_tokens_minted: u64,
    },
    /// Liquidity was removed; the host must burn the LP tokens and move
    /// both withdrawals out.
    LiquidityRemoved {
        /// SOL owed to the provider.
        sol_amount: u64,
        /// SPL tokens owed to the provider.
        token_amount: u64,
    },
}

/// Stateless processor for all token exchange operations.
pub struct Processor;

/// The full outcome of a swap: which error is returned on which inputs, and
/// how the new reserves relate to the old ones on success.
///
/// The input reserve grows by the full `amount_in` (the fee stays in the
/// pool) while the output reserve shrinks by exactly the computed output.
/// On any error the pool snapshot is unchanged.
pub open spec fn swap_post(
    pre: PoolState,
    post: PoolState,
    r: Result<u64, TokenExchangeError>,
    amount_in: u64,
    minimum_amount_out: u64,
    is_sol_input: bool,
) -> bool {
    let reserve_in: int = if is_sol_input {
        pre.sol_reserve as int
    } else {
        pre.token_reserve as int
    };
    let reserve_out: int = if is_sol_input {
        pre.token_reserve as int
    } else {
        pre.sol_reserve as int
    };
    let net = spec_net_input(amount_in as int, pre.fee_rate as int);
    let out = spec_output_amount(amount_in as int, reserve_in, reserve_out, pre.fee_rate as int);
    &&& (r is Err ==> post == pre)
    &&& (!pre.initialized ==> r == Err::<u64, TokenExchangeError>(
        TokenExchangeError::PoolNotInitialized,
    ))
    &&& (pre.initialized ==> {
        &&& (reserve_in + net == 0 ==> r == Err::<u64, TokenExchangeError>(
            TokenExchangeError::MathOverflow,
        ))
        &&& (reserve_in + net > 0 && out < minimum_amount_out ==> r == Err::<
            u64,
            TokenExchangeError,
        >(TokenExchangeError::SlippageExceeded))
        &&& (reserve_in + net > 0 && out >= minimum_amount_out && reserve_in + amount_in
            > u64::MAX ==> r == Err::<u64, TokenExchangeError>(TokenExchangeError::MathOverflow))
        &&& (reserve_in + net > 0 && out >= minimum_amount_out && reserve_in + amount_in
            <= u64::MAX ==> {
            &&& r == Ok::<u64, TokenExchangeError>(out as u64)
            &&& post.sol_reserve == (if is_sol_input {
                reserve_in + amount_in
            } else {
                reserve_out - out
            })
            &&& post.token_reserve == (if is_sol_input {
                reserve_out - out
            } else {
                reserve_in + amount_in
            })
            &&& post.authority == pre.authority
            &&& post.lp_mint == pre.lp_mint
            &&& post.token_mint == pre.token_mint
            &&& post.fee_rate == pre.fee_rate
            &&& post.initialized == pre.initialized
        })
    })
}

impl Processor {
    /// Computes the output amount of a swap by the constant-product formula
    /// with the fee taken on the input.
    ///
    /// The multiply-then-divide sequences run in 128-bit intermediates, so
    /// the only failure is a zero divisor (an empty input reserve and a net
    /// input that truncates to zero), reported as `MathOverflow`.
    pub fn calculate_output_amount(
        amount_in: u64,
        reserve_in: u64,
        reserve_out: u64,
        fee_rate: u64,
    ) -> (r: Result<u64, TokenExchangeError>)
        requires
            fee_rate < 10000,
        ensures
            ({
                let net = spec_net_input(amount_in as int, fee_rate as int);
                let out = spec_output_amount(
                    amount_in as int,
                    reserve_in as int,
                    reserve_out as int,
                    fee_rate as int,
                );
                &&& 0 <= net <= amount_in
                &&& (reserve_in + net == 0 ==> r == Err::<u64, TokenExchangeError>(
                    TokenExchangeError::MathOverflow,
                ))
                &&& (reserve_in + net > 0 ==> {
                    &&& 0 <= out <= reserve_out
                    &&& r == Ok::<u64, TokenExchangeError>(out as u64)
                })
            }),
    {
        let multiplier: u64 = FEE_DENOMINATOR - fee_rate;
        proof {
            assert((amount_in as int) * (multiplier as int) <= u128::MAX) by (nonlinear_arith)
                requires
                    0 <= amount_in <= u64::MAX,
                    0 <= multiplier <= 10000,
            ;
            assert((amount_in as int) * (multiplier as int) / 10000 <= amount_in)
                by (nonlinear_arith)
                requires
                    0 <= amount_in,
                    0 <= multiplier <= 10000,
            ;
            lemma_div_pos_is_pos((amount_in as int) * (multiplier as int), 10000);
            assert((amount_in as int) * (multiplier as int) >= 0) by (nonlinear_arith)
                requires
                    0 <= amount_in,
                    0 <= multiplier,
            ;
        }
        let net: u128 = (amount_in as u128) * (multiplier as u128) / 10000;
        let denominator: u128 = (reserve_in as u128) + net;
        if denominator == 0 {
            return Err(TokenExchangeError::MathOverflow);
        }
        proof {
            assert((reserve_out as int) * (net as int) <= u128::MAX) by (nonlinear_arith)
                requires
                    0 <= reserve_out <= u64::MAX,
                    0 <= net <= u64::MAX,
            ;
        }
        let numerator: u128 = (reserve_out as u128) * net;
        let out: u128 = numerator / denominator;
        proof {
            lemma_output_amount_bounds(
                reserve_in as int,
                reserve_out as int,
                net as int,
                out as int,
            );
        }
        Ok(out as u64)
    }

    /// Executes a swap on the pool snapshot.
    ///
    /// On success, returns the output amount; the input reserve has grown by
    /// the full `amount_in` and the output reserve has shrunk by the output
    /// amount.  The constant product `sol_reserve * token_reserve` never
    /// decreases across a successful swap (the fee stays in the pool).  On
    /// any error the snapshot is unchanged.
    pub fn swap(
        pool: &mut PoolState,
        amount_in: u64,
        minimum_amount_out: u64,
        is_sol_input: bool,
    ) -> (r: Result<u64, TokenExchangeError>)
        requires
            old(pool).wf(),
        ensures
            final(pool).wf(),
            swap_post(*old(pool), *final(pool), r, amount_in, minimum_amount_out, is_sol_input),
            r is Ok ==> final(pool).sol_reserve * final(pool).token_reserve >= old(
                pool,
            ).sol_reserve * old(pool).token_reserve,
    {
        if !pool.initialized {
            return Err(TokenExchangeError::PoolNotInitialized);
        }
        let reserve_in: u64 = if is_sol_input {
            pool.sol_reserve
        } else {
            pool.token_reserve
        };
        let reserve_out: u64 = if is_sol_input {
            pool.token_reserve
        } else {
            pool.sol_reserve
        };
        let amount_out: u64 = match Self::calculate_output_amount(
            amount_in,
            reserve_in,
            reserve_out,
            pool.fee_rate,
        ) {
            Ok(amount) => amount,
            Err(e) => {
                return Err(e);
            },
        };
        if amount_out < minimum_amount_out {
            return Err(TokenExchangeError::SlippageExceeded);
        }
        if reserve_in > u64::MAX - amount_in {
            return Err(TokenExchangeError::MathOverflow);
        }
        let new_reserve_in: u64 = reserve_in + amount_in;
        let new_reserve_out: u64 = reserve_out - amount_out;
        proof {
            lemma_swap_grows_product(
                reserve_in as int,
                reserve_out as int,
                amount_in as int,
                spec_net_input(amount_in as int, pool.fee_rate as int),
                amount_out as int,
            );
        }
        if is_sol_input {
            pool.sol_reserve = new_reserve_in;
            pool.token_reserve = new_reserve_out;
        } else {
            pool.token_reserve = new_reserve_in;
            pool.sol_reserve = new_reserve_out;
        }
        Ok(amount_out)
    }

    /// Adds liquidity to the pool.
    ///
    /// The first deposit into an empty pool mints the floor of the geometric
    /// mean of the two amounts; a subsequent deposit mints shares in
    /// proportion to the binding (scarcer) asset, at parts-per-million
    /// fixed-point scale.  The full requested deposit is always accepted on
    /// success; the caller bears any value lost to an unbalanced deposit.
    /// On any error the snapshot is unchanged.
    pub fn add_liquidity(
        pool: &mut PoolState,
        sol_amount: u64,
        token_amount: u64,
        minimum_lp_tokens: u64,
        total_lp_supply: u64,
    ) -> (r: Result<u64, TokenExchangeError>)
        requires
            old(pool).wf(),
        ensures
            final(pool).wf(),
            add_liquidity_post(
                *old(pool),
                *final(pool),
                r,
                sol_amount,
                token_amount,
                minimum_lp_tokens,
                total_lp_supply,
            ),
    {
        if !pool.initialized {
            return Err(TokenExchangeError::PoolNotInitialized);
        }
        let lp_tokens: u64 = if pool.sol_reserve == 0 {
            proof {
                lemma_mul_of_u64_fits_u128(sol_amount as int, token_amount as int);
            }
            let product: u128 = (sol_amount as u128) * (token_amount as u128);
            isqrt_u128(product)
        } else {
            if pool.token_reserve == 0 {
                return Err(TokenExchangeError::MathOverflow);
            }
            proof {
                lemma_mul_of_u64_fits_u128(sol_amount as int, RATIO_SCALE as int);
                lemma_mul_of_u64_fits_u128(token_amount as int, RATIO_SCALE as int);
            }
            let ratio_sol: u128 = (sol_amount as u128) * (RATIO_SCALE as u128) / (pool.sol_reserve
                as u128);
            let ratio_token: u128 = (token_amount as u128) * (RATIO_SCALE as u128)
                / (pool.token_reserve as u128);
            let min_ratio: u128 = if ratio_sol <= ratio_token {
                ratio_sol
            } else {
                ratio_token
            };
            let minted_wide: u128 = match min_ratio.checked_mul(total_lp_supply as u128) {
                Some(wide) => wide / 1000000,
                None => {
                    proof {
                        lemma_quotient_of_huge_exceeds_u64(
                            (min_ratio as int) * (total_lp_supply as int),
                        );
                    }
                    return Err(TokenExchangeError::MathOverflow);
                },
            };
            if minted_wide > u64::MAX as u128 {
                return Err(TokenExchangeError::MathOverflow);
            }
            minted_wide as u64
        };
        if lp_tokens < minimum_lp_tokens {
            return Err(TokenExchangeError::SlippageExceeded);
        }
        if pool.sol_reserve > u64::MAX - sol_amount {
            return Err(TokenExchangeError::MathOverflow);
        }
        if pool.token_reserve > u64::MAX - token_amount {
            return Err(TokenExchangeError::MathOverflow);
        }
        pool.sol_reserve = pool.sol_reserve + sol_amount;
        pool.token_reserve = pool.token_reserve + token_amount;
        Ok(lp_tokens)
    }

    /// Removes liquidity from the pool.
    ///
    /// Burning `lp_tokens` out of `total_lp_supply` outstanding shares
    /// releases the proportional share of each reserve, computed in a
    /// 128-bit intermediate and truncated.  On any error the snapshot is
    /// unchanged.
    pub fn remove_liquidity(
        pool: &mut PoolState,
        lp_tokens: u64,
        minimum_sol: u64,
        minimum_token: u64,
        total_lp_supply: u64,
    ) -> (r: Result<(u64, u64), TokenExchangeError>)
        requires
            old(pool).wf(),
        ensures
            final(pool).wf(),
            remove_liquidity_post(
                *old(pool),
                *final(pool),
                r,
                lp_tokens,
                minimum_sol,
                minimum_token,
                total_lp_supply,
            ),
    {
        if !pool.initialized {
            return Err(TokenExchangeError::PoolNotInitialized);
        }
        if total_lp_supply == 0 {
            return Err(TokenExchangeError::MathOverflow);
        }
        proof {
            lemma_mul_of_u64_fits_u128(pool.sol_reserve as int, lp_tokens as int);
            lemma_mul_of_u64_fits_u128(pool.token_reserve as int, lp_tokens as int);
        }
        let sol_wide: u128 = (pool.sol_reserve as u128) * (lp_tokens as u128) / (total_lp_supply
            as u128);
        let token_wide: u128 = (pool.token_reserve as u128) * (lp_tokens as u128)
            / (total_lp_supply as u128);
        if sol_wide < minimum_sol as u128 || token_wide < minimum_token as u128 {
            return Err(TokenExchangeError::SlippageExceeded);
        }
        if sol_wide > pool.sol_reserve as u128 || token_wide > pool.token_reserve as u128 {
            return Err(TokenExchangeError::MathOverflow);
        }
        let sol_amount: u64 = sol_wide as u64;
        let token_amount: u64 = token_wide as u64;
        pool.sol_reserve = pool.sol_reserve - sol_amount;
        pool.token_reserve = pool.token_reserve - token_amount;
        Ok((sol_amount, token_amount))
    }

    /// Creates and initializes a new liquidity pool.
    ///
    /// Fails with `PoolAlreadyInitialized` if the pool has already been
    /// created (a pool is created exactly once), and with `InvalidFeeRate`
    /// for a fee of 100% or more.  On success the pool carries the given
    /// identities, the initial reserves, and is permanently initialized.
    pub fn initialize_pool(
        pool: &mut PoolState,
        authority: Vec<u8>,
        lp_mint: Vec<u8>,
        token_mint: Vec<u8>,
        sol_amount: u64,
        token_amount: u64,
        fee_rate: u64,
    ) -> (r: Result<(), TokenExchangeError>)
        requires
            old(pool).wf(),
            authority@.len() == 32,
            lp_mint@.len() == 32,
            token_mint@.len() == 32,
        ensures
            final(pool).wf(),
            initialize_post(
                *old(pool),
                *final(pool),
                r,
                authority@,
                lp_mint@,
                token_mint@,
                sol_amount,
                token_amount,
                fee_rate,
            ),
    {
        if pool.initialized {
            return Err(TokenExchangeError::PoolAlreadyInitialized);
        }
        if fee_rate >= FEE_DENOMINATOR {
            return Err(TokenExchangeError::InvalidFeeRate);
        }
        *pool = PoolState {
            authority,
            sol_reserve: sol_amount,
            token_reserve: token_amount,
            lp_mint,
            fee_rate,
            token_mint,
            initialized: true,
        };
        Ok(())
    }

    /// Routes a decoded request to the engine that handles it.
    ///
    /// The identity arguments are used only by `InitializePool`, and
    /// `total_lp_supply` only by the liquidity operations; each engine's
    /// outcome carries over unchanged, with the successful result wrapped
    /// in the matching `ExchangeEffect`.
    pub fn process(
        pool: &mut PoolState,
        instruction: TokenExchangeInstruction,
        authority: Vec<u8>,
        lp_mint: Vec<u8>,
        token_mint: Vec<u8>,
        total_lp_supply: u64,
    ) -> (r: Result<ExchangeEffect, TokenExchangeError>)
        requires
            old(pool).wf(),
            authority@.len() == 32,
            lp_mint@.len() == 32,
            token_mint@.len() == 32,
        ensures
            final(pool).wf(),
            match instruction {
                TokenExchangeInstruction::InitializePool { sol_amount, token_amount, fee_rate } => {
                    &&& (r matches Ok(effect) ==> effect == ExchangeEffect::PoolInitialized
                        && initialize_post(
                        *old(pool),
                        *final(pool),
                        Ok(()),
                        authority@,
                        lp_mint@,
                        token_mint@,
                        sol_amount,
                        token_amount,
                        fee_rate,
                    ))
                    &&& (r matches Err(e) ==> initialize_post(
                        *old(pool),
                        *final(pool),
                        Err(e),
                        authority@,
                        lp_mint@,
                        token_mint@,
                        sol_amount,
                        token_amount,
                        fee_rate,
                    ))
                },
                TokenExchangeInstruction::Swap { amount_in, minimum_amount_out, is_sol_input } => {
                    &&& (r matches Ok(effect) ==> {
                        &&& effect matches ExchangeEffect::Swapped { amount_out }
                        &&& swap_post(
                            *old(pool),
                            *final(pool),
                            Ok(amount_out),
                            amount_in,
                            minimum_amount_out,
                            is_sol_input,
                        )
                    })
                    &&& (r matches Err(e) ==> swap_post(
                        *old(pool),
                        *final(pool),
                        Err(e),
                        amount_in,
                        minimum_amount_out,
                        is_sol_input,
                    ))
                },
                TokenExchangeInstruction::AddLiquidity {
                    sol_amount,
                    token_amount,
                    minimum_lp_tokens,
                } => {
                    &&& (r matches Ok(effect) ==> {
                        &&& effect matches ExchangeEffect::LiquidityAdded { lp_tokens_minted }
                        &&& add_liquidity_post(
                            *old(pool),
                            *final(pool),
                            Ok(lp_tokens_minted),
                            sol_amount,
                            token_amount,
                            minimum_lp_tokens,
                            total_lp_supply,
                        )
                    })
                    &&& (r matches Err(e) ==> add_liquidity_post(
                        *old(pool),
                        *final(pool),
                        Err(e),
                        sol_amount,
                        token_amount,
                        minimum_lp_tokens,
                        total_lp_supply,
                    ))
                },
                TokenExchangeInstruction::RemoveLiquidity {
                    lp_tokens,
                    minimum_sol,
                    minimum_token,
                } => {
                    &&& (r matches Ok(effect) ==> {
                        &&& effect matches ExchangeEffect::LiquidityRemoved {
                            sol_amount,
                            token_amount,
                        }
                        &&& remove_liquidity_post(
                            *old(pool),
                            *final(pool),
                            Ok((sol_amount, token_amount)),
                            lp_tokens,
                            minimum_sol,
                            minimum_token,
                            total_lp_supply,
                        )
                    })
                    &&& (r matches Err(e) ==> remove_liquidity_post(
                        *old(pool),
                        *final(pool),
                        Err(e),
                        lp_tokens,
                        minimum_sol,
                        minimum_token,
                        total_lp_supply,
                    ))
                },
            },
    {
        match instruction {
            TokenExchangeInstruction::InitializePool { sol_amount, token_amount, fee_rate } => {
                match Self::initialize_pool(
                    pool,
                    authority,
                    lp_mint,
                    token_mint,
                    sol_amount,
                    token_amount,
                    fee_rate,
                ) {
                    Ok(_) => Ok(ExchangeEffect::PoolInitialized),
                    Err(e) => Err(e),
                }
            },
            TokenExchangeInstruction::Swap { amount_in, minimum_amount_out, is_sol_input } => {
                match Self::swap(pool, amount_in, minimum_amount_out, is_sol_input) {
                    Ok(amount_out) => Ok(ExchangeEffect::Swapped { amount_out }),
                    Err(e) => Err(e),
                }
            },
            TokenExchangeInstruction::AddLiquidity {
                sol_amount,
                token_amount,
                minimum_lp_tokens,
            } => {
                match Self::add_liquidity(
                    pool,
                    sol_amount,
                    token_amount,
                    minimum_lp_tokens,
                    total_lp_supply,
                ) {
                    Ok(lp_tokens_minted) => Ok(
                        ExchangeEffect::LiquidityAdded { lp_tokens_minted },
                    ),
                    Err(e) => Err(e),
                }
            },
            TokenExchangeInstruction::RemoveLiquidity { lp_tokens, minimum_sol, minimum_token } => {
                match Self::remove_liquidity(
                    pool,
                    lp_tokens,
                    minimum_sol,
                    minimum_token,
                    total_lp_supply,
                ) {
                    Ok((sol_amount, token_amount)) => Ok(
                        ExchangeEffect::LiquidityRemoved { sol_amount, token_amount },
                    ),
                    Err(e) => Err(e),
                }
            },
        }
    }
}

/// Burning the entire outstanding share supply withdraws exactly the full
/// current reserve: `reserve * total / total == reserve`.
pub proof fn lemma_full_withdrawal(reserve: u64, total_lp_supply: u64)
    requires
        total_lp_supply > 0,
    ensures
        spec_withdraw_amount(reserve as int, total_lp_supply as int, total_lp_supply as int)
            == reserve,
{
    lemma_div_by_multiple(reserve as int, total_lp_supply as int);
}

/// The first-deposit share count always fits in 64 bits: the floor square
/// root of a product of two 64-bit values is itself a 64-bit value.
pub proof fn lemma_first_deposit_shares_fit(sol_amount: u64, token_amount: u64)
    ensures
        0 <= spec_first_deposit_shares(sol_amount as int, token_amount as int) <= u64::MAX,
{
    let product = (sol_amount as int) * (token_amount as int);
    lemma_mul_of_u64_fits_u128(sol_amount as int, token_amount as int);
    lemma_isqrt_bounds(product as nat);
    let root = spec_isqrt(product as nat);
    assert(root <= u64::MAX) by (nonlinear_arith)
        requires
            root * root <= product,
            product == (sol_amount as int) * (token_amount as int),
            sol_amount <= u64::MAX,
            token_amount <= u64::MAX,
            root >= 0,
    ;
}

/// Withdrawing against proportionally minted shares cannot claim more of an
/// asset than the deposit that minted them: the share count is bounded by
/// `min_ratio * total / scale` and the binding ratio is bounded by the
/// deposit, so truncation can only lose value to the pool.
proof fn lemma_proportional_no_gain(reserve: int, amount: int, min_ratio: int, total: int, m: int)
    requires
        reserve > 0,
        total > 0,
        amount >= 0,
        m >= 0,
        min_ratio >= 0,
        min_ratio * reserve <= amount * 1000000,
        m * 1000000 <= min_ratio * total,
    ensures
        spec_withdraw_amount(reserve + amount, m, total + m) <= amount,
{
    let d = total + m;
    assert(reserve * m <= amount * total) by (nonlinear_arith)
        requires
            min_ratio * reserve <= amount * 1000000,
            m * 1000000 <= min_ratio * total,
            reserve > 0,
            total > 0,
            amount >= 0,
            m >= 0,
            min_ratio >= 0,
    ;
    assert((reserve + amount) * m <= amount * d) by (nonlinear_arith)
        requires
            reserve * m <= amount * total,
            d == total + m,
            m >= 0,
            amount >= 0,
    ;
    lemma_div_is_ordered((reserve + amount) * m, amount * d, d);
    lemma_div_by_multiple(amount, d);
}

/// Adding liquidity and then burning exactly the shares minted, with no
/// intervening swap, returns at most the amounts that were deposited:
/// rounding always favors the pool, never the depositor.
///
/// The pool must be consistent: an empty pool has no outstanding shares,
/// and a funded pool holds both assets with shares outstanding.
pub proof fn lemma_add_then_remove_returns_no_more(
    sol_reserve: u64,
    token_reserve: u64,
    total_lp_supply: u64,
    sol_amount: u64,
    token_amount: u64,
)
    requires
        sol_reserve == 0 ==> token_reserve == 0 && total_lp_supply == 0,
        sol_reserve > 0 ==> token_reserve > 0 && total_lp_supply > 0,
    ensures
        ({
            let minted = if sol_reserve == 0 {
                spec_first_deposit_shares(sol_amount as int, token_amount as int)
            } else {
                spec_proportional_shares(
                    sol_reserve as int,
                    token_reserve as int,
                    sol_amount as int,
                    token_amount as int,
                    total_lp_supply as int,
                )
            };
            total_lp_supply + minted > 0 ==> {
                &&& spec_withdraw_amount(
                    sol_reserve + sol_amount,
                    minted,
                    total_lp_supply + minted,
                ) <= sol_amount
                &&& spec_withdraw_amount(
                    token_reserve + token_amount,
                    minted,
                    total_lp_supply + minted,
                ) <= token_amount
            }
        }),
{
    if sol_reserve == 0 {
        let minted = spec_first_deposit_shares(sol_amount as int, token_amount as int);
        if minted > 0 {
            lemma_div_by_multiple(sol_amount as int, minted);
            lemma_div_by_multiple(token_amount as int, minted);
        }
    } else {
        let scale: int = 1000000;
        let ratio_sol = (sol_amount as int) * scale / (sol_reserve as int);
        let ratio_token = (token_amount as int) * scale / (token_reserve as int);
        let min_ratio = if ratio_sol <= ratio_token {
            ratio_sol
        } else {
            ratio_token
        };
        let minted = min_ratio * (total_lp_supply as int) / scale;
        assert((sol_amount as int) * scale >= 0) by (nonlinear_arith)
            requires
                sol_amount >= 0,
                scale > 0,
        ;
        assert((token_amount as int) * scale >= 0) by (nonlinear_arith)
            requires
                token_amount >= 0,
                scale > 0,
        ;
        lemma_div_pos_is_pos((sol_amount as int) * scale, sol_reserve as int);
        lemma_div_pos_is_pos((token_amount as int) * scale, token_reserve as int);
        assert(min_ratio * (total_lp_supply as int) >= 0) by (nonlinear_arith)
            requires
                min_ratio >= 0,
                total_lp_supply >= 0,
        ;
        lemma_div_pos_is_pos(min_ratio * (total_lp_supply as int), scale);
        lemma_remainder((sol_amount as int) * scale, sol_reserve as int);
        lemma_remainder((token_amount as int) * scale, token_reserve as int);
        lemma_remainder(min_ratio * (total_lp_supply as int), scale);
        assert(min_ratio * (sol_reserve as int) <= (sol_amount as int) * scale)
            by (nonlinear_arith)
            requires
                min_ratio <= ratio_sol,
                0 <= (sol_amount as int) * scale - ratio_sol * (sol_reserve as int),
                sol_reserve > 0,
        ;
        assert(min_ratio * (token_reserve as int) <= (token_amount as int) * scale)
            by (nonlinear_arith)
            requires
                min_ratio <= ratio_token,
                0 <= (token_amount as int) * scale - ratio_token * (token_reserve as int),
                token_reserve > 0,
        ;
        assert(minted * scale <= min_ratio * (total_lp_supply as int)) by (nonlinear_arith)
            requires
                0 <= min_ratio * (total_lp_supply as int) - (min_ratio * (total_lp_supply as int)
                    / scale) * scale,
                minted == min_ratio * (total_lp_supply as int) / scale,
    ;
        lemma_proportional_no_gain(
            sol_reserve as int,
            sol_amount as int,
            min_ratio,
            total_lp_supply as int,
            minted,
        );
        lemma_proportional_no_gain(
            token_reserve as int,
            token_amount as int,
            min_ratio,
            total_lp_supply as int,
            minted,
        );
    }
}

/// Proportionally minted share counts are never negative.
proof fn lemma_proportional_shares_nonneg(
    sol_reserve: int,
    token_reserve: int,
    sol_amount: int,
    token_amount: int,
    total_lp_supply: int,
)
    requires
        sol_reserve > 0,
        token_reserve > 0,
        sol_amount >= 0,
        token_amount >= 0,
        total_lp_supply >= 0,
    ensures
        spec_proportional_shares(
            sol_reserve,
            token_reserve,
            sol_amount,
            token_amount,
            total_lp_supply,
        ) >= 0,
{
    let ratio_sol = sol_amount * 1000000 / sol_reserve;
    let ratio_token = token_amount * 1000000 / token_reserve;
    let min_ratio = if ratio_sol <= ratio_token {
        ratio_sol
    } else {
        ratio_token
    };
    assert(sol_amount * 1000000 >= 0) by (nonlinear_arith)
        requires
            sol_amount >= 0,
    ;
    assert(token_amount * 1000000 >= 0) by (nonlinear_arith)
        requires
            token_amount >= 0,
    ;
    lemma_div_pos_is_pos(sol_amount * 1000000, sol_reserve);
    lemma_div_pos_is_pos(token_amount * 1000000, token_reserve);
    assert(min_ratio * total_lp_supply >= 0) by (nonlinear_arith)
        requires
            min_ratio >= 0,
            total_lp_supply >= 0,
    ;
    lemma_div_pos_is_pos(min_ratio * total_lp_supply, 1000000);
}

/// An add-then-remove sequence with the same share count and no intervening
/// operation returns at most the amounts that were deposited.
///
/// The sequence is described by the two operations' own contracts: first a
/// successful `add_liquidity` that minted `minted` shares against a
/// consistent pool, then a successful `remove_liquidity` that burned those
/// same shares against the share supply the mint produced.
pub proof fn lemma_add_then_remove_sequence(
    p0: PoolState,
    p1: PoolState,
    p2: PoolState,
    sol_amount: u64,
    token_amount: u64,
    minimum_lp_tokens: u64,
    total_lp_supply: u64,
    minted: u64,
    minimum_sol: u64,
    minimum_token: u64,
    sol_back: u64,
    token_back: u64,
)
    requires
        p0.sol_reserve == 0 ==> p0.token_reserve == 0 && total_lp_supply == 0,
        p0.sol_reserve > 0 ==> p0.token_reserve > 0 && total_lp_supply > 0,
        total_lp_supply + minted <= u64::MAX,
        add_liquidity_post(
            p0,
            p1,
            Ok(minted),
            sol_amount,
            token_amount,
            minimum_lp_tokens,
            total_lp_supply,
        ),
        remove_liquidity_post(
            p1,
            p2,
            Ok((sol_back, token_back)),
            minted,
            minimum_sol,
            minimum_token,
            (total_lp_supply + minted) as u64,
        ),
    ensures
        sol_back <= sol_amount,
        token_back <= token_amount,
{
    lemma_add_then_remove_returns_no_more(
        p0.sol_reserve,
        p0.token_reserve,
        total_lp_supply,
        sol_amount,
        token_amount,
    );
    if p0.sol_reserve == 0 {
        lemma_first_deposit_shares_fit(sol_amount, token_amount);
    } else {
        lemma_proportional_shares_nonneg(
            p0.sol_reserve as int,
            p0.token_reserve as int,
            sol_amount as int,
            token_amount as int,
            total_lp_supply as int,
        );
    }
}

/// The product of two 64-bit values fits in 128 bits.
proof fn lemma_mul_of_u64_fits_u128(a: int, b: int)
    by (nonlinear_arith)
    requires
        0 <= a <= u64::MAX,
        0 <= b <= u64::MAX,
    ensures
        0 <= a * b <= u128::MAX,
{
}

/// A value too large for 128 bits still exceeds 64 bits after division by
/// the parts-per-million scale.
proof fn lemma_quotient_of_huge_exceeds_u64(x: int)
    requires
        x > u128::MAX,
    ensures
        x / 1000000 > u64::MAX,
{
    let k: int = 0x10000000000000000;
    lemma_div_by_multiple(k, 1000000);
    assert(k * 1000000 == 18446744073709551616000000) by (nonlinear_arith)
        requires
            k == 0x10000000000000000,
    ;
    lemma_div_is_ordered(k * 1000000, x, 1000000);
}

/// A successful swap never decreases the product of the reserves: the fee
/// and the truncation both favor the pool.
proof fn lemma_swap_grows_product(
    reserve_in: int,
    reserve_out: int,
    amount_in: int,
    net: int,
    out: int,
)
    requires
        0 <= net <= amount_in,
        0 <= reserve_in,
        0 <= reserve_out,
        reserve_in + net > 0,
        out == reserve_out * net / (reserve_in + net),
    ensures
        0 <= out <= reserve_out,
        (reserve_in + amount_in) * (reserve_out - out) >= reserve_in * reserve_out,
        (reserve_out - out) * (reserve_in + amount_in) >= reserve_out * reserve_in,
{
    lemma_output_amount_bounds(reserve_in, reserve_out, net, out);
    assert((reserve_in + amount_in) * (reserve_out - out) >= reserve_in * reserve_out)
        by (nonlinear_arith)
        requires
            out * (reserve_in + net) <= reserve_out * net,
            0 <= net <= amount_in,
            0 <= reserve_in,
            0 <= out <= reserve_out,
    ;
    assert((reserve_out - out) * (reserve_in + amount_in) == (reserve_in + amount_in) * (
    reserve_out - out)) by (nonlinear_arith);
    assert(reserve_out * reserve_in == reserve_in * reserve_out) by (nonlinear_arith);
}

/// The constant-product quotient is between 0 and the output reserve.
proof fn lemma_output_amount_bounds(reserve_in: int, reserve_out: int, net: int, out: int)
    requires
        0 <= reserve_in,
        0 <= reserve_out,
        0 <= net,
        reserve_in + net > 0,
        out == reserve_out * net / (reserve_in + net),
    ensures
        0 <= out <= reserve_out,
        out * (reserve_in + net) <= reserve_out * net,
{
    let d = reserve_in + net;
    let x = reserve_out * net;
    assert(x >= 0) by (nonlinear_arith)
        requires
            x == reserve_out * net,
            0 <= reserve_out,
            0 <= net,
    ;
    lemma_div_pos_is_pos(x, d);
    lemma_remainder(x, d);
    assert(out * d <= x) by (nonlinear_arith)
        requires
            out == x / d,
            0 <= x - (x / d * d),
    ;
    assert(out <= reserve_out) by (nonlinear_arith)
        requires
            out * d <= reserve_out * net,
            net <= d,
            0 < d,
            0 <= reserve_out,
            0 <= out,
    ;
}

} // verus!
