//! Tests of the dispatcher, the error codes, and the square-root helper.

use token_exchange::error::TokenExchangeError;
use token_exchange::instruction::TokenExchangeInstruction;
use token_exchange::math::isqrt_u128;
use token_exchange::processor::{ExchangeEffect, Processor};
use token_exchange::state::PoolState;

fn id(byte: u8) -> Vec<u8> {
    vec![byte; 32]
}

#[test]
fn dispatch_initialize_pool() {
    let mut pool = PoolState::default();
    let r = Processor::process(
        &mut pool,
        TokenExchangeInstruction::InitializePool {
            sol_amount: 1000,
            token_amount: 1000,
            fee_rate: 30,
        },
        id(1),
        id(2),
        id(3),
        0,
    );
    assert_eq!(r, Ok(ExchangeEffect::PoolInitialized));
    assert!(pool.initialized);
    assert_eq!(pool.sol_reserve, 1000);
}

#[test]
fn dispatch_swap() {
    let mut pool = PoolState::default();
    Processor::initialize_pool(&mut pool, id(1), id(2), id(3), 1000, 1000, 30).unwrap();
    let r = Processor::process(
        &mut pool,
        TokenExchangeInstruction::Swap {
            amount_in: 100,
            minimum_amount_out: 0,
            is_sol_input: true,
        },
        id(1),
        id(2),
        id(3),
        0,
    );
    assert_eq!(r, Ok(ExchangeEffect::Swapped { amount_out: 90 }));
}

#[test]
fn dispatch_add_liquidity() {
    let mut pool = PoolState::default();
    Processor::initialize_pool(&mut pool, id(1), id(2), id(3), 0, 0, 30).unwrap();
    let r = Processor::process(
        &mut pool,
        TokenExchangeInstruction::AddLiquidity {
            sol_amount: 100,
            token_amount: 400,
            minimum_lp_tokens: 0,
        },
        id(1),
        id(2),
        id(3),
        0,
    );
    assert_eq!(
        r,
        Ok(ExchangeEffect::LiquidityAdded {
            lp_tokens_minted: 200
        })
    );
}

#[test]
fn dispatch_remove_liquidity() {
    let mut pool = PoolState::default();
    Processor::initialize_pool(&mut pool, id(1), id(2), id(3), 500, 700, 30).unwrap();
    let r = Processor::process(
        &mut pool,
        TokenExchangeInstruction::RemoveLiquidity {
            lp_tokens: 10,
            minimum_sol: 0,
            minimum_token: 0,
        },
        id(1),
        id(2),
        id(3),
        10,
    );
    assert_eq!(
        r,
        Ok(ExchangeEffect::LiquidityRemoved {
            sol_amount: 500,
            token_amount: 700,
        })
    );
    assert_eq!(pool.sol_reserve, 0);
    assert_eq!(pool.token_reserve, 0);
}

#[test]
fn dispatch_surfaces_engine_errors_verbatim() {
    let mut pool = PoolState::default();
    let r = Processor::process(
        &mut pool,
        TokenExchangeInstruction::Swap {
            amount_in: 100,
            minimum_amount_out: 0,
            is_sol_input: true,
        },
        id(1),
        id(2),
        id(3),
        0,
    );
    assert_eq!(r, Err(TokenExchangeError::PoolNotInitialized));
}

#[test]
fn error_codes_follow_declaration_order() {
    assert_eq!(TokenExchangeError::InvalidInstruction.code(), 0);
    assert_eq!(TokenExchangeError::PoolAlreadyInitialized.code(), 1);
    assert_eq!(TokenExchangeError::PoolNotInitialized.code(), 2);
    assert_eq!(TokenExchangeError::InvalidPoolAuthority.code(), 3);
    assert_eq!(TokenExchangeError::InvalidTokenMint.code(), 4);
    assert_eq!(TokenExchangeError::InsufficientLiquidity.code(), 5);
    assert_eq!(TokenExchangeError::SlippageExceeded.code(), 6);
    assert_eq!(TokenExchangeError::InvalidFeeRate.code(), 7);
    assert_eq!(TokenExchangeError::MathOverflow.code(), 8);
    assert_eq!(TokenExchangeError::InvalidUserPosition.code(), 9);
}

#[test]
fn isqrt_small_values() {
    assert_eq!(isqrt_u128(0), 0);
    assert_eq!(isqrt_u128(1), 1);
    assert_eq!(isqrt_u128(2), 1);
    assert_eq!(isqrt_u128(3), 1);
    assert_eq!(isqrt_u128(4), 2);
    assert_eq!(isqrt_u128(8), 2);
    assert_eq!(isqrt_u128(9), 3);
    assert_eq!(isqrt_u128(40000), 200);
}

#[test]
fn isqrt_large_values() {
    assert_eq!(isqrt_u128(u128::from(u64::MAX) * u128::from(u64::MAX)), u64::MAX);
    assert_eq!(isqrt_u128(u128::MAX), u64::MAX);
    assert_eq!(isqrt_u128((1u128 << 64) - 1), (1u64 << 32) - 1);
    assert_eq!(isqrt_u128(1u128 << 64), 1u64 << 32);
}
