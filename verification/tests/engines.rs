//! End-to-end tests of the four engines on concrete pools.

use token_exchange::error::TokenExchangeError;
use token_exchange::processor::Processor;
use token_exchange::state::PoolState;

fn id(byte: u8) -> Vec<u8> {
    vec![byte; 32]
}

/// A freshly initialized pool with the given reserves and fee.
fn pool_with(sol_reserve: u64, token_reserve: u64, fee_rate: u64) -> PoolState {
    let mut pool = PoolState::default();
    let r = Processor::initialize_pool(
        &mut pool,
        id(1),
        id(2),
        id(3),
        sol_reserve,
        token_reserve,
        fee_rate,
    );
    assert_eq!(r, Ok(()));
    pool
}

#[test]
fn initialize_sets_every_field() {
    let pool = pool_with(5, 7, 30);
    assert_eq!(pool.authority, id(1));
    assert_eq!(pool.lp_mint, id(2));
    assert_eq!(pool.token_mint, id(3));
    assert_eq!(pool.sol_reserve, 5);
    assert_eq!(pool.token_reserve, 7);
    assert_eq!(pool.fee_rate, 30);
    assert!(pool.initialized);
}

#[test]
fn initialize_twice_fails() {
    let mut pool = pool_with(5, 7, 30);
    let before = pool.clone();
    let r = Processor::initialize_pool(&mut pool, id(9), id(9), id(9), 1, 1, 1);
    assert_eq!(r, Err(TokenExchangeError::PoolAlreadyInitialized));
    assert_eq!(pool, before);
}

#[test]
fn initialize_rejects_fee_of_100_percent() {
    let mut pool = PoolState::default();
    let r = Processor::initialize_pool(&mut pool, id(1), id(2), id(3), 5, 7, 10000);
    assert_eq!(r, Err(TokenExchangeError::InvalidFeeRate));
    assert!(!pool.initialized);
}

#[test]
fn swap_requires_initialized_pool() {
    let mut pool = PoolState::default();
    let r = Processor::swap(&mut pool, 100, 0, true);
    assert_eq!(r, Err(TokenExchangeError::PoolNotInitialized));
}

#[test]
fn swap_determinism_reference_values() {
    // reserve_in = 1000, reserve_out = 1000, fee = 30 bps, amount_in = 100:
    // net = 100 * 9970 / 10000 = 99, out = 1000 * 99 / 1099 = 90.
    assert_eq!(
        Processor::calculate_output_amount(100, 1000, 1000, 30),
        Ok(90)
    );
    let mut pool = pool_with(1000, 1000, 30);
    let r = Processor::swap(&mut pool, 100, 0, true);
    assert_eq!(r, Ok(90));
    assert_eq!(pool.sol_reserve, 1100);
    assert_eq!(pool.token_reserve, 910);
}

#[test]
fn swap_token_to_sol_mirrors_direction() {
    let mut pool = pool_with(1000, 1000, 30);
    let r = Processor::swap(&mut pool, 100, 0, false);
    assert_eq!(r, Ok(90));
    assert_eq!(pool.token_reserve, 1100);
    assert_eq!(pool.sol_reserve, 910);
}

#[test]
fn swap_slippage_failure_leaves_pool_unchanged() {
    let mut pool = pool_with(1000, 1000, 30);
    let before = pool.clone();
    let r = Processor::swap(&mut pool, 100, 91, true);
    assert_eq!(r, Err(TokenExchangeError::SlippageExceeded));
    assert_eq!(pool, before);
}

#[test]
fn swap_grows_constant_product() {
    let mut pool = pool_with(1000, 1000, 30);
    let before = (pool.sol_reserve as u128) * (pool.token_reserve as u128);
    Processor::swap(&mut pool, 100, 0, true).unwrap();
    let after = (pool.sol_reserve as u128) * (pool.token_reserve as u128);
    assert!(after >= before);

    let mut pool = pool_with(123456, 7890123, 0);
    let before = (pool.sol_reserve as u128) * (pool.token_reserve as u128);
    Processor::swap(&mut pool, 999, 0, false).unwrap();
    let after = (pool.sol_reserve as u128) * (pool.token_reserve as u128);
    assert!(after >= before);
}

#[test]
fn swap_wide_intermediate_computes_exactly() {
    // reserve_out * net = 2^63 * 2^32 = 2^95 exceeds 64 bits but the result
    // is exact: 2^95 / (2^32 + 2^32) = 2^62.
    let r = Processor::calculate_output_amount(1 << 32, 1 << 32, 1 << 63, 0);
    assert_eq!(r, Ok(1 << 62));
}

#[test]
fn swap_at_reserve_limit_fails_with_math_overflow() {
    let mut pool = pool_with(u64::MAX, u64::MAX, 30);
    let before = pool.clone();
    // The output amount itself is fine, but the new input reserve would
    // exceed the 64-bit range.
    let r = Processor::swap(&mut pool, 1, 0, true);
    assert_eq!(r, Err(TokenExchangeError::MathOverflow));
    assert_eq!(pool, before);
}

#[test]
fn swap_on_empty_pool_with_zero_net_input_fails() {
    let mut pool = pool_with(0, 1000, 30);
    // net input truncates to 0 and the input reserve is 0: zero divisor.
    let r = Processor::swap(&mut pool, 0, 0, true);
    assert_eq!(r, Err(TokenExchangeError::MathOverflow));
}

#[test]
fn first_deposit_mints_geometric_mean() {
    let mut pool = pool_with(0, 0, 30);
    let r = Processor::add_liquidity(&mut pool, 100, 400, 0, 0);
    assert_eq!(r, Ok(200));
    assert_eq!(pool.sol_reserve, 100);
    assert_eq!(pool.token_reserve, 400);
}

#[test]
fn first_deposit_truncates_geometric_mean() {
    let mut pool = pool_with(0, 0, 30);
    // sqrt(2 * 3) = 2.449..., truncated to 2.
    let r = Processor::add_liquidity(&mut pool, 2, 3, 0, 0);
    assert_eq!(r, Ok(2));
}

#[test]
fn add_liquidity_requires_initialized_pool() {
    let mut pool = PoolState::default();
    let r = Processor::add_liquidity(&mut pool, 100, 400, 0, 0);
    assert_eq!(r, Err(TokenExchangeError::PoolNotInitialized));
}

#[test]
fn proportional_deposit_uses_binding_ratio() {
    let mut pool = pool_with(1000, 4000, 30);
    // ratios: sol 100/1000 = 10%, token 200/4000 = 5%; the token side binds:
    // min_ratio = 50000 ppm, minted = 50000 * 500 / 1000000 = 25.
    let r = Processor::add_liquidity(&mut pool, 100, 200, 0, 500);
    assert_eq!(r, Ok(25));
    assert_eq!(pool.sol_reserve, 1100);
    assert_eq!(pool.token_reserve, 4200);
}

#[test]
fn add_liquidity_slippage_failure_leaves_pool_unchanged() {
    let mut pool = pool_with(1000, 4000, 30);
    let before = pool.clone();
    let r = Processor::add_liquidity(&mut pool, 100, 200, 26, 500);
    assert_eq!(r, Err(TokenExchangeError::SlippageExceeded));
    assert_eq!(pool, before);
}

#[test]
fn add_liquidity_with_empty_token_reserve_fails() {
    let mut pool = pool_with(1000, 0, 30);
    // The token ratio would divide by zero.
    let r = Processor::add_liquidity(&mut pool, 100, 200, 0, 500);
    assert_eq!(r, Err(TokenExchangeError::MathOverflow));
}

#[test]
fn add_liquidity_share_count_overflow_fails() {
    let mut pool = pool_with(1, 1, 30);
    // Both ratios are u64::MAX * 10^6 ppm; minted would be near u64::MAX^2.
    let r = Processor::add_liquidity(&mut pool, u64::MAX, u64::MAX, 0, u64::MAX);
    assert_eq!(r, Err(TokenExchangeError::MathOverflow));
}

#[test]
fn first_deposit_slippage_failure_leaves_pool_unchanged() {
    let mut pool = pool_with(0, 0, 30);
    let before = pool.clone();
    let r = Processor::add_liquidity(&mut pool, 100, 400, 201, 0);
    assert_eq!(r, Err(TokenExchangeError::SlippageExceeded));
    assert_eq!(pool, before);
}

#[test]
fn add_liquidity_minted_beyond_u64_fails() {
    let mut pool = pool_with(1, 1, 30);
    // Both ratios are 10^7 ppm; minted would be ten times the maximal
    // supply, which no longer fits in 64 bits even though the 128-bit
    // intermediate product does.
    let r = Processor::add_liquidity(&mut pool, 10, 10, 0, u64::MAX);
    assert_eq!(r, Err(TokenExchangeError::MathOverflow));
}

#[test]
fn add_liquidity_reserve_overflow_fails() {
    let mut pool = pool_with(u64::MAX - 10, 1000, 30);
    let before = pool.clone();
    // minted truncates to 0 which passes the zero minimum, then the SOL
    // reserve would overflow.
    let r = Processor::add_liquidity(&mut pool, 100, 1, 0, 1000);
    assert_eq!(r, Err(TokenExchangeError::MathOverflow));
    assert_eq!(pool, before);
}

#[test]
fn remove_liquidity_requires_initialized_pool() {
    let mut pool = PoolState::default();
    let r = Processor::remove_liquidity(&mut pool, 10, 0, 0, 10);
    assert_eq!(r, Err(TokenExchangeError::PoolNotInitialized));
}

#[test]
fn remove_liquidity_with_zero_supply_fails() {
    let mut pool = pool_with(500, 700, 30);
    let r = Processor::remove_liquidity(&mut pool, 10, 0, 0, 0);
    assert_eq!(r, Err(TokenExchangeError::MathOverflow));
}

#[test]
fn full_withdrawal_returns_entire_reserves() {
    let mut pool = pool_with(500, 700, 30);
    let r = Processor::remove_liquidity(&mut pool, 10, 0, 0, 10);
    assert_eq!(r, Ok((500, 700)));
    assert_eq!(pool.sol_reserve, 0);
    assert_eq!(pool.token_reserve, 0);
}

#[test]
fn partial_withdrawal_truncates_toward_pool() {
    let mut pool = pool_with(1000, 999, 30);
    // 1000 * 3 / 7 = 428.57 -> 428; 999 * 3 / 7 = 428.14 -> 428.
    let r = Processor::remove_liquidity(&mut pool, 3, 0, 0, 7);
    assert_eq!(r, Ok((428, 428)));
    assert_eq!(pool.sol_reserve, 572);
    assert_eq!(pool.token_reserve, 571);
}

#[test]
fn remove_liquidity_slippage_failure_leaves_pool_unchanged() {
    let mut pool = pool_with(500, 700, 30);
    let before = pool.clone();
    let r = Processor::remove_liquidity(&mut pool, 5, 251, 0, 10);
    assert_eq!(r, Err(TokenExchangeError::SlippageExceeded));
    assert_eq!(pool, before);

    let r = Processor::remove_liquidity(&mut pool, 5, 0, 351, 10);
    assert_eq!(r, Err(TokenExchangeError::SlippageExceeded));
    assert_eq!(pool, before);
}

#[test]
fn remove_liquidity_with_inconsistent_supply_fails() {
    let mut pool = pool_with(500, 700, 30);
    let before = pool.clone();
    // Burning more shares than the supply would drain more than the pool
    // holds: the checked subtraction reports the inconsistency.
    let r = Processor::remove_liquidity(&mut pool, 20, 0, 0, 10);
    assert_eq!(r, Err(TokenExchangeError::MathOverflow));
    assert_eq!(pool, before);
}

#[test]
fn remove_liquidity_wide_intermediate_computes_exactly() {
    // reserve * lp_tokens = 2^63 * 2^32 exceeds 64 bits; the proportional
    // amount is still exact: 2^63 * 2^32 / 2^33 = 2^62.
    let mut pool = pool_with(1 << 63, 1 << 63, 30);
    let r = Processor::remove_liquidity(&mut pool, 1 << 32, 0, 0, 1 << 33);
    assert_eq!(r, Ok((1 << 62, 1 << 62)));
}

#[test]
fn add_then_remove_returns_no_more_than_deposited() {
    // First deposit.
    let mut pool = pool_with(0, 0, 30);
    let minted = Processor::add_liquidity(&mut pool, 100, 400, 0, 0).unwrap();
    let (sol_back, token_back) = Processor::remove_liquidity(&mut pool, minted, 0, 0, minted)
        .unwrap();
    assert!(sol_back <= 100);
    assert!(token_back <= 400);

    // Subsequent deposit against existing reserves and supply.
    let mut pool = pool_with(1000, 999, 30);
    let supply = 777u64;
    let minted = Processor::add_liquidity(&mut pool, 101, 307, 0, supply).unwrap();
    let (sol_back, token_back) =
        Processor::remove_liquidity(&mut pool, minted, 0, 0, supply + minted).unwrap();
    assert!(sol_back <= 101);
    assert!(token_back <= 307);
}
