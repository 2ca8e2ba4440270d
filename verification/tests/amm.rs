use amm_engine::curve::swap_output;
use amm_engine::layout::{decode_pool, encode_pool, POOL_STATE_LEN};
use amm_engine::engine::{execute_swap, initialize_pool};
use amm_engine::error::SwapError;
use amm_engine::fees::FeeSchedule;
use amm_engine::pool::{PoolState, SwapDirection, SwapRequest};

fn no_fees() -> FeeSchedule {
    FeeSchedule {
        trade_fee_numerator: 0,
        trade_fee_denominator: 0,
        owner_trade_fee_numerator: 0,
        owner_trade_fee_denominator: 0,
        owner_withdraw_fee_numerator: 0,
        owner_withdraw_fee_denominator: 0,
        host_fee_numerator: 0,
        host_fee_denominator: 0,
    }
}

fn trade_fee_only(numerator: u64, denominator: u64) -> FeeSchedule {
    FeeSchedule { trade_fee_numerator: numerator, trade_fee_denominator: denominator, ..no_fees() }
}

fn fresh_pool(reserve_x: u64, reserve_y: u64, fee_schedule: FeeSchedule) -> PoolState {
    let mut pool = PoolState::new();
    initialize_pool(&mut pool, 7, 8, reserve_x, reserve_y, 0, fee_schedule).unwrap();
    pool
}

#[test]
fn swap_without_fees_matches_example() {
    let mut pool = fresh_pool(1_000_000, 1_000_000, trade_fee_only(0, 10000));
    let res = pool
        .apply_swap(SwapRequest { direction: SwapDirection::XToY, amount_in: 1000 })
        .unwrap();
    assert_eq!(res.amount_out, 999);
    assert_eq!(res.fees.trade_fee, 0);
    assert_eq!(res.fees.net_amount, 1000);
    assert_eq!(pool.reserve_x, 1_001_000);
    assert_eq!(pool.reserve_y, 999_001);
}

#[test]
fn swap_with_trade_fee_matches_example() {
    let mut pool = fresh_pool(1_000_000, 1_000_000, trade_fee_only(30, 10000));
    let res = pool
        .apply_swap(SwapRequest { direction: SwapDirection::XToY, amount_in: 1000 })
        .unwrap();
    assert_eq!(res.fees.trade_fee, 3);
    assert_eq!(res.fees.net_amount, 997);
    assert_eq!(res.amount_out, 996);
    assert_eq!(pool.reserve_x, 1_000_997);
    assert_eq!(pool.reserve_y, 999_004);
}

#[test]
fn swap_in_opposite_direction_uses_swapped_reserves() {
    let mut pool = fresh_pool(2_000_000, 1_000_000, no_fees());
    let res = pool
        .apply_swap(SwapRequest { direction: SwapDirection::YToX, amount_in: 1000 })
        .unwrap();
    // 2_000_000 * 1000 / 1_001_000 == 1998
    assert_eq!(res.amount_out, 1998);
    assert_eq!(pool.reserve_x, 1_998_002);
    assert_eq!(pool.reserve_y, 1_001_000);
}

#[test]
fn product_never_shrinks_across_a_swap() {
    let mut pool = fresh_pool(1_000_000, 3_333_337, trade_fee_only(30, 10000));
    let before = pool.reserve_x as u128 * pool.reserve_y as u128;
    pool.apply_swap(SwapRequest { direction: SwapDirection::XToY, amount_in: 54_321 })
        .unwrap();
    let after = pool.reserve_x as u128 * pool.reserve_y as u128;
    assert!(after >= before);
}

#[test]
fn round_trip_never_gains() {
    let mut pool = fresh_pool(1_000_000, 1_000_000, trade_fee_only(30, 10000));
    let out = pool
        .apply_swap(SwapRequest { direction: SwapDirection::XToY, amount_in: 1000 })
        .unwrap()
        .amount_out;
    let back = pool
        .apply_swap(SwapRequest { direction: SwapDirection::YToX, amount_in: out })
        .unwrap()
        .amount_out;
    assert_eq!(back, 994);
    assert!(back <= 1000);
}

#[test]
fn zero_amount_swap_fails_and_leaves_reserves_unchanged() {
    let mut pool = fresh_pool(1_000_000, 1_000_000, no_fees());
    let before = pool;
    let r = pool.apply_swap(SwapRequest { direction: SwapDirection::XToY, amount_in: 0 });
    assert_eq!(r, Err(SwapError::ZeroAmount));
    assert_eq!(pool, before);
}

#[test]
fn swap_on_uninitialized_pool_fails() {
    let mut pool = PoolState::new();
    let r = pool.apply_swap(SwapRequest { direction: SwapDirection::XToY, amount_in: 5 });
    assert_eq!(r, Err(SwapError::PoolUninitialized));
    // An uninitialized pool is reported before the amount is looked at.
    let r0 = pool.apply_swap(SwapRequest { direction: SwapDirection::XToY, amount_in: 0 });
    assert_eq!(r0, Err(SwapError::PoolUninitialized));
}

#[test]
fn round_trip_can_break_even_without_fees() {
    let mut pool = fresh_pool(1, 2, no_fees());
    let out = pool
        .apply_swap(SwapRequest { direction: SwapDirection::XToY, amount_in: 1 })
        .unwrap()
        .amount_out;
    assert_eq!(out, 1);
    let back = pool
        .apply_swap(SwapRequest { direction: SwapDirection::YToX, amount_in: out })
        .unwrap()
        .amount_out;
    // Exactly the original amount comes back: the bound is tight.
    assert_eq!(back, 1);
}

#[test]
fn initializing_twice_fails() {
    let mut pool = fresh_pool(10, 10, no_fees());
    let before = pool;
    let r = initialize_pool(&mut pool, 7, 8, 20, 20, 0, no_fees());
    assert_eq!(r, Err(SwapError::AlreadyInitialized));
    assert_eq!(pool, before);
}

#[test]
fn initializing_with_an_empty_reserve_fails() {
    let mut pool = PoolState::new();
    let r = initialize_pool(&mut pool, 7, 8, 0, 10, 0, no_fees());
    assert_eq!(r, Err(SwapError::InsufficientLiquidity));
    assert!(!pool.initialized);
}

#[test]
fn initializing_with_an_invalid_fee_rate_fails() {
    let mut pool = PoolState::new();
    let r = initialize_pool(&mut pool, 7, 8, 10, 10, 0, trade_fee_only(2, 1));
    assert_eq!(r, Err(SwapError::InvalidFeeRate));
    assert!(!pool.initialized);
}

#[test]
fn numerator_with_zero_denominator_is_an_invalid_rate() {
    let r = trade_fee_only(5, 0).compute_fees(100);
    assert_eq!(r, Err(SwapError::InvalidFeeRate));
}

#[test]
fn empty_reserve_is_insufficient_liquidity() {
    assert_eq!(swap_output(10, 0, 100), Err(SwapError::InsufficientLiquidity));
    assert_eq!(swap_output(10, 100, 0), Err(SwapError::InsufficientLiquidity));
}

#[test]
fn output_stays_below_the_output_reserve() {
    // However large the input, the pool is never drained.
    let out = swap_output(u64::MAX, 1, 1_000_000).unwrap();
    assert_eq!(out, 999_999);
}

#[test]
fn slippage_guard_fails_and_leaves_reserves_unchanged() {
    let mut pool = fresh_pool(1_000_000, 1_000_000, no_fees());
    let before = pool;
    let r = execute_swap(&mut pool, SwapDirection::XToY, 1000, 1000);
    assert_eq!(r, Err(SwapError::SlippageExceeded));
    assert_eq!(pool, before);
    let ok = execute_swap(&mut pool, SwapDirection::XToY, 1000, 999);
    assert_eq!(ok.unwrap().amount_out, 999);
    assert_eq!(pool.reserve_x, 1_001_000);
}

#[test]
fn fees_that_would_exceed_the_amount_fail() {
    let schedule = FeeSchedule {
        trade_fee_numerator: 9999,
        trade_fee_denominator: 10000,
        owner_trade_fee_numerator: 9999,
        owner_trade_fee_denominator: 10000,
        ..no_fees()
    };
    // Each fee floors to 9, together 18 > 10.
    assert_eq!(schedule.compute_fees(10), Err(SwapError::ArithmeticOverflow));
    let mut pool = fresh_pool(1_000, 1_000, schedule);
    let r = pool.apply_swap(SwapRequest { direction: SwapDirection::XToY, amount_in: 10 });
    assert_eq!(r, Err(SwapError::ArithmeticOverflow));
}

#[test]
fn reserve_overflow_fails_and_leaves_reserves_unchanged() {
    let mut pool = fresh_pool(u64::MAX, 1_000_000, no_fees());
    let before = pool;
    let r = pool.apply_swap(SwapRequest { direction: SwapDirection::XToY, amount_in: 5 });
    assert_eq!(r, Err(SwapError::ArithmeticOverflow));
    assert_eq!(pool, before);
}

#[test]
fn fee_breakdown_is_exact() {
    let schedule = FeeSchedule {
        trade_fee_numerator: 50,
        trade_fee_denominator: 100,
        owner_trade_fee_numerator: 5,
        owner_trade_fee_denominator: 10000,
        owner_withdraw_fee_numerator: 0,
        owner_withdraw_fee_denominator: 0,
        host_fee_numerator: 20,
        host_fee_denominator: 100,
    };
    let b = schedule.compute_fees(10_000).unwrap();
    assert_eq!(b.trade_fee, 5_000);
    assert_eq!(b.owner_fee, 5);
    // The host fee is a fifth of the trade fee, not of the raw amount.
    assert_eq!(b.host_fee, 1_000);
    assert_eq!(b.net_amount, 4_995);
    assert!(b.trade_fee + b.owner_fee <= 10_000);
}

#[test]
fn fee_breakdown_with_owner_and_host_rates_only() {
    let schedule = FeeSchedule {
        trade_fee_numerator: 0,
        trade_fee_denominator: 10000,
        owner_trade_fee_numerator: 5,
        owner_trade_fee_denominator: 10000,
        owner_withdraw_fee_numerator: 0,
        owner_withdraw_fee_denominator: 0,
        host_fee_numerator: 20,
        host_fee_denominator: 100,
    };
    let b = schedule.compute_fees(10_000).unwrap();
    assert_eq!(b.trade_fee, 0);
    assert_eq!(b.owner_fee, 5);
    assert_eq!(b.host_fee, 0);
    assert_eq!(b.net_amount, 9_995);
}

#[test]
fn disabled_schedule_charges_nothing() {
    let b = FeeSchedule::disabled().compute_fees(12_345).unwrap();
    assert_eq!(b.trade_fee, 0);
    assert_eq!(b.owner_fee, 0);
    assert_eq!(b.host_fee, 0);
    assert_eq!(b.net_amount, 12_345);
}

#[test]
fn pool_record_round_trips() {
    let schedule = FeeSchedule {
        trade_fee_numerator: 30,
        trade_fee_denominator: 10000,
        owner_trade_fee_numerator: 5,
        owner_trade_fee_denominator: 10000,
        owner_withdraw_fee_numerator: 0,
        owner_withdraw_fee_denominator: 0,
        host_fee_numerator: 20,
        host_fee_denominator: 100,
    };
    let pool = fresh_pool(1_000_000, 2_000_000, schedule);
    let bytes = encode_pool(&pool);
    assert_eq!(bytes.len(), POOL_STATE_LEN);
    assert_eq!(decode_pool(&bytes), Some(pool));

    let empty_slot = PoolState::new();
    assert_eq!(decode_pool(&encode_pool(&empty_slot)), Some(empty_slot));
}

#[test]
fn decoding_an_invalid_record_fails() {
    let pool = fresh_pool(10, 10, no_fees());
    let mut bytes = encode_pool(&pool);
    assert_eq!(decode_pool(&bytes[1..]), None);

    bytes[0] = 2;
    assert_eq!(decode_pool(&bytes), None);
    bytes[0] = 1;

    bytes[POOL_STATE_LEN - 1] = 7;
    assert_eq!(decode_pool(&bytes), None);
}

#[test]
fn every_error_has_a_message() {
    let errors = vec![
        SwapError::InvalidFeeRate,
        SwapError::InsufficientLiquidity,
        SwapError::ZeroAmount,
        SwapError::PoolUninitialized,
        SwapError::AlreadyInitialized,
        SwapError::SlippageExceeded,
        SwapError::ArithmeticOverflow,
    ];
    for e in errors {
        assert!(!e.message().is_empty());
    }
}
