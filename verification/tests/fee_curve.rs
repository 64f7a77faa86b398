use liquidity_pool::arith::mul_div;
use liquidity_pool::{LpPool, Percentage, PoolError, Price, StakedTokenAmount, TokenAmount};

fn pool_with(target: u64, held: u64) -> LpPool {
    let mut pool = LpPool::init(
        Price(1_000_000),
        Percentage(1000),
        Percentage(90000),
        TokenAmount(target),
    )
    .unwrap();
    pool.add_liquidity(TokenAmount(held)).unwrap();
    pool
}

#[test]
fn fee_is_minimum_at_and_above_target() {
    let pool = pool_with(90_000_000, 100_000_000);
    assert_eq!(pool.calculate_fee(0), Ok(Percentage(1000)));
    assert_eq!(pool.calculate_fee(9_999_999), Ok(Percentage(1000)));
    assert_eq!(pool.calculate_fee(10_000_000), Ok(Percentage(1000)));
}

#[test]
fn fee_interpolates_below_target() {
    let pool = pool_with(90_000_000, 100_000_000);
    // remaining 89_999_999: 90_000 - 89_000 * 89_999_999 / 90_000_000 = 90_000 - 88_999
    assert_eq!(pool.calculate_fee(10_000_001), Ok(Percentage(1001)));
    // remaining 45_000_000: 90_000 - 44_500
    assert_eq!(pool.calculate_fee(55_000_000), Ok(Percentage(45_500)));
}

#[test]
fn fee_is_maximum_when_nothing_remains() {
    let pool = pool_with(90_000_000, 100_000_000);
    assert_eq!(pool.calculate_fee(100_000_000), Ok(Percentage(90_000)));
}

#[test]
fn fee_never_falls_as_trade_grows() {
    let pool = pool_with(90_000_000, 100_000_000);
    let mut last: u64 = 0;
    let mut trade: u64 = 0;
    while trade <= 100_000_000 {
        let rate = pool.calculate_fee(trade).unwrap().0;
        assert!(rate >= last);
        assert!((1000..=90_000).contains(&rate));
        last = rate;
        trade += 1_234_567;
    }
}

#[test]
fn fee_for_trade_above_balance_is_refused() {
    let pool = pool_with(90_000_000, 100_000_000);
    assert_eq!(
        pool.calculate_fee(100_000_001),
        Err(PoolError::InsufficientLiquidity)
    );
}

#[test]
fn fee_with_zero_target_is_minimum_even_on_empty_pool() {
    let pool = pool_with(0, 0);
    assert_eq!(pool.calculate_fee(0), Ok(Percentage(1000)));
    let pool = pool_with(0, 50);
    assert_eq!(pool.calculate_fee(50), Ok(Percentage(1000)));
    assert_eq!(pool.calculate_fee(10), Ok(Percentage(1000)));
}

#[test]
fn fee_with_largest_values_does_not_wrap() {
    let mut pool = LpPool::init(
        Price(1),
        Percentage(0),
        Percentage(u64::MAX),
        TokenAmount(u64::MAX),
    )
    .unwrap();
    pool.add_liquidity(TokenAmount(u64::MAX - 1)).unwrap();
    // remaining u64::MAX - 1 of target u64::MAX: the rise is u64::MAX - 1
    assert_eq!(pool.calculate_fee(0), Ok(Percentage(1)));
    assert_eq!(pool.calculate_fee(u64::MAX - 1), Ok(Percentage(u64::MAX)));
}

#[test]
fn swap_charges_the_rate_of_the_remaining_balance() {
    let mut pool = pool_with(90_000_000, 100_000_000);
    // gross 55_000_000, rate 45_500: fee 2_502_500
    assert_eq!(
        pool.swap(StakedTokenAmount(55_000_000)),
        Ok(TokenAmount(52_497_500))
    );
    assert_eq!(pool.token_amount(), TokenAmount(47_502_500));
    assert_eq!(pool.st_token_amount(), StakedTokenAmount(55_000_000));
}

#[test]
fn mul_div_keeps_the_high_bits() {
    assert_eq!(mul_div(6, 7, 4), 10);
    assert_eq!(mul_div(0, u64::MAX, 3), 0);
    assert_eq!(
        mul_div(u64::MAX, u64::MAX, 1),
        0xFFFF_FFFF_FFFF_FFFE_0000_0000_0000_0001
    );
    assert_eq!(mul_div(u64::MAX, u64::MAX, u64::MAX as u128), u64::MAX as u128);
    assert_eq!(
        mul_div(u64::MAX, 1_000_000, 1_000_000),
        u64::MAX as u128
    );
}
