use bulla_liquidity::errors::EngineError;
use bulla_liquidity::pool::{Pool, StateOfAMM};
use bulla_liquidity::price::adjusted_price_e18;

const SQRT_ONE_X96: u128 = 79228162514264337593543950336; // 2^96
const SQRT_TWO_X96: u128 = 158456325028528675187087900672; // 2^97

fn pool(tick_spacing: i32) -> Pool {
    Pool::new(
        String::from("0xpool"),
        String::from("0xtoken_a"),
        String::from("0xtoken_b"),
        6,
        6,
        tick_spacing,
    )
    .unwrap()
}

#[test]
fn rejects_non_positive_tick_spacing() {
    let r = Pool::new(
        String::new(),
        String::new(),
        String::new(),
        18,
        6,
        0,
    );
    assert_eq!(r.err().unwrap(), EngineError::NonPositiveTickSpacing);
    let r = Pool::new(
        String::new(),
        String::new(),
        String::new(),
        18,
        6,
        -60,
    );
    assert_eq!(r.err().unwrap(), EngineError::NonPositiveTickSpacing);
}

#[test]
fn tick_range_documented_example() {
    // currentTick = 1000, numTicks = 10, tickSpacing = 60
    let p = pool(60);
    let (bottom, top) = p.get_tick_range(1000, 10);
    assert_eq!(bottom, 700);
    assert_eq!(top, 1300);
}

#[test]
fn tick_range_even_width_and_symmetry() {
    let p = pool(10);
    for current in [-5000, -1, 0, 7, 12345] {
        for num_ticks in [0u32, 2, 4, 10, 100] {
            let (bottom, top) = p.get_tick_range(current, num_ticks);
            assert_eq!((top - bottom) as u32, num_ticks * 10);
            assert_eq!(current - bottom, top - current);
        }
    }
}

#[test]
fn tick_range_odd_width_rounds_down() {
    let p = pool(60);
    let (bottom, top) = p.get_tick_range(1000, 11);
    // 11 / 2 == 5 spacing units on each side
    assert_eq!(bottom, 700);
    assert_eq!(top, 1300);
}

#[test]
fn pool_getters() {
    let p = pool(60);
    assert_eq!(p.address().as_str(), "0xpool");
    assert_eq!(p.token_a().as_str(), "0xtoken_a");
    assert_eq!(p.token_b().as_str(), "0xtoken_b");
    assert_eq!(p.token_a_decimals(), 6);
    assert_eq!(p.token_b_decimals(), 6);
}

#[test]
fn price_of_unit_sqrt_is_one() {
    // sqrt_price == 2^96 stands for a price of exactly 1.0
    assert_eq!(adjusted_price_e18(SQRT_ONE_X96, 6, 6), Some(1_000_000_000_000_000_000));
}

#[test]
fn price_of_doubled_sqrt_is_four() {
    assert_eq!(adjusted_price_e18(SQRT_TWO_X96, 6, 6), Some(4_000_000_000_000_000_000));
}

#[test]
fn price_scales_with_decimal_difference() {
    // decimalsA - decimalsB == 12 multiplies the raw price by 10^12
    assert_eq!(
        adjusted_price_e18(SQRT_ONE_X96, 18, 6),
        Some(1_000_000_000_000_000_000_000_000_000_000)
    );
    // decimalsA - decimalsB == -12 divides it by 10^12
    assert_eq!(adjusted_price_e18(SQRT_ONE_X96, 6, 18), Some(1_000_000));
}

#[test]
fn price_with_large_negative_decimal_difference_floors_to_zero() {
    // raw price 1.0 scaled by 10^(18 - 19) is 0.1, floored to 0
    assert_eq!(adjusted_price_e18(SQRT_ONE_X96, 0, 19), Some(0));
}

#[test]
fn price_with_large_negative_decimal_difference_keeps_integer_part() {
    // raw price 100.0 scaled by 10^(18 - 19) is 10
    assert_eq!(adjusted_price_e18(10 * SQRT_ONE_X96, 0, 19), Some(10));
}

#[test]
fn price_monotone_in_sqrt_price_samples() {
    let mut last: u128 = 0;
    for sq in [
        0u128,
        1,
        1_000_000_000,
        SQRT_ONE_X96 / 3,
        SQRT_ONE_X96,
        SQRT_ONE_X96 + 1,
        SQRT_TWO_X96,
        1000 * SQRT_ONE_X96,
    ] {
        let p = adjusted_price_e18(sq, 8, 6).unwrap();
        assert!(p >= last);
        last = p;
    }
}

#[test]
fn price_overflow_is_reported() {
    // (2^127 / 2^96)^2 * 10^30 * 10^18 does not fit in 128 bits
    let sq: u128 = 1u128 << 127;
    assert_eq!(adjusted_price_e18(sq, 30, 0), None);
}

#[test]
fn state_conversion_passes_tick_through() {
    let p = pool(60);
    let state = StateOfAMM {
        sqrt_price: SQRT_ONE_X96,
        tick: 123,
        last_fee: 100,
        plugin_config: 0,
        active_liquidity: 5,
        next_tick: 180,
        previous_tick: 120,
    };
    let (price, tick) = p.get_adjusted_current_price_and_tick(&state);
    assert_eq!(price, Some(1_000_000_000_000_000_000));
    assert_eq!(tick, 123);
}
