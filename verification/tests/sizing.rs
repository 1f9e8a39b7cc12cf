use bulla_liquidity::errors::EngineError;
use bulla_liquidity::liquidity::calculate_liquidity;

// Hand-picked fixed-point square-root prices in the scale 1000:
// 0.995 and 1.005 stand for the bounds, the current price moves around them.
const SCALE: u128 = 1000;
const SQRT_LOWER: u128 = 995;
const SQRT_UPPER: u128 = 1005;

// amountA-only quantity, precomputed by hand:
// g = floor(995 * 1005 / 1000) = floor(999975 / 1000) = 999
// L_a = floor(1000 * 999 / (1005 - 995)) = 99900
const AMOUNT_A: u128 = 1000;
const LIQ_FROM_A: u128 = 99900;

// amountB-only quantity, precomputed by hand:
// L_b = floor(500 * 1000 / 10) = 50000
const AMOUNT_B: u128 = 500;
const LIQ_FROM_B: u128 = 50000;

#[test]
fn price_below_range_uses_amount_a_only() {
    let l = calculate_liquidity(AMOUNT_A, AMOUNT_B, SQRT_LOWER, SQRT_UPPER, 990, SCALE).unwrap();
    assert_eq!(l, LIQ_FROM_A);
}

#[test]
fn price_at_lower_bound_uses_amount_a_only() {
    let l = calculate_liquidity(AMOUNT_A, AMOUNT_B, SQRT_LOWER, SQRT_UPPER, SQRT_LOWER, SCALE)
        .unwrap();
    assert_eq!(l, LIQ_FROM_A);
}

#[test]
fn price_above_range_uses_amount_b_only() {
    let l = calculate_liquidity(AMOUNT_A, AMOUNT_B, SQRT_LOWER, SQRT_UPPER, 1010, SCALE).unwrap();
    assert_eq!(l, LIQ_FROM_B);
}

#[test]
fn price_at_upper_bound_uses_amount_b_only() {
    let l = calculate_liquidity(AMOUNT_A, AMOUNT_B, SQRT_LOWER, SQRT_UPPER, SQRT_UPPER, SCALE)
        .unwrap();
    assert_eq!(l, LIQ_FROM_B);
}

#[test]
fn price_inside_range_takes_the_binding_minimum() {
    let l = calculate_liquidity(AMOUNT_A, AMOUNT_B, SQRT_LOWER, SQRT_UPPER, 1000, SCALE).unwrap();
    assert_eq!(l, LIQ_FROM_B.min(LIQ_FROM_A));
    assert_eq!(l, 50000);
    // with a much larger B amount, the A side binds instead
    let l = calculate_liquidity(AMOUNT_A, 10_000_000, SQRT_LOWER, SQRT_UPPER, 1000, SCALE)
        .unwrap();
    assert_eq!(l, LIQ_FROM_A);
}

#[test]
fn zero_width_range_is_a_fatal_error() {
    let r = calculate_liquidity(AMOUNT_A, AMOUNT_B, 995, 995, 1000, SCALE);
    assert_eq!(r.err().unwrap(), EngineError::ZeroWidthRange);
}

#[test]
fn amount_overflow_is_reported() {
    // amount_a * floor(sqrt_lower * sqrt_upper / scale) exceeds 128 bits
    let r = calculate_liquidity(u128::MAX, 0, SQRT_LOWER, SQRT_UPPER, 990, SCALE);
    assert_eq!(r.err().unwrap(), EngineError::AmountOverflow);
    // sqrt_lower * sqrt_upper itself exceeds 128 bits
    let big: u128 = 1u128 << 127;
    let r = calculate_liquidity(1, 1, big, big + 1, big, big);
    assert_eq!(r.err().unwrap(), EngineError::AmountOverflow);
    // amount_b * scale exceeds 128 bits
    let r = calculate_liquidity(0, u128::MAX, SQRT_LOWER, SQRT_UPPER, 1010, SCALE);
    assert_eq!(r.err().unwrap(), EngineError::AmountOverflow);
}
