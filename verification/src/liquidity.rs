//! Liquidity sizing across the three concentrated-liquidity price regimes.
//!
//! The sizer receives the square roots of the range-boundary prices and of
//! the current price as fixed-point integers in a caller-chosen scale
//! (`sqrt_scale` stands for 1.0), together with the two deposited token
//! amounts, and returns the single liquidity quantity those amounts can
//! back:
//!
//! * price at or below the range: only token A is deposited, so liquidity is
//!   `amount_a * (sqrt_lower * sqrt_upper) / (sqrt_upper - sqrt_lower)`;
//! * price at or above the range: only token B is deposited, so liquidity is
//!   `amount_b / (sqrt_upper - sqrt_lower)`;
//! * price inside the range: both constrain it, and the smaller of the two
//!   single-sided quantities binds.
//!
//! All products are computed exactly; intermediate quotients floor, matching
//! integer liquidity units.  A zero-width range would divide by zero and is
//! a fatal configuration error, as is an intermediate product beyond 128
//! bits.

use vstd::prelude::*;

verus! {

use vstd::math::min;
use crate::errors::EngineError;

/// The liquidity that `amount_a` of token A can back on the range
/// `[sqrt_lower, sqrt_upper]`, in fixed point with `scale` standing for 1.0:
/// `amount_a * (sqrt_lower * sqrt_upper) / (sqrt_upper - sqrt_lower)`, with
/// flooring division.
pub open spec fn liquidity_from_a(amount_a: int, sqrt_lower: int, sqrt_upper: int, scale: int) -> int {
    (amount_a * ((sqrt_lower * sqrt_upper) / scale)) / (sqrt_upper - sqrt_lower)
}

/// The liquidity that `amount_b` of token B can back on the range
/// `[sqrt_lower, sqrt_upper]`, in fixed point with `scale` standing for 1.0:
/// `amount_b / (sqrt_upper - sqrt_lower)`, with flooring division.
pub open spec fn liquidity_from_b(amount_b: int, sqrt_lower: int, sqrt_upper: int, scale: int) -> int {
    (amount_b * scale) / (sqrt_upper - sqrt_lower)
}

/// The liquidity sized for the whole input: the regime is selected by where
/// the current price stands relative to the range, and inside the range the
/// smaller single-sided quantity binds.
pub open spec fn sized_liquidity(
    amount_a: int,
    amount_b: int,
    sqrt_lower: int,
    sqrt_upper: int,
    sqrt_current: int,
    scale: int,
) -> int {
    if sqrt_current <= sqrt_lower {
        liquidity_from_a(amount_a, sqrt_lower, sqrt_upper, scale)
    } else if sqrt_current >= sqrt_upper {
        liquidity_from_b(amount_b, sqrt_lower, sqrt_upper, scale)
    } else {
        min(
            liquidity_from_a(amount_a, sqrt_lower, sqrt_upper, scale),
            liquidity_from_b(amount_b, sqrt_lower, sqrt_upper, scale),
        )
    }
}

/// Whether every intermediate product of the sizing formulas fits in 128
/// bits; both single-sided quantities are always computed, so all three
/// products must fit.
pub open spec fn sizing_fits(
    amount_a: int,
    amount_b: int,
    sqrt_lower: int,
    sqrt_upper: int,
    scale: int,
) -> bool {
    &&& sqrt_lower * sqrt_upper <= u128::MAX
    &&& amount_a * ((sqrt_lower * sqrt_upper) / scale) <= u128::MAX
    &&& amount_b * scale <= u128::MAX
}

/// Sizes the liquidity for the given amounts, range and current price, all
/// square-root prices being fixed-point integers in the scale `sqrt_scale`.
///
/// Fails with [`EngineError::ZeroWidthRange`] exactly when
/// `sqrt_lower == sqrt_upper`, and with [`EngineError::AmountOverflow`]
/// exactly when an intermediate product exceeds 128 bits.
pub fn calculate_liquidity(
    amount_a: u128,
    amount_b: u128,
    sqrt_lower: u128,
    sqrt_upper: u128,
    sqrt_current: u128,
    sqrt_scale: u128,
) -> (r: Result<u128, EngineError>)
    requires
        sqrt_scale >= 1,
        sqrt_lower <= sqrt_upper,
    ensures
        sqrt_lower == sqrt_upper ==> r == Err::<u128, EngineError>(EngineError::ZeroWidthRange),
        sqrt_lower < sqrt_upper && !sizing_fits(
            amount_a as int,
            amount_b as int,
            sqrt_lower as int,
            sqrt_upper as int,
            sqrt_scale as int,
        ) ==> r == Err::<u128, EngineError>(EngineError::AmountOverflow),
        r is Ok <==> sqrt_lower < sqrt_upper && sizing_fits(
            amount_a as int,
            amount_b as int,
            sqrt_lower as int,
            sqrt_upper as int,
            sqrt_scale as int,
        ),
        r matches Ok(l) ==> {
            &&& sqrt_lower < sqrt_upper
            &&& sizing_fits(
                amount_a as int,
                amount_b as int,
                sqrt_lower as int,
                sqrt_upper as int,
                sqrt_scale as int,
            )
            &&& l == sized_liquidity(
                amount_a as int,
                amount_b as int,
                sqrt_lower as int,
                sqrt_upper as int,
                sqrt_current as int,
                sqrt_scale as int,
            )
        },
{
    if sqrt_lower == sqrt_upper {
        return Err(EngineError::ZeroWidthRange);
    }
    let bounds_product = match sqrt_lower.checked_mul(sqrt_upper) {
        Some(p) => p,
        None => {
            return Err(EngineError::AmountOverflow);
        },
    };
    let geometric_mean_sq = bounds_product / sqrt_scale;
    let liquidity_a_num = match amount_a.checked_mul(geometric_mean_sq) {
        Some(p) => p,
        None => {
            return Err(EngineError::AmountOverflow);
        },
    };
    let liquidity_b_num = match amount_b.checked_mul(sqrt_scale) {
        Some(p) => p,
        None => {
            return Err(EngineError::AmountOverflow);
        },
    };
    let width = sqrt_upper - sqrt_lower;
    let liquidity_a = liquidity_a_num / width;
    let liquidity_b = liquidity_b_num / width;
    let liquidity = if sqrt_current <= sqrt_lower {
        liquidity_a
    } else if sqrt_current >= sqrt_upper {
        liquidity_b
    } else {
        if liquidity_a <= liquidity_b {
            liquidity_a
        } else {
            liquidity_b
        }
    };
    Ok(liquidity)
}

} // verus!
