//! The threshold-based rebalance trigger.
//!
//! A position is rebalanced when the tracked price has drifted from the
//! target price by more than a configured fraction:
//! `|current - target| / target > threshold`.  Prices are fixed-point
//! integers in an arbitrary common scale (the ratio cancels the scale), and
//! the threshold is an exact fraction, so the comparison below is exact over
//! the full 128-bit range via double-width products.

use vstd::prelude::*;

verus! {

use vstd::math::abs;
use crate::errors::EngineError;
use crate::wide::prod_gt;

/// A deviation threshold, the exact fraction `num / den`, strictly between
/// zero and one.
#[derive(Clone, Copy, Debug, PartialEq, Eq, Structural)]
pub struct Threshold {
    pub num: u128,
    pub den: u128,
}

impl Threshold {
    /// A threshold is well formed when it is a fraction in `(0, 1)`.
    pub open spec fn well_formed(&self) -> bool {
        0 < self.num < self.den
    }

    /// Builds a threshold; rejects any fraction not strictly between zero
    /// and one.
    pub fn new(num: u128, den: u128) -> (r: Result<Threshold, EngineError>)
        ensures
            r is Ok <==> 0 < num < den,
            r matches Err(e) ==> e == EngineError::InvalidThreshold,
            r matches Ok(t) ==> t.num == num && t.den == den && t.well_formed(),
    {
        if 0 < num && num < den {
            Ok(Threshold { num, den })
        } else {
            Err(EngineError::InvalidThreshold)
        }
    }
}

/// Whether `current` deviates from `target` by strictly more than the
/// fraction `num / den`, i.e. `|current - target| / target > num / den`,
/// stated without division as `|current - target| * den > num * target`.
pub open spec fn deviation_exceeds(current: int, target: int, num: int, den: int) -> bool {
    abs(current - target) * den > num * target
}

/// The stateless rebalance policy: a deviation threshold plus the endpoint
/// of the external routing service that a triggered rebalance would use.
pub struct Rebalancer {
    pub ooga_booga_endpoint: String,
    pub threshold: Threshold,
}

impl Rebalancer {
    /// Builds the policy from a routing endpoint and a threshold.
    pub fn new(ooga_booga_endpoint: String, threshold: Threshold) -> (r: Rebalancer)
        ensures
            r.ooga_booga_endpoint@ == ooga_booga_endpoint@,
            r.threshold == threshold,
    {
        Rebalancer { ooga_booga_endpoint, threshold }
    }

    /// Decides whether the position must be rebalanced: exactly when the
    /// relative deviation of `current_price` from `target_price` exceeds the
    /// threshold.  A zero target price makes the deviation undefined and is
    /// a configuration error.
    pub fn check_rebalance_needed(&self, current_price: u128, target_price: u128) -> (r: Result<
        bool,
        EngineError,
    >)
        requires
            self.threshold.well_formed(),
        ensures
            r is Err <==> target_price == 0,
            r matches Err(e) ==> e == EngineError::ZeroTargetPrice,
            r matches Ok(b) ==> (b <==> deviation_exceeds(
                current_price as int,
                target_price as int,
                self.threshold.num as int,
                self.threshold.den as int,
            )),
    {
        if target_price == 0 {
            return Err(EngineError::ZeroTargetPrice);
        }
        let diff = if current_price >= target_price {
            current_price - target_price
        } else {
            target_price - current_price
        };
        Ok(prod_gt(diff, self.threshold.den, self.threshold.num, target_price))
    }
}

} // verus!
