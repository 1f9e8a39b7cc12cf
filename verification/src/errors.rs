//! Error taxonomy of the decision core.
//!
//! Configuration errors are fatal and surfaced to the caller at once; they are
//! never retried.  Transient source errors (a failed chain read) never reach
//! this crate: the price tracker absorbs them by keeping its previous
//! snapshot, and execution errors belong to the unverified glue that submits
//! transactions.

use vstd::prelude::*;

verus! {

/// A fatal configuration or sizing error.
#[derive(Clone, Copy, Debug, PartialEq, Eq, Structural)]
pub enum EngineError {
    /// The pool's tick spacing is zero or negative; it must be positive.
    NonPositiveTickSpacing,
    /// The requested tick range has `bottom_tick == top_tick`, so the
    /// liquidity formulas would divide by zero.
    ZeroWidthRange,
    /// The rebalance target price is zero, so the relative deviation is
    /// undefined.
    ZeroTargetPrice,
    /// The rebalance threshold is not a fraction strictly between zero and
    /// one.
    InvalidThreshold,
    /// An intermediate product of the liquidity sizing formula does not fit
    /// in 128 bits.
    AmountOverflow,
}

} // verus!
