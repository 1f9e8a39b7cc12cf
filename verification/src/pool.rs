//! Pool parameters and the tick-range placement rule.
//!
//! A [`Pool`] holds the immutable per-pool configuration: the pool and token
//! addresses, the token decimals, and the tick spacing.  Its one piece of
//! algorithmic content is [`Pool::get_tick_range`], which places a liquidity
//! range symmetrically around the current tick: half the requested width (in
//! whole spacing units) below it and half above it.  The bounds are offset
//! from the current tick itself; they are not snapped to a grid origin.

use vstd::prelude::*;

verus! {

use crate::errors::EngineError;
use crate::price::{adjusted_price_e18, price_e18};

/// One atomic observation of the on-chain AMM state.
///
/// `sqrt_price` is the square root of the pool price in Q-format fixed point
/// with 96 fractional bits (the on-chain value is 160 bits wide; observations
/// whose value does not fit in 128 bits are out of range for this core).
pub struct StateOfAMM {
    pub sqrt_price: u128,
    pub tick: i32,
    pub last_fee: u16,
    pub plugin_config: u8,
    pub active_liquidity: u128,
    pub next_tick: i32,
    pub previous_tick: i32,
}

/// Immutable configuration of one pool, fixed for the process lifetime.
pub struct Pool {
    pub address: String,
    pub token_a: String,
    pub token_b: String,
    pub token_a_decimals: u8,
    pub token_b_decimals: u8,
    pub tick_spacing: i32,
}

impl Pool {
    /// A pool is well formed exactly when its tick spacing is positive.
    pub open spec fn well_formed(&self) -> bool {
        self.tick_spacing >= 1
    }

    /// Builds the pool configuration; rejects a non-positive tick spacing,
    /// which would make every derived tick range degenerate.
    pub fn new(
        address: String,
        token_a: String,
        token_b: String,
        token_a_decimals: u8,
        token_b_decimals: u8,
        tick_spacing: i32,
    ) -> (r: Result<Pool, EngineError>)
        ensures
            r is Ok <==> tick_spacing >= 1,
            r matches Err(e) ==> e == EngineError::NonPositiveTickSpacing,
            r matches Ok(p) ==> {
                &&& p.address@ == address@
                &&& p.token_a@ == token_a@
                &&& p.token_b@ == token_b@
                &&& p.token_a_decimals == token_a_decimals
                &&& p.token_b_decimals == token_b_decimals
                &&& p.tick_spacing == tick_spacing
                &&& p.well_formed()
            },
    {
        if tick_spacing < 1 {
            Err(EngineError::NonPositiveTickSpacing)
        } else {
            Ok(Pool {
                address,
                token_a,
                token_b,
                token_a_decimals,
                token_b_decimals,
                tick_spacing,
            })
        }
    }

    /// Places a liquidity range around `current_tick`: `num_ticks / 2`
    /// spacing units below it and the same number above it (integer halving,
    /// so an odd `num_ticks` is rounded down to the next even width).
    ///
    /// The range is `num_ticks * tick_spacing` wide for even `num_ticks` and
    /// symmetric around the current tick; the bounds land on
    /// spacing-aligned ticks only when `current_tick` already does.
    pub fn get_tick_range(&self, current_tick: i32, num_ticks: u32) -> (r: (i32, i32))
        requires
            self.well_formed(),
            i32::MIN <= current_tick as int - ((num_ticks / 2) as int) * (self.tick_spacing as int),
            current_tick as int + ((num_ticks / 2) as int) * (self.tick_spacing as int) <= i32::MAX,
        ensures
            r.0 as int == current_tick as int - ((num_ticks / 2) as int) * (self.tick_spacing as int),
            r.1 as int == current_tick as int + ((num_ticks / 2) as int) * (self.tick_spacing as int),
            r.1 as int - r.0 as int == 2 * ((num_ticks / 2) as int) * (self.tick_spacing as int),
            num_ticks % 2 == 0 ==> r.1 as int - r.0 as int == num_ticks as int * (self.tick_spacing as int),
            current_tick as int - r.0 as int == r.1 as int - current_tick as int,
            r.0 <= r.1,
    {
        let half: i64 = (num_ticks / 2) as i64;
        let spacing: i64 = self.tick_spacing as i64;
        proof {
            assert(half * spacing <= 0x7fffffffi64 * 0x7fffffffi64) by (nonlinear_arith)
                requires
                    0 <= half <= 0x7fffffff,
                    0 <= spacing <= 0x7fffffff,
            ;
            assert(half * spacing >= 0) by (nonlinear_arith)
                requires
                    0 <= half,
                    0 <= spacing,
            ;
        }
        let offset: i64 = half * spacing;
        let bottom: i64 = current_tick as i64 - offset;
        let top: i64 = current_tick as i64 + offset;
        proof {
            let h = half as int;
            let s = spacing as int;
            assert(2 * h * s == 2 * (h * s)) by (nonlinear_arith);
            assert((2 * h) * s == 2 * (h * s)) by (nonlinear_arith);
        }
        (bottom as i32, top as i32)
    }

    /// Converts one observed AMM state into the pool's adjusted price
    /// (scaled by `10^18`, `None` when it does not fit in 128 bits) and the
    /// current tick, which is passed through unchanged.
    pub fn get_adjusted_current_price_and_tick(&self, state: &StateOfAMM) -> (r: (
        Option<u128>,
        i32,
    ))
        ensures
            r.0 matches Some(v) ==> v == price_e18(
                state.sqrt_price as int,
                self.token_a_decimals as nat,
                self.token_b_decimals as nat,
            ),
            r.0 is None ==> price_e18(
                state.sqrt_price as int,
                self.token_a_decimals as nat,
                self.token_b_decimals as nat,
            ) > u128::MAX,
            r.1 == state.tick,
    {
        (adjusted_price_e18(state.sqrt_price, self.token_a_decimals, self.token_b_decimals), state.tick)
    }

    /// The pool contract address.
    pub fn address(&self) -> (r: &String)
        ensures
            r@ == self.address@,
    {
        &self.address
    }

    /// The first token's address.
    pub fn token_a(&self) -> (r: &String)
        ensures
            r@ == self.token_a@,
    {
        &self.token_a
    }

    /// The second token's address.
    pub fn token_b(&self) -> (r: &String)
        ensures
            r@ == self.token_b@,
    {
        &self.token_b
    }

    /// The first token's decimal count.
    pub fn token_a_decimals(&self) -> (r: u8)
        ensures
            r == self.token_a_decimals,
    {
        self.token_a_decimals
    }

    /// The second token's decimal count.
    pub fn token_b_decimals(&self) -> (r: u8)
        ensures
            r == self.token_b_decimals,
    {
        self.token_b_decimals
    }
}

} // verus!
