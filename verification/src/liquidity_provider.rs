//! The position orchestrator.
//!
//! The orchestrator turns the read-only calculations — tick-range placement,
//! liquidity sizing and the rebalance trigger — into actionable plans and
//! hands them to the host, which submits the corresponding token approvals
//! and provide/withdraw calls on chain.  The host sequence for providing is:
//! compute the tick range with [`crate::pool::Pool::get_tick_range`], derive
//! the fixed-point square-root prices of the two bounds and of the current
//! tick, then call [`LiquidityProvider::provide_liquidity`] and execute the
//! returned plan.  The orchestrator holds no mutable state and never retries
//! a failed external call; failures of the external calls are the host's to
//! report.

use vstd::prelude::*;

verus! {

use crate::errors::EngineError;
use crate::liquidity::{calculate_liquidity, sized_liquidity, sizing_fits};
use crate::pool::Pool;
use crate::rebalancer::{deviation_exceeds, Rebalancer};

/// A live position: its tick range and the liquidity it holds.
#[derive(Clone, Copy, Debug, PartialEq, Eq, Structural)]
pub struct Position {
    pub bottom_tick: i32,
    pub top_tick: i32,
    pub liquidity: u128,
}

/// A request to approve one token for the liquidity-manager contract.
pub struct TokenApproval {
    pub token: String,
    pub spender: String,
    pub amount: u128,
}

/// Everything the host must submit to provide liquidity: two token
/// approvals, then one provide call.
pub struct ProvidePlan {
    pub approval_a: TokenApproval,
    pub approval_b: TokenApproval,
    pub bottom_tick: i32,
    pub top_tick: i32,
    pub liquidity: u128,
}

/// One withdraw call: the position's range and amount, with the minimum
/// amounts the withdrawal may return.
#[derive(Clone, Copy, Debug, PartialEq, Eq, Structural)]
pub struct WithdrawPlan {
    pub bottom_tick: i32,
    pub top_tick: i32,
    pub amount: u128,
    pub amount_a_min: u128,
    pub amount_b_min: u128,
}

/// A triggered rebalance: withdraw the old position, then provide anew.
pub struct RebalancePlan {
    pub withdraw: WithdrawPlan,
    pub provide: ProvidePlan,
}

/// The orchestrator's immutable configuration: the pool, the requested range
/// width, and the liquidity-manager contract that receives approvals.
pub struct LiquidityProvider {
    pub pool: Pool,
    pub num_ticks: u32,
    pub liquidity_manager_contract: String,
}

impl LiquidityProvider {
    /// Builds the orchestrator.
    pub fn new(pool: Pool, num_ticks: u32, liquidity_manager_contract: String) -> (r:
        LiquidityProvider)
        ensures
            r.pool == pool,
            r.num_ticks == num_ticks,
            r.liquidity_manager_contract@ == liquidity_manager_contract@,
    {
        LiquidityProvider { pool, num_ticks, liquidity_manager_contract }
    }

    /// Plans the provide-flow for an already-placed tick range: approve both
    /// tokens for the liquidity manager up to the requested amounts, then
    /// provide the sized liquidity on `[bottom_tick, top_tick]`.  The
    /// square-root prices of the two bounds and of the current price are
    /// fixed-point integers in the scale `sqrt_scale`.
    pub fn provide_liquidity(
        &self,
        bottom_tick: i32,
        top_tick: i32,
        amount_a: u128,
        amount_b: u128,
        sqrt_lower: u128,
        sqrt_upper: u128,
        sqrt_current: u128,
        sqrt_scale: u128,
    ) -> (r: Result<ProvidePlan, EngineError>)
        requires
            sqrt_scale >= 1,
            sqrt_lower <= sqrt_upper,
        ensures
            sqrt_lower == sqrt_upper ==> (r matches Err(e) && e == EngineError::ZeroWidthRange),
            sqrt_lower < sqrt_upper && !sizing_fits(
                amount_a as int,
                amount_b as int,
                sqrt_lower as int,
                sqrt_upper as int,
                sqrt_scale as int,
            ) ==> (r matches Err(e) && e == EngineError::AmountOverflow),
            r is Ok <==> sqrt_lower < sqrt_upper && sizing_fits(
                amount_a as int,
                amount_b as int,
                sqrt_lower as int,
                sqrt_upper as int,
                sqrt_scale as int,
            ),
            r matches Ok(p) ==> {
                &&& p.approval_a.token@ == self.pool.token_a@
                &&& p.approval_a.spender@ == self.liquidity_manager_contract@
                &&& p.approval_a.amount == amount_a
                &&& p.approval_b.token@ == self.pool.token_b@
                &&& p.approval_b.spender@ == self.liquidity_manager_contract@
                &&& p.approval_b.amount == amount_b
                &&& p.bottom_tick == bottom_tick
                &&& p.top_tick == top_tick
                &&& p.liquidity == sized_liquidity(
                    amount_a as int,
                    amount_b as int,
                    sqrt_lower as int,
                    sqrt_upper as int,
                    sqrt_current as int,
                    sqrt_scale as int,
                )
            },
    {
        let liquidity = match calculate_liquidity(
            amount_a,
            amount_b,
            sqrt_lower,
            sqrt_upper,
            sqrt_current,
            sqrt_scale,
        ) {
            Ok(l) => l,
            Err(e) => {
                return Err(e);
            },
        };
        Ok(ProvidePlan {
            approval_a: TokenApproval {
                token: self.pool.token_a().clone(),
                spender: self.liquidity_manager_contract.clone(),
                amount: amount_a,
            },
            approval_b: TokenApproval {
                token: self.pool.token_b().clone(),
                spender: self.liquidity_manager_contract.clone(),
                amount: amount_b,
            },
            bottom_tick,
            top_tick,
            liquidity,
        })
    }

    /// Plans the removal of an existing position: one withdraw call for the
    /// position's full range and amount, with the given minimum-output
    /// protections.
    pub fn remove_liquidity(&self, position: &Position, amount_a_min: u128, amount_b_min: u128)
        -> (r: WithdrawPlan)
        ensures
            r.bottom_tick == position.bottom_tick,
            r.top_tick == position.top_tick,
            r.amount == position.liquidity,
            r.amount_a_min == amount_a_min,
            r.amount_b_min == amount_b_min,
    {
        WithdrawPlan {
            bottom_tick: position.bottom_tick,
            top_tick: position.top_tick,
            amount: position.liquidity,
            amount_a_min,
            amount_b_min,
        }
    }

    /// Plans a whole rebalance: decides the trigger from the tracked and
    /// target prices, and on trigger plans the withdrawal of the existing
    /// position followed by a fresh provide-flow on the new range.
    /// `Ok(None)` means the deviation is within the threshold and nothing is
    /// to be done.
    pub fn rebalance_position(
        &self,
        rebalancer: &Rebalancer,
        current_price: u128,
        target_price: u128,
        position: &Position,
        bottom_tick: i32,
        top_tick: i32,
        amount_a: u128,
        amount_b: u128,
        sqrt_lower: u128,
        sqrt_upper: u128,
        sqrt_current: u128,
        sqrt_scale: u128,
    ) -> (r: Result<Option<RebalancePlan>, EngineError>)
        requires
            rebalancer.threshold.well_formed(),
            sqrt_scale >= 1,
            sqrt_lower <= sqrt_upper,
        ensures
            target_price == 0 ==> (r matches Err(e) && e == EngineError::ZeroTargetPrice),
            target_price != 0 && !deviation_exceeds(
                current_price as int,
                target_price as int,
                rebalancer.threshold.num as int,
                rebalancer.threshold.den as int,
            ) ==> (r matches Ok(p) && p is None),
            r matches Ok(Some(plan)) ==> {
                &&& target_price != 0
                &&& deviation_exceeds(
                    current_price as int,
                    target_price as int,
                    rebalancer.threshold.num as int,
                    rebalancer.threshold.den as int,
                )
                &&& plan.withdraw.bottom_tick == position.bottom_tick
                &&& plan.withdraw.top_tick == position.top_tick
                &&& plan.withdraw.amount == position.liquidity
                &&& plan.withdraw.amount_a_min == 0
                &&& plan.withdraw.amount_b_min == 0
                &&& plan.provide.approval_a.token@ == self.pool.token_a@
                &&& plan.provide.approval_a.spender@ == self.liquidity_manager_contract@
                &&& plan.provide.approval_a.amount == amount_a
                &&& plan.provide.approval_b.token@ == self.pool.token_b@
                &&& plan.provide.approval_b.spender@ == self.liquidity_manager_contract@
                &&& plan.provide.approval_b.amount == amount_b
                &&& plan.provide.bottom_tick == bottom_tick
                &&& plan.provide.top_tick == top_tick
                &&& plan.provide.liquidity == sized_liquidity(
                    amount_a as int,
                    amount_b as int,
                    sqrt_lower as int,
                    sqrt_upper as int,
                    sqrt_current as int,
                    sqrt_scale as int,
                )
            },
            target_price != 0 && deviation_exceeds(
                current_price as int,
                target_price as int,
                rebalancer.threshold.num as int,
                rebalancer.threshold.den as int,
            ) ==> (r is Ok <==> sqrt_lower < sqrt_upper && sizing_fits(
                amount_a as int,
                amount_b as int,
                sqrt_lower as int,
                sqrt_upper as int,
                sqrt_scale as int,
            )),
            target_price != 0 && deviation_exceeds(
                current_price as int,
                target_price as int,
                rebalancer.threshold.num as int,
                rebalancer.threshold.den as int,
            ) && sqrt_lower < sqrt_upper && sizing_fits(
                amount_a as int,
                amount_b as int,
                sqrt_lower as int,
                sqrt_upper as int,
                sqrt_scale as int,
            ) ==> (r matches Ok(p) && p is Some),
    {
        let needed = match rebalancer.check_rebalance_needed(current_price, target_price) {
            Ok(b) => b,
            Err(e) => {
                return Err(e);
            },
        };
        if !needed {
            return Ok(None);
        }
        let withdraw = self.remove_liquidity(position, 0, 0);
        let provide = match self.provide_liquidity(
            bottom_tick,
            top_tick,
            amount_a,
            amount_b,
            sqrt_lower,
            sqrt_upper,
            sqrt_current,
            sqrt_scale,
        ) {
            Ok(p) => p,
            Err(e) => {
                return Err(e);
            },
        };
        Ok(Some(RebalancePlan { withdraw, provide }))
    }
}

} // verus!
