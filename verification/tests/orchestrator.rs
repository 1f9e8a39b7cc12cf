use bulla_liquidity::config::Config;
use bulla_liquidity::errors::EngineError;
use bulla_liquidity::liquidity_provider::{LiquidityProvider, Position};
use bulla_liquidity::pool::Pool;
use bulla_liquidity::rebalancer::{Rebalancer, Threshold};

const E18: u128 = 1_000_000_000_000_000_000;

fn provider() -> LiquidityProvider {
    let pool = Pool::new(
        String::from("0xpool"),
        String::from("0xtoken_a"),
        String::from("0xtoken_b"),
        6,
        6,
        60,
    )
    .unwrap();
    LiquidityProvider::new(pool, 10, String::from("0xmanager"))
}

#[test]
fn provide_plan_carries_approvals_range_and_sized_liquidity() {
    let lp = provider();
    let plan = lp.provide_liquidity(700, 1300, 1000, 500, 995, 1005, 1000, 1000).unwrap();
    assert_eq!(plan.approval_a.token.as_str(), "0xtoken_a");
    assert_eq!(plan.approval_a.spender.as_str(), "0xmanager");
    assert_eq!(plan.approval_a.amount, 1000);
    assert_eq!(plan.approval_b.token.as_str(), "0xtoken_b");
    assert_eq!(plan.approval_b.spender.as_str(), "0xmanager");
    assert_eq!(plan.approval_b.amount, 500);
    assert_eq!(plan.bottom_tick, 700);
    assert_eq!(plan.top_tick, 1300);
    // the binding minimum of the two single-sided quantities
    assert_eq!(plan.liquidity, 50000);
}

#[test]
fn provide_plan_propagates_sizing_errors() {
    let lp = provider();
    let r = lp.provide_liquidity(700, 700, 1000, 500, 995, 995, 1000, 1000);
    assert_eq!(r.err().unwrap(), EngineError::ZeroWidthRange);
    let r = lp.provide_liquidity(700, 1300, u128::MAX, 500, 995, 1005, 990, 1000);
    assert_eq!(r.err().unwrap(), EngineError::AmountOverflow);
}

#[test]
fn withdraw_plan_mirrors_the_position() {
    let lp = provider();
    let position = Position { bottom_tick: -100, top_tick: 100, liquidity: 123456 };
    let w = lp.remove_liquidity(&position, 11, 22);
    assert_eq!(w.bottom_tick, -100);
    assert_eq!(w.top_tick, 100);
    assert_eq!(w.amount, 123456);
    assert_eq!(w.amount_a_min, 11);
    assert_eq!(w.amount_b_min, 22);
}

#[test]
fn rebalance_within_threshold_does_nothing() {
    let lp = provider();
    let reb = Rebalancer::new(String::new(), Threshold::new(5, 100).unwrap());
    let position = Position { bottom_tick: -100, top_tick: 100, liquidity: 7 };
    let r = lp
        .rebalance_position(
            &reb,
            103 * E18 / 100,
            E18,
            &position,
            700,
            1300,
            1000,
            500,
            995,
            1005,
            1000,
            1000,
        )
        .unwrap();
    assert!(r.is_none());
}

#[test]
fn triggered_rebalance_withdraws_then_provides() {
    let lp = provider();
    let reb = Rebalancer::new(String::new(), Threshold::new(5, 100).unwrap());
    let position = Position { bottom_tick: -100, top_tick: 100, liquidity: 7 };
    let plan = lp
        .rebalance_position(
            &reb,
            11 * E18 / 10,
            E18,
            &position,
            700,
            1300,
            1000,
            500,
            995,
            1005,
            1000,
            1000,
        )
        .unwrap()
        .unwrap();
    assert_eq!(plan.withdraw.bottom_tick, -100);
    assert_eq!(plan.withdraw.top_tick, 100);
    assert_eq!(plan.withdraw.amount, 7);
    assert_eq!(plan.withdraw.amount_a_min, 0);
    assert_eq!(plan.withdraw.amount_b_min, 0);
    assert_eq!(plan.provide.bottom_tick, 700);
    assert_eq!(plan.provide.top_tick, 1300);
    assert_eq!(plan.provide.liquidity, 50000);
}

#[test]
fn rebalance_with_zero_target_price_fails() {
    let lp = provider();
    let reb = Rebalancer::new(String::new(), Threshold::new(5, 100).unwrap());
    let position = Position { bottom_tick: -100, top_tick: 100, liquidity: 7 };
    let r = lp.rebalance_position(
        &reb,
        E18,
        0,
        &position,
        700,
        1300,
        1000,
        500,
        995,
        1005,
        1000,
        1000,
    );
    assert_eq!(r.err().unwrap(), EngineError::ZeroTargetPrice);
}

#[test]
fn config_defaults_match_the_documented_values() {
    let c = Config::default();
    assert_eq!(c.pool_address.as_str(), "");
    assert_eq!(c.token_a.as_str(), "");
    assert_eq!(c.token_b.as_str(), "");
    assert_eq!(c.tick_spacing, 60);
    assert_eq!(c.num_ticks, 10);
    assert_eq!(c.rebalance_threshold, Threshold { num: 5, den: 100 });
    assert_eq!(c.poll_interval_secs, 30);
    assert_eq!(c.ooga_booga_endpoint.as_str(), "https://api.oogabooga.com");
}
