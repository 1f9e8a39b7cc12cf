use bulla_liquidity::price_tracker::{PriceSample, PriceTracker};

const E18: u128 = 1_000_000_000_000_000_000;

#[test]
fn starts_idle_with_zeroed_snapshot() {
    let t = PriceTracker::new();
    assert_eq!(t.get_current_price(), 0);
    assert_eq!(t.get_current_tick(), 0);
    assert_eq!(t.get_last_update(), 0);
}

#[test]
fn successful_cycle_publishes_the_whole_sample() {
    let mut t = PriceTracker::new();
    t.apply_cycle(Some(PriceSample { price: 2 * E18, tick: -887, timestamp: 1_700_000_000 }));
    assert_eq!(t.get_current_price(), 2 * E18);
    assert_eq!(t.get_current_tick(), -887);
    assert_eq!(t.get_last_update(), 1_700_000_000);
}

#[test]
fn failed_cycle_keeps_previous_snapshot_and_timestamp() {
    let mut t = PriceTracker::new();
    t.apply_cycle(Some(PriceSample { price: 2 * E18, tick: 42, timestamp: 1_700_000_000 }));
    t.apply_cycle(None);
    t.apply_cycle(None);
    assert_eq!(t.get_current_price(), 2 * E18);
    assert_eq!(t.get_current_tick(), 42);
    assert_eq!(t.get_last_update(), 1_700_000_000);
}

#[test]
fn scheduled_cycles_publish_non_decreasing_spaced_timestamps() {
    // three successful cycles at a 30-second interval, with failures in
    // between, observed after every cycle
    let mut t = PriceTracker::new();
    let outcomes = [
        Some(PriceSample { price: E18, tick: 1, timestamp: 1_700_000_000 }),
        None,
        Some(PriceSample { price: E18 + 7, tick: 2, timestamp: 1_700_000_031 }),
        Some(PriceSample { price: E18 - 5, tick: 0, timestamp: 1_700_000_061 }),
        None,
    ];
    let mut seen: Vec<u64> = Vec::new();
    for o in outcomes {
        t.apply_cycle(o);
        seen.push(t.get_last_update());
    }
    for w in seen.windows(2) {
        assert!(w[0] <= w[1]);
    }
    // the three published observation times are at least 30 seconds apart
    assert_eq!(seen[0], 1_700_000_000);
    assert_eq!(seen[2], 1_700_000_031);
    assert_eq!(seen[3], 1_700_000_061);
    assert!(seen[2] - seen[0] >= 30);
    assert!(seen[3] - seen[2] >= 30);
}
