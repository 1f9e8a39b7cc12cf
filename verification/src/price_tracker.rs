//! The price-tracking state machine.
//!
//! A tracker owns the latest observed price, tick and observation time and
//! publishes them as one snapshot.  The host process runs the periodic
//! polling loop: each cycle it reads the AMM state, converts it, and hands
//! the outcome here — `Some(sample)` for a successful read, `None` for a
//! failed one.  A failed cycle changes nothing, so readers keep seeing the
//! previous snapshot; a successful cycle replaces all three fields at once,
//! so no reader can observe a partially updated triple.

use vstd::prelude::*;

verus! {

/// One successfully observed snapshot: the converted price (fixed-point
/// integer in the host's chosen scale), the tick, and the observation time
/// in Unix seconds.
#[derive(Clone, Copy, Debug, PartialEq, Eq, Structural)]
pub struct PriceSample {
    pub price: u128,
    pub tick: i32,
    pub timestamp: u64,
}

/// The latest published snapshot.  Before the first successful cycle all
/// fields are zero.
#[derive(Clone, Copy, Debug, PartialEq, Eq, Structural)]
pub struct PriceTracker {
    pub current_price: u128,
    pub current_tick: i32,
    pub last_update: u64,
}

/// The tracker after one polling cycle: a successful read publishes the
/// whole sample, a failed read leaves the tracker as it was.
pub open spec fn step(t: PriceTracker, outcome: Option<PriceSample>) -> PriceTracker {
    match outcome {
        Some(s) => PriceTracker {
            current_price: s.price,
            current_tick: s.tick,
            last_update: s.timestamp,
        },
        None => t,
    }
}

/// The tracker after a whole sequence of polling cycles, applied in order.
pub open spec fn run(t: PriceTracker, outcomes: Seq<Option<PriceSample>>) -> PriceTracker
    decreases outcomes.len(),
{
    if outcomes.len() == 0 {
        t
    } else {
        step(run(t, outcomes.drop_last()), outcomes.last())
    }
}

/// The polling schedule's guarantee: every successful observation is no
/// older than the tracker's starting point, and any two successful
/// observations are at least `period` seconds apart, in cycle order.
pub open spec fn observations_spaced(
    t: PriceTracker,
    outcomes: Seq<Option<PriceSample>>,
    period: u64,
) -> bool {
    &&& forall|i: int|
        0 <= i < outcomes.len() ==> match #[trigger] outcomes[i] {
            Some(s) => s.timestamp >= t.last_update,
            None => true,
        }
    &&& forall|i: int, j: int|
        0 <= i < j < outcomes.len() ==> match (#[trigger] outcomes[i], #[trigger] outcomes[j]) {
            (Some(si), Some(sj)) => si.timestamp + period <= sj.timestamp,
            _ => true,
        }
}

impl PriceTracker {
    /// A fresh tracker, idle until the first successful cycle.
    pub fn new() -> (r: PriceTracker)
        ensures
            r.current_price == 0,
            r.current_tick == 0,
            r.last_update == 0,
    {
        PriceTracker { current_price: 0, current_tick: 0, last_update: 0 }
    }

    /// Records the outcome of one polling cycle.  A failed read (`None`)
    /// performs no state mutation at all: the previous snapshot stays
    /// visible and the observation time does not advance.  A successful
    /// read publishes price, tick and timestamp as one atomic snapshot.
    pub fn apply_cycle(&mut self, outcome: Option<PriceSample>)
        ensures
            *final(self) == step(*old(self), outcome),
            outcome is None ==> *final(self) == *old(self),
            outcome matches Some(s) ==> final(self).current_price == s.price
                && final(self).current_tick == s.tick && final(self).last_update == s.timestamp,
    {
        match outcome {
            Some(s) => {
                *self = PriceTracker {
                    current_price: s.price,
                    current_tick: s.tick,
                    last_update: s.timestamp,
                };
            },
            None => {},
        }
    }

    /// The latest published price.
    pub fn get_current_price(&self) -> (r: u128)
        ensures
            r == self.current_price,
    {
        self.current_price
    }

    /// The latest published tick.
    pub fn get_current_tick(&self) -> (r: i32)
        ensures
            r == self.current_tick,
    {
        self.current_tick
    }

    /// The observation time of the latest published snapshot, in Unix
    /// seconds.
    pub fn get_last_update(&self) -> (r: u64)
        ensures
            r == self.last_update,
    {
        self.last_update
    }
}

/// After any number of failed cycles the tracker is exactly what it was:
/// readers keep the previous snapshot and the observation time never
/// advances.
pub proof fn lemma_failed_cycles_keep_snapshot(t: PriceTracker, outcomes: Seq<Option<PriceSample>>)
    requires
        forall|i: int| 0 <= i < outcomes.len() ==> outcomes[i] is None,
    ensures
        run(t, outcomes) == t,
    decreases outcomes.len(),
{
    if outcomes.len() > 0 {
        lemma_failed_cycles_keep_snapshot(t, outcomes.drop_last());
    }
}

proof fn lemma_run_facts(t: PriceTracker, outcomes: Seq<Option<PriceSample>>, period: u64)
    requires
        observations_spaced(t, outcomes, period),
    ensures
        forall|i: int|
            0 <= i < outcomes.len() ==> match outcomes[i] {
                Some(s) => #[trigger] run(t, outcomes.take(i + 1)).last_update == s.timestamp,
                None => run(t, outcomes.take(i + 1)).last_update == run(
                    t,
                    outcomes.take(i),
                ).last_update,
            },
        forall|i: int|
            0 <= i <= outcomes.len() ==> #[trigger] run(t, outcomes.take(i)).last_update
                == t.last_update || exists|j: int|
                0 <= j < i && match #[trigger] outcomes[j] {
                    Some(s) => run(t, outcomes.take(i)).last_update == s.timestamp,
                    None => false,
                },
        forall|i: int|
            0 <= i < outcomes.len() ==> #[trigger] run(t, outcomes.take(i)).last_update <= run(
                t,
                outcomes.take(i + 1),
            ).last_update,
    decreases outcomes.len(),
{
    if outcomes.len() == 0 {
        assert(outcomes.take(0) =~= outcomes);
    } else {
        let prev = outcomes.drop_last();
        assert(observations_spaced(t, prev, period));
        lemma_run_facts(t, prev, period);
        assert forall|i: int| 0 <= i <= outcomes.len() implies outcomes.take(i).len() == i by {}
        assert forall|i: int| 0 <= i < outcomes.len() implies prev.take(i) =~= outcomes.take(
            i,
        ) by {}
        let n = outcomes.len() as int;
        assert(outcomes.take(n) =~= outcomes);
        assert(run(t, outcomes.take(n)) == step(run(t, outcomes.take(n - 1)), outcomes[n - 1]));
        let u = run(t, outcomes.take(n - 1)).last_update;
        match outcomes[n - 1] {
            Some(s) => {
                assert(u == t.last_update || exists|j: int|
                    0 <= j < n - 1 && match #[trigger] outcomes[j] {
                        Some(sj) => u == sj.timestamp,
                        None => false,
                    });
                assert(s.timestamp >= u);
            },
            None => {},
        }
    }
}

/// Across any run whose successful observations respect the polling
/// schedule, the published observation time never decreases: after more
/// cycles, `get_last_update` is at least what it was after fewer.
pub proof fn lemma_last_update_monotone(
    t: PriceTracker,
    outcomes: Seq<Option<PriceSample>>,
    period: u64,
    i: int,
    j: int,
)
    requires
        observations_spaced(t, outcomes, period),
        0 <= i <= j <= outcomes.len(),
    ensures
        run(t, outcomes.take(i)).last_update <= run(t, outcomes.take(j)).last_update,
    decreases j - i,
{
    if i < j {
        lemma_run_facts(t, outcomes, period);
        lemma_last_update_monotone(t, outcomes, period, i, j - 1);
    }
}

/// Across any run whose successful observations respect the polling
/// schedule, the snapshots published by two successful cycles are at least
/// one polling period apart.
pub proof fn lemma_successful_updates_spaced(
    t: PriceTracker,
    outcomes: Seq<Option<PriceSample>>,
    period: u64,
    i: int,
    j: int,
)
    requires
        observations_spaced(t, outcomes, period),
        0 <= i < j < outcomes.len(),
        outcomes[i] is Some,
        outcomes[j] is Some,
    ensures
        run(t, outcomes.take(i + 1)).last_update + period <= run(
            t,
            outcomes.take(j + 1),
        ).last_update,
{
    lemma_run_facts(t, outcomes, period);
}

} // verus!
