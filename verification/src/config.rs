//! The immutable process configuration.

use vstd::prelude::*;

verus! {

use crate::rebalancer::Threshold;

/// Everything the host supplies at startup, fixed for the process lifetime.
pub struct Config {
    pub pool_address: String,
    pub token_a: String,
    pub token_b: String,
    pub tick_spacing: i32,
    pub num_ticks: u32,
    pub rebalance_threshold: Threshold,
    pub poll_interval_secs: u64,
    pub ooga_booga_endpoint: String,
}

impl Default for Config {
    /// The documented defaults: tick spacing 60, a ten-tick range, a 5%
    /// rebalance threshold, a 30-second polling interval, and empty
    /// addresses to be filled in by the host.
    fn default() -> (r: Config)
        ensures
            r.pool_address@.len() == 0,
            r.token_a@.len() == 0,
            r.token_b@.len() == 0,
            r.tick_spacing == 60,
            r.num_ticks == 10,
            r.rebalance_threshold == (Threshold { num: 5, den: 100 }),
            r.rebalance_threshold.well_formed(),
            r.poll_interval_secs == 30,
            r.ooga_booga_endpoint@ == "https://api.oogabooga.com"@,
    {
        Config {
            pool_address: String::new(),
            token_a: String::new(),
            token_b: String::new(),
            tick_spacing: 60,
            num_ticks: 10,
            rebalance_threshold: Threshold { num: 5, den: 100 },
            poll_interval_secs: 30,
            ooga_booga_endpoint: "https://api.oogabooga.com".to_owned(),
        }
    }
}

} // verus!
