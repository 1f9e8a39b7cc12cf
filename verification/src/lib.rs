//! Decision core of a concentrated-liquidity position manager.
//!
//! The crate turns raw AMM pool state into a price and a tick, places a tick
//! range around the current tick, sizes the liquidity that a pair of token
//! amounts can back, tracks the latest observed price, and decides when a
//! position has drifted far enough from its target price to be rebalanced.
//! All arithmetic is exact fixed-point integer arithmetic; every function
//! carries a contract that pins its result down.

pub mod config;
pub mod errors;
pub mod liquidity;
pub mod liquidity_provider;
pub mod pool;
pub mod price;
pub mod price_tracker;
pub mod rebalancer;
pub mod wide;
