//! Tunable knobs of the simulation, threaded explicitly into setup and into
//! every system that reads a threshold or a rate.
//!
//! Units: vital meters are measured in sub-points (1/10,000 of a point, so a
//! full meter holds 1,000,000 sub-points); time is in milliseconds; rates are
//! in sub-points per millisecond. A rate of `r` points per second is written
//! as `r * 10` sub-points per millisecond.

use vstd::prelude::*;

verus! {

/// Sub-points per meter point.
pub const SUBUNITS: u64 = 10_000;

/// Upper clamp of the hunger, health and energy meters (100 points).
pub const VITALS_MAX: u64 = 100 * SUBUNITS;

/// Ceiling on shop prices kept by the price engine; keeps the exact
/// rational price formula inside machine arithmetic.
pub const PRICE_LIMIT: u64 = 1_000_000_000_000;

/// Ceiling on the per-item sales/purchases counters, for the same reason.
pub const COUNT_LIMIT: u64 = 1_000_000_000_000;

pub struct Config {
    /// Hunger lost per millisecond (default: 2 points per second).
    pub hunger_decay_rate: u64,
    /// Health lost per millisecond while starving (default: 1 point per second).
    pub starvation_rate: u64,
    /// Health regained per millisecond while fed (default: 1 point per second).
    pub recovery_rate: u64,
    /// Energy regained per millisecond when Healthy (default: 1 point per second).
    pub energy_healthy_rate: u64,
    /// Energy regained per millisecond when Hungry but not starving
    /// (default: 0.7 points per second).
    pub energy_hungry_rate: u64,
    /// Energy regained per millisecond on the starving emergency path;
    /// half of the gain is paid from health (default: 10 points per second).
    pub energy_boost_rate: u64,
    /// Hunger level below which an agent is classified Hungry
    /// (default: 30 points).
    pub hungry_threshold: u64,
    /// Gold level steering the buy/sell/plant decisions (default: 30).
    pub gold_threshold: u64,
    /// Uninterrupted dwell time that completes a planting (default: 10 s).
    pub planting_duration_ms: u64,
    /// Units of the commodity granted by a completed planting (default: 10).
    pub planting_yield: u64,
    /// Percent chance per tick that a well-off agent plants anyway (default: 5).
    pub planting_chance_pct: u64,
    /// Transaction count that triggers a price update (default: 5).
    pub transaction_threshold: u64,
    /// Elapsed simulated time after which price updates fire regardless of
    /// activity (default: 20 s).
    pub price_window_ms: u64,
    /// Gold granted to each agent at setup (default: 100).
    pub start_gold: u64,
    pub num_countries: usize,
    pub num_states: usize,
    pub num_cities: usize,
    pub num_persons: usize,
    pub num_shops: usize,
}

impl Default for Config {
    fn default() -> (c: Config)
        ensures
            c.hunger_decay_rate == 20,
            c.starvation_rate == 10,
            c.recovery_rate == 10,
            c.energy_healthy_rate == 10,
            c.energy_hungry_rate == 7,
            c.energy_boost_rate == 100,
            c.hungry_threshold == 30 * SUBUNITS,
            c.gold_threshold == 30,
            c.planting_duration_ms == 10_000,
            c.planting_yield == 10,
            c.planting_chance_pct == 5,
            c.transaction_threshold == 5,
            c.price_window_ms == 20_000,
            c.start_gold == 100,
            c.num_countries == 1,
            c.num_states == 2,
            c.num_cities == 3,
            c.num_persons == 10,
            c.num_shops == 3,
    {
        Config {
            hunger_decay_rate: 20,
            starvation_rate: 10,
            recovery_rate: 10,
            energy_healthy_rate: 10,
            energy_hungry_rate: 7,
            energy_boost_rate: 100,
            hungry_threshold: 30 * SUBUNITS,
            gold_threshold: 30,
            planting_duration_ms: 10_000,
            planting_yield: 10,
            planting_chance_pct: 5,
            transaction_threshold: 5,
            price_window_ms: 20_000,
            start_gold: 100,
            num_countries: 1,
            num_states: 2,
            num_cities: 3,
            num_persons: 10,
            num_shops: 3,
        }
    }
}

} // verus!
