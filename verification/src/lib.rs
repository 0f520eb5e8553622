//! A small autonomous-economy simulation engine.
//!
//! Agents ("persons") experience hunger, health and energy dynamics, decide
//! their next action through a reasoning policy, and trade a commodity
//! through shops whose prices adapt to supply and demand. Agents and shops
//! live in a geographic containment hierarchy (country > state > city)
//! used for bottom-up statistics.
//!
//! All quantities are integers: vital meters (hunger, health, energy) are
//! measured in sub-points of 1/10,000 of a point, so the 0..=100 point range
//! becomes 0..=1,000,000 sub-points; simulated time is counted in
//! milliseconds; per-second rates become sub-points per millisecond.

pub mod arith;
pub mod components;
pub mod config;
pub mod laws;
pub mod market;
pub mod pricing;
pub mod processes;
pub mod reasoning;
mod rng;
pub mod stats;
pub mod vitals;
pub mod world;
