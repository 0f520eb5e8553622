//! Saturating and clamped integer helpers shared by the simulation systems.
//!
//! The engine is designed to run indefinitely on any input, so every
//! accumulation either saturates at a stated ceiling or is clamped into the
//! meter range; nothing panics.

use vstd::prelude::*;

verus! {

/// `a + b`, saturating at `u64::MAX`.
pub open spec fn spec_sat_add(a: u64, b: u64) -> u64 {
    if a + b > u64::MAX {
        u64::MAX
    } else {
        (a + b) as u64
    }
}

/// `a * b`, saturating at `u64::MAX`.
pub open spec fn spec_sat_mul(a: u64, b: u64) -> u64 {
    if a * b > u64::MAX {
        u64::MAX
    } else {
        (a * b) as u64
    }
}

/// `a + b`, saturating at `cap` (for counters that must stay below a limit).
pub open spec fn spec_capped_add(a: u64, b: u64, cap: u64) -> u64 {
    if a + b > cap {
        cap
    } else {
        (a + b) as u64
    }
}

pub fn sat_add(a: u64, b: u64) -> (r: u64)
    ensures
        r == spec_sat_add(a, b),
{
    a.saturating_add(b)
}

pub fn sat_mul(a: u64, b: u64) -> (r: u64)
    ensures
        r == spec_sat_mul(a, b),
{
    proof {
        assert((a as int) * (b as int) <= (u64::MAX as int) * (u64::MAX as int))
            by (nonlinear_arith)
            requires
                a as int <= u64::MAX as int,
                b as int <= u64::MAX as int,
        ;
    }
    let wide: u128 = (a as u128) * (b as u128);
    if wide > u64::MAX as u128 {
        u64::MAX
    } else {
        wide as u64
    }
}

pub fn capped_add(a: u64, b: u64, cap: u64) -> (r: u64)
    ensures
        r == spec_capped_add(a, b, cap),
{
    if b > cap {
        cap
    } else if a > cap - b {
        cap
    } else {
        a + b
    }
}

} // verus!
