//! The single randomness source of the engine.
//!
//! Shop selection, setup placement and the planting-chance draw all go
//! through [`rand_below`]; every caller states what holds of every possible
//! outcome, so the verified logic is correct for any draw.

use vstd::prelude::*;

verus! {

/// Relies on rand::random_range over `0..n`: a uniform draw from the
/// thread-local generator, always strictly below `n`; the call panics on an
/// empty range, which `n > 0` rules out.
#[verifier::external_body]
pub(crate) fn rand_below(n: u64) -> (r: u64)
    requires
        n > 0,
    ensures
        r < n,
{
    rand::random_range(0..n)
}

} // verus!
