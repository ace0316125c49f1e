//! Random draws, from the thread-local generator of the `rand` crate.

use vstd::prelude::*;
use rand::RngExt;
use rand::rngs::ThreadRng;

verus! {

/// The thread-local random number generator of the `rand` crate.
#[verifier::external_type_specification]
#[verifier::external_body]
pub struct ExThreadRng(ThreadRng);

/// Draws with `RngExt::random_range(low..=high)`, which returns a value of the
/// inclusive range (uniformly distributed) and panics when the range is
/// empty, hence `low <= high`. Which value comes out is left open.
#[verifier::external_body]
pub(crate) fn random_in_range(rng: &mut ThreadRng, low: u32, high: u32) -> (r: u32)
    requires
        low <= high,
    ensures
        low <= r <= high,
{
    rng.random_range(low..=high)
}

} // verus!
