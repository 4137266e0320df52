//! The simulation's source of randomness: thin trusted wrappers around the
//! `rand` crate's thread-local generator. Nothing is promised of a drawn
//! value beyond its range, so everything proved about the simulation holds
//! for every possible outcome.

use vstd::prelude::*;
use rand::Rng;

verus! {

#[verifier::external_type_specification]
#[verifier::external_body]
pub struct ExThreadRng(rand::rngs::ThreadRng);

/// Relies on rand::thread_rng: a handle to the lazily-seeded thread-local
/// generator.
#[verifier::external_body]
pub(crate) fn new_rng() -> rand::rngs::ThreadRng {
    rand::thread_rng()
}

/// Relies on rand::Rng::gen at type bool (the Standard distribution): a
/// uniformly random boolean. Nothing is promised of its value.
#[verifier::external_body]
pub(crate) fn rng_bool(rng: &mut rand::rngs::ThreadRng) -> bool {
    rng.gen::<bool>()
}

/// Relies on rand::Rng::gen_range over 0..n: a uniformly random index below
/// n. gen_range panics on an empty range, so n must be positive.
#[verifier::external_body]
pub(crate) fn rng_index(rng: &mut rand::rngs::ThreadRng, n: usize) -> (r: usize)
    requires
        n > 0,
    ensures
        r < n,
{
    rng.gen_range(0..n)
}

} // verus!
