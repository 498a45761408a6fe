//! The random number generator of a simulation.
//!
//! The generator is `rand::rngs::StdRng`. What a draw returns is not stated
//! here beyond its range: the functions that draw say what holds of every
//! outcome, and the functions that use a draw take it as an argument.

use crate::card::id::GlobalCardId;
use rand::rngs::StdRng;
use rand::seq::SliceRandom;
use rand::Rng;
use rand::SeedableRng;
use vstd::prelude::*;

verus! {

/// `rand::rngs::StdRng`: the standard generator of the `rand` crate.
#[verifier::external_type_specification]
#[verifier::external_body]
pub struct ExStdRng(StdRng);

/// `StdRng::from_rng` on the generator of the thread: a generator started
/// from the entropy of the system.
#[verifier::external_body]
pub(crate) fn entropy_rng() -> (rng: StdRng) {
    StdRng::from_rng(&mut rand::rng())
}

/// `StdRng::clone`: a generator in the same state.
#[verifier::external_body]
pub(crate) fn clone_rng(rng: &StdRng) -> (copy: StdRng) {
    rng.clone()
}

/// `Rng::random_range` on `0..bound`: a number below `bound`.
#[verifier::external_body]
pub(crate) fn roll_below(rng: &mut StdRng, bound: u32) -> (roll: u32)
    requires
        bound > 0,
    ensures
        roll < bound,
{
    rng.random_range(0..bound)
}

/// `SliceRandom::shuffle`: the list is permuted in place.
#[verifier::external_body]
pub(crate) fn shuffle_ids(ids: &mut Vec<GlobalCardId>, rng: &mut StdRng)
    ensures
        final(ids)@.to_multiset() == old(ids)@.to_multiset(),
{
    ids.shuffle(rng)
}

} // verus!
