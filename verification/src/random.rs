//! The game's sources of chance: a random number generator, shuffling, a
//! shuffle drawn from a seed, and fresh ids.
use rand::seq::SliceRandom;
use rand::SeedableRng;
use vstd::prelude::*;

use crate::types::Language;

verus! {

/// `rand::rngs::ThreadRng`, the thread's random number generator.
#[verifier::external_type_specification]
#[verifier::external_body]
pub struct ExThreadRng(rand::rngs::ThreadRng);

/// `rand::thread_rng()`: a handle to the thread's generator. Nothing is
/// stated of it.
#[verifier::external_body]
pub(crate) fn thread_rng() -> (r: rand::rngs::ThreadRng) {
    rand::thread_rng()
}

/// `SliceRandom::shuffle` from rand: the languages are put in a random order,
/// which rand documents as a permutation; so the vector keeps the same
/// languages, each as often as before. Which order comes out is not stated.
#[verifier::external_body]
pub(crate) fn shuffle_languages(v: &mut Vec<Language>, rng: &mut rand::rngs::ThreadRng)
    ensures
        final(v)@.to_multiset() == old(v)@.to_multiset(),
{
    v.as_mut_slice().shuffle(rng);
}

/// `uuid::Uuid::new_v4().as_u128()`: a random version-4 UUID as a number.
/// Nothing is stated of the value.
#[verifier::external_body]
pub(crate) fn random_id() -> (id: u128) {
    uuid::Uuid::new_v4().as_u128()
}

/// The order into which rand's `SliceRandom::shuffle` puts `languages` when it
/// draws from rand_chacha's `ChaCha8Rng` made by `SeedableRng::seed_from_u64`
/// with `seed`: a permutation fixed by the two alone, which rand_chacha
/// documents as reproducible; the algorithm is named here, not restated.
pub uninterp spec fn seeded_order(languages: Seq<Language>, seed: u64) -> Seq<Language>;

/// Shuffles `v` with a `ChaCha8Rng` seeded by `seed`: the result is
/// `seeded_order` of the languages and the seed, and a permutation of them.
#[verifier::external_body]
pub(crate) fn shuffle_seeded(v: &mut Vec<Language>, seed: u64)
    ensures
        final(v)@ == seeded_order(old(v)@, seed),
        final(v)@.to_multiset() == old(v)@.to_multiset(),
{
    let mut rng = rand_chacha::ChaCha8Rng::seed_from_u64(seed);
    v.as_mut_slice().shuffle(&mut rng);
}

} // verus!
