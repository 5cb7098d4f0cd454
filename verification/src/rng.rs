//! Trusted boundary around the `rand` crate. The deck engine draws random
//! indices and shuffles card sequences; each wrapper states only what holds
//! of every possible outcome of the call.

use vstd::prelude::*;

use crate::game::EncounterCard;
use rand::Rng;
use rand::seq::SliceRandom;

verus! {

/// The thread-local generator of the `rand` crate, opaque to verification.
#[verifier::external_type_specification]
#[verifier::external_body]
pub struct ExThreadRng(rand::rngs::ThreadRng);

/// Relies on rand::thread_rng: hands out the thread-local generator.
#[verifier::external_body]
pub(crate) fn new_rng() -> rand::rngs::ThreadRng {
    rand::thread_rng()
}

/// Relies on rand::Rng::gen_range over `lo..hi`: the sample lies in the
/// half-open range, whatever the generator state; the call panics on an
/// empty range, so `lo < hi` is required.
#[verifier::external_body]
pub(crate) fn rand_range(rng: &mut rand::rngs::ThreadRng, lo: usize, hi: usize) -> (r: usize)
    requires
        lo < hi,
    ensures
        lo <= r < hi,
{
    rng.gen_range(lo..hi)
}

/// Relies on rand::seq::SliceRandom::shuffle: a Fisher-Yates pass that only
/// swaps elements in place, so the sequence afterwards is a permutation of
/// the sequence before.
#[verifier::external_body]
pub(crate) fn shuffle_cards(rng: &mut rand::rngs::ThreadRng, cards: &mut Vec<EncounterCard>)
    ensures
        final(cards)@.len() == old(cards)@.len(),
        final(cards)@.to_multiset() == old(cards)@.to_multiset(),
{
    cards.shuffle(rng)
}

} // verus!
