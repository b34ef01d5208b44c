//! The generator's random source, and the draws the composition logic makes
//! from it.
use vstd::prelude::*;
use bevy_prng::WyRand;
use rand::seq::IteratorRandom;
use rand::{Rng, SeedableRng};

verus! {

/// bevy_prng's `WyRand` generator, carried as an opaque value.
#[verifier::external_type_specification]
#[verifier::external_body]
pub struct ExWyRand(WyRand);

/// The seeded random source shared by all generation steps.
pub struct GenRng {
    pub rng: WyRand,
}

/// Relies on `SeedableRng::seed_from_u64` for bevy_prng's WyRand: a
/// generator seeded from `seed`.
#[verifier::external_body]
fn wyrand_from_seed(seed: u64) -> WyRand {
    WyRand::seed_from_u64(seed)
}

/// Relies on `rand::seq::index::sample`: exactly `amount` distinct indices
/// below `length`, in random order. It panics when `amount > length`.
#[verifier::external_body]
pub(crate) fn sample_indices(rng: &mut WyRand, length: usize, amount: usize) -> (r: Vec<usize>)
    requires
        amount <= length,
    ensures
        r@.len() == amount,
        r@.no_duplicates(),
        forall|i: int| 0 <= i < r@.len() ==> r@[i] < length,
{
    rand::seq::index::sample(rng, length, amount).into_vec()
}

/// Relies on `Rng::gen::<u64>`: any 64-bit value.
#[verifier::external_body]
pub(crate) fn draw_u64(rng: &mut WyRand) -> u64 {
    rng.gen::<u64>()
}

impl GenRng {
    pub fn new(seed: u64) -> GenRng {
        GenRng { rng: wyrand_from_seed(seed) }
    }

    pub fn rng_mut(&mut self) -> (r: &mut WyRand)
        ensures
            *r == old(self).rng,
            final(self).rng == *final(r),
    {
        &mut self.rng
    }
}

/// Relies on `IteratorRandom::choose_multiple`: `amount` of the items, or
/// all of them when there are fewer, each item taken at most once.
#[verifier::external_body]
pub(crate) fn choose_multiple_of(rng: &mut WyRand, items: Vec<u64>, amount: usize) -> (r: Vec<u64>)
    ensures
        r@.len() == if amount < items@.len() { amount as int } else { items@.len() as int },
        r@.to_multiset().subset_of(items@.to_multiset()),
{
    items.into_iter().choose_multiple(rng, amount)
}

} // verus!
