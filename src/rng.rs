//! The source of randomness: a seeded xorshift generator.

use vstd::prelude::*;

use rand::{Rng, SeedableRng, XorShiftRng};

use crate::creatures::{Creature, CreatureID};

verus! {

/// rand's `XorShiftRng`, held as an opaque value.
#[verifier::external_type_specification]
#[verifier::external_body]
pub struct ExXorShiftRng(XorShiftRng);

/// An explicitly owned random generator, passed to whatever draws from it.
pub struct RngState {
    rng: XorShiftRng,
}

/// Whether four words make a seed that the generator accepts.
pub open spec fn seed_ok(a: u32, b: u32, c: u32, d: u32) -> bool {
    !(a == 0 && b == 0 && c == 0 && d == 0)
}

impl RngState {
    /// Relies on rand's `XorShiftRng::from_seed`, which panics on an all-zero seed.
    #[verifier::external_body]
    pub fn new(a: u32, b: u32, c: u32, d: u32) -> (r: RngState)
        requires
            seed_ok(a, b, c, d),
    {
        RngState { rng: SeedableRng::from_seed([a, b, c, d]) }
    }

    /// The generator that a fresh population starts from.
    pub fn default_seed() -> (r: RngState) {
        RngState::new(11, 17, 23, 51)
    }

    /// A generator seeded from the ancestry and genomes of two creatures,
    /// so that what it draws is the same for the same pair. An all-zero
    /// seed, which the generator refuses, is replaced by the default one.
    pub fn from_creatures(a: &Creature, b: &Creature) -> (r: RngState)
        requires
            a.dna.wf(),
            b.dna.wf(),
    {
        let a_p = CreatureID::parents_to_u32(a.parents);
        let b_p = CreatureID::parents_to_u32(b.parents);
        let a_h = a.hash();
        let b_h = b.hash();
        if !(a_p == 0 && b_p == 0 && a_h == 0 && b_h == 0) {
            RngState::new(a_p, b_p, a_h, b_h)
        } else {
            RngState::default_seed()
        }
    }

    /// A new generator seeded from four draws of this one.
    pub fn spawn(&mut self) -> (r: RngState) {
        let a = self.rand_u32();
        let b = self.rand_u32();
        let c = self.rand_u32();
        let d = self.rand_u32();
        if !(a == 0 && b == 0 && c == 0 && d == 0) {
            RngState::new(a, b, c, d)
        } else {
            RngState::default_seed()
        }
    }

    /// Relies on rand's `Rng::gen::<u32>`: any word.
    #[verifier::external_body]
    pub(crate) fn rand_u32(&mut self) -> (r: u32) {
        self.rng.gen::<u32>()
    }

    /// Relies on rand's `Rng::gen::<bool>`: a fair coin.
    #[verifier::external_body]
    pub(crate) fn rand_bool(&mut self) -> (r: bool) {
        self.rng.gen::<bool>()
    }

    /// Relies on rand's `Rng::gen_range`: a value in `[low, high)`; it
    /// panics unless `low < high`.
    #[verifier::external_body]
    fn gen_below(&mut self, low: usize, high: usize) -> (r: usize)
        requires
            low < high,
        ensures
            low <= r < high,
    {
        self.rng.gen_range(low, high)
    }

    /// A value in `[low, high)`, or `low` when the range is empty.
    pub fn rand_range(&mut self, low: usize, high: usize) -> (r: usize)
        requires
            low <= high,
        ensures
            low == high ==> r == low,
            low < high ==> low <= r < high,
    {
        if low == high {
            low
        } else {
            self.gen_below(low, high)
        }
    }

    /// A value in `[low, high]`, both ends included.
    pub fn uniform(&mut self, low: usize, high: usize) -> (r: usize)
        requires
            low <= high,
            high < usize::MAX,
        ensures
            low <= r <= high,
    {
        self.gen_below(low, high + 1)
    }

    /// Relies on rand's `Rng::gen_weighted_bool`: true with a chance of one
    /// in `n`, always true for `n <= 1`.
    #[verifier::external_body]
    pub fn rand_weighted_bool(&mut self, n: u32) -> (r: bool)
        ensures
            n <= 1 ==> r,
    {
        self.rng.gen_weighted_bool(n)
    }

    /// Relies on rand's `Rng::shuffle`, which permutes the slice in place.
    #[verifier::external_body]
    pub fn shuffle(&mut self, values: &mut Vec<Creature>)
        ensures
            final(values)@.to_multiset() == old(values)@.to_multiset(),
    {
        self.rng.shuffle(values.as_mut_slice())
    }
}

} // verus!
