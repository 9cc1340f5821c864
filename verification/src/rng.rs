//! Injected pseudo-random source. All randomness the engine consumes is drawn
//! from one seeded generator passed in by the caller, so a run can be
//! reproduced by reusing the seed.

use vstd::prelude::*;

verus! {

#[verifier::external_type_specification]
#[verifier::external_body]
pub struct ExStdRng(rand::rngs::StdRng);

/// A seeded pseudo-random number generator backing the evolutionary search.
pub struct Rng {
    inner: rand::rngs::StdRng,
}

impl Rng {
    /// Relies on rand::SeedableRng::seed_from_u64: constructs a StdRng whose
    /// stream is determined by the 64-bit seed.
    #[verifier::external_body]
    pub fn from_seed(seed: u64) -> (r: Rng) {
        Rng { inner: <rand::rngs::StdRng as rand::SeedableRng>::seed_from_u64(seed) }
    }

    /// Relies on rand::Rng::gen_range over `0..n`: a uniform draw from the
    /// range, which panics only when the range is empty.
    #[verifier::external_body]
    pub(crate) fn next_below(&mut self, n: u64) -> (r: u64)
        requires
            n > 0,
        ensures
            r < n,
    {
        rand::Rng::gen_range(&mut self.inner, 0..n)
    }
}

} // verus!
