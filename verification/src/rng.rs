//! The library's only source of randomness.
//!
//! Every operation that draws randomness receives a `RngSource` explicitly;
//! nothing keeps a hidden global generator.  A caller that fixes the seed
//! therefore gets a bit-for-bit reproducible run.
//!
//! The two sampling methods are the trusted boundary to the `rand` crate:
//! their contracts state only the range that `rand` documents for
//! `Rng::gen_range`, never which value comes out.

use vstd::prelude::*;
use rand::Rng;
use rand::SeedableRng;

verus! {

/// Declaration of `rand`'s seedable standard generator, so that a value of it
/// can sit inside [`RngSource`].  The type is opaque to the verifier.
#[verifier::external_type_specification]
#[verifier::external_body]
pub struct ExStdRng(rand::rngs::StdRng);

/// A stateful pseudo-random generator, threaded explicitly through every
/// operation that needs randomness.
pub struct RngSource {
    inner: rand::rngs::StdRng,
}

impl RngSource {
    /// Builds a generator from a seed.
    ///
    /// Relies on `rand::rngs::StdRng::seed_from_u64`: equal seeds give equal
    /// streams, which makes whole runs replayable.
    #[verifier::external_body]
    pub fn seeded(seed: u64) -> RngSource {
        RngSource { inner: rand::rngs::StdRng::seed_from_u64(seed) }
    }

    /// Draws an integer from the closed range `[lo, hi]`.
    ///
    /// Relies on `rand::Rng::gen_range`: the sample lies within the given
    /// range, which is nonempty because `lo <= hi`.
    #[verifier::external_body]
    pub(crate) fn sample_range(&mut self, lo: i64, hi: i64) -> (r: i64)
        requires
            lo <= hi,
        ensures
            lo <= r <= hi,
    {
        self.inner.gen_range(lo..=hi)
    }

    /// Draws an integer below the (positive) bound `n`.
    ///
    /// Relies on `rand::Rng::gen_range`: the sample lies within `[0, n)`,
    /// which is nonempty because `n > 0`.
    #[verifier::external_body]
    pub(crate) fn sample_below(&mut self, n: u128) -> (r: u128)
        requires
            n > 0,
        ensures
            r < n,
    {
        self.inner.gen_range(0..n)
    }
}

} // verus!
