//! Trusted boundary around the pseudo-random generator of the `rand` crate.
//!
//! The world owns a seedable generator and draws from it during procedural
//! course generation. Nothing is assumed about the drawn values beyond the
//! bounds that `rand`'s own source guarantees, so everything built on these
//! draws is verified for every possible outcome.

use rand::rngs::StdRng;
use rand::Rng;
use rand::SeedableRng;
use vstd::prelude::*;

verus! {

/// `rand::rngs::StdRng`, declared so that a world can own one. Opaque to the
/// verifier: nothing is known of a value of this type.
#[verifier::external_type_specification]
#[verifier::external_body]
pub struct ExStdRng(StdRng);

/// Relies on `rand::SeedableRng::seed_from_u64` for `StdRng`: builds a
/// generator from a seed. Nothing is assumed of the values it will produce.
#[verifier::external_body]
pub(crate) fn rng_from_seed(seed: u64) -> StdRng {
    StdRng::seed_from_u64(seed)
}

/// Relies on `rand::Rng::gen_ratio`: returns true with probability
/// `numerator / denominator`. It panics when the denominator is zero or
/// exceeded by the numerator, so those inputs are excluded. Its Bernoulli
/// sampler returns false whenever the ratio is zero and true whenever it is
/// one.
#[verifier::external_body]
pub(crate) fn gen_ratio(rng: &mut StdRng, numerator: u32, denominator: u32) -> (r: bool)
    requires
        0 < denominator,
        numerator <= denominator,
    ensures
        numerator == 0 ==> !r,
        numerator == denominator ==> r,
{
    rng.gen_ratio(numerator, denominator)
}

/// Relies on `rand::Rng::gen_range` on a half-open `u32` range: returns a
/// uniformly drawn value in `lo..hi`. It panics on an empty range, so that
/// is excluded.
#[verifier::external_body]
pub(crate) fn gen_range(rng: &mut StdRng, lo: u32, hi: u32) -> (r: u32)
    requires
        lo < hi,
    ensures
        lo <= r < hi,
{
    rng.gen_range(lo..hi)
}

} // verus!
