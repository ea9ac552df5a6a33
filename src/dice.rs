use vstd::prelude::*;
use rand::rngs::StdRng;
use rand::Rng;
use rand::SeedableRng;
use crate::rates::RATE_SCALE;

verus! {

/// rand's seedable generator, carried through the simulation unopened.
#[verifier::external_type_specification]
#[verifier::external_body]
pub struct ExStdRng(StdRng);

/// Relies on rand's `SeedableRng::seed_from_u64` for `StdRng`: builds a generator
/// from a 64-bit seed; it never fails.
#[verifier::external_body]
fn std_rng_from_seed(seed: u64) -> (r: StdRng) {
    StdRng::seed_from_u64(seed)
}

/// Relies on rand's `Rng::gen_range` over `0..bound`: a value below `bound`. It
/// panics on an empty range, which `bound > 0` rules out.
#[verifier::external_body]
fn std_rng_below(rng: &mut StdRng, bound: u64) -> (r: u64)
    requires
        bound > 0,
    ensures
        r < bound,
{
    rng.gen_range(0..bound)
}

/// The source of uniform draws of one simulated player: each draw is an integer
/// in `[0, RATE_SCALE)`, compared against the fixed-point rates.
pub struct PullRng {
    rng: StdRng,
}

impl PullRng {
    /// A generator whose stream is fixed by `seed`.
    pub fn from_seed(seed: u64) -> (r: PullRng) {
        PullRng { rng: std_rng_from_seed(seed) }
    }

    /// One uniform draw below certainty.
    pub fn roll(&mut self) -> (r: u64)
        ensures
            r < RATE_SCALE,
    {
        std_rng_below(&mut self.rng, RATE_SCALE)
    }
}

} // verus!
