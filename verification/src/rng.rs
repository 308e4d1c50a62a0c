//! The simulation's random source: a seedable generator drawn from for spawn
//! positions and velocities, so that runs can be replayed deterministically.

use vstd::prelude::*;
use rand::Rng;
use rand::SeedableRng;

verus! {

#[verifier::external_type_specification]
#[verifier::external_body]
pub struct ExStdRng(rand::rngs::StdRng);

/// An owned, seedable source of uniform draws. One is threaded into every
/// tick; nothing else in the simulation is nondeterministic.
pub struct SimRng {
    rng: rand::rngs::StdRng,
}

impl SimRng {
    /// Relies on rand's `StdRng::seed_from_u64` to build a generator from a
    /// seed; nothing can be promised of the values it will produce.
    #[verifier::external_body]
    pub fn from_seed(seed: u64) -> SimRng {
        SimRng { rng: rand::rngs::StdRng::seed_from_u64(seed) }
    }

    /// Relies on rand's `Rng::gen_range`: a draw from `lo..=hi` lies in that
    /// range, and only an empty range makes it panic.
    #[verifier::external_body]
    pub(crate) fn draw(&mut self, lo: i64, hi: i64) -> (r: i64)
        requires
            lo <= hi,
        ensures
            lo <= r <= hi,
    {
        self.rng.gen_range(lo..=hi)
    }
}

} // verus!
