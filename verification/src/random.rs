//! The pseudo-random source of the engine.
//!
//! Every random decision of the engine is one uniformly drawn integer. The
//! generator is passed in by the caller, so that a seeded generator gives a
//! reproducible session.

use rand::rngs::StdRng;
use rand::Rng;
use vstd::prelude::*;

use crate::stimulus::{TargetAudio, TargetLocation, AUDIO_COUNT, LOCATION_COUNT};

verus! {

/// The generator of the `rand` crate that the engine draws from. Its state is
/// not visible to the proofs.
#[verifier::external_type_specification]
#[verifier::external_body]
pub struct ExStdRng(StdRng);

/// Draws a number with `rand::Rng::gen_range` from the half-open range
/// `0..bound`.
///
/// Trusted: `gen_range` panics on an empty range, hence `bound > 0`, and the
/// number it returns lies inside the range it was given. Which number comes
/// back depends on the generator's state and is left open.
#[verifier::external_body]
pub(crate) fn draw_below(rng: &mut StdRng, bound: u32) -> (drawn: u32)
    requires
        bound > 0,
    ensures
        drawn < bound,
{
    rng.gen_range(0..bound)
}

/// Flips a fair coin.
pub fn flip(rng: &mut StdRng) -> bool {
    draw_below(rng, 2) == 0
}

impl TargetAudio {
    /// Draws one of the eight letters, each with the same chance.
    pub fn random(rng: &mut StdRng) -> TargetAudio {
        TargetAudio::from_index(draw_below(rng, AUDIO_COUNT)).unwrap()
    }
}

impl TargetLocation {
    /// Draws one of the nine cells, each with the same chance.
    pub fn random(rng: &mut StdRng) -> TargetLocation {
        TargetLocation::from_index(draw_below(rng, LOCATION_COUNT)).unwrap()
    }
}

} // verus!
