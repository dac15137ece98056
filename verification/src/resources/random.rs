//! The chances of the game.

use rand::rngs::StdRng;
use rand::{Rng, SeedableRng};
use vstd::prelude::*;
use crate::units::UNIT;

verus! {

/// An enemy appears less than this far, along each axis, from the middle of
/// the place where enemies appear.
pub const SPAWN_SPREAD: i64 = 10 * UNIT;

#[verifier::external_type_specification]
#[verifier::external_body]
pub struct ExStdRng(StdRng);

/// The generator from which the game draws its chances. One seed gives one
/// run of the game.
pub struct RandomSource {
    rng: StdRng,
}

/// `rand::SeedableRng::seed_from_u64` for `rand::rngs::StdRng`: a generator
/// made from a seed. Nothing is claimed of it.
#[verifier::external_body]
fn seeded(seed: u64) -> StdRng {
    StdRng::seed_from_u64(seed)
}

/// `rand::Rng::gen_range` on a half-open range of `i64`: some number of the
/// range. The call panics on an empty range, which `requires` leaves out.
#[verifier::external_body]
fn draw(rng: &mut StdRng, low: i64, high: i64) -> (drawn: i64)
    requires
        low < high,
    ensures
        low <= drawn < high,
{
    rng.gen_range(low..high)
}

impl RandomSource {
    /// A generator made from a seed.
    pub fn new(seed: u64) -> RandomSource {
        RandomSource { rng: seeded(seed) }
    }

    /// Whether a pair of numbers can be drawn as the offset of an enemy.
    pub open spec fn is_offset(offset: [i64; 2]) -> bool {
        &&& -SPAWN_SPREAD <= offset[0] < SPAWN_SPREAD
        &&& -SPAWN_SPREAD <= offset[1] < SPAWN_SPREAD
    }

    /// Draws how far from the middle of their place the next enemy appears.
    pub fn spawn_offset(&mut self) -> (offset: [i64; 2])
        ensures
            Self::is_offset(offset),
    {
        let x = draw(&mut self.rng, -SPAWN_SPREAD, SPAWN_SPREAD);
        let y = draw(&mut self.rng, -SPAWN_SPREAD, SPAWN_SPREAD);
        [x, y]
    }
}

} // verus!
