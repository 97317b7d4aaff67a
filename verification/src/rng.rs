//! The simulation's one source of randomness: uniform draws from the
//! process-wide generator, and the bundle of draws one simulation step
//! may consume. Tests build the bundle directly to replay a chosen
//! outcome; the host samples a fresh one each frame.

use rand::Rng;
use vstd::prelude::*;

verus! {

use crate::arena::ARENA_WIDTH;

/// Relies on rand::Rng::gen_range over `0..n` on the thread-local
/// generator: a uniform draw strictly below `n` (the call panics only
/// on an empty range, which the precondition rules out). Nothing more
/// is assumed of a random value.
#[verifier::external_body]
pub(crate) fn rand_below(n: u64) -> (r: u64)
    requires
        n >= 1,
    ensures
        r < n,
{
    rand::thread_rng().gen_range(0..n)
}

/// The random draws one simulation step may consume: a horizontal
/// spawn position and variant picks for a rock, and the same for a
/// crate. A step only reads them on the frames where a spawn timer
/// fires.
#[derive(Clone, Copy, Debug, PartialEq, Eq, Structural)]
pub struct FrameRandom {
    pub rock_x: i64,
    pub rock_size_pick: u8,
    pub rock_speed_pick: u8,
    pub crate_x: i64,
    pub crate_kind_pick: u8,
}

impl FrameRandom {
    /// The ranges the draws come from: positions across the arena,
    /// picks within their small enumerations.
    pub open spec fn wf(self) -> bool {
        &&& 0 <= self.rock_x < ARENA_WIDTH
        &&& 0 <= self.crate_x < ARENA_WIDTH
        &&& self.rock_size_pick < 3
        &&& self.rock_speed_pick < 3
        &&& self.crate_kind_pick < 2
    }

    /// Draw a fresh bundle from the process-wide generator.
    pub fn sample() -> (r: FrameRandom)
        ensures
            r.wf(),
    {
        FrameRandom {
            rock_x: rand_below(ARENA_WIDTH as u64) as i64,
            rock_size_pick: rand_below(3) as u8,
            rock_speed_pick: rand_below(3) as u8,
            crate_x: rand_below(ARENA_WIDTH as u64) as i64,
            crate_kind_pick: rand_below(2) as u8,
        }
    }
}

} // verus!
