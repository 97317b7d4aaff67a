//! The cosmetic background starfield. Stars drift down the arena and,
//! instead of being removed, wrap from just below the bottom back to
//! just above the top; they are never destroyed.

use vstd::prelude::*;

verus! {

use crate::arena::{coord_ok, ARENA_HEIGHT, ARENA_WIDTH, MAX_STEP_MS, MILLI};
use crate::rng::rand_below;

/// How many stars the background holds.
pub const STAR_COUNT: u32 = 100;

/// Downward speed in world units per second.
pub const STAR_SPEED: i64 = 40;

/// A star wraps once it falls this far below the arena bottom...
pub const STAR_WRAP_Y: i64 = -10 * MILLI;

/// ...and reappears this high above the arena top.
pub const STAR_RESET_Y: i64 = ARENA_HEIGHT + 10 * MILLI;

/// A background star: a centre position in milli-units.
#[derive(Clone, Copy, Debug, PartialEq, Eq, Structural)]
pub struct Star {
    pub x: i64,
    pub y: i64,
}

impl Star {
    /// A star stays within the arena's width and within the wrap band
    /// vertically.
    pub open spec fn wf(self) -> bool {
        0 <= self.x < ARENA_WIDTH && STAR_WRAP_Y <= self.y <= STAR_RESET_Y
    }
}

/// Scatter the background stars uniformly over the arena. The
/// positions are random, so the contract pins their number and range.
pub fn spawn_stars(stars: &mut Vec<Star>)
    ensures
        final (stars)@.len() == old(stars)@.len() + STAR_COUNT,
        final (stars)@.subrange(0, old(stars)@.len() as int) == old(stars)@,
        forall|j: int|
            old(stars)@.len() <= j < final (stars)@.len() ==> {
                &&& 0 <= (#[trigger] final (stars)@[j]).x < ARENA_WIDTH
                &&& 0 <= final (stars)@[j].y < ARENA_HEIGHT
            },
{
    let ghost orig = stars@;
    let mut i: u32 = 0;
    while i < STAR_COUNT
        invariant
            i <= STAR_COUNT,
            stars@.len() == orig.len() + i,
            stars@.subrange(0, orig.len() as int) == orig,
            forall|j: int|
                orig.len() <= j < stars@.len() ==> {
                    &&& 0 <= (#[trigger] stars@[j]).x < ARENA_WIDTH
                    &&& 0 <= stars@[j].y < ARENA_HEIGHT
                },
        decreases STAR_COUNT - i,
    {
        let x = rand_below(ARENA_WIDTH as u64) as i64;
        let y = rand_below(ARENA_HEIGHT as u64) as i64;
        stars.push(Star { x, y });
        proof {
            assert(stars@.subrange(0, orig.len() as int) =~= orig);
        }
        i = i + 1;
    }
}

/// Where a star ends up after drifting down for `delta_ms`.
pub open spec fn moved_star(s: Star, delta_ms: u64) -> Star {
    Star { y: (s.y - STAR_SPEED * delta_ms) as i64, ..s }
}

/// Advance every star down the arena by the star speed times the
/// elapsed time.
pub fn move_stars(stars: &mut Vec<Star>, delta_ms: u64)
    requires
        delta_ms <= MAX_STEP_MS,
        forall|j: int| 0 <= j < old(stars)@.len() ==> coord_ok(#[trigger] old(stars)@[j].y),
    ensures
        final (stars)@ == old(stars)@.map_values(|s: Star| moved_star(s, delta_ms)),
{
    let ghost orig = stars@;
    let mut i: usize = 0;
    while i < stars.len()
        invariant
            i <= orig.len(),
            stars@.len() == orig.len(),
            delta_ms <= MAX_STEP_MS,
            forall|j: int| 0 <= j < orig.len() ==> coord_ok(#[trigger] orig[j].y),
            forall|j: int| i <= j < orig.len() ==> stars@[j] == orig[j],
            forall|j: int| 0 <= j < i ==> stars@[j] == moved_star(orig[j], delta_ms),
        decreases orig.len() - i,
    {
        let s = stars[i];
        proof {
            assert(s == orig[i as int] && coord_ok(orig[i as int].y));
        }
        let dy = STAR_SPEED * (delta_ms as i64);
        stars.set(i, Star { y: s.y - dy, ..s });
        i = i + 1;
    }
    proof {
        assert(stars@ =~= orig.map_values(|s: Star| moved_star(s, delta_ms)));
    }
}

/// A star that has fallen below the wrap line reappears above the
/// arena; any other star is untouched.
pub open spec fn wrapped_star(s: Star) -> Star {
    if s.y < STAR_WRAP_Y {
        Star { y: STAR_RESET_Y, ..s }
    } else {
        s
    }
}

/// Wrap every star that has drifted below the arena back to the top.
pub fn send_star_to_top(stars: &mut Vec<Star>)
    ensures
        final (stars)@ == old(stars)@.map_values(|s: Star| wrapped_star(s)),
{
    let ghost orig = stars@;
    let mut i: usize = 0;
    while i < stars.len()
        invariant
            i <= orig.len(),
            stars@.len() == orig.len(),
            forall|j: int| i <= j < orig.len() ==> stars@[j] == orig[j],
            forall|j: int| 0 <= j < i ==> stars@[j] == wrapped_star(orig[j]),
        decreases orig.len() - i,
    {
        let s = stars[i];
        if s.y < STAR_WRAP_Y {
            stars.set(i, Star { y: STAR_RESET_Y, ..s });
        }
        i = i + 1;
    }
    proof {
        assert(stars@ =~= orig.map_values(|s: Star| wrapped_star(s)));
    }
}

} // verus!
