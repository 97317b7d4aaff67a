//! Short-lived explosion effects, spawned wherever a rock or an
//! explosive crate is destroyed and removed when their one-shot timer
//! runs out. Explosions are cosmetic and outlive a round: leaving the
//! game state does not remove them, only their timers do.

use vstd::prelude::*;

verus! {

use crate::arena::MAX_STEP_MS;
use crate::timer::{Timer, TimerMode};

/// How long an explosion is shown, in milliseconds.
pub const EXPLOSION_LENGTH: u64 = 200;

/// An explosion effect: a centre position in milli-units and its
/// remaining-lifetime timer.
#[derive(Clone, Copy, Debug, PartialEq, Eq, Structural)]
pub struct Explosion {
    pub x: i64,
    pub y: i64,
    pub timer: Timer,
}

impl Explosion {
    /// An explosion's timer is the standard one-shot lifetime timer,
    /// with no more than the full lifetime on the clock.
    pub open spec fn wf(self) -> bool {
        self.timer.mode is Once && self.timer.duration_ms == EXPLOSION_LENGTH
            && self.timer.elapsed_ms <= EXPLOSION_LENGTH
    }

    /// The explosion a destruction event spawns at `(x, y)`.
    pub open spec fn fresh(x: i64, y: i64) -> Explosion {
        Explosion { x, y, timer: Timer::fresh(EXPLOSION_LENGTH, TimerMode::Once) }
    }
}

/// Append a fresh explosion at the position of a destruction event.
pub fn spawn_explosion_on_event(explosions: &mut Vec<Explosion>, x: i64, y: i64)
    ensures
        final (explosions)@ == old(explosions)@.push(Explosion::fresh(x, y)),
{
    explosions.push(Explosion { x, y, timer: Timer::new(EXPLOSION_LENGTH, TimerMode::Once) });
}

/// An explosion after its timer advanced by `delta_ms`.
pub open spec fn ticked_explosion(e: Explosion, delta_ms: u64) -> Explosion {
    Explosion { timer: e.timer.tick_spec(delta_ms), ..e }
}

/// The explosions surviving one step: each timer advanced, the
/// finished ones dropped, order kept.
pub open spec fn tick_explosions_spec(s: Seq<Explosion>, delta_ms: u64) -> Seq<Explosion>
    decreases s.len(),
{
    if s.len() == 0 {
        s
    } else {
        let e = ticked_explosion(s.last(), delta_ms);
        tick_explosions_spec(s.drop_last(), delta_ms) + if e.timer.finished {
            Seq::<Explosion>::empty()
        } else {
            seq![e]
        }
    }
}

/// Advance every explosion's timer and remove the ones whose lifetime
/// just ran out.
pub fn tick_explosion_timers(explosions: &mut Vec<Explosion>, delta_ms: u64)
    requires
        delta_ms <= MAX_STEP_MS,
        forall|j: int| 0 <= j < old(explosions)@.len() ==> (#[trigger] old(explosions)@[j]).wf(),
    ensures
        final (explosions)@ == tick_explosions_spec(old(explosions)@, delta_ms),
        forall|j: int|
            0 <= j < final (explosions)@.len() ==> (#[trigger] final (explosions)@[j]).wf()
                && !final (explosions)@[j].timer.finished,
{
    let ghost orig = explosions@;
    let mut kept: Vec<Explosion> = Vec::new();
    let mut i: usize = 0;
    while i < explosions.len()
        invariant
            i <= orig.len(),
            explosions@ == orig,
            delta_ms <= MAX_STEP_MS,
            forall|j: int| 0 <= j < orig.len() ==> (#[trigger] orig[j]).wf(),
            kept@ == tick_explosions_spec(orig.subrange(0, i as int), delta_ms),
            forall|j: int| 0 <= j < kept@.len() ==> (#[trigger] kept@[j]).wf()
                && !kept@[j].timer.finished,
        decreases orig.len() - i,
    {
        let e = explosions[i];
        let mut ticked = e;
        ticked.timer.tick(delta_ms);
        proof {
            assert(orig.subrange(0, i + 1).drop_last() =~= orig.subrange(0, i as int));
            assert(orig.subrange(0, i + 1).last() == orig[i as int]);
        }
        if !ticked.timer.finished() {
            kept.push(ticked);
        }
        proof {
            if ticked.timer.finished {
                assert(kept@ + Seq::<Explosion>::empty() =~= kept@);
            }
        }
        i = i + 1;
    }
    proof {
        assert(orig.subrange(0, orig.len() as int) =~= orig);
    }
    *explosions = kept;
}


/// Ticking explosion timers moves no explosion: every survivor keeps
/// the position it had.
pub proof fn lemma_tick_explosions_coords(s: Seq<Explosion>, delta_ms: u64)
    requires
        forall|j: int|
            0 <= j < s.len() ==> crate::arena::coord_ok((#[trigger] s[j]).x) && crate::arena::coord_ok(
                s[j].y,
            ),
    ensures
        forall|j: int|
            0 <= j < tick_explosions_spec(s, delta_ms).len() ==> crate::arena::coord_ok(
                (#[trigger] tick_explosions_spec(s, delta_ms)[j]).x,
            ) && crate::arena::coord_ok(tick_explosions_spec(s, delta_ms)[j].y),
    decreases s.len(),
{
    if s.len() > 0 {
        lemma_tick_explosions_coords(s.drop_last(), delta_ms);
    }
}

} // verus!
