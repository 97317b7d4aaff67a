//! Score and highscore bookkeeping.
//!
//! The score grows monotonically during a round: by a fixed passive
//! amount every time the score timer finishes, plus event-driven
//! amounts from the collision rules. All score arithmetic saturates at
//! `u32::MAX` so that it stays monotonic without overflowing. The
//! highscore outlives rounds and is raised to the final score when a
//! round ends.

use vstd::prelude::*;

verus! {

use crate::timer::{Timer, TimerMode};

/// Milliseconds between two passive score awards.
pub const SCORE_COOLDOWN: u64 = 1000;

/// Points awarded every time the score timer finishes.
pub const SCORE_PER_TICK: u32 = 5;

/// Saturating addition on scores and counters.
pub open spec fn sat_add(a: u32, b: u32) -> u32 {
    if a + b > u32::MAX {
        u32::MAX
    } else {
        (a + b) as u32
    }
}

/// Saturating addition of a non-negative mathematical amount, for
/// stating how a counter grows by a removal count.
pub open spec fn sat_add_amt(a: u32, amt: int) -> u32 {
    if a + amt > u32::MAX {
        u32::MAX
    } else {
        (a + amt) as u32
    }
}

/// Saturating addition, as executable code.
pub fn sat_add_u32(a: u32, b: u32) -> (r: u32)
    ensures
        r == sat_add(a, b),
{
    if a > u32::MAX - b {
        u32::MAX
    } else {
        a + b
    }
}

/// The points collected in the current round.
#[derive(Clone, Copy, Debug, PartialEq, Eq, Structural)]
pub struct Score {
    pub value: u32,
}

impl Default for Score {
    fn default() -> (s: Score)
        ensures
            s.value == 0,
    {
        Score { value: 0 }
    }
}

/// The best final score of any round so far in this process.
#[derive(Clone, Copy, Debug, PartialEq, Eq, Structural)]
pub struct Highscore {
    pub value: u32,
}

impl Default for Highscore {
    fn default() -> (h: Highscore)
        ensures
            h.value == 0,
    {
        Highscore { value: 0 }
    }
}

/// The repeating timer that paces the passive score award.
#[derive(Clone, Copy, Debug, PartialEq, Eq, Structural)]
pub struct ScoreTimer {
    pub timer: Timer,
}

impl Default for ScoreTimer {
    fn default() -> (t: ScoreTimer)
        ensures
            t.timer == Timer::fresh(SCORE_COOLDOWN, TimerMode::Repeating),
    {
        ScoreTimer { timer: Timer::new(SCORE_COOLDOWN, TimerMode::Repeating) }
    }
}

/// Advance the score timer by the elapsed time.
pub fn tick_score_timer(score_timer: &mut ScoreTimer, delta_ms: u64)
    requires
        old(score_timer).timer.wf(),
        old(score_timer).timer.elapsed_ms + delta_ms <= u64::MAX,
    ensures
        final (score_timer).timer == old(score_timer).timer.tick_spec(delta_ms),
{
    score_timer.timer.tick(delta_ms);
}

/// Award the passive score amount if the score timer finished on the
/// most recent tick, and nothing otherwise.
pub fn add_score_over_time(score: &mut Score, score_timer: &ScoreTimer)
    ensures
        final (score).value == if score_timer.timer.finished {
            sat_add(old(score).value, SCORE_PER_TICK)
        } else {
            old(score).value
        },
{
    if score_timer.timer.finished() {
        score.value = sat_add_u32(score.value, SCORE_PER_TICK);
    }
}

/// Raise the highscore to the score if the score beats it.
pub fn update_highscore(score: &Score, highscore: &mut Highscore)
    ensures
        final (highscore).value == if score.value > old(highscore).value {
            score.value
        } else {
            old(highscore).value
        },
{
    if score.value > highscore.value {
        highscore.value = score.value;
    }
}

} // verus!
