//! A reusable countdown abstraction, polled once per simulation step.
//!
//! A timer holds an elapsed time, a target duration (both in whole
//! milliseconds) and a mode. `tick` advances the elapsed time: a `Once`
//! timer saturates at its duration and then stays finished, while a
//! `Repeating` timer wraps its elapsed time modulo the duration and
//! reports `finished` exactly on the ticks where a wrap occurs.

use vstd::prelude::*;

verus! {

use vstd::arithmetic::div_mod::{
    lemma_basic_div, lemma_div_plus_one, lemma_mod_multiples_vanish, lemma_small_mod,
};

/// Run-out behaviour of a [`Timer`]: stop at the target, or wrap around it.
#[derive(Clone, Copy, Debug, PartialEq, Eq, Structural)]
pub enum TimerMode {
    Once,
    Repeating,
}

/// A polled countdown with a millisecond duration and elapsed time.
///
/// The `finished` field records the outcome of the most recent `tick`
/// (or of construction / `reset`): it is not recomputed when the
/// duration or elapsed time are reconfigured, only the next `tick`
/// reads the new configuration.
#[derive(Clone, Copy, Debug, PartialEq, Eq, Structural)]
pub struct Timer {
    pub mode: TimerMode,
    pub duration_ms: u64,
    pub elapsed_ms: u64,
    pub finished: bool,
}

impl Timer {
    /// A timer is well formed when its duration is positive; a zero
    /// duration would make the wrap of a repeating timer meaningless.
    pub open spec fn wf(self) -> bool {
        self.duration_ms >= 1
    }

    /// The timer value produced by constructing a fresh timer.
    pub open spec fn fresh(duration_ms: u64, mode: TimerMode) -> Timer {
        Timer { mode, duration_ms, elapsed_ms: 0, finished: false }
    }

    /// What one `tick` by `delta_ms` does to a timer.
    pub open spec fn tick_spec(self, delta_ms: u64) -> Timer {
        let total = self.elapsed_ms + delta_ms;
        if total >= self.duration_ms {
            match self.mode {
                TimerMode::Once => Timer {
                    elapsed_ms: self.duration_ms,
                    finished: true,
                    ..self
                },
                TimerMode::Repeating => Timer {
                    elapsed_ms: (total % (self.duration_ms as int)) as u64,
                    finished: true,
                    ..self
                },
            }
        } else {
            Timer { elapsed_ms: total as u64, finished: false, ..self }
        }
    }

    /// Construct a fresh, unfinished timer. A malformed (zero)
    /// duration is ruled out here, at construction.
    pub fn new(duration_ms: u64, mode: TimerMode) -> (t: Timer)
        requires
            duration_ms >= 1,
        ensures
            t == Timer::fresh(duration_ms, mode),
    {
        Timer { mode, duration_ms, elapsed_ms: 0, finished: false }
    }

    /// Construct a fresh timer, rejecting a malformed (zero) duration.
    pub fn try_new(duration_ms: u64, mode: TimerMode) -> (t: Option<Timer>)
        ensures
            duration_ms >= 1 ==> t == Some(Timer::fresh(duration_ms, mode)),
            duration_ms == 0 ==> t is None,
    {
        if duration_ms >= 1 {
            Some(Timer::new(duration_ms, mode))
        } else {
            None
        }
    }

    /// Advance the elapsed time by `delta_ms`, saturating (`Once`) or
    /// wrapping (`Repeating`) at the duration. After the call,
    /// `finished` reports whether the target was reached on this tick;
    /// for a repeating timer the elapsed time becomes
    /// `(elapsed + delta) % duration`.
    pub fn tick(&mut self, delta_ms: u64)
        requires
            old(self).wf(),
            old(self).elapsed_ms + delta_ms <= u64::MAX,
        ensures
            *final(self) == old(self).tick_spec(delta_ms),
    {
        let total = self.elapsed_ms + delta_ms;
        if total >= self.duration_ms {
            match self.mode {
                TimerMode::Once => {
                    self.elapsed_ms = self.duration_ms;
                }
                TimerMode::Repeating => {
                    self.elapsed_ms = total % self.duration_ms;
                }
            }
            self.finished = true;
        } else {
            self.elapsed_ms = total;
            self.finished = false;
        }
    }

    /// Whether the target duration was reached on the most recent tick
    /// (and, for a `Once` timer, any earlier tick).
    pub fn finished(&self) -> (r: bool)
        ensures
            r == self.finished,
    {
        self.finished
    }

    /// Set the elapsed time back to zero and clear the finished flag.
    pub fn reset(&mut self)
        ensures
            *final(self) == (Timer { elapsed_ms: 0, finished: false, ..*old(self) }),
    {
        self.elapsed_ms = 0;
        self.finished = false;
    }

    /// Reconfigure the target duration; the elapsed time and the
    /// finished flag are left as they are until the next tick.
    pub fn set_duration(&mut self, duration_ms: u64)
        requires
            duration_ms >= 1,
        ensures
            *final(self) == (Timer { duration_ms, ..*old(self) }),
    {
        self.duration_ms = duration_ms;
    }

    /// Overwrite the elapsed time; the finished flag is left as it is
    /// until the next tick.
    pub fn set_elapsed(&mut self, elapsed_ms: u64)
        ensures
            *final(self) == (Timer { elapsed_ms, ..*old(self) }),
    {
        self.elapsed_ms = elapsed_ms;
    }
}

/// The sum of a sequence of millisecond deltas.
pub open spec fn sum_of(deltas: Seq<u64>) -> int
    decreases deltas.len(),
{
    if deltas.len() == 0 {
        0
    } else {
        deltas[0] + sum_of(deltas.drop_first())
    }
}

/// The timer value after ticking through each delta in order.
pub open spec fn run_ticks(t: Timer, deltas: Seq<u64>) -> Timer
    decreases deltas.len(),
{
    if deltas.len() == 0 {
        t
    } else {
        run_ticks(t.tick_spec(deltas[0]), deltas.drop_first())
    }
}

/// How many of the ticks through `deltas` report `finished`.
pub open spec fn finish_count(t: Timer, deltas: Seq<u64>) -> int
    decreases deltas.len(),
{
    if deltas.len() == 0 {
        0int
    } else {
        (if t.tick_spec(deltas[0]).finished {
            1int
        } else {
            0int
        }) + finish_count(t.tick_spec(deltas[0]), deltas.drop_first())
    }
}

/// For a well-formed repeating timer whose elapsed time is below its
/// duration, ticking through deltas that each stay at or below the
/// duration finishes exactly `(elapsed + sum) / duration` times and
/// leaves `(elapsed + sum) % duration` on the clock.
proof fn lemma_repeating_run(t: Timer, deltas: Seq<u64>)
    requires
        t.wf(),
        t.mode is Repeating,
        t.elapsed_ms < t.duration_ms,
        forall|i: int| 0 <= i < deltas.len() ==> #[trigger] deltas[i] <= t.duration_ms,
    ensures
        finish_count(t, deltas) == (t.elapsed_ms + sum_of(deltas)) / (t.duration_ms as int),
        run_ticks(t, deltas).elapsed_ms == (t.elapsed_ms + sum_of(deltas)) % (
        t.duration_ms as int),
        run_ticks(t, deltas).mode == t.mode,
        run_ticks(t, deltas).duration_ms == t.duration_ms,
        run_ticks(t, deltas).elapsed_ms < t.duration_ms,
    decreases deltas.len(),
{
    let d = t.duration_ms as int;
    if deltas.len() == 0 {
        lemma_basic_div(t.elapsed_ms as int, d);
        lemma_small_mod(t.elapsed_ms as nat, t.duration_ms as nat);
    } else {
        let d0 = deltas[0];
        let t1 = t.tick_spec(d0);
        let total = t.elapsed_ms + d0;
        if total >= d {
            // One wrap: total is within [d, 2d), so total % d == total - d.
            assert(total % d == (total - d) % d && (total - d) % d == total - d) by {
                lemma_mod_multiples_vanish(1, total - d, d);
                lemma_small_mod((total - d) as nat, t.duration_ms as nat);
            }
            assert(t1.elapsed_ms == total - d);
            lemma_repeating_run(t1, deltas.drop_first());
            let rest = t1.elapsed_ms + sum_of(deltas.drop_first());
            assert(t.elapsed_ms + sum_of(deltas) == d + rest);
            lemma_div_plus_one(rest, d);
            assert((d + rest) % d == rest % d) by {
                lemma_mod_multiples_vanish(1, rest, d);
            }
        } else {
            assert(t1.elapsed_ms == total);
            lemma_repeating_run(t1, deltas.drop_first());
            assert(t.elapsed_ms + sum_of(deltas) == t1.elapsed_ms + sum_of(
                deltas.drop_first(),
            ));
        }
    }
}

/// Law: a fresh repeating timer with duration `D`, ticked with deltas
/// that each stay at or below `D` and sum to exactly `k * D`, reports
/// `finished` on exactly `k` of those ticks and ends with nothing on
/// the clock. (A single delta larger than `D` wraps only once, so the
/// per-delta bound is needed for the count to reach `k`.)
pub proof fn lemma_repeating_timer_finish_count(t: Timer, deltas: Seq<u64>, k: nat)
    requires
        t.wf(),
        t.mode is Repeating,
        t.elapsed_ms == 0,
        forall|i: int| 0 <= i < deltas.len() ==> #[trigger] deltas[i] <= t.duration_ms,
        sum_of(deltas) == k * t.duration_ms,
    ensures
        finish_count(t, deltas) == k,
        run_ticks(t, deltas).elapsed_ms == 0,
{
    let d = t.duration_ms as int;
    lemma_repeating_run(t, deltas);
    assert((d * (k as int) + 0) / d == k && (d * (k as int) + 0) % d == 0int % d) by {
        vstd::arithmetic::div_mod::lemma_div_multiples_vanish_fancy(k as int, 0, d);
        lemma_mod_multiples_vanish(k as int, 0, d);
    }
    assert(k * t.duration_ms == d * (k as int)) by {
        vstd::arithmetic::mul::lemma_mul_is_commutative(k as int, d);
    }
    lemma_small_mod(0, t.duration_ms as nat);
}

} // verus!
