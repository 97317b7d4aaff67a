use space_game::timer::{Timer, TimerMode};

#[test]
fn fresh_timer_starts_unfinished() {
    let t = Timer::new(2000, TimerMode::Repeating);
    assert_eq!(t.duration_ms, 2000);
    assert_eq!(t.elapsed_ms, 0);
    assert!(!t.finished());
}

#[test]
fn try_new_rejects_zero_duration() {
    assert!(Timer::try_new(0, TimerMode::Once).is_none());
    let t = Timer::try_new(5, TimerMode::Repeating).unwrap();
    assert_eq!(t.duration_ms, 5);
    assert_eq!(t.elapsed_ms, 0);
    assert!(!t.finished);
}

// The rock spawner scenario: a two-second repeating timer fed deltas
// of 1.0 s, 1.0 s and 0.5 s finishes exactly once, on the second tick.
#[test]
fn repeating_two_seconds_finishes_once_at_two_seconds() {
    let mut t = Timer::new(2000, TimerMode::Repeating);
    t.tick(1000);
    assert!(!t.finished());
    assert_eq!(t.elapsed_ms, 1000);
    t.tick(1000);
    assert!(t.finished());
    assert_eq!(t.elapsed_ms, 0);
    t.tick(500);
    assert!(!t.finished());
    assert_eq!(t.elapsed_ms, 500);
}

// Deltas summing to exactly k * duration report finished k times and
// leave nothing on the clock.
#[test]
fn repeating_timer_finishes_k_times_over_k_periods() {
    let mut t = Timer::new(1000, TimerMode::Repeating);
    let deltas = [400u64, 600, 250, 750, 1000];
    let mut finishes: u32 = 0;
    for d in deltas {
        t.tick(d);
        if t.finished() {
            finishes += 1;
        }
    }
    assert_eq!(finishes, 3);
    assert_eq!(t.elapsed_ms, 0);
}

// The elapsed time after a tick is (elapsed + delta) mod duration; a
// single delta spanning several periods still reports finished only
// once.
#[test]
fn repeating_timer_wraps_modulo_duration() {
    let mut t = Timer::new(700, TimerMode::Repeating);
    t.tick(1800);
    assert!(t.finished());
    assert_eq!(t.elapsed_ms, 1800 % 700);
}

#[test]
fn once_timer_saturates_and_stays_finished() {
    let mut t = Timer::new(500, TimerMode::Once);
    t.tick(300);
    assert!(!t.finished());
    assert_eq!(t.elapsed_ms, 300);
    t.tick(300);
    assert!(t.finished());
    assert_eq!(t.elapsed_ms, 500);
    t.tick(100);
    assert!(t.finished());
    assert_eq!(t.elapsed_ms, 500);
}

#[test]
fn reset_clears_elapsed_and_finished() {
    let mut t = Timer::new(100, TimerMode::Once);
    t.tick(150);
    assert!(t.finished());
    t.reset();
    assert_eq!(t.elapsed_ms, 0);
    assert!(!t.finished());
}

#[test]
fn reconfiguring_takes_effect_on_the_next_tick() {
    let mut t = Timer::new(2000, TimerMode::Repeating);
    t.tick(1800);
    assert!(!t.finished());
    t.set_duration(500);
    // The old elapsed time is kept; the next tick wraps against the
    // new, shorter duration.
    assert_eq!(t.elapsed_ms, 1800);
    t.tick(200);
    assert!(t.finished());
    assert_eq!(t.elapsed_ms, 2000 % 500);

    let mut u = Timer::new(1000, TimerMode::Once);
    u.set_elapsed(1000);
    // set_elapsed does not recompute the finished flag...
    assert!(!u.finished());
    // ...but the next tick does.
    u.tick(0);
    assert!(u.finished());
}
