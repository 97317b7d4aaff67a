use space_game::rock::{
    set_difficulty, spawn_rocks_over_time, Rock, RockSize, RockSpawnTimer, RockSpeed,
    RocksDestroyed, ROCK_SPAWN_Y,
};
use space_game::rock::{move_rocks, remove_off_screen_rocks};
use space_game::timer::{Timer, TimerMode};

fn rock(size: RockSize, speed: RockSpeed) -> Rock {
    Rock { id: 0, x: 100_000, y: 500_000, rock_size: size, rock_speed: speed }
}

// The full damage table, base-by-speed times multiplier-by-size, in
// tenths of a health point (base 10.0 / 7.5 / 5.0, multiplier 3/2/1).
#[test]
fn damage_table_is_exact_for_all_nine_combinations() {
    let cases = [
        (RockSize::Big, RockSpeed::Fast, 300),
        (RockSize::Big, RockSpeed::Normal, 225),
        (RockSize::Big, RockSpeed::Slow, 150),
        (RockSize::Normal, RockSpeed::Fast, 200),
        (RockSize::Normal, RockSpeed::Normal, 150),
        (RockSize::Normal, RockSpeed::Slow, 100),
        (RockSize::Small, RockSpeed::Fast, 100),
        (RockSize::Small, RockSpeed::Normal, 75),
        (RockSize::Small, RockSpeed::Slow, 50),
    ];
    for (size, speed, expected) in cases {
        assert_eq!(rock(size, speed).damage(), expected);
    }
}

#[test]
fn speeds_and_sizes_match_their_classes() {
    assert_eq!(rock(RockSize::Big, RockSpeed::Fast).speed(), 100);
    assert_eq!(rock(RockSize::Big, RockSpeed::Normal).speed(), 75);
    assert_eq!(rock(RockSize::Big, RockSpeed::Slow).speed(), 50);
    assert_eq!(rock(RockSize::Big, RockSpeed::Fast).size(), 72_000);
    assert_eq!(rock(RockSize::Normal, RockSpeed::Fast).size(), 48_000);
    assert_eq!(rock(RockSize::Small, RockSpeed::Fast).size(), 24_000);
}

fn timer_with_count(count: u32) -> RockSpawnTimer {
    let mut t = RockSpawnTimer::default();
    let destroyed = RocksDestroyed { count };
    set_difficulty(&destroyed, &mut t);
    t
}

// A rocks-destroyed counter of 26 lands in the 25 < n <= 75 tier, so
// the spawn interval must be 0.5 s.
#[test]
fn twenty_six_destroyed_rocks_give_the_half_second_tier() {
    assert_eq!(timer_with_count(26).timer.duration_ms, 500);
}

#[test]
fn difficulty_tiers_cover_their_thresholds() {
    assert_eq!(timer_with_count(0).timer.duration_ms, 2000);
    assert_eq!(timer_with_count(10).timer.duration_ms, 2000);
    assert_eq!(timer_with_count(11).timer.duration_ms, 1000);
    assert_eq!(timer_with_count(25).timer.duration_ms, 1000);
    assert_eq!(timer_with_count(75).timer.duration_ms, 500);
    assert_eq!(timer_with_count(76).timer.duration_ms, 300);
    assert_eq!(timer_with_count(200).timer.duration_ms, 300);
    assert_eq!(timer_with_count(201).timer.duration_ms, 200);
    assert_eq!(timer_with_count(500).timer.duration_ms, 200);
    // The last tier has no upper cap.
    assert_eq!(timer_with_count(501).timer.duration_ms, 200);
    assert_eq!(timer_with_count(1_000_000).timer.duration_ms, 200);
}

#[test]
fn spawner_is_gated_by_its_timer() {
    let mut rocks: Vec<Rock> = Vec::new();
    let mut next_id: u64 = 7;
    let mut spawn_timer = RockSpawnTimer::default();

    spawn_rocks_over_time(&mut rocks, &spawn_timer, &mut next_id, 123_000, 1, 2);
    assert!(rocks.is_empty());
    assert_eq!(next_id, 7);

    spawn_timer.timer = Timer { finished: true, ..spawn_timer.timer };
    spawn_rocks_over_time(&mut rocks, &spawn_timer, &mut next_id, 123_000, 1, 2);
    assert_eq!(rocks.len(), 1);
    assert_eq!(next_id, 8);
    assert_eq!(rocks[0].id, 7);
    assert_eq!(rocks[0].x, 123_000);
    assert_eq!(rocks[0].y, ROCK_SPAWN_Y);
    assert!(matches!(rocks[0].rock_size, RockSize::Normal));
    assert!(matches!(rocks[0].rock_speed, RockSpeed::Slow));
}

#[test]
fn rocks_fall_by_speed_times_elapsed_time() {
    let mut rocks = vec![rock(RockSize::Big, RockSpeed::Fast), rock(
        RockSize::Small,
        RockSpeed::Slow,
    )];
    move_rocks(&mut rocks, 500);
    // 100 units/s for 0.5 s is 50 units, 50_000 milli-units.
    assert_eq!(rocks[0].y, 450_000);
    // 50 units/s for 0.5 s is 25 units.
    assert_eq!(rocks[1].y, 475_000);
}

// A rock that crossed the arena bottom by more than its own
// half-size is removed on that very pass and counted as destroyed;
// one exactly at the boundary survives.
#[test]
fn boundary_removal_is_exact_and_counted() {
    let mut rocks = vec![
        Rock { id: 0, x: 1000, y: -36_001, rock_size: RockSize::Big, rock_speed: RockSpeed::Slow },
        Rock { id: 1, x: 2000, y: -36_000, rock_size: RockSize::Big, rock_speed: RockSpeed::Slow },
        Rock {
            id: 2,
            x: 3000,
            y: -12_001,
            rock_size: RockSize::Small,
            rock_speed: RockSpeed::Fast,
        },
    ];
    let mut destroyed = RocksDestroyed { count: 4 };
    remove_off_screen_rocks(&mut rocks, &mut destroyed);
    assert_eq!(rocks.len(), 1);
    assert_eq!(rocks[0].id, 1);
    assert_eq!(destroyed.count, 6);
}
