use space_game::arena::{
    collide, spawn_arena_walls, within_distance, ARENA_HEIGHT, ARENA_WIDTH, HIDE_OVERFLOW_LAYER,
    WALL_LAYER,
};
use space_game::rng::FrameRandom;
use space_game::space_crates::{
    move_crates, remove_off_screen_crates, spawn_crates, CrateSpawnTimer, CrateType, SpaceCrate,
    CRATE_SPAWN_Y,
};
use space_game::star::{move_stars, send_star_to_top, spawn_stars, Star, STAR_COUNT};
use space_game::timer::Timer;

#[test]
fn box_overlap_is_strict() {
    // Two 10x10 boxes touching edge to edge do not overlap...
    assert!(!collide(0, 0, 10, 10, 10, 0, 10, 10));
    // ...one milli-unit closer, they do.
    assert!(collide(0, 0, 10, 10, 9, 0, 10, 10));
    assert!(!collide(0, 0, 10, 10, 0, 10, 10, 10));
    assert!(collide(0, 0, 10, 10, 0, 9, 10, 10));
}

#[test]
fn distance_test_is_strict_euclidean() {
    // A 3-4-5 triangle: distance exactly 5.
    assert!(!within_distance(0, 0, 3, 4, 5));
    assert!(within_distance(0, 0, 3, 4, 6));
}

#[test]
fn eight_walls_surround_the_arena() {
    let walls = spawn_arena_walls();
    assert_eq!(walls.len(), 8);
    // Four thick masking walls first, four visible walls after.
    for w in &walls[..4] {
        assert!(w.hides_overflow);
        assert_eq!(w.draw_layer, HIDE_OVERFLOW_LAYER);
    }
    for w in &walls[4..] {
        assert!(!w.hides_overflow);
        assert_eq!(w.draw_layer, WALL_LAYER);
    }
    // The first masking wall sits centred under the bottom edge.
    assert_eq!((walls[0].x, walls[0].y), (450_000, -100_000));
    assert_eq!((walls[0].width, walls[0].height), (900_000, 200_000));
    // The visible top wall sits just above the top edge.
    assert_eq!((walls[4].x, walls[4].y), (450_000, 905_000));
    assert_eq!((walls[4].width, walls[4].height), (900_000, 10_000));
}

#[test]
fn crate_spawner_picks_type_from_the_draw() {
    let mut timer = CrateSpawnTimer::default();
    timer.timer = Timer { finished: true, ..timer.timer };
    let mut crates: Vec<SpaceCrate> = Vec::new();
    let mut next_id: u64 = 0;
    spawn_crates(&mut crates, &timer, &mut next_id, 50_000, 0);
    spawn_crates(&mut crates, &timer, &mut next_id, 60_000, 1);
    assert_eq!(crates.len(), 2);
    assert!(matches!(crates[0].crate_type, CrateType::Health));
    assert!(matches!(crates[1].crate_type, CrateType::Explosive));
    assert_eq!(crates[0].y, CRATE_SPAWN_Y);
    assert_eq!(next_id, 2);
}

#[test]
fn crates_fall_and_are_removed_past_the_bottom() {
    let mut crates = vec![SpaceCrate {
        id: 0,
        x: 50_000,
        y: -23_900,
        crate_type: CrateType::Health,
    }];
    // 100 units/s for 2 ms is 0.2 units; that carries the crate past
    // its half-height below the arena.
    move_crates(&mut crates, 2);
    assert_eq!(crates[0].y, -24_100);
    remove_off_screen_crates(&mut crates);
    assert!(crates.is_empty());
}

#[test]
fn crate_at_the_boundary_survives() {
    let mut crates = vec![SpaceCrate { id: 0, x: 50_000, y: -24_000, crate_type: CrateType::Health }];
    remove_off_screen_crates(&mut crates);
    assert_eq!(crates.len(), 1);
}

#[test]
fn stars_wrap_from_bottom_to_top() {
    let mut stars = vec![Star { x: 5000, y: -9_000 }];
    // 40 units/s for 0.1 s is 4 units.
    move_stars(&mut stars, 100);
    assert_eq!(stars[0].y, -13_000);
    send_star_to_top(&mut stars);
    assert_eq!(stars[0].y, ARENA_HEIGHT + 10_000);
    // A star at the wrap line itself stays put.
    let mut edge = vec![Star { x: 0, y: -10_000 }];
    send_star_to_top(&mut edge);
    assert_eq!(edge[0].y, -10_000);
}

#[test]
fn the_starfield_fills_the_arena() {
    let mut stars: Vec<Star> = Vec::new();
    spawn_stars(&mut stars);
    assert_eq!(stars.len() as u32, STAR_COUNT);
    for s in &stars {
        assert!(0 <= s.x && s.x < ARENA_WIDTH);
        assert!(0 <= s.y && s.y < ARENA_HEIGHT);
    }
}

// The uniform draws stay strictly inside their ranges; a draw that
// handed its bound back unchanged would fail here.
#[test]
fn frame_random_draws_stay_in_range() {
    for _ in 0..200 {
        let picks = FrameRandom::sample();
        assert!(0 <= picks.rock_x && picks.rock_x < ARENA_WIDTH);
        assert!(0 <= picks.crate_x && picks.crate_x < ARENA_WIDTH);
        assert!(picks.rock_size_pick < 3);
        assert!(picks.rock_speed_pick < 3);
        assert!(picks.crate_kind_pick < 2);
    }
}
