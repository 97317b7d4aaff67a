use space_game::assets::SoundCue;
use space_game::explosion::Explosion;
use space_game::player::{
    damage_player, heal_player, player_crate_collision, player_movement, player_rock_collision,
    spawn_player, Player, PLAYER_MAX_X, PLAYER_MAX_Y, PLAYER_MIN_X, PLAYER_MIN_Y,
};
use space_game::rock::{Rock, RockSize, RockSpeed, RocksDestroyed};
use space_game::score::Score;
use space_game::space_crates::{CrateType, SpaceCrate};
use space_game::state::GameInput;

#[test]
fn player_spawns_centred_at_full_health() {
    let p = spawn_player();
    assert_eq!(p.x, 450_000);
    assert_eq!(p.y, 450_000);
    assert_eq!(p.health, 1000);
}

// Healing is the minimum of full health and health-plus-amount
// (health in tenths of a point).
#[test]
fn healing_clamps_at_full_health() {
    let mut p = Player { health: 450, x: 0, y: 0 };
    heal_player(&mut p, 200);
    assert_eq!(p.health, 650);
    heal_player(&mut p, 400);
    assert_eq!(p.health, 1000);
    heal_player(&mut p, 0);
    assert_eq!(p.health, 1000);
}

#[test]
fn damage_saturates_at_zero() {
    let mut p = Player { health: 1000, x: 0, y: 0 };
    damage_player(&mut p, 750);
    assert_eq!(p.health, 250);
    damage_player(&mut p, 300);
    assert_eq!(p.health, 0);
}

// An explosive crate (75 damage) followed by a health crate (20 heal)
// leaves a full-health player at 45 points: min(100, 100 - 75 + 20).
#[test]
fn explosive_then_health_crate_leaves_45_points() {
    let mut p = spawn_player();
    let mut crates = vec![
        SpaceCrate { id: 0, x: p.x, y: p.y, crate_type: CrateType::Explosive },
        SpaceCrate { id: 1, x: p.x, y: p.y, crate_type: CrateType::Health },
    ];
    let mut score = Score { value: 0 };
    let mut explosions: Vec<Explosion> = Vec::new();
    let mut sounds: Vec<SoundCue> = Vec::new();
    player_crate_collision(&mut p, &mut crates, &mut score, &mut explosions, &mut sounds);
    assert_eq!(p.health, 450);
    assert!(crates.is_empty());
    assert_eq!(score.value, 200);
    assert_eq!(explosions.len(), 1);
    assert_eq!(sounds, vec![SoundCue::HitExplosive, SoundCue::CollectRepair]);
}

#[test]
fn movement_covers_speed_times_time_and_clamps() {
    let mut p = spawn_player();
    let mut input = GameInput::none();
    input.right = true;
    // 480 units/s for 0.5 s is 240 units.
    player_movement(&mut p, &input, 500);
    assert_eq!(p.x, 450_000 + 240_000);
    assert_eq!(p.y, 450_000);
    // Another full second would overshoot the wall; the ship clamps.
    player_movement(&mut p, &input, 1000);
    assert_eq!(p.x, PLAYER_MAX_X);
}

#[test]
fn diagonal_movement_is_scaled_down() {
    let mut p = spawn_player();
    let mut input = GameInput::none();
    input.left = true;
    input.down = true;
    player_movement(&mut p, &input, 1000);
    // 480 units scaled by 707/1000 is 339.36 units.
    assert_eq!(p.x, 450_000 - 339_360);
    assert_eq!(p.y, 450_000 - 339_360);
}

#[test]
fn opposite_directions_cancel() {
    let mut p = spawn_player();
    let mut input = GameInput::none();
    input.left = true;
    input.right = true;
    input.up = true;
    player_movement(&mut p, &input, 1000);
    assert_eq!(p.x, 450_000);
    assert_eq!(p.y, 450_000 + 480_000 - 54_000);
    assert_eq!(p.y, PLAYER_MAX_Y);
    let mut q = spawn_player();
    input.up = false;
    player_movement(&mut q, &input, 1000);
    assert_eq!(q.x, 450_000);
    assert_eq!(q.y, 450_000);
}

#[test]
fn movement_clamps_at_every_wall() {
    let mut input = GameInput::none();
    input.left = true;
    input.down = true;
    let mut p = Player { health: 1000, x: PLAYER_MIN_X + 1000, y: PLAYER_MIN_Y + 1000 };
    for _ in 0..5 {
        player_movement(&mut p, &input, 1000);
    }
    assert_eq!(p.x, PLAYER_MIN_X);
    assert_eq!(p.y, PLAYER_MIN_Y);
}

#[test]
fn touching_rock_hurts_scores_and_explodes() {
    let mut p = spawn_player();
    let mut rocks = vec![
        // Dead centre on the ship.
        Rock { id: 0, x: p.x, y: p.y, rock_size: RockSize::Big, rock_speed: RockSpeed::Fast },
        // Far away: survives.
        Rock { id: 1, x: 10_000, y: 10_000, rock_size: RockSize::Big, rock_speed: RockSpeed::Fast },
    ];
    let mut score = Score { value: 10 };
    let mut destroyed = RocksDestroyed { count: 0 };
    let mut explosions: Vec<Explosion> = Vec::new();
    let mut sounds: Vec<SoundCue> = Vec::new();
    player_rock_collision(
        &mut p,
        &mut rocks,
        &mut score,
        &mut destroyed,
        &mut explosions,
        &mut sounds,
    );
    assert_eq!(p.health, 1000 - 300);
    assert_eq!(rocks.len(), 1);
    assert_eq!(rocks[0].id, 1);
    assert_eq!(score.value, 35);
    assert_eq!(destroyed.count, 1);
    assert_eq!(explosions.len(), 1);
    assert_eq!(explosions[0].x, 450_000);
    assert_eq!(sounds, vec![SoundCue::RockCollision]);
}

#[test]
fn rock_collision_needs_the_half_size_distance() {
    let mut p = spawn_player();
    // Player half-size 24 units + small rock half-size 12 units = 36
    // units. At exactly 36_000 milli-units the centres are not
    // strictly closer, so there is no hit; one unit nearer hits.
    let far = Rock {
        id: 0,
        x: p.x + 36_000,
        y: p.y,
        rock_size: RockSize::Small,
        rock_speed: RockSpeed::Slow,
    };
    let near = Rock { x: p.x + 35_999, ..far };
    let mut score = Score { value: 0 };
    let mut destroyed = RocksDestroyed { count: 0 };
    let mut explosions: Vec<Explosion> = Vec::new();
    let mut sounds: Vec<SoundCue> = Vec::new();
    let mut rocks = vec![far];
    player_rock_collision(
        &mut p,
        &mut rocks,
        &mut score,
        &mut destroyed,
        &mut explosions,
        &mut sounds,
    );
    assert_eq!(rocks.len(), 1);
    let mut rocks = vec![near];
    player_rock_collision(
        &mut p,
        &mut rocks,
        &mut score,
        &mut destroyed,
        &mut explosions,
        &mut sounds,
    );
    assert!(rocks.is_empty());
}
