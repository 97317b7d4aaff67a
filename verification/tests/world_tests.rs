use space_game::assets::SoundCue;
use space_game::gun::BulletCooldownTimer;
use space_game::player::Player;
use space_game::rng::FrameRandom;
use space_game::rock::{Rock, RockSize, RockSpawnTimer, RockSpeed, RocksDestroyed};
use space_game::score::{Highscore, Score, ScoreTimer};
use space_game::space_crates::CrateSpawnTimer;
use space_game::state::{AppState, GameInput};
use space_game::world::{GameSession, World};

fn picks() -> FrameRandom {
    FrameRandom {
        rock_x: 100_000,
        rock_size_pick: 0,
        rock_speed_pick: 0,
        crate_x: 200_000,
        crate_kind_pick: 0,
    }
}

fn start_input() -> GameInput {
    let mut input = GameInput::none();
    input.start = true;
    input
}

fn menu_input() -> GameInput {
    let mut input = GameInput::none();
    input.menu = true;
    input
}

fn session_with(player: Player, rocks: Vec<Rock>) -> GameSession {
    GameSession {
        player,
        score: Score { value: 0 },
        rocks,
        bullets: Vec::new(),
        crates: Vec::new(),
        rock_spawn_timer: RockSpawnTimer::default(),
        crate_spawn_timer: CrateSpawnTimer::default(),
        bullet_cooldown_timer: BulletCooldownTimer::default(),
        score_timer: ScoreTimer::default(),
        rocks_destroyed: RocksDestroyed { count: 0 },
        next_id: 100,
    }
}

fn world_with(session: GameSession) -> World {
    World {
        state: AppState::Game,
        highscore: Highscore { value: 0 },
        stars: Vec::new(),
        explosions: Vec::new(),
        session: Some(session),
    }
}

#[test]
fn a_new_world_shows_the_menu() {
    let w = World::new();
    assert_eq!(w.app_state(), AppState::MainMenu);
    assert!(w.session.is_none());
    assert_eq!(w.highscore(), 0);
    assert_eq!(w.score(), 0);
    assert_eq!(w.player_health(), 0);
    assert_eq!(w.stars.len(), 100);
}

#[test]
fn the_start_edge_begins_a_round() {
    let mut w = World::new();
    let sounds = w.step(&start_input(), &picks(), 16);
    assert_eq!(w.app_state(), AppState::Game);
    assert_eq!(w.player_health(), 1000);
    assert_eq!(w.score(), 0);
    assert!(sounds.is_empty());
    let sess = w.session.as_ref().unwrap();
    assert!(sess.rocks.is_empty() && sess.bullets.is_empty() && sess.crates.is_empty());
}

// Entering the game and leaving it right away tears everything down.
#[test]
fn entering_then_leaving_leaves_nothing_active() {
    let mut w = World::new();
    w.step(&start_input(), &picks(), 16);
    w.step(&menu_input(), &picks(), 16);
    assert_eq!(w.app_state(), AppState::MainMenu);
    assert!(w.session.is_none());
    assert_eq!(w.score(), 0);
    assert_eq!(w.player_health(), 0);
    // Entering again starts from scratch.
    w.step(&start_input(), &picks(), 16);
    assert_eq!(w.app_state(), AppState::Game);
    assert_eq!(w.player_health(), 1000);
}

// A damage event that brings health to zero returns to the main menu
// on that same step, and the highscore takes the final score.
#[test]
fn lethal_damage_ends_the_round_on_the_same_step() {
    let player = Player { health: 100, x: 450_000, y: 450_000 };
    let rock = Rock {
        id: 0,
        x: 450_000,
        y: 450_000,
        rock_size: RockSize::Big,
        rock_speed: RockSpeed::Fast,
    };
    let mut w = world_with(session_with(player, vec![rock]));
    let sounds = w.step(&GameInput::none(), &picks(), 0);
    assert_eq!(w.app_state(), AppState::MainMenu);
    assert!(w.session.is_none());
    // The kill still scored, and the round's score became the
    // highscore on the way out.
    assert_eq!(w.highscore(), 25);
    assert_eq!(sounds, vec![SoundCue::RockCollision]);
    // The explosion outlives the round and expires by its own timer.
    assert_eq!(w.explosions.len(), 1);
    w.step(&GameInput::none(), &picks(), 100);
    assert_eq!(w.explosions.len(), 1);
    w.step(&GameInput::none(), &picks(), 100);
    assert!(w.explosions.is_empty());
}

// A rock that crosses the arena bottom during a step is removed on
// that step, counted as destroyed, and the round goes on.
#[test]
fn a_rock_crossing_the_bottom_is_removed_that_step() {
    let player = Player { health: 1000, x: 450_000, y: 450_000 };
    // A big rock just above its half-size removal boundary; this
    // step's fall carries it across.
    let rock = Rock {
        id: 0,
        x: 100_000,
        y: -35_000,
        rock_size: RockSize::Big,
        rock_speed: RockSpeed::Slow,
    };
    let mut w = world_with(session_with(player, vec![rock]));
    w.step(&GameInput::none(), &picks(), 100);
    assert_eq!(w.app_state(), AppState::Game);
    let sess = w.session.as_ref().unwrap();
    assert!(sess.rocks.is_empty());
    assert_eq!(sess.rocks_destroyed.count, 1);
    // Leaving the arena scores nothing.
    assert_eq!(sess.score.value, 0);
}

#[test]
fn the_passive_score_ticks_once_a_second() {
    let mut w = World::new();
    w.step(&start_input(), &picks(), 16);
    w.step(&GameInput::none(), &picks(), 999);
    assert_eq!(w.score(), 0);
    w.step(&GameInput::none(), &picks(), 1);
    assert_eq!(w.score(), 5);
}

#[test]
fn the_first_shot_needs_no_waiting() {
    let mut w = World::new();
    w.step(&start_input(), &picks(), 16);
    let mut fire = GameInput::none();
    fire.fire = true;
    let sounds = w.step(&fire, &picks(), 16);
    assert_eq!(sounds, vec![SoundCue::Shoot]);
    let sess = w.session.as_ref().unwrap();
    assert_eq!(sess.bullets.len(), 1);
    assert_eq!(sess.bullets[0].x, 450_000);
    // Holding fire: the cooldown blocks the next shot for a second.
    let sounds = w.step(&fire, &picks(), 500);
    assert!(sounds.is_empty());
    let sounds = w.step(&fire, &picks(), 500);
    assert_eq!(sounds, vec![SoundCue::Shoot]);
}

#[test]
fn the_rock_spawner_fires_when_its_timer_runs_out() {
    let mut w = World::new();
    w.step(&start_input(), &picks(), 16);
    w.step(&GameInput::none(), &picks(), 2000);
    let sess = w.session.as_ref().unwrap();
    assert_eq!(sess.rocks.len(), 1);
    assert_eq!(sess.rocks[0].x, 100_000);
    assert!(matches!(sess.rocks[0].rock_size, RockSize::Small));
    assert!(matches!(sess.rocks[0].rock_speed, RockSpeed::Fast));
    // Spawned just above the arena and already moved by this step's
    // elapsed time: 972 units minus 100 units/s for 2 s.
    assert_eq!(sess.rocks[0].y, 972_000 - 200_000);
}

#[test]
fn the_highscore_survives_rounds_and_only_grows() {
    let mut w = World::new();
    w.step(&start_input(), &picks(), 16);
    w.step(&GameInput::none(), &picks(), 1000);
    assert_eq!(w.score(), 5);
    w.step(&menu_input(), &picks(), 16);
    assert_eq!(w.highscore(), 5);
    // A worse round does not lower it.
    w.step(&start_input(), &picks(), 16);
    w.step(&menu_input(), &picks(), 16);
    assert_eq!(w.highscore(), 5);
}

#[test]
fn the_menu_ignores_game_inputs() {
    let mut w = World::new();
    let mut fire = GameInput::none();
    fire.fire = true;
    fire.menu = true;
    let sounds = w.step(&fire, &picks(), 16);
    assert_eq!(w.app_state(), AppState::MainMenu);
    assert!(w.session.is_none());
    assert!(sounds.is_empty());
}
