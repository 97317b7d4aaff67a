use space_game::assets::SoundCue;
use space_game::gun::{
    bullet_rock_collision, despawn_off_screen_bullets, move_bullets, shoot, Bullet,
    BulletCooldownTimer,
};
use space_game::player::spawn_player;
use space_game::rock::{Rock, RockSize, RockSpeed};
use space_game::score::Score;

#[test]
fn cooldown_starts_pre_armed() {
    let mut cooldown = BulletCooldownTimer::default();
    assert!(!cooldown.timer.finished());
    // The very first tick of a round arms it, whatever the delta.
    cooldown.timer.tick(0);
    assert!(cooldown.timer.finished());
}

#[test]
fn shooting_needs_fire_and_a_finished_cooldown() {
    let player = spawn_player();
    let mut bullets: Vec<Bullet> = Vec::new();
    let mut cooldown = BulletCooldownTimer::default();
    let mut next_id: u64 = 0;
    let mut sounds: Vec<SoundCue> = Vec::new();
    cooldown.timer.tick(16);

    shoot(&mut bullets, &mut cooldown, &player, false, &mut next_id, &mut sounds);
    assert!(bullets.is_empty());

    shoot(&mut bullets, &mut cooldown, &player, true, &mut next_id, &mut sounds);
    assert_eq!(bullets.len(), 1);
    assert_eq!(bullets[0].x, player.x);
    assert_eq!(bullets[0].y, player.y);
    assert_eq!(next_id, 1);
    assert_eq!(sounds, vec![SoundCue::Shoot]);
    // Firing reset the cooldown: a second shot right away does nothing.
    shoot(&mut bullets, &mut cooldown, &player, true, &mut next_id, &mut sounds);
    assert_eq!(bullets.len(), 1);
    // After a full second the cooldown has run out again.
    cooldown.timer.tick(1000);
    shoot(&mut bullets, &mut cooldown, &player, true, &mut next_id, &mut sounds);
    assert_eq!(bullets.len(), 2);
}

#[test]
fn bullets_climb_by_speed_times_time() {
    let mut bullets = vec![Bullet { id: 0, x: 100_000, y: 200_000 }];
    // 600 units/s for 0.25 s is 150 units.
    move_bullets(&mut bullets, 250);
    assert_eq!(bullets[0].y, 350_000);
}

// A bullet past the arena top by more than its half-height is
// removed; one exactly at that boundary survives.
#[test]
fn bullets_above_the_arena_are_removed() {
    let mut bullets = vec![
        Bullet { id: 0, x: 1000, y: 906_001 },
        Bullet { id: 1, x: 2000, y: 906_000 },
    ];
    despawn_off_screen_bullets(&mut bullets);
    assert_eq!(bullets.len(), 1);
    assert_eq!(bullets[0].id, 1);
}

// One bullet overlapping two rocks destroys only the first; the
// bullet is absorbed by it.
#[test]
fn a_bullet_destroys_at_most_one_rock() {
    let mut bullets = vec![Bullet { id: 0, x: 100_000, y: 100_000 }];
    let mut rocks = vec![
        Rock {
            id: 10,
            x: 100_000,
            y: 100_000,
            rock_size: RockSize::Big,
            rock_speed: RockSpeed::Slow,
        },
        Rock {
            id: 11,
            x: 100_000,
            y: 100_000,
            rock_size: RockSize::Big,
            rock_speed: RockSpeed::Slow,
        },
    ];
    let mut score = Score { value: 0 };
    let mut sounds: Vec<SoundCue> = Vec::new();
    bullet_rock_collision(&mut bullets, &mut rocks, &mut score, &mut sounds);
    assert!(bullets.is_empty());
    assert_eq!(rocks.len(), 1);
    assert_eq!(rocks[0].id, 11);
    assert_eq!(score.value, 25);
    assert_eq!(sounds, vec![SoundCue::RockCollision]);
}

// Two bullets on one rock: the first destroys it, the second flies on.
#[test]
fn a_rock_absorbs_only_one_bullet() {
    let mut bullets = vec![
        Bullet { id: 0, x: 100_000, y: 100_000 },
        Bullet { id: 1, x: 100_000, y: 100_000 },
    ];
    let mut rocks = vec![Rock {
        id: 10,
        x: 100_000,
        y: 100_000,
        rock_size: RockSize::Big,
        rock_speed: RockSpeed::Slow,
    }];
    let mut score = Score { value: 0 };
    let mut sounds: Vec<SoundCue> = Vec::new();
    bullet_rock_collision(&mut bullets, &mut rocks, &mut score, &mut sounds);
    assert_eq!(bullets.len(), 1);
    assert_eq!(bullets[0].id, 1);
    assert!(rocks.is_empty());
    assert_eq!(score.value, 25);
}

#[test]
fn missing_bullets_survive_and_score_nothing() {
    let mut bullets = vec![Bullet { id: 0, x: 100_000, y: 100_000 }];
    let mut rocks = vec![Rock {
        id: 10,
        x: 500_000,
        y: 500_000,
        rock_size: RockSize::Big,
        rock_speed: RockSpeed::Slow,
    }];
    let mut score = Score { value: 0 };
    let mut sounds: Vec<SoundCue> = Vec::new();
    bullet_rock_collision(&mut bullets, &mut rocks, &mut score, &mut sounds);
    assert_eq!(bullets.len(), 1);
    assert_eq!(rocks.len(), 1);
    assert_eq!(score.value, 0);
    assert!(sounds.is_empty());
}
