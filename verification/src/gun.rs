//! Bullets: firing under a cooldown, upward motion, removal above the
//! arena, and the bullet-rock collision rule. Each bullet destroys at
//! most the first rock it overlaps, and each destroyed rock absorbs
//! its bullet.

use vstd::prelude::*;

verus! {

use crate::arena::{
    boxes_overlap, collide, coord_ok, ARENA_HEIGHT, ASSET_SCALE, MAX_STEP_MS, MILLI,
};
use crate::assets::SoundCue;
use crate::player::{Player, ROCK_SCORE};
use crate::rock::Rock;
use crate::score::{sat_add, sat_add_u32, Score};
use crate::timer::{Timer, TimerMode};

/// Upward speed in world units per second.
pub const BULLET_SPEED: i64 = 600;

/// Sprite size in milli-units.
pub const BULLET_WIDTH: i64 = ASSET_SCALE * MILLI;

pub const BULLET_HEIGHT: i64 = 4 * ASSET_SCALE * MILLI;

/// Half the bullet height, the boundary-removal margin.
pub const BULLET_HALF_HEIGHT: i64 = 2 * ASSET_SCALE * MILLI;

/// Milliseconds between two shots.
pub const BULLET_COOLDOWN: u64 = 1000;

/// A bullet: a stable identifier and a centre position in milli-units.
#[derive(Clone, Copy, Debug, PartialEq, Eq, Structural)]
pub struct Bullet {
    pub id: u64,
    pub x: i64,
    pub y: i64,
}

/// The one-shot timer that spaces out shots. It starts with a full
/// elapsed time on the clock, so the first tick of a round already
/// reports it finished and the first shot needs no waiting.
#[derive(Clone, Copy, Debug, PartialEq, Eq, Structural)]
pub struct BulletCooldownTimer {
    pub timer: Timer,
}

impl Default for BulletCooldownTimer {
    fn default() -> (t: BulletCooldownTimer)
        ensures
            t.timer == (Timer {
                mode: TimerMode::Once,
                duration_ms: BULLET_COOLDOWN,
                elapsed_ms: BULLET_COOLDOWN,
                finished: false,
            }),
    {
        let mut timer = Timer::new(BULLET_COOLDOWN, TimerMode::Once);
        timer.set_elapsed(BULLET_COOLDOWN);
        BulletCooldownTimer { timer }
    }
}

/// Advance the bullet cooldown timer by the elapsed time.
pub fn tick_bullet_cooldown_timer(bullet_cooldown_timer: &mut BulletCooldownTimer, delta_ms: u64)
    requires
        old(bullet_cooldown_timer).timer.wf(),
        old(bullet_cooldown_timer).timer.elapsed_ms + delta_ms <= u64::MAX,
    ensures
        final (bullet_cooldown_timer).timer == old(bullet_cooldown_timer).timer.tick_spec(
            delta_ms,
        ),
{
    bullet_cooldown_timer.timer.tick(delta_ms);
}

/// Fire one bullet from the ship's position if fire is held and the
/// cooldown timer finished on its most recent tick; firing resets the
/// cooldown. Otherwise nothing changes. (Firing also stops in the
/// unreachable case that the identifier space is exhausted, so that
/// identifiers stay fresh.)
pub fn shoot(
    bullets: &mut Vec<Bullet>,
    bullet_cooldown_timer: &mut BulletCooldownTimer,
    player: &Player,
    fire: bool,
    next_id: &mut u64,
    sounds: &mut Vec<SoundCue>,
)
    ensures
        fire && old(bullet_cooldown_timer).timer.finished && *old(next_id) < u64::MAX ==> {
            &&& final (bullets)@ == old(bullets)@.push(
                Bullet { id: *old(next_id), x: player.x, y: player.y },
            )
            &&& final (bullet_cooldown_timer).timer == (Timer {
                elapsed_ms: 0,
                finished: false,
                ..old(bullet_cooldown_timer).timer
            })
            &&& *final (next_id) == *old(next_id) + 1
            &&& final (sounds)@ == old(sounds)@.push(SoundCue::Shoot)
        },
        !(fire && old(bullet_cooldown_timer).timer.finished && *old(next_id) < u64::MAX) ==> {
            &&& final (bullets)@ == old(bullets)@
            &&& *final (bullet_cooldown_timer) == *old(bullet_cooldown_timer)
            &&& *final (next_id) == *old(next_id)
            &&& final (sounds)@ == old(sounds)@
        },
{
    if fire && bullet_cooldown_timer.timer.finished() && *next_id < u64::MAX {
        bullets.push(Bullet { id: *next_id, x: player.x, y: player.y });
        *next_id = *next_id + 1;
        sounds.push(SoundCue::Shoot);
        bullet_cooldown_timer.timer.reset();
    }
}

/// Where a bullet ends up after climbing for `delta_ms`.
pub open spec fn moved_bullet(b: Bullet, delta_ms: u64) -> Bullet {
    Bullet { y: (b.y + BULLET_SPEED * delta_ms) as i64, ..b }
}

/// Advance every bullet up the arena by the bullet speed times the
/// elapsed time.
pub fn move_bullets(bullets: &mut Vec<Bullet>, delta_ms: u64)
    requires
        delta_ms <= MAX_STEP_MS,
        forall|j: int| 0 <= j < old(bullets)@.len() ==> coord_ok(#[trigger] old(bullets)@[j].y),
    ensures
        final (bullets)@ == old(bullets)@.map_values(|b: Bullet| moved_bullet(b, delta_ms)),
{
    let ghost orig = bullets@;
    let mut i: usize = 0;
    while i < bullets.len()
        invariant
            i <= orig.len(),
            bullets@.len() == orig.len(),
            delta_ms <= MAX_STEP_MS,
            forall|j: int| 0 <= j < orig.len() ==> coord_ok(#[trigger] orig[j].y),
            forall|j: int| i <= j < orig.len() ==> bullets@[j] == orig[j],
            forall|j: int| 0 <= j < i ==> bullets@[j] == moved_bullet(orig[j], delta_ms),
        decreases orig.len() - i,
    {
        let b = bullets[i];
        proof {
            assert(b == orig[i as int] && coord_ok(orig[i as int].y));
        }
        let dy = BULLET_SPEED * (delta_ms as i64);
        bullets.set(i, Bullet { y: b.y + dy, ..b });
        i = i + 1;
    }
    proof {
        assert(bullets@ =~= orig.map_values(|b: Bullet| moved_bullet(b, delta_ms)));
    }
}

/// Whether a bullet is still within reach of the arena: it has not
/// crossed the top boundary by more than its own half-height.
pub open spec fn bullet_on_screen(b: Bullet) -> bool {
    b.y <= ARENA_HEIGHT + BULLET_HALF_HEIGHT
}

/// Remove every bullet that has crossed the arena top.
pub fn despawn_off_screen_bullets(bullets: &mut Vec<Bullet>)
    ensures
        final (bullets)@ == old(bullets)@.filter(|b: Bullet| bullet_on_screen(b)),
{
    broadcast use vstd::seq_lib::group_filter_ensures;

    let ghost orig = bullets@;
    let mut kept: Vec<Bullet> = Vec::new();
    let mut i: usize = 0;
    while i < bullets.len()
        invariant
            i <= orig.len(),
            bullets@ == orig,
            kept@ == orig.subrange(0, i as int).filter(|b: Bullet| bullet_on_screen(b)),
        decreases orig.len() - i,
    {
        let b = bullets[i];
        proof {
            reveal_with_fuel(Seq::filter, 2);
            assert(orig.subrange(0, i + 1) =~= orig.subrange(0, i as int) + seq![
                orig[i as int],
            ]);
            Seq::filter_distributes_over_add(
                orig.subrange(0, i as int),
                seq![orig[i as int]],
                |b: Bullet| bullet_on_screen(b),
            );
            assert(seq![orig[i as int]].drop_last() =~= Seq::<Bullet>::empty());
        }
        if b.y <= ARENA_HEIGHT + BULLET_HALF_HEIGHT {
            kept.push(b);
        }
        i = i + 1;
    }
    proof {
        assert(orig.subrange(0, orig.len() as int) =~= orig);
    }
    *bullets = kept;
}

/// Whether a bullet's box overlaps a rock's box.
pub open spec fn bullet_hits_rock(b: Bullet, r: Rock) -> bool {
    boxes_overlap(b.x, b.y, BULLET_WIDTH, BULLET_HEIGHT, r.x, r.y, r.size_spec(), r.size_spec())
}

/// The index of the first rock a bullet overlaps, or the sequence
/// length when it overlaps none.
pub open spec fn first_hit(b: Bullet, rocks: Seq<Rock>) -> int
    decreases rocks.len(),
{
    if rocks.len() == 0 {
        0
    } else if bullet_hits_rock(b, rocks[0]) {
        0
    } else {
        1 + first_hit(b, rocks.drop_first())
    }
}

/// `first_hit` is pinned down by what a left-to-right scan saw: no hit
/// before `j`, and a hit at `j` unless the scan ran out.
proof fn lemma_first_hit_at(b: Bullet, rocks: Seq<Rock>, j: int)
    requires
        0 <= j <= rocks.len(),
        forall|jj: int| 0 <= jj < j ==> !bullet_hits_rock(b, #[trigger] rocks[jj]),
        j < rocks.len() ==> bullet_hits_rock(b, rocks[j]),
    ensures
        first_hit(b, rocks) == j,
    decreases j,
{
    if rocks.len() == 0 {
    } else if j == 0 {
    } else {
        assert(!bullet_hits_rock(b, rocks[0]));
        lemma_first_hit_at(b, rocks.drop_first(), j - 1);
    }
}

/// The running outcome of resolving the bullets against the rocks.
pub ghost struct BulletRockOutcome {
    pub bullets: Seq<Bullet>,
    pub rocks: Seq<Rock>,
    pub score: u32,
    pub sounds: Seq<SoundCue>,
}

/// Resolve one bullet: it destroys the first rock it overlaps, for
/// points and a sound cue, and is absorbed; a bullet that overlaps no
/// rock survives.
pub open spec fn bullet_rock_step(st: BulletRockOutcome, b: Bullet) -> BulletRockOutcome {
    let j = first_hit(b, st.rocks);
    if j < st.rocks.len() {
        BulletRockOutcome {
            bullets: st.bullets,
            rocks: st.rocks.remove(j),
            score: sat_add(st.score, ROCK_SCORE),
            sounds: st.sounds.push(SoundCue::RockCollision),
        }
    } else {
        BulletRockOutcome { bullets: st.bullets.push(b), ..st }
    }
}

/// Resolve each bullet in order against the rocks that are still
/// standing.
pub open spec fn bullet_rock_fold(st: BulletRockOutcome, bullets: Seq<Bullet>) -> BulletRockOutcome
    decreases bullets.len(),
{
    if bullets.len() == 0 {
        st
    } else {
        bullet_rock_step(bullet_rock_fold(st, bullets.drop_last()), bullets.last())
    }
}

/// Resolve every bullet-rock collision of this step: scanning the
/// bullets in order, each destroys the first rock it overlaps (points
/// and a sound cue) and is absorbed by it, so no rock is destroyed
/// twice and no bullet hits twice.
#[verifier::rlimit(100)]
#[verifier::spinoff_prover]
pub fn bullet_rock_collision(
    bullets: &mut Vec<Bullet>,
    rocks: &mut Vec<Rock>,
    score: &mut Score,
    sounds: &mut Vec<SoundCue>,
)
    requires
        forall|j: int|
            0 <= j < old(bullets)@.len() ==> coord_ok(#[trigger] old(bullets)@[j].x) && coord_ok(
                old(bullets)@[j].y,
            ),
        forall|j: int|
            0 <= j < old(rocks)@.len() ==> coord_ok(#[trigger] old(rocks)@[j].x) && coord_ok(
                old(rocks)@[j].y,
            ),
    ensures
        ({
            let st = bullet_rock_fold(
                BulletRockOutcome {
                    bullets: Seq::<Bullet>::empty(),
                    rocks: old(rocks)@,
                    score: old(score).value,
                    sounds: old(sounds)@,
                },
                old(bullets)@,
            );
            &&& final (bullets)@ == st.bullets
            &&& final (rocks)@ == st.rocks
            &&& final (score).value == st.score
            &&& final (sounds)@ == st.sounds
        }),
{
    let ghost orig_bullets = bullets@;
    let ghost init = BulletRockOutcome {
        bullets: Seq::<Bullet>::empty(),
        rocks: rocks@,
        score: score.value,
        sounds: sounds@,
    };
    proof {
        assert forall|j: int| 0 <= j < orig_bullets.len() implies coord_ok(
            #[trigger] orig_bullets[j].x,
        ) && coord_ok(orig_bullets[j].y) by {
            assert(orig_bullets[j] == old(bullets)@[j]);
            assert(coord_ok(old(bullets)@[j].x) && coord_ok(old(bullets)@[j].y));
        }
        assert forall|j: int| 0 <= j < rocks@.len() implies coord_ok(#[trigger] rocks@[j].x)
            && coord_ok(rocks@[j].y) by {
            assert(rocks@[j] == old(rocks)@[j]);
            assert(coord_ok(old(rocks)@[j].x) && coord_ok(old(rocks)@[j].y));
        }
    }
    let mut kept: Vec<Bullet> = Vec::new();
    let mut i: usize = 0;
    while i < bullets.len()
        invariant
            i <= orig_bullets.len(),
            bullets@ == orig_bullets,
            forall|j: int|
                0 <= j < orig_bullets.len() ==> coord_ok(#[trigger] orig_bullets[j].x)
                    && coord_ok(orig_bullets[j].y),
            forall|j: int|
                0 <= j < rocks@.len() ==> coord_ok(#[trigger] rocks@[j].x) && coord_ok(
                    rocks@[j].y,
                ),
            (BulletRockOutcome {
                bullets: kept@,
                rocks: rocks@,
                score: score.value,
                sounds: sounds@,
            }) == bullet_rock_fold(init, orig_bullets.subrange(0, i as int)),
        decreases orig_bullets.len() - i,
    {
        let b = bullets[i];
        proof {
            assert(orig_bullets.subrange(0, i + 1).drop_last() =~= orig_bullets.subrange(
                0,
                i as int,
            ));
            assert(orig_bullets.subrange(0, i + 1).last() == orig_bullets[i as int]);
        }
        // Find the first rock this bullet overlaps, if any.
        let mut hit_idx: usize = rocks.len();
        let mut j: usize = 0;
        while j < rocks.len()
            invariant
                j <= rocks@.len(),
                hit_idx <= rocks@.len(),
                coord_ok(b.x) && coord_ok(b.y),
                forall|jj: int|
                    0 <= jj < rocks@.len() ==> coord_ok(#[trigger] rocks@[jj].x) && coord_ok(
                        rocks@[jj].y,
                    ),
                hit_idx == rocks@.len() ==> forall|jj: int|
                    0 <= jj < j ==> !bullet_hits_rock(b, #[trigger] rocks@[jj]),
                hit_idx < rocks@.len() ==> hit_idx < j && bullet_hits_rock(b, rocks@[hit_idx as int])
                    && forall|jj: int|
                    0 <= jj < hit_idx ==> !bullet_hits_rock(b, #[trigger] rocks@[jj]),
            decreases rocks@.len() - j,
        {
            if hit_idx == rocks.len() {
                let r = rocks[j];
                if collide(b.x, b.y, BULLET_WIDTH, BULLET_HEIGHT, r.x, r.y, r.size(), r.size()) {
                    hit_idx = j;
                }
            }
            j = j + 1;
        }
        proof {
            lemma_first_hit_at(b, rocks@, hit_idx as int);
        }
        if hit_idx < rocks.len() {
            rocks.remove(hit_idx);
            score.value = sat_add_u32(score.value, ROCK_SCORE);
            sounds.push(SoundCue::RockCollision);
        } else {
            kept.push(b);
        }
        i = i + 1;
    }
    proof {
        assert(orig_bullets.subrange(0, orig_bullets.len() as int) =~= orig_bullets);
    }
    *bullets = kept;
}


/// Resolving bullets against rocks preserves any per-rock property of
/// the surviving rocks and any per-bullet property of the surviving
/// bullets, and never lowers the score.
pub proof fn lemma_bullet_rock_fold_props(
    st: BulletRockOutcome,
    bullets: Seq<Bullet>,
    p: spec_fn(Rock) -> bool,
    pb: spec_fn(Bullet) -> bool,
)
    requires
        forall|j: int| 0 <= j < st.rocks.len() ==> p(#[trigger] st.rocks[j]),
        forall|j: int| 0 <= j < st.bullets.len() ==> pb(#[trigger] st.bullets[j]),
        forall|j: int| 0 <= j < bullets.len() ==> pb(#[trigger] bullets[j]),
    ensures
        ({
            let r = bullet_rock_fold(st, bullets);
            &&& forall|j: int| 0 <= j < r.rocks.len() ==> p(#[trigger] r.rocks[j])
            &&& forall|j: int| 0 <= j < r.bullets.len() ==> pb(#[trigger] r.bullets[j])
            &&& r.score >= st.score
        }),
    decreases bullets.len(),
{
    if bullets.len() > 0 {
        lemma_bullet_rock_fold_props(st, bullets.drop_last(), p, pb);
        let mid = bullet_rock_fold(st, bullets.drop_last());
        let b = bullets.last();
        let j = first_hit(b, mid.rocks);
        if j < mid.rocks.len() {
            lemma_first_hit_range(b, mid.rocks);
            mid.rocks.remove_ensures(j);
        }
    }
}


/// `first_hit` always lands within `0 ..= rocks.len()`.
proof fn lemma_first_hit_range(b: Bullet, rocks: Seq<Rock>)
    ensures
        0 <= first_hit(b, rocks) <= rocks.len(),
    decreases rocks.len(),
{
    if rocks.len() > 0 && !bullet_hits_rock(b, rocks[0]) {
        lemma_first_hit_range(b, rocks.drop_first());
    }
}

} // verus!
