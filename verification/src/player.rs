//! The player ship: spawning, input-driven movement clamped to the
//! arena, clamped health arithmetic, and the collision rules against
//! rocks and crates.

use vstd::prelude::*;

verus! {

use crate::arena::{
    boxes_overlap, centers_within, collide, coord_ok, within_distance, ARENA_HEIGHT, ARENA_WIDTH,
    ASSET_SCALE, MAX_STEP_MS, MILLI,
};
use crate::assets::SoundCue;
use crate::explosion::Explosion;
use crate::rock::{Rock, RocksDestroyed};
use crate::score::{sat_add, sat_add_u32, Score};
use crate::space_crates::{
    CrateType, SpaceCrate, CRATE_DAMAGE, CRATE_HEAL, CRATE_HEIGHT, CRATE_WIDTH,
};
use crate::state::GameInput;

/// Ship speed in world units per second.
pub const PLAYER_SPEED: i64 = 480;

/// Ship sprite size in milli-units.
pub const PLAYER_SIZE: i64 = 16 * ASSET_SCALE * MILLI;

/// Full health, in tenths of a health point.
pub const PLAYER_STARTING_HEALTH: u32 = 1000;

/// The ship's centre is clamped to keep the whole sprite inside the
/// arena.
pub const PLAYER_MIN_X: i64 = 8 * ASSET_SCALE * MILLI;

pub const PLAYER_MAX_X: i64 = ARENA_WIDTH - 8 * ASSET_SCALE * MILLI;

pub const PLAYER_MIN_Y: i64 = 8 * ASSET_SCALE * MILLI;

pub const PLAYER_MAX_Y: i64 = ARENA_HEIGHT - 8 * ASSET_SCALE * MILLI;

/// Diagonal motion is scaled by this fraction, the closest thousandth
/// to the reciprocal of the square root of two.
pub const DIAG_NUM: u64 = 707;

pub const DIAG_DEN: u64 = 1000;

/// Points for destroying a rock with the ship's hull.
pub const ROCK_SCORE: u32 = 25;

/// Points for collecting any crate.
pub const CRATE_SCORE: u32 = 100;

/// The player ship: centre position in milli-units and health in
/// tenths of a point.
#[derive(Clone, Copy, Debug, PartialEq, Eq, Structural)]
pub struct Player {
    pub health: u32,
    pub x: i64,
    pub y: i64,
}

impl Player {
    /// The ship sits inside the arena with at most full health.
    pub open spec fn wf(self) -> bool {
        PLAYER_MIN_X <= self.x <= PLAYER_MAX_X && PLAYER_MIN_Y <= self.y <= PLAYER_MAX_Y
            && self.health <= PLAYER_STARTING_HEALTH
    }
}

/// The ship a round starts with: centred, at full health.
pub open spec fn initial_player() -> Player {
    Player {
        health: PLAYER_STARTING_HEALTH,
        x: (ARENA_WIDTH / 2) as i64,
        y: (ARENA_HEIGHT / 2) as i64,
    }
}

/// Create the player ship for a fresh round.
pub fn spawn_player() -> (p: Player)
    ensures
        p == initial_player(),
        p.wf(),
{
    Player { health: PLAYER_STARTING_HEALTH, x: 450 * MILLI, y: 450 * MILLI }
}

/// Health after healing by `amount`: the sum, clamped at full health.
/// This is exactly the minimum of full health and `h + amount`.
pub open spec fn clamped_heal(h: u32, amount: u32) -> u32 {
    if h + amount >= PLAYER_STARTING_HEALTH {
        PLAYER_STARTING_HEALTH
    } else {
        (h + amount) as u32
    }
}

/// Health after taking `amount` damage, saturating at zero; the round
/// ends when zero is reached.
pub open spec fn damaged(h: u32, amount: u32) -> u32 {
    if amount >= h {
        0
    } else {
        (h - amount) as u32
    }
}

/// Heal the player, clamping at full health.
pub fn heal_player(player: &mut Player, healing: u32)
    requires
        old(player).health <= PLAYER_STARTING_HEALTH,
    ensures
        *final (player) == (Player { health: clamped_heal(old(player).health, healing), ..*old(
            player,
        ) }),
{
    if healing >= PLAYER_STARTING_HEALTH - player.health {
        player.health = PLAYER_STARTING_HEALTH;
    } else {
        player.health = player.health + healing;
    }
}

/// Damage the player, saturating at zero health.
pub fn damage_player(player: &mut Player, damage: u32)
    ensures
        *final (player) == (Player { health: damaged(old(player).health, damage), ..*old(
            player,
        ) }),
{
    if damage >= player.health {
        player.health = 0;
    } else {
        player.health = player.health - damage;
    }
}

/// Clamp a displaced coordinate back into the arena.
pub open spec fn clamp_coord(v: int, lo: i64, hi: i64) -> i64 {
    if v < lo {
        lo
    } else if v > hi {
        hi
    } else {
        v as i64
    }
}

/// Where the ship ends up after one step of input-driven motion:
/// opposite directions cancel, diagonal motion is scaled by
/// `DIAG_NUM / DIAG_DEN`, and the result is clamped to the arena.
pub open spec fn moved_player(p: Player, input: GameInput, delta_ms: u64) -> Player {
    let step = PLAYER_SPEED * delta_ms;
    let horiz = (input.right && !input.left) || (input.left && !input.right);
    let vert = (input.up && !input.down) || (input.down && !input.up);
    let eff = if horiz && vert {
        step * (DIAG_NUM as int) / (DIAG_DEN as int)
    } else {
        step
    };
    let x2 = if input.right && !input.left {
        p.x + eff
    } else if input.left && !input.right {
        p.x - eff
    } else {
        p.x as int
    };
    let y2 = if input.up && !input.down {
        p.y + eff
    } else if input.down && !input.up {
        p.y - eff
    } else {
        p.y as int
    };
    Player {
        x: clamp_coord(x2, PLAYER_MIN_X, PLAYER_MAX_X),
        y: clamp_coord(y2, PLAYER_MIN_Y, PLAYER_MAX_Y),
        ..p
    }
}

/// Move the ship by the pressed directions for `delta_ms`, keeping it
/// inside the arena.
pub fn player_movement(player: &mut Player, input: &GameInput, delta_ms: u64)
    requires
        delta_ms <= MAX_STEP_MS,
        coord_ok(old(player).x),
        coord_ok(old(player).y),
    ensures
        *final (player) == moved_player(*old(player), *input, delta_ms),
{
    let speed_u: u64 = PLAYER_SPEED as u64;
    proof {
        assert(speed_u * delta_ms == PLAYER_SPEED * delta_ms && 0 <= speed_u * delta_ms
            <= 4_800_000) by (nonlinear_arith)
            requires
                speed_u == 480,
                PLAYER_SPEED == 480,
                delta_ms <= 10_000,
        ;
    }
    let step_u: u64 = speed_u * delta_ms;
    proof {
        assert(0 <= step_u * DIAG_NUM <= 3_393_600_000) by (nonlinear_arith)
            requires
                step_u <= 4_800_000,
                DIAG_NUM == 707,
        ;
    }
    let horiz = (input.right && !input.left) || (input.left && !input.right);
    let vert = (input.up && !input.down) || (input.down && !input.up);
    let eff_u: u64 = if horiz && vert {
        step_u * DIAG_NUM / DIAG_DEN
    } else {
        step_u
    };
    let eff: i64 = eff_u as i64;
    let x2: i64 = if input.right && !input.left {
        player.x + eff
    } else if input.left && !input.right {
        player.x - eff
    } else {
        player.x
    };
    let y2: i64 = if input.up && !input.down {
        player.y + eff
    } else if input.down && !input.up {
        player.y - eff
    } else {
        player.y
    };
    player.x = if x2 < PLAYER_MIN_X {
        PLAYER_MIN_X
    } else if x2 > PLAYER_MAX_X {
        PLAYER_MAX_X
    } else {
        x2
    };
    player.y = if y2 < PLAYER_MIN_Y {
        PLAYER_MIN_Y
    } else if y2 > PLAYER_MAX_Y {
        PLAYER_MAX_Y
    } else {
        y2
    };
}

/// Whether the ship and a rock touch: their centres are closer than
/// the sum of their half-sizes.
pub open spec fn rock_hits_player(px: i64, py: i64, r: Rock) -> bool {
    centers_within(px, py, r.x, r.y, ((PLAYER_SIZE + r.size_spec()) / 2) as i64)
}

/// The running outcome of resolving the ship against the rocks.
pub ghost struct PlayerRockOutcome {
    pub rocks: Seq<Rock>,
    pub health: u32,
    pub score: u32,
    pub destroyed: u32,
    pub explosions: Seq<Explosion>,
    pub sounds: Seq<SoundCue>,
}

/// Resolve one rock: a touching rock is destroyed for points, deals
/// its damage, spawns an explosion and a sound cue, and counts as
/// destroyed; any other rock survives.
pub open spec fn player_rock_step(
    st: PlayerRockOutcome,
    px: i64,
    py: i64,
    r: Rock,
) -> PlayerRockOutcome {
    if rock_hits_player(px, py, r) {
        PlayerRockOutcome {
            rocks: st.rocks,
            health: damaged(st.health, r.damage_spec()),
            score: sat_add(st.score, ROCK_SCORE),
            destroyed: sat_add(st.destroyed, 1),
            explosions: st.explosions.push(Explosion::fresh(r.x, r.y)),
            sounds: st.sounds.push(SoundCue::RockCollision),
        }
    } else {
        PlayerRockOutcome { rocks: st.rocks.push(r), ..st }
    }
}

/// Resolve the ship against each rock in order.
pub open spec fn player_rock_fold(
    st: PlayerRockOutcome,
    px: i64,
    py: i64,
    rocks: Seq<Rock>,
) -> PlayerRockOutcome
    decreases rocks.len(),
{
    if rocks.len() == 0 {
        st
    } else {
        player_rock_step(player_rock_fold(st, px, py, rocks.drop_last()), px, py, rocks.last())
    }
}

/// Resolve every ship-rock collision of this step: each touching rock
/// is removed, awards points, deals damage, spawns an explosion,
/// fires a sound cue and bumps the rocks-destroyed counter.
#[verifier::rlimit(100)]
#[verifier::spinoff_prover]
pub fn player_rock_collision(
    player: &mut Player,
    rocks: &mut Vec<Rock>,
    score: &mut Score,
    rocks_destroyed: &mut RocksDestroyed,
    explosions: &mut Vec<Explosion>,
    sounds: &mut Vec<SoundCue>,
)
    requires
        coord_ok(old(player).x),
        coord_ok(old(player).y),
        forall|j: int|
            0 <= j < old(rocks)@.len() ==> coord_ok(#[trigger] old(rocks)@[j].x) && coord_ok(
                old(rocks)@[j].y,
            ),
    ensures
        ({
            let st = player_rock_fold(
                PlayerRockOutcome {
                    rocks: Seq::<Rock>::empty(),
                    health: old(player).health,
                    score: old(score).value,
                    destroyed: old(rocks_destroyed).count,
                    explosions: old(explosions)@,
                    sounds: old(sounds)@,
                },
                old(player).x,
                old(player).y,
                old(rocks)@,
            );
            &&& final (rocks)@ == st.rocks
            &&& *final (player) == (Player { health: st.health, ..*old(player) })
            &&& final (score).value == st.score
            &&& final (rocks_destroyed).count == st.destroyed
            &&& final (explosions)@ == st.explosions
            &&& final (sounds)@ == st.sounds
        }),
{
    let ghost orig = rocks@;
    let ghost init = PlayerRockOutcome {
        rocks: Seq::<Rock>::empty(),
        health: player.health,
        score: score.value,
        destroyed: rocks_destroyed.count,
        explosions: explosions@,
        sounds: sounds@,
    };
    let ghost px = player.x;
    let ghost py = player.y;
    let mut kept: Vec<Rock> = Vec::new();
    let mut i: usize = 0;
    while i < rocks.len()
        invariant
            i <= orig.len(),
            rocks@ == orig,
            orig == old(rocks)@,
            coord_ok(player.x) && coord_ok(player.y),
            player.x == px && player.y == py,
            forall|j: int|
                0 <= j < old(rocks)@.len() ==> coord_ok(#[trigger] old(rocks)@[j].x) && coord_ok(
                    old(rocks)@[j].y,
                ),
            (PlayerRockOutcome {
                rocks: kept@,
                health: player.health,
                score: score.value,
                destroyed: rocks_destroyed.count,
                explosions: explosions@,
                sounds: sounds@,
            }) == player_rock_fold(init, px, py, orig.subrange(0, i as int)),
        decreases orig.len() - i,
    {
        let r = rocks[i];
        proof {
            assert(r == old(rocks)@[i as int]);
            assert(coord_ok(r.x) && coord_ok(r.y));
            assert(orig.subrange(0, i + 1).drop_last() =~= orig.subrange(0, i as int));
            assert(orig.subrange(0, i + 1).last() == orig[i as int]);
        }
        let dist = ((PLAYER_SIZE + r.size()) as u64 / 2) as i64;
        if within_distance(player.x, player.y, r.x, r.y, dist) {
            score.value = sat_add_u32(score.value, ROCK_SCORE);
            damage_player(player, r.damage());
            crate::explosion::spawn_explosion_on_event(explosions, r.x, r.y);
            sounds.push(SoundCue::RockCollision);
            rocks_destroyed.count = sat_add_u32(rocks_destroyed.count, 1);
        } else {
            kept.push(r);
        }
        i = i + 1;
    }
    proof {
        assert(orig.subrange(0, orig.len() as int) =~= orig);
    }
    *rocks = kept;
}

/// Whether the ship and a crate overlap, box against box.
pub open spec fn crate_hits_player(px: i64, py: i64, c: SpaceCrate) -> bool {
    boxes_overlap(px, py, PLAYER_SIZE, PLAYER_SIZE, c.x, c.y, CRATE_WIDTH, CRATE_HEIGHT)
}

/// The running outcome of resolving the ship against the crates.
pub ghost struct PlayerCrateOutcome {
    pub crates: Seq<SpaceCrate>,
    pub health: u32,
    pub score: u32,
    pub explosions: Seq<Explosion>,
    pub sounds: Seq<SoundCue>,
}

/// Resolve one crate: a collected health crate heals, a collected
/// explosive crate deals its damage and spawns an explosion; either
/// kind awards points and a sound cue and is removed. Any other crate
/// survives.
pub open spec fn player_crate_step(
    st: PlayerCrateOutcome,
    px: i64,
    py: i64,
    c: SpaceCrate,
) -> PlayerCrateOutcome {
    if crate_hits_player(px, py, c) {
        match c.crate_type {
            CrateType::Health => PlayerCrateOutcome {
                crates: st.crates,
                health: clamped_heal(st.health, CRATE_HEAL),
                score: sat_add(st.score, CRATE_SCORE),
                explosions: st.explosions,
                sounds: st.sounds.push(SoundCue::CollectRepair),
            },
            CrateType::Explosive => PlayerCrateOutcome {
                crates: st.crates,
                health: damaged(st.health, CRATE_DAMAGE),
                score: sat_add(st.score, CRATE_SCORE),
                explosions: st.explosions.push(Explosion::fresh(c.x, c.y)),
                sounds: st.sounds.push(SoundCue::HitExplosive),
            },
        }
    } else {
        PlayerCrateOutcome { crates: st.crates.push(c), ..st }
    }
}

/// Resolve the ship against each crate in order.
pub open spec fn player_crate_fold(
    st: PlayerCrateOutcome,
    px: i64,
    py: i64,
    crates: Seq<SpaceCrate>,
) -> PlayerCrateOutcome
    decreases crates.len(),
{
    if crates.len() == 0 {
        st
    } else {
        player_crate_step(
            player_crate_fold(st, px, py, crates.drop_last()),
            px,
            py,
            crates.last(),
        )
    }
}

/// Resolve every ship-crate collision of this step: each overlapping
/// crate is collected, healing or hurting by its type and awarding
/// points either way.
#[verifier::rlimit(100)]
#[verifier::spinoff_prover]
pub fn player_crate_collision(
    player: &mut Player,
    crates: &mut Vec<SpaceCrate>,
    score: &mut Score,
    explosions: &mut Vec<Explosion>,
    sounds: &mut Vec<SoundCue>,
)
    requires
        coord_ok(old(player).x),
        coord_ok(old(player).y),
        old(player).health <= PLAYER_STARTING_HEALTH,
        forall|j: int|
            0 <= j < old(crates)@.len() ==> coord_ok(#[trigger] old(crates)@[j].x) && coord_ok(
                old(crates)@[j].y,
            ),
    ensures
        ({
            let st = player_crate_fold(
                PlayerCrateOutcome {
                    crates: Seq::<SpaceCrate>::empty(),
                    health: old(player).health,
                    score: old(score).value,
                    explosions: old(explosions)@,
                    sounds: old(sounds)@,
                },
                old(player).x,
                old(player).y,
                old(crates)@,
            );
            &&& final (crates)@ == st.crates
            &&& *final (player) == (Player { health: st.health, ..*old(player) })
            &&& final (score).value == st.score
            &&& final (explosions)@ == st.explosions
            &&& final (sounds)@ == st.sounds
        }),
{
    let ghost orig = crates@;
    let ghost init = PlayerCrateOutcome {
        crates: Seq::<SpaceCrate>::empty(),
        health: player.health,
        score: score.value,
        explosions: explosions@,
        sounds: sounds@,
    };
    let ghost px = player.x;
    let ghost py = player.y;
    let mut kept: Vec<SpaceCrate> = Vec::new();
    let mut i: usize = 0;
    while i < crates.len()
        invariant
            i <= orig.len(),
            crates@ == orig,
            orig == old(crates)@,
            coord_ok(player.x) && coord_ok(player.y),
            player.x == px && player.y == py,
            player.health <= PLAYER_STARTING_HEALTH,
            forall|j: int|
                0 <= j < old(crates)@.len() ==> coord_ok(#[trigger] old(crates)@[j].x) && coord_ok(
                    old(crates)@[j].y,
                ),
            (PlayerCrateOutcome {
                crates: kept@,
                health: player.health,
                score: score.value,
                explosions: explosions@,
                sounds: sounds@,
            }) == player_crate_fold(init, px, py, orig.subrange(0, i as int)),
        decreases orig.len() - i,
    {
        let c = crates[i];
        proof {
            assert(c == old(crates)@[i as int]);
            assert(coord_ok(c.x) && coord_ok(c.y));
            assert(orig.subrange(0, i + 1).drop_last() =~= orig.subrange(0, i as int));
            assert(orig.subrange(0, i + 1).last() == orig[i as int]);
        }
        if collide(player.x, player.y, PLAYER_SIZE, PLAYER_SIZE, c.x, c.y, CRATE_WIDTH,
            CRATE_HEIGHT) {
            match c.crate_type {
                CrateType::Health => {
                    heal_player(player, CRATE_HEAL);
                    sounds.push(SoundCue::CollectRepair);
                }
                CrateType::Explosive => {
                    damage_player(player, CRATE_DAMAGE);
                    sounds.push(SoundCue::HitExplosive);
                    crate::explosion::spawn_explosion_on_event(explosions, c.x, c.y);
                }
            }
            score.value = sat_add_u32(score.value, CRATE_SCORE);
        } else {
            kept.push(c);
        }
        i = i + 1;
    }
    proof {
        assert(orig.subrange(0, orig.len() as int) =~= orig);
    }
    *crates = kept;
}


/// Resolving the ship against rocks preserves any per-rock property
/// of the survivors and any per-explosion property of the effects,
/// never raises health, and never lowers the score or the
/// rocks-destroyed counter.
pub proof fn lemma_player_rock_fold_props(
    st: PlayerRockOutcome,
    px: i64,
    py: i64,
    rocks: Seq<Rock>,
    p: spec_fn(Rock) -> bool,
    q: spec_fn(Explosion) -> bool,
)
    requires
        forall|j: int| 0 <= j < st.rocks.len() ==> p(#[trigger] st.rocks[j]),
        forall|j: int| 0 <= j < rocks.len() ==> p(#[trigger] rocks[j]),
        forall|j: int| 0 <= j < st.explosions.len() ==> q(#[trigger] st.explosions[j]),
        forall|j: int|
            0 <= j < rocks.len() ==> q(Explosion::fresh((#[trigger] rocks[j]).x, rocks[j].y)),
    ensures
        ({
            let r = player_rock_fold(st, px, py, rocks);
            &&& forall|j: int| 0 <= j < r.rocks.len() ==> p(#[trigger] r.rocks[j])
            &&& forall|j: int| 0 <= j < r.explosions.len() ==> q(#[trigger] r.explosions[j])
            &&& r.health <= st.health
            &&& r.score >= st.score
            &&& r.destroyed >= st.destroyed
        }),
    decreases rocks.len(),
{
    if rocks.len() > 0 {
        lemma_player_rock_fold_props(st, px, py, rocks.drop_last(), p, q);
    }
}

/// Resolving the ship against crates preserves any per-crate property
/// of the survivors and any per-explosion property of the effects,
/// keeps health at or below full, and never lowers the score.
pub proof fn lemma_player_crate_fold_props(
    st: PlayerCrateOutcome,
    px: i64,
    py: i64,
    crates: Seq<SpaceCrate>,
    p: spec_fn(SpaceCrate) -> bool,
    q: spec_fn(Explosion) -> bool,
)
    requires
        st.health <= PLAYER_STARTING_HEALTH,
        forall|j: int| 0 <= j < st.crates.len() ==> p(#[trigger] st.crates[j]),
        forall|j: int| 0 <= j < crates.len() ==> p(#[trigger] crates[j]),
        forall|j: int| 0 <= j < st.explosions.len() ==> q(#[trigger] st.explosions[j]),
        forall|j: int|
            0 <= j < crates.len() ==> q(Explosion::fresh((#[trigger] crates[j]).x, crates[j].y)),
    ensures
        ({
            let r = player_crate_fold(st, px, py, crates);
            &&& forall|j: int| 0 <= j < r.crates.len() ==> p(#[trigger] r.crates[j])
            &&& forall|j: int| 0 <= j < r.explosions.len() ==> q(#[trigger] r.explosions[j])
            &&& r.health <= PLAYER_STARTING_HEALTH
            &&& r.score >= st.score
        }),
    decreases crates.len(),
{
    if crates.len() > 0 {
        lemma_player_crate_fold_props(st, px, py, crates.drop_last(), p, q);
    }
}

} // verus!
