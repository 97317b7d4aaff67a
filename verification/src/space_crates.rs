//! Supply crates that fall through the arena: health crates heal the
//! player, explosive crates hurt. They spawn on a slow repeating
//! timer, fall at a fixed speed and are removed past the arena bottom.

use vstd::prelude::*;

verus! {

use crate::arena::{coord_ok, ARENA_HEIGHT, ARENA_WIDTH, ASSET_SCALE, MAX_STEP_MS, MILLI};
use crate::timer::{Timer, TimerMode};

/// Downward speed in world units per second.
pub const CRATE_SPEED: i64 = 100;

/// Sprite size in milli-units.
pub const CRATE_WIDTH: i64 = 16 * ASSET_SCALE * MILLI;

pub const CRATE_HEIGHT: i64 = 16 * ASSET_SCALE * MILLI;

/// Half the crate height, the boundary-removal margin.
pub const CRATE_HALF_HEIGHT: i64 = 8 * ASSET_SCALE * MILLI;

/// Milliseconds between two crate spawns.
pub const CRATE_COOLDOWN: u64 = 10_000;

/// Healing from a health crate, in tenths of a health point.
pub const CRATE_HEAL: u32 = 200;

/// Damage from an explosive crate, in tenths of a health point.
pub const CRATE_DAMAGE: u32 = 750;

/// Crates spawn just above the visible arena.
pub const CRATE_SPAWN_Y: i64 = CRATE_HEIGHT + ARENA_HEIGHT;

/// What a crate does to the player who collects it.
#[derive(Clone, Copy, Debug, PartialEq, Eq, Structural)]
pub enum CrateType {
    Health,
    Explosive,
}

/// A falling crate: a stable identifier, a centre position in
/// milli-units, and its type.
#[derive(Clone, Copy, Debug, PartialEq, Eq, Structural)]
pub struct SpaceCrate {
    pub id: u64,
    pub x: i64,
    pub y: i64,
    pub crate_type: CrateType,
}

/// The repeating timer that paces crate spawns.
#[derive(Clone, Copy, Debug, PartialEq, Eq, Structural)]
pub struct CrateSpawnTimer {
    pub timer: Timer,
}

impl Default for CrateSpawnTimer {
    fn default() -> (t: CrateSpawnTimer)
        ensures
            t.timer == Timer::fresh(CRATE_COOLDOWN, TimerMode::Repeating),
    {
        CrateSpawnTimer { timer: Timer::new(CRATE_COOLDOWN, TimerMode::Repeating) }
    }
}

/// Advance the crate spawn timer by the elapsed time.
pub fn tick_crate_spawn_timer(crate_spawn_timer: &mut CrateSpawnTimer, delta_ms: u64)
    requires
        old(crate_spawn_timer).timer.wf(),
        old(crate_spawn_timer).timer.elapsed_ms + delta_ms <= u64::MAX,
    ensures
        final (crate_spawn_timer).timer == old(crate_spawn_timer).timer.tick_spec(delta_ms),
{
    crate_spawn_timer.timer.tick(delta_ms);
}

/// Crate type chosen from a uniform draw: the catch-all arm keeps the
/// choice total for any byte.
pub open spec fn pick_crate_type(pick: u8) -> CrateType {
    if pick == 0 {
        CrateType::Health
    } else {
        CrateType::Explosive
    }
}

/// The crate a spawn produces: at the drawn horizontal position, just
/// above the arena, with the drawn type.
pub open spec fn new_crate(id: u64, x: i64, kind_pick: u8) -> SpaceCrate {
    SpaceCrate { id, x, y: CRATE_SPAWN_Y, crate_type: pick_crate_type(kind_pick) }
}

/// Append one freshly spawned crate if the spawn timer finished on the
/// most recent tick; otherwise do nothing. (Spawning also stops in the
/// unreachable case that the identifier space is exhausted, so that
/// identifiers stay fresh.)
pub fn spawn_crates(
    crates: &mut Vec<SpaceCrate>,
    crate_spawn_timer: &CrateSpawnTimer,
    next_id: &mut u64,
    x: i64,
    kind_pick: u8,
)
    requires
        0 <= x < ARENA_WIDTH,
    ensures
        crate_spawn_timer.timer.finished && *old(next_id) < u64::MAX ==> final (crates)@ == old(
            crates,
        )@.push(new_crate(*old(next_id), x, kind_pick)) && *final (next_id) == *old(next_id) + 1,
        !(crate_spawn_timer.timer.finished && *old(next_id) < u64::MAX) ==> final (crates)@ == old(
            crates,
        )@ && *final (next_id) == *old(next_id),
{
    if crate_spawn_timer.timer.finished() && *next_id < u64::MAX {
        let crate_type = if kind_pick == 0 {
            CrateType::Health
        } else {
            CrateType::Explosive
        };
        crates.push(SpaceCrate { id: *next_id, x, y: CRATE_SPAWN_Y, crate_type });
        *next_id = *next_id + 1;
    }
}

/// Where a crate ends up after falling for `delta_ms`.
pub open spec fn moved_crate(c: SpaceCrate, delta_ms: u64) -> SpaceCrate {
    SpaceCrate { y: (c.y - CRATE_SPEED * delta_ms) as i64, ..c }
}

/// Advance every crate down the arena by the crate speed times the
/// elapsed time.
pub fn move_crates(crates: &mut Vec<SpaceCrate>, delta_ms: u64)
    requires
        delta_ms <= MAX_STEP_MS,
        forall|j: int| 0 <= j < old(crates)@.len() ==> coord_ok(#[trigger] old(crates)@[j].y),
    ensures
        final (crates)@ == old(crates)@.map_values(|c: SpaceCrate| moved_crate(c, delta_ms)),
{
    let ghost orig = crates@;
    let mut i: usize = 0;
    while i < crates.len()
        invariant
            i <= orig.len(),
            crates@.len() == orig.len(),
            delta_ms <= MAX_STEP_MS,
            forall|j: int| 0 <= j < orig.len() ==> coord_ok(#[trigger] orig[j].y),
            forall|j: int| i <= j < orig.len() ==> crates@[j] == orig[j],
            forall|j: int| 0 <= j < i ==> crates@[j] == moved_crate(orig[j], delta_ms),
        decreases orig.len() - i,
    {
        let c = crates[i];
        let dy = CRATE_SPEED * (delta_ms as i64);
        crates.set(i, SpaceCrate { y: c.y - dy, ..c });
        i = i + 1;
    }
    proof {
        assert(crates@ =~= orig.map_values(|c: SpaceCrate| moved_crate(c, delta_ms)));
    }
}

/// Whether a crate is still within reach of the arena: it has not
/// crossed the bottom boundary by more than its own half-height.
pub open spec fn crate_on_screen(c: SpaceCrate) -> bool {
    c.y >= -CRATE_HALF_HEIGHT
}

/// Remove every crate that has crossed the arena bottom.
pub fn remove_off_screen_crates(crates: &mut Vec<SpaceCrate>)
    ensures
        final (crates)@ == old(crates)@.filter(|c: SpaceCrate| crate_on_screen(c)),
{
    broadcast use vstd::seq_lib::group_filter_ensures;

    let ghost orig = crates@;
    let mut kept: Vec<SpaceCrate> = Vec::new();
    let mut i: usize = 0;
    while i < crates.len()
        invariant
            i <= orig.len(),
            crates@ == orig,
            kept@ == orig.subrange(0, i as int).filter(|c: SpaceCrate| crate_on_screen(c)),
        decreases orig.len() - i,
    {
        let c = crates[i];
        proof {
            reveal_with_fuel(Seq::filter, 2);
            assert(orig.subrange(0, i + 1) =~= orig.subrange(0, i as int) + seq![
                orig[i as int],
            ]);
            Seq::filter_distributes_over_add(
                orig.subrange(0, i as int),
                seq![orig[i as int]],
                |c: SpaceCrate| crate_on_screen(c),
            );
            assert(seq![orig[i as int]].drop_last() =~= Seq::<SpaceCrate>::empty());
        }
        if c.y >= -CRATE_HALF_HEIGHT {
            kept.push(c);
        }
        i = i + 1;
    }
    proof {
        assert(orig.subrange(0, orig.len() as int) =~= orig);
    }
    *crates = kept;
}

} // verus!
