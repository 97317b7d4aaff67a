//! Falling rocks: their size and speed classes, the damage table, the
//! spawn timer with its escalating-difficulty curve, and the per-step
//! motion and boundary-removal rules.

use vstd::prelude::*;

verus! {

use crate::arena::{coord_ok, ARENA_HEIGHT, ARENA_WIDTH, ASSET_SCALE, MAX_STEP_MS, MILLI};
use crate::score::{sat_add_amt, sat_add_u32};
use crate::timer::{Timer, TimerMode};

/// Rock spawn interval at the start of a round, in milliseconds.
pub const STARTING_ROCK_COOLDOWN: u64 = 2000;

pub const EASY_ROCK_COOLDOWN: u64 = 1000;

pub const NORMAL_ROCK_COOLDOWN: u64 = 500;

pub const HARD_ROCK_COOLDOWN: u64 = 300;

pub const VERY_HARD_ROCK_COOLDOWN: u64 = 200;

/// Downward speeds in world units per second.
pub const FAST_ROCK_SPEED: i64 = 100;

pub const NORMAL_ROCK_SPEED: i64 = 75;

pub const SLOW_ROCK_SPEED: i64 = 50;

/// Sprite sizes in milli-units.
pub const BIG_ROCK_SIZE: i64 = 24 * ASSET_SCALE * MILLI;

pub const NORMAL_ROCK_SIZE: i64 = 16 * ASSET_SCALE * MILLI;

pub const SMALL_ROCK_SIZE: i64 = 8 * ASSET_SCALE * MILLI;

/// Rocks spawn just above the visible arena, by their largest size.
pub const ROCK_SPAWN_Y: i64 = BIG_ROCK_SIZE + ARENA_HEIGHT;

/// The spawn timer for rocks; its duration shrinks as the
/// rocks-destroyed counter climbs through the difficulty tiers.
#[derive(Clone, Copy, Debug, PartialEq, Eq, Structural)]
pub struct RockSpawnTimer {
    pub timer: Timer,
}

impl Default for RockSpawnTimer {
    fn default() -> (t: RockSpawnTimer)
        ensures
            t.timer == Timer::fresh(STARTING_ROCK_COOLDOWN, TimerMode::Repeating),
    {
        RockSpawnTimer { timer: Timer::new(STARTING_ROCK_COOLDOWN, TimerMode::Repeating) }
    }
}

/// How many rocks have been destroyed this round, by any cause:
/// leaving the arena bottom counts as much as a collision kill.
#[derive(Clone, Copy, Debug, PartialEq, Eq, Structural)]
pub struct RocksDestroyed {
    pub count: u32,
}

impl Default for RocksDestroyed {
    fn default() -> (r: RocksDestroyed)
        ensures
            r.count == 0,
    {
        RocksDestroyed { count: 0 }
    }
}

/// Size class of a rock, fixing its sprite size and damage multiplier.
#[derive(Clone, Copy, Debug, PartialEq, Eq, Structural)]
pub enum RockSize {
    Big,
    Normal,
    Small,
}

/// Speed class of a rock, fixing its downward velocity and base damage.
#[derive(Clone, Copy, Debug, PartialEq, Eq, Structural)]
pub enum RockSpeed {
    Fast,
    Normal,
    Slow,
}

/// A falling rock: a stable identifier, a centre position in
/// milli-units, and its two classes.
#[derive(Clone, Copy, Debug, PartialEq, Eq, Structural)]
pub struct Rock {
    pub id: u64,
    pub x: i64,
    pub y: i64,
    pub rock_size: RockSize,
    pub rock_speed: RockSpeed,
}

/// Base damage by speed class, in tenths of a health point.
pub open spec fn damage_base(speed: RockSpeed) -> u32 {
    match speed {
        RockSpeed::Fast => 100,
        RockSpeed::Normal => 75,
        RockSpeed::Slow => 50,
    }
}

/// Damage multiplier by size class.
pub open spec fn size_multiplier(size: RockSize) -> u32 {
    match size {
        RockSize::Big => 3,
        RockSize::Normal => 2,
        RockSize::Small => 1,
    }
}

impl Rock {
    /// Downward speed in world units per second, by speed class.
    pub open spec fn speed_spec(self) -> i64 {
        match self.rock_speed {
            RockSpeed::Fast => FAST_ROCK_SPEED,
            RockSpeed::Normal => NORMAL_ROCK_SPEED,
            RockSpeed::Slow => SLOW_ROCK_SPEED,
        }
    }

    /// Sprite size (width and height) in milli-units, by size class.
    pub open spec fn size_spec(self) -> i64 {
        match self.rock_size {
            RockSize::Big => BIG_ROCK_SIZE,
            RockSize::Normal => NORMAL_ROCK_SIZE,
            RockSize::Small => SMALL_ROCK_SIZE,
        }
    }

    /// Damage dealt to the player, in tenths of a health point:
    /// exactly the base for the speed class times the multiplier for
    /// the size class.
    pub open spec fn damage_spec(self) -> u32 {
        (damage_base(self.rock_speed) * size_multiplier(self.rock_size)) as u32
    }

    pub fn speed(&self) -> (s: i64)
        ensures
            s == self.speed_spec(),
            SLOW_ROCK_SPEED <= s <= FAST_ROCK_SPEED,
    {
        match self.rock_speed {
            RockSpeed::Fast => FAST_ROCK_SPEED,
            RockSpeed::Normal => NORMAL_ROCK_SPEED,
            RockSpeed::Slow => SLOW_ROCK_SPEED,
        }
    }

    pub fn size(&self) -> (s: i64)
        ensures
            s == self.size_spec(),
            SMALL_ROCK_SIZE <= s <= BIG_ROCK_SIZE,
    {
        match self.rock_size {
            RockSize::Big => BIG_ROCK_SIZE,
            RockSize::Normal => NORMAL_ROCK_SIZE,
            RockSize::Small => SMALL_ROCK_SIZE,
        }
    }

    pub fn damage(&self) -> (d: u32)
        ensures
            d == self.damage_spec(),
            d == damage_base(self.rock_speed) * size_multiplier(self.rock_size),
    {
        let base: u32 = match self.rock_speed {
            RockSpeed::Fast => 100,
            RockSpeed::Normal => 75,
            RockSpeed::Slow => 50,
        };
        let multiplier: u32 = match self.rock_size {
            RockSize::Big => 3,
            RockSize::Normal => 2,
            RockSize::Small => 1,
        };
        base * multiplier
    }
}

/// The rock spawn interval demanded by the rocks-destroyed counter:
/// each tier past a threshold shortens it, without an upper cap, and
/// below the first threshold the current interval is kept.
pub open spec fn rock_cooldown_for(count: u32, current_ms: u64) -> u64 {
    if 10 < count <= 25 {
        EASY_ROCK_COOLDOWN
    } else if 25 < count <= 75 {
        NORMAL_ROCK_COOLDOWN
    } else if 75 < count <= 200 {
        HARD_ROCK_COOLDOWN
    } else if 200 < count {
        VERY_HARD_ROCK_COOLDOWN
    } else {
        current_ms
    }
}

/// Reconfigure the rock spawn timer's duration from the
/// rocks-destroyed counter. The caller runs this only when the counter
/// has changed since it was last checked.
pub fn set_difficulty(rocks_destroyed: &RocksDestroyed, rock_spawn_timer: &mut RockSpawnTimer)
    ensures
        final (rock_spawn_timer).timer == (Timer {
            duration_ms: rock_cooldown_for(
                rocks_destroyed.count,
                old(rock_spawn_timer).timer.duration_ms,
            ),
            ..old(rock_spawn_timer).timer
        }),
{
    let count = rocks_destroyed.count;
    if count > 10 && count <= 25 {
        rock_spawn_timer.timer.set_duration(EASY_ROCK_COOLDOWN);
    } else if count > 25 && count <= 75 {
        rock_spawn_timer.timer.set_duration(NORMAL_ROCK_COOLDOWN);
    } else if count > 75 && count <= 200 {
        rock_spawn_timer.timer.set_duration(HARD_ROCK_COOLDOWN);
    } else if count > 200 {
        rock_spawn_timer.timer.set_duration(VERY_HARD_ROCK_COOLDOWN);
    }
}

/// Advance the rock spawn timer by the elapsed time.
pub fn tick_rock_spawn_timer(rock_spawn_timer: &mut RockSpawnTimer, delta_ms: u64)
    requires
        old(rock_spawn_timer).timer.wf(),
        old(rock_spawn_timer).timer.elapsed_ms + delta_ms <= u64::MAX,
    ensures
        final (rock_spawn_timer).timer == old(rock_spawn_timer).timer.tick_spec(delta_ms),
{
    rock_spawn_timer.timer.tick(delta_ms);
}

/// Size class chosen from a uniform draw: the catch-all arm keeps the
/// choice total for any byte.
pub open spec fn pick_rock_size(pick: u8) -> RockSize {
    if pick == 0 {
        RockSize::Small
    } else if pick == 1 {
        RockSize::Normal
    } else {
        RockSize::Big
    }
}

/// Speed class chosen from a uniform draw.
pub open spec fn pick_rock_speed(pick: u8) -> RockSpeed {
    if pick == 0 {
        RockSpeed::Fast
    } else if pick == 1 {
        RockSpeed::Normal
    } else {
        RockSpeed::Slow
    }
}

/// The rock a spawn produces: at the drawn horizontal position, just
/// above the arena, with the drawn classes.
pub open spec fn new_rock(id: u64, x: i64, size_pick: u8, speed_pick: u8) -> Rock {
    Rock {
        id,
        x,
        y: ROCK_SPAWN_Y,
        rock_size: pick_rock_size(size_pick),
        rock_speed: pick_rock_speed(speed_pick),
    }
}

/// Append one freshly spawned rock if the spawn timer finished on the
/// most recent tick; otherwise do nothing. (Spawning also stops in the
/// unreachable case that the identifier space is exhausted, so that
/// identifiers stay fresh.)
pub fn spawn_rocks_over_time(
    rocks: &mut Vec<Rock>,
    rock_spawn_timer: &RockSpawnTimer,
    next_id: &mut u64,
    x: i64,
    size_pick: u8,
    speed_pick: u8,
)
    requires
        0 <= x < ARENA_WIDTH,
    ensures
        rock_spawn_timer.timer.finished && *old(next_id) < u64::MAX ==> final (rocks)@ == old(
            rocks,
        )@.push(new_rock(*old(next_id), x, size_pick, speed_pick)) && *final (next_id) == *old(
            next_id,
        ) + 1,
        !(rock_spawn_timer.timer.finished && *old(next_id) < u64::MAX) ==> final (rocks)@ == old(
            rocks,
        )@ && *final (next_id) == *old(next_id),
{
    if rock_spawn_timer.timer.finished() && *next_id < u64::MAX {
        let rock_size = if size_pick == 0 {
            RockSize::Small
        } else if size_pick == 1 {
            RockSize::Normal
        } else {
            RockSize::Big
        };
        let rock_speed = if speed_pick == 0 {
            RockSpeed::Fast
        } else if speed_pick == 1 {
            RockSpeed::Normal
        } else {
            RockSpeed::Slow
        };
        rocks.push(Rock { id: *next_id, x, y: ROCK_SPAWN_Y, rock_size, rock_speed });
        *next_id = *next_id + 1;
    }
}

/// Where a rock ends up after falling for `delta_ms`.
pub open spec fn moved_rock(r: Rock, delta_ms: u64) -> Rock {
    Rock { y: (r.y - r.speed_spec() * delta_ms) as i64, ..r }
}

/// Advance every rock down the arena by its speed times the elapsed
/// time.
pub fn move_rocks(rocks: &mut Vec<Rock>, delta_ms: u64)
    requires
        delta_ms <= MAX_STEP_MS,
        forall|j: int| 0 <= j < old(rocks)@.len() ==> coord_ok(#[trigger] old(rocks)@[j].y),
    ensures
        final (rocks)@ == old(rocks)@.map_values(|r: Rock| moved_rock(r, delta_ms)),
{
    let ghost orig = rocks@;
    let mut i: usize = 0;
    while i < rocks.len()
        invariant
            i <= orig.len(),
            rocks@.len() == orig.len(),
            delta_ms <= MAX_STEP_MS,
            forall|j: int| 0 <= j < orig.len() ==> coord_ok(#[trigger] orig[j].y),
            forall|j: int| i <= j < orig.len() ==> rocks@[j] == orig[j],
            forall|j: int| 0 <= j < i ==> rocks@[j] == moved_rock(orig[j], delta_ms),
        decreases orig.len() - i,
    {
        let r = rocks[i];
        let s = r.speed();
        proof {
            assert(0 <= s * delta_ms <= 1_000_000) by (nonlinear_arith)
                requires
                    50 <= s <= 100,
                    delta_ms <= 10_000,
            ;
        }
        let dy = s * (delta_ms as i64);
        rocks.set(i, Rock { y: r.y - dy, ..r });
        i = i + 1;
    }
    proof {
        assert(rocks@ =~= orig.map_values(|r: Rock| moved_rock(r, delta_ms)));
    }
}

/// Whether a rock is still within reach of the arena: it has not
/// crossed the bottom boundary by more than its own half-size.
pub open spec fn rock_on_screen(r: Rock) -> bool {
    r.y >= -(r.size_spec() / 2)
}

/// Remove every rock that has crossed the arena bottom, counting each
/// removal as a destroyed rock for the difficulty curve.
pub fn remove_off_screen_rocks(rocks: &mut Vec<Rock>, rocks_destroyed: &mut RocksDestroyed)
    ensures
        final (rocks)@ == old(rocks)@.filter(|r: Rock| rock_on_screen(r)),
        final (rocks_destroyed).count == sat_add_amt(
            old(rocks_destroyed).count,
            old(rocks)@.len() - final (rocks)@.len(),
        ),
{
    broadcast use vstd::seq_lib::group_filter_ensures;

    let ghost orig = rocks@;
    let ghost count0 = rocks_destroyed.count;
    let mut kept: Vec<Rock> = Vec::new();
    let mut i: usize = 0;
    while i < rocks.len()
        invariant
            i <= orig.len(),
            rocks@ == orig,
            kept@ == orig.subrange(0, i as int).filter(|r: Rock| rock_on_screen(r)),
            kept@.len() <= i,
            rocks_destroyed.count == sat_add_amt(count0, i - kept@.len()),
        decreases orig.len() - i,
    {
        let r = rocks[i];
        proof {
            reveal_with_fuel(Seq::filter, 2);
            assert(orig.subrange(0, i + 1) =~= orig.subrange(0, i as int) + seq![
                orig[i as int],
            ]);
            Seq::filter_distributes_over_add(
                orig.subrange(0, i as int),
                seq![orig[i as int]],
                |r: Rock| rock_on_screen(r),
            );
            assert(seq![orig[i as int]].drop_last() =~= Seq::<Rock>::empty());
        }
        let half = (r.size() as u64 / 2) as i64;
        proof {
            assert(half == r.size_spec() / 2);
        }
        let keep = r.y >= -half;
        if keep {
            kept.push(r);
        } else {
            rocks_destroyed.count = sat_add_u32(rocks_destroyed.count, 1);
        }
        i = i + 1;
    }
    proof {
        assert(orig.subrange(0, orig.len() as int) =~= orig);
    }
    *rocks = kept;
}

} // verus!
