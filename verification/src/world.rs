//! The top-level simulation: the application state machine, the
//! per-round session, and the step pipeline the host drives once per
//! frame.
//!
//! Within one step the pipeline order is fixed and documented here:
//! the cosmetic layers first (stars drift and wrap, explosion timers
//! run down), then — inside a round — timers tick, spawners and the
//! gun fire, everything moves, entities past the arena are removed,
//! collisions are resolved (ship against rocks, bullets against
//! rocks, ship against crates), the difficulty is recalculated when
//! the rocks-destroyed counter changed, and finally the round ends if
//! the menu was requested or the ship was destroyed. A rock that
//! leaves the arena on a step is removed before collision resolution,
//! so it cannot also register a collision on that step.

use vstd::prelude::*;

verus! {

use crate::arena::{coord_ok, ARENA_WIDTH, MAX_STEP_MS};
use crate::assets::SoundCue;
use crate::explosion::{tick_explosion_timers, tick_explosions_spec, Explosion};
use crate::gun::{
    bullet_rock_collision, bullet_rock_fold, despawn_off_screen_bullets,
    lemma_bullet_rock_fold_props, move_bullets, moved_bullet, bullet_on_screen, shoot,
    tick_bullet_cooldown_timer, Bullet, BulletCooldownTimer, BulletRockOutcome, BULLET_COOLDOWN,
    BULLET_HALF_HEIGHT,
};
use crate::player::{
    lemma_player_crate_fold_props, lemma_player_rock_fold_props, moved_player,
    player_crate_collision, player_crate_fold, player_movement,
    player_rock_collision, player_rock_fold, spawn_player, initial_player, Player,
    PlayerCrateOutcome, PlayerRockOutcome, PLAYER_MAX_X, PLAYER_MAX_Y, PLAYER_MIN_X, PLAYER_MIN_Y,
    PLAYER_STARTING_HEALTH,
};
use crate::rng::FrameRandom;
use crate::rock::{
    move_rocks, moved_rock, new_rock, remove_off_screen_rocks, rock_cooldown_for, rock_on_screen,
    set_difficulty, spawn_rocks_over_time, tick_rock_spawn_timer, Rock, RockSpawnTimer,
    RocksDestroyed, ROCK_SPAWN_Y, STARTING_ROCK_COOLDOWN,
};
use crate::score::{
    add_score_over_time, sat_add, sat_add_amt, tick_score_timer, update_highscore, Highscore,
    Score, ScoreTimer, SCORE_COOLDOWN, SCORE_PER_TICK,
};
use crate::space_crates::{
    crate_on_screen, move_crates, moved_crate, new_crate, remove_off_screen_crates, spawn_crates,
    tick_crate_spawn_timer, CrateSpawnTimer, SpaceCrate, CRATE_COOLDOWN, CRATE_HALF_HEIGHT,
    CRATE_SPAWN_Y,
};
use crate::star::{move_stars, moved_star, send_star_to_top, spawn_stars, wrapped_star, Star,
    STAR_COUNT, STAR_SPEED};
use crate::state::{AppState, GameInput};
use crate::timer::{Timer, TimerMode};

/// Everything that exists only while a round is running. Constructed
/// on entering the game state, dropped whole on leaving it: that drop
/// is the teardown of the player, the rocks, the bullets, the crates
/// and the per-round timers and counters.
pub struct GameSession {
    pub player: Player,
    pub score: Score,
    pub rocks: Vec<Rock>,
    pub bullets: Vec<Bullet>,
    pub crates: Vec<SpaceCrate>,
    pub rock_spawn_timer: RockSpawnTimer,
    pub crate_spawn_timer: CrateSpawnTimer,
    pub bullet_cooldown_timer: BulletCooldownTimer,
    pub score_timer: ScoreTimer,
    pub rocks_destroyed: RocksDestroyed,
    /// The next identifier a spawned entity receives; identifiers are
    /// never reused within a round.
    pub next_id: u64,
}

/// The mathematical image of a session: sequences for the
/// collections, plain values for the rest.
pub ghost struct SessionView {
    pub player: Player,
    pub score: u32,
    pub rocks: Seq<Rock>,
    pub bullets: Seq<Bullet>,
    pub crates: Seq<SpaceCrate>,
    pub rock_spawn_timer: Timer,
    pub crate_spawn_timer: Timer,
    pub bullet_cooldown_timer: Timer,
    pub score_timer: Timer,
    pub rocks_destroyed: u32,
    pub next_id: u64,
}

impl View for GameSession {
    type V = SessionView;

    open spec fn view(&self) -> SessionView {
        SessionView {
            player: self.player,
            score: self.score.value,
            rocks: self.rocks@,
            bullets: self.bullets@,
            crates: self.crates@,
            rock_spawn_timer: self.rock_spawn_timer.timer,
            crate_spawn_timer: self.crate_spawn_timer.timer,
            bullet_cooldown_timer: self.bullet_cooldown_timer.timer,
            score_timer: self.score_timer.timer,
            rocks_destroyed: self.rocks_destroyed.count,
            next_id: self.next_id,
        }
    }
}

/// The longest duration any session timer is ever configured with.
pub const MAX_TIMER_MS: u64 = 10_000;

/// A session timer is well formed and within the bounds the step
/// arithmetic assumes.
pub open spec fn timer_ok(t: Timer) -> bool {
    t.wf() && t.duration_ms <= MAX_TIMER_MS && t.elapsed_ms <= MAX_TIMER_MS
}

/// An active rock is identified, within the arena horizontally, and
/// vertically between its spawn height and the removal boundary: no
/// rock past the far boundary ever stays in the collection.
pub open spec fn rock_ok(r: Rock, next_id: u64) -> bool {
    r.id < next_id && 0 <= r.x < ARENA_WIDTH && -(r.size_spec() / 2) <= r.y <= ROCK_SPAWN_Y
}

/// An active bullet is identified, within the ship's horizontal
/// range, and vertically between the ship's lowest position and the
/// removal boundary above the arena.
pub open spec fn bullet_ok(b: Bullet, next_id: u64) -> bool {
    b.id < next_id && PLAYER_MIN_X <= b.x <= PLAYER_MAX_X && PLAYER_MIN_Y <= b.y
        <= crate::arena::ARENA_HEIGHT + BULLET_HALF_HEIGHT
}

/// An active crate is identified, within the arena horizontally, and
/// vertically between its spawn height and the removal boundary.
pub open spec fn crate_ok(c: SpaceCrate, next_id: u64) -> bool {
    c.id < next_id && 0 <= c.x < ARENA_WIDTH && -CRATE_HALF_HEIGHT <= c.y <= CRATE_SPAWN_Y
}

/// An explosion effect has a well-formed lifetime timer and a bounded
/// position.
pub open spec fn explosion_ok(e: Explosion) -> bool {
    e.wf() && coord_ok(e.x) && coord_ok(e.y)
}

impl SessionView {
    /// The session invariant: the ship is inside the arena with
    /// bounded health, every timer is well formed, and every active
    /// entity is well placed with an identifier below `next_id`.
    pub open spec fn wf(self) -> bool {
        &&& self.player.wf()
        &&& timer_ok(self.rock_spawn_timer) && self.rock_spawn_timer.mode is Repeating
        &&& timer_ok(self.crate_spawn_timer) && self.crate_spawn_timer.mode is Repeating
        &&& timer_ok(self.bullet_cooldown_timer) && self.bullet_cooldown_timer.mode is Once
        &&& timer_ok(self.score_timer) && self.score_timer.mode is Repeating
        &&& forall|j: int| 0 <= j < self.rocks.len() ==> rock_ok(#[trigger] self.rocks[j], self.next_id)
        &&& forall|j: int|
            0 <= j < self.bullets.len() ==> bullet_ok(#[trigger] self.bullets[j], self.next_id)
        &&& forall|j: int|
            0 <= j < self.crates.len() ==> crate_ok(#[trigger] self.crates[j], self.next_id)
    }
}

/// The session a round starts with: a centred ship at full health,
/// nothing spawned, all timers fresh, and the bullet cooldown
/// pre-armed with a full elapsed time so the first shot is free.
pub open spec fn fresh_session() -> SessionView {
    SessionView {
        player: initial_player(),
        score: 0,
        rocks: Seq::<Rock>::empty(),
        bullets: Seq::<Bullet>::empty(),
        crates: Seq::<SpaceCrate>::empty(),
        rock_spawn_timer: Timer::fresh(STARTING_ROCK_COOLDOWN, TimerMode::Repeating),
        crate_spawn_timer: Timer::fresh(CRATE_COOLDOWN, TimerMode::Repeating),
        bullet_cooldown_timer: Timer {
            mode: TimerMode::Once,
            duration_ms: BULLET_COOLDOWN,
            elapsed_ms: BULLET_COOLDOWN,
            finished: false,
        },
        score_timer: Timer::fresh(SCORE_COOLDOWN, TimerMode::Repeating),
        rocks_destroyed: 0,
        next_id: 0,
    }
}

impl GameSession {
    /// Set up the per-round state on entering the game.
    pub fn new() -> (s: GameSession)
        ensures
            s@ == fresh_session(),
            s@.wf(),
    {
        let s = GameSession {
            player: spawn_player(),
            score: Score { value: 0 },
            rocks: Vec::new(),
            bullets: Vec::new(),
            crates: Vec::new(),
            rock_spawn_timer: RockSpawnTimer::default(),
            crate_spawn_timer: CrateSpawnTimer::default(),
            bullet_cooldown_timer: BulletCooldownTimer::default(),
            score_timer: ScoreTimer::default(),
            rocks_destroyed: RocksDestroyed { count: 0 },
            next_id: 0,
        };
        proof {
            assert(s@ == fresh_session());
        }
        s
    }
}

/// The whole simulation: the state machine, the highscore that
/// outlives rounds, the cosmetic layers, and the session of the
/// running round, if one runs.
pub struct World {
    pub state: AppState,
    pub highscore: Highscore,
    pub stars: Vec<Star>,
    pub explosions: Vec<Explosion>,
    pub session: Option<GameSession>,
}

/// The mathematical image of the whole simulation.
pub ghost struct WorldView {
    pub state: AppState,
    pub highscore: u32,
    pub stars: Seq<Star>,
    pub explosions: Seq<Explosion>,
    pub session: Option<SessionView>,
}

impl View for World {
    type V = WorldView;

    open spec fn view(&self) -> WorldView {
        WorldView {
            state: self.state,
            highscore: self.highscore.value,
            stars: self.stars@,
            explosions: self.explosions@,
            session: match self.session {
                Some(s) => Some(s@),
                None => None,
            },
        }
    }
}

impl WorldView {
    /// The world invariant: the game state and the session's presence
    /// agree, the session (if any) is well formed, and the cosmetic
    /// layers are well placed.
    pub open spec fn wf(self) -> bool {
        &&& (self.state is Game <==> self.session is Some)
        &&& (self.session matches Some(s) ==> s.wf())
        &&& forall|j: int| 0 <= j < self.stars.len() ==> (#[trigger] self.stars[j]).wf()
        &&& forall|j: int| 0 <= j < self.explosions.len() ==> explosion_ok(#[trigger] self.explosions[j])
    }

    /// The rocks of the running round, or nothing outside a round.
    pub open spec fn active_rocks(self) -> Seq<Rock> {
        match self.session {
            Some(s) => s.rocks,
            None => Seq::<Rock>::empty(),
        }
    }

    pub open spec fn active_bullets(self) -> Seq<Bullet> {
        match self.session {
            Some(s) => s.bullets,
            None => Seq::<Bullet>::empty(),
        }
    }

    pub open spec fn active_crates(self) -> Seq<SpaceCrate> {
        match self.session {
            Some(s) => s.crates,
            None => Seq::<SpaceCrate>::empty(),
        }
    }

    /// Whether a player ship currently exists: exactly during a round.
    pub open spec fn player_present(self) -> bool {
        self.session is Some
    }
}

impl World {
    /// Set up the simulation at process start: main menu showing, no
    /// round running, a fresh starfield.
    pub fn new() -> (w: World)
        ensures
            w@.wf(),
            w@.state is MainMenu,
            w@.session is None,
            w@.highscore == 0,
            w@.explosions.len() == 0,
            w@.stars.len() == STAR_COUNT,
    {
        let mut stars: Vec<Star> = Vec::new();
        spawn_stars(&mut stars);
        World {
            state: AppState::MainMenu,
            highscore: Highscore { value: 0 },
            stars,
            explosions: Vec::new(),
            session: None,
        }
    }

    /// The current score: live during a round, zero outside one.
    pub fn score(&self) -> (r: u32)
        ensures
            r == match self@.session {
                Some(s) => s.score,
                None => 0u32,
            },
    {
        match &self.session {
            Some(sess) => sess.score.value,
            None => 0,
        }
    }

    /// The best final score of any round so far.
    pub fn highscore(&self) -> (r: u32)
        ensures
            r == self@.highscore,
    {
        self.highscore.value
    }

    /// The ship's health during a round, in tenths of a point; zero
    /// outside one.
    pub fn player_health(&self) -> (r: u32)
        ensures
            r == match self@.session {
                Some(s) => s.player.health,
                None => 0u32,
            },
    {
        match &self.session {
            Some(sess) => sess.player.health,
            None => 0,
        }
    }

    /// The current application state.
    pub fn app_state(&self) -> (r: AppState)
        ensures
            r == self@.state,
    {
        self.state
    }
}


/// Every element of a filtered sequence occurs in the sequence it was
/// filtered from.
proof fn lemma_filter_members<A>(s: Seq<A>, pred: spec_fn(A) -> bool)
    ensures
        forall|k: int|
            0 <= k < s.filter(pred).len() ==> s.contains(#[trigger] s.filter(pred)[k]),
    decreases s.len(),
{
    reveal_with_fuel(Seq::filter, 2);
    if s.len() > 0 {
        lemma_filter_members(s.drop_last(), pred);
        let fil = s.filter(pred);
        let sub = s.drop_last().filter(pred);
        assert forall|k: int| 0 <= k < fil.len() implies s.contains(#[trigger] fil[k]) by {
            if k < sub.len() {
                assert(s.drop_last().contains(sub[k]));
                let i = choose|i: int| 0 <= i < s.drop_last().len() && s.drop_last()[i] == sub[k];
                assert(s[i] == fil[k]);
            } else {
                assert(fil[k] == s.last());
            }
        }
    }
}

/// What one simulation step does to a running session, given the
/// already-ticked explosion layer and the sounds accumulated so far:
/// timers tick; the spawners and the gun fire; everything moves; what
/// crossed the arena is removed; collisions are resolved (ship-rock,
/// bullet-rock, ship-crate); and the rock spawn interval is
/// recalculated when the rocks-destroyed counter changed.
pub open spec fn session_step_spec(
    s: SessionView,
    explosions0: Seq<Explosion>,
    sounds0: Seq<SoundCue>,
    input: GameInput,
    picks: FrameRandom,
    delta_ms: u64,
) -> (SessionView, Seq<Explosion>, Seq<SoundCue>) {
    // Timers advance first, so a spawn interval that ran out during
    // this step fires on this step.
    let rock_timer1 = s.rock_spawn_timer.tick_spec(delta_ms);
    let crate_timer1 = s.crate_spawn_timer.tick_spec(delta_ms);
    let cooldown1 = s.bullet_cooldown_timer.tick_spec(delta_ms);
    let score_timer1 = s.score_timer.tick_spec(delta_ms);
    // Spawners, the passive score award, and the gun.
    let rock_spawned = rock_timer1.finished && s.next_id < u64::MAX;
    let rocks2 = if rock_spawned {
        s.rocks.push(new_rock(s.next_id, picks.rock_x, picks.rock_size_pick, picks.rock_speed_pick))
    } else {
        s.rocks
    };
    let nid2 = if rock_spawned {
        (s.next_id + 1) as u64
    } else {
        s.next_id
    };
    let crate_spawned = crate_timer1.finished && nid2 < u64::MAX;
    let crates2 = if crate_spawned {
        s.crates.push(new_crate(nid2, picks.crate_x, picks.crate_kind_pick))
    } else {
        s.crates
    };
    let nid3 = if crate_spawned {
        (nid2 + 1) as u64
    } else {
        nid2
    };
    let score2 = if score_timer1.finished {
        sat_add(s.score, SCORE_PER_TICK)
    } else {
        s.score
    };
    let fired = input.fire && cooldown1.finished && nid3 < u64::MAX;
    let bullets2 = if fired {
        s.bullets.push(Bullet { id: nid3, x: s.player.x, y: s.player.y })
    } else {
        s.bullets
    };
    let nid4 = if fired {
        (nid3 + 1) as u64
    } else {
        nid3
    };
    let cooldown2 = if fired {
        Timer { elapsed_ms: 0, finished: false, ..cooldown1 }
    } else {
        cooldown1
    };
    let sounds1 = if fired {
        sounds0.push(SoundCue::Shoot)
    } else {
        sounds0
    };
    // Motion.
    let player3 = moved_player(s.player, input, delta_ms);
    let rocks3 = rocks2.map_values(|r: Rock| moved_rock(r, delta_ms));
    let bullets3 = bullets2.map_values(|b: Bullet| moved_bullet(b, delta_ms));
    let crates3 = crates2.map_values(|c: SpaceCrate| moved_crate(c, delta_ms));
    // Boundary removal, before collision resolution: what crossed the
    // arena this step registers no collision.
    let rocks4 = rocks3.filter(|r: Rock| rock_on_screen(r));
    let destroyed4 = sat_add_amt(s.rocks_destroyed, rocks3.len() - rocks4.len());
    let bullets4 = bullets3.filter(|b: Bullet| bullet_on_screen(b));
    let crates4 = crates3.filter(|c: SpaceCrate| crate_on_screen(c));
    // Collision resolution.
    let pr = player_rock_fold(
        PlayerRockOutcome {
            rocks: Seq::<Rock>::empty(),
            health: player3.health,
            score: score2,
            destroyed: destroyed4,
            explosions: explosions0,
            sounds: sounds1,
        },
        player3.x,
        player3.y,
        rocks4,
    );
    let br = bullet_rock_fold(
        BulletRockOutcome {
            bullets: Seq::<Bullet>::empty(),
            rocks: pr.rocks,
            score: pr.score,
            sounds: pr.sounds,
        },
        bullets4,
    );
    let pc = player_crate_fold(
        PlayerCrateOutcome {
            crates: Seq::<SpaceCrate>::empty(),
            health: pr.health,
            score: br.score,
            explosions: pr.explosions,
            sounds: br.sounds,
        },
        player3.x,
        player3.y,
        crates4,
    );
    // Difficulty, recalculated only when the counter changed.
    let rock_timer_out = if pr.destroyed != s.rocks_destroyed {
        Timer {
            duration_ms: rock_cooldown_for(pr.destroyed, rock_timer1.duration_ms),
            ..rock_timer1
        }
    } else {
        rock_timer1
    };
    let s_out = SessionView {
        player: Player { health: pc.health, x: player3.x, y: player3.y },
        score: pc.score,
        rocks: br.rocks,
        bullets: br.bullets,
        crates: pc.crates,
        rock_spawn_timer: rock_timer_out,
        crate_spawn_timer: crate_timer1,
        bullet_cooldown_timer: cooldown2,
        score_timer: score_timer1,
        rocks_destroyed: pr.destroyed,
        next_id: nid4,
    };
    (s_out, pc.explosions, pc.sounds)
}

/// Run one simulation step of an active round, as
/// [`session_step_spec`] lays it out.
#[verifier::rlimit(100)]
#[verifier::spinoff_prover]
fn session_step(
    sess: &mut GameSession,
    explosions: &mut Vec<Explosion>,
    sounds: &mut Vec<SoundCue>,
    input: &GameInput,
    picks: &FrameRandom,
    delta_ms: u64,
)
    requires
        old(sess)@.wf(),
        forall|j: int|
            0 <= j < old(explosions)@.len() ==> explosion_ok(#[trigger] old(explosions)@[j]),
        picks.wf(),
        delta_ms <= MAX_STEP_MS,
    ensures
        ({
            let r = session_step_spec(
                old(sess)@,
                old(explosions)@,
                old(sounds)@,
                *input,
                *picks,
                delta_ms,
            );
            final (sess)@ == r.0 && final (explosions)@ == r.1 && final (sounds)@ == r.2
        }),
        final (sess)@.wf(),
        forall|j: int|
            0 <= j < final (explosions)@.len() ==> explosion_ok(#[trigger] final (explosions)@[j]),
{
    let ghost s0 = sess@;
    let ghost explosions0g = explosions@;
    let destroyed_before = sess.rocks_destroyed.count;
    // Timers.
    tick_rock_spawn_timer(&mut sess.rock_spawn_timer, delta_ms);
    tick_crate_spawn_timer(&mut sess.crate_spawn_timer, delta_ms);
    tick_bullet_cooldown_timer(&mut sess.bullet_cooldown_timer, delta_ms);
    tick_score_timer(&mut sess.score_timer, delta_ms);
    // Spawners, score, gun.
    spawn_rocks_over_time(
        &mut sess.rocks,
        &sess.rock_spawn_timer,
        &mut sess.next_id,
        picks.rock_x,
        picks.rock_size_pick,
        picks.rock_speed_pick,
    );
    spawn_crates(
        &mut sess.crates,
        &sess.crate_spawn_timer,
        &mut sess.next_id,
        picks.crate_x,
        picks.crate_kind_pick,
    );
    add_score_over_time(&mut sess.score, &sess.score_timer);
    shoot(
        &mut sess.bullets,
        &mut sess.bullet_cooldown_timer,
        &sess.player,
        input.fire,
        &mut sess.next_id,
        sounds,
    );
    let ghost nid4g = sess.next_id;
    let ghost score2g = sess.score.value;
    let ghost sounds1g = sounds@;
    let ghost rocks2g = sess.rocks@;
    let ghost bullets2g = sess.bullets@;
    let ghost crates2g = sess.crates@;
    proof {
        assert forall|j: int| 0 <= j < rocks2g.len() implies coord_ok(
            #[trigger] rocks2g[j].y,
        ) by {
            if j < s0.rocks.len() {
                assert(rock_ok(s0.rocks[j], s0.next_id));
            }
        }
        assert forall|j: int| 0 <= j < bullets2g.len() implies coord_ok(
            #[trigger] bullets2g[j].y,
        ) by {
            if j < s0.bullets.len() {
                assert(bullet_ok(s0.bullets[j], s0.next_id));
            }
        }
        assert forall|j: int| 0 <= j < crates2g.len() implies coord_ok(
            #[trigger] crates2g[j].y,
        ) by {
            if j < s0.crates.len() {
                assert(crate_ok(s0.crates[j], s0.next_id));
            }
        }
    }
    // Motion.
    player_movement(&mut sess.player, input, delta_ms);
    move_rocks(&mut sess.rocks, delta_ms);
    move_bullets(&mut sess.bullets, delta_ms);
    move_crates(&mut sess.crates, delta_ms);
    let ghost player3g = sess.player;
    let ghost rocks3g = sess.rocks@;
    let ghost bullets3g = sess.bullets@;
    let ghost crates3g = sess.crates@;
    // Boundary removal.
    remove_off_screen_rocks(&mut sess.rocks, &mut sess.rocks_destroyed);
    despawn_off_screen_bullets(&mut sess.bullets);
    remove_off_screen_crates(&mut sess.crates);
    let ghost destroyed4g = sess.rocks_destroyed.count;
    let ghost rocks4g = sess.rocks@;
    let ghost bullets4g = sess.bullets@;
    let ghost crates4g = sess.crates@;
    proof {
        broadcast use vstd::seq_lib::group_filter_ensures;

        // Every survivor of the boundary pass is a moved entity of the
        // pre-motion collection, so its bounds follow from the session
        // invariant (or from the spawn position of a fresh entity).
        assert forall|k: int| 0 <= k < rocks4g.len() implies rock_ok(#[trigger] rocks4g[k], nid4g)
            && coord_ok(rocks4g[k].x) && coord_ok(rocks4g[k].y) by {
            lemma_filter_members(rocks3g, |r: Rock| rock_on_screen(r));
            assert(rocks3g.contains(rocks4g[k]));
            let i = choose|i: int| 0 <= i < rocks3g.len() && rocks3g[i] == rocks4g[k];
            assert(rocks3g[i] == moved_rock(rocks2g[i], delta_ms));
            let r2 = rocks2g[i];
            if i < s0.rocks.len() {
                assert(rock_ok(s0.rocks[i], s0.next_id));
            }
            assert(r2.id < nid4g && 0 <= r2.x < ARENA_WIDTH && r2.y <= ROCK_SPAWN_Y);
            assert(0 <= r2.speed_spec() * delta_ms <= 1_000_000) by (nonlinear_arith)
                requires
                    50 <= r2.speed_spec() <= 100,
                    delta_ms <= 10_000,
            ;
            assert(rock_on_screen(rocks4g[k]));
        }
        assert forall|k: int| 0 <= k < bullets4g.len() implies bullet_ok(
            #[trigger] bullets4g[k],
            nid4g,
        ) && coord_ok(bullets4g[k].x) && coord_ok(bullets4g[k].y) by {
            lemma_filter_members(bullets3g, |b: Bullet| bullet_on_screen(b));
            assert(bullets3g.contains(bullets4g[k]));
            let i = choose|i: int| 0 <= i < bullets3g.len() && bullets3g[i] == bullets4g[k];
            assert(bullets3g[i] == moved_bullet(bullets2g[i], delta_ms));
            if i < s0.bullets.len() {
                assert(bullet_ok(s0.bullets[i], s0.next_id));
            }
            assert(bullet_on_screen(bullets4g[k]));
        }
        assert forall|k: int| 0 <= k < crates4g.len() implies crate_ok(
            #[trigger] crates4g[k],
            nid4g,
        ) && coord_ok(crates4g[k].x) && coord_ok(crates4g[k].y) by {
            lemma_filter_members(crates3g, |c: SpaceCrate| crate_on_screen(c));
            assert(crates3g.contains(crates4g[k]));
            let i = choose|i: int| 0 <= i < crates3g.len() && crates3g[i] == crates4g[k];
            assert(crates3g[i] == moved_crate(crates2g[i], delta_ms));
            if i < s0.crates.len() {
                assert(crate_ok(s0.crates[i], s0.next_id));
            }
            assert(crate_on_screen(crates4g[k]));
        }
        assert(PLAYER_MIN_X <= sess.player.x <= PLAYER_MAX_X && PLAYER_MIN_Y <= sess.player.y
            <= PLAYER_MAX_Y);
    }
    // Collision resolution.
    player_rock_collision(
        &mut sess.player,
        &mut sess.rocks,
        &mut sess.score,
        &mut sess.rocks_destroyed,
        explosions,
        sounds,
    );
    let ghost pr_init = PlayerRockOutcome {
        rocks: Seq::<Rock>::empty(),
        health: player3g.health,
        score: score2g,
        destroyed: destroyed4g,
        explosions: explosions0g,
        sounds: sounds1g,
    };
    let ghost prg = player_rock_fold(pr_init, player3g.x, player3g.y, rocks4g);
    let ghost p_rock = |r: Rock| rock_ok(r, nid4g) && coord_ok(r.x) && coord_ok(r.y);
    let ghost p_bullet = |b: Bullet| bullet_ok(b, nid4g) && coord_ok(b.x) && coord_ok(b.y);
    let ghost p_crate = |c: SpaceCrate| crate_ok(c, nid4g) && coord_ok(c.x) && coord_ok(c.y);
    let ghost q_expl = |e: Explosion| explosion_ok(e);
    proof {
        assert(sess.rocks@ == prg.rocks && sess.player.health == prg.health && sess.score.value
            == prg.score && sess.rocks_destroyed.count == prg.destroyed && explosions@
            == prg.explosions && sounds@ == prg.sounds);
        lemma_player_rock_fold_props(pr_init, player3g.x, player3g.y, rocks4g, p_rock, q_expl);
        assert forall|j: int| 0 <= j < prg.rocks.len() implies coord_ok(
            (#[trigger] prg.rocks[j]).x,
        ) && coord_ok(prg.rocks[j].y) by {
            assert(p_rock(prg.rocks[j]));
        }
        assert forall|j: int| 0 <= j < bullets4g.len() implies coord_ok(
            (#[trigger] bullets4g[j]).x,
        ) && coord_ok(bullets4g[j].y) by {
            assert(bullet_ok(bullets4g[j], nid4g));
        }
    }
    bullet_rock_collision(&mut sess.bullets, &mut sess.rocks, &mut sess.score, sounds);
    let ghost br_init = BulletRockOutcome {
        bullets: Seq::<Bullet>::empty(),
        rocks: prg.rocks,
        score: prg.score,
        sounds: prg.sounds,
    };
    let ghost brg = bullet_rock_fold(br_init, bullets4g);
    proof {
        assert(sess.bullets@ == brg.bullets && sess.rocks@ == brg.rocks && sess.score.value
            == brg.score && sounds@ == brg.sounds);
        lemma_bullet_rock_fold_props(br_init, bullets4g, p_rock, p_bullet);
        assert(sess.player.health <= PLAYER_STARTING_HEALTH);
        assert forall|j: int| 0 <= j < crates4g.len() implies coord_ok(
            (#[trigger] crates4g[j]).x,
        ) && coord_ok(crates4g[j].y) by {
            assert(crate_ok(crates4g[j], nid4g));
        }
    }
    player_crate_collision(&mut sess.player, &mut sess.crates, &mut sess.score, explosions, sounds);
    let ghost pc_init = PlayerCrateOutcome {
        crates: Seq::<SpaceCrate>::empty(),
        health: prg.health,
        score: brg.score,
        explosions: prg.explosions,
        sounds: brg.sounds,
    };
    let ghost pcg = player_crate_fold(pc_init, player3g.x, player3g.y, crates4g);
    proof {
        assert(sess.crates@ == pcg.crates && sess.player.health == pcg.health && sess.score.value
            == pcg.score && explosions@ == pcg.explosions && sounds@ == pcg.sounds);
        lemma_player_crate_fold_props(
            pc_init,
            player3g.x,
            player3g.y,
            crates4g,
            p_crate,
            q_expl,
        );
    }
    // Difficulty, only when the counter changed this step.
    if sess.rocks_destroyed.count != destroyed_before {
        set_difficulty(&sess.rocks_destroyed, &mut sess.rock_spawn_timer);
    }
    proof {
        let r = session_step_spec(s0, explosions0g, old(sounds)@, *input, *picks, delta_ms);
        assert(sess@.rocks == r.0.rocks && sess@.bullets == r.0.bullets && sess@.crates
            == r.0.crates);
        assert(sess@.player == r.0.player && sess@.score == r.0.score && sess@.rocks_destroyed
            == r.0.rocks_destroyed && sess@.next_id == r.0.next_id);
        assert(sess@.rock_spawn_timer == r.0.rock_spawn_timer && sess@.crate_spawn_timer
            == r.0.crate_spawn_timer && sess@.bullet_cooldown_timer == r.0.bullet_cooldown_timer
            && sess@.score_timer == r.0.score_timer);
        assert(sess@ == r.0 && explosions@ == r.1 && sounds@ == r.2);
        // The invariant survives the step.
        assert forall|j: int| 0 <= j < sess@.rocks.len() implies rock_ok(
            #[trigger] sess@.rocks[j],
            sess@.next_id,
        ) by {
            assert(p_rock(brg.rocks[j]));
        }
        assert forall|j: int| 0 <= j < sess@.bullets.len() implies bullet_ok(
            #[trigger] sess@.bullets[j],
            sess@.next_id,
        ) by {
            assert(p_bullet(brg.bullets[j]));
        }
        assert forall|j: int| 0 <= j < sess@.crates.len() implies crate_ok(
            #[trigger] sess@.crates[j],
            sess@.next_id,
        ) by {
            assert(p_crate(pcg.crates[j]));
        }
        assert forall|j: int| 0 <= j < explosions@.len() implies explosion_ok(
            #[trigger] explosions@[j],
        ) by {
            assert(q_expl(pcg.explosions[j]));
        }
        assert(timer_ok(sess@.rock_spawn_timer) && sess@.rock_spawn_timer.mode is Repeating);
        assert(timer_ok(sess@.crate_spawn_timer) && timer_ok(sess@.bullet_cooldown_timer)
            && timer_ok(sess@.score_timer));
        assert(sess@.player.wf());
        assert(sess@.wf());
    }
}


/// What one simulation step does to the whole world: the stars drift
/// and wrap and the explosion timers run down in every state; in the
/// menu, a start edge begins a fresh round; in a round, the session
/// runs one step and the round ends — returning to the menu and
/// raising the highscore to the final score — when the menu was
/// requested or the ship was destroyed on this very step.
pub open spec fn step_spec(
    w: WorldView,
    input: GameInput,
    picks: FrameRandom,
    delta_ms: u64,
) -> (WorldView, Seq<SoundCue>) {
    let stars1 = w.stars.map_values(|s: Star| moved_star(s, delta_ms)).map_values(
        |s: Star| wrapped_star(s),
    );
    let explosions1 = tick_explosions_spec(w.explosions, delta_ms);
    match w.session {
        None => {
            if input.start {
                (
                    WorldView {
                        state: AppState::Game,
                        stars: stars1,
                        explosions: explosions1,
                        session: Some(fresh_session()),
                        ..w
                    },
                    Seq::<SoundCue>::empty(),
                )
            } else {
                (
                    WorldView { stars: stars1, explosions: explosions1, ..w },
                    Seq::<SoundCue>::empty(),
                )
            }
        },
        Some(s) => {
            let r = session_step_spec(
                s,
                explosions1,
                Seq::<SoundCue>::empty(),
                input,
                picks,
                delta_ms,
            );
            if input.menu || r.0.player.health == 0 {
                (
                    WorldView {
                        state: AppState::MainMenu,
                        highscore: if r.0.score > w.highscore {
                            r.0.score
                        } else {
                            w.highscore
                        },
                        stars: stars1,
                        explosions: r.1,
                        session: None,
                    },
                    r.2,
                )
            } else {
                (
                    WorldView {
                        state: AppState::Game,
                        highscore: w.highscore,
                        stars: stars1,
                        explosions: r.1,
                        session: Some(r.0),
                    },
                    r.2,
                )
            }
        },
    }
}

impl World {
    /// Drive the simulation by one frame: `delta_ms` of elapsed time,
    /// the logical input snapshot, and the random draws this step may
    /// consume. Returns the sound cues the host should play.
    #[verifier::rlimit(100)]
    #[verifier::spinoff_prover]
    pub fn step(&mut self, input: &GameInput, picks: &FrameRandom, delta_ms: u64) -> (sounds: Vec<
        SoundCue,
    >)
        requires
            old(self)@.wf(),
            picks.wf(),
            delta_ms <= MAX_STEP_MS,
        ensures
            final (self)@.wf(),
            ({
                let r = step_spec(old(self)@, *input, *picks, delta_ms);
                final (self)@ == r.0 && sounds@ == r.1
            }),
    {
        let ghost w0 = old(self)@;
        let mut sounds: Vec<SoundCue> = Vec::new();
        // Cosmetic layers, in every state.
        proof {
            assert forall|j: int| 0 <= j < self.stars@.len() implies coord_ok(
                #[trigger] self.stars@[j].y,
            ) by {
                assert(w0.stars[j].wf());
            }
        }
        move_stars(&mut self.stars, delta_ms);
        send_star_to_top(&mut self.stars);
        proof {
            let stars1 = w0.stars.map_values(|s: Star| moved_star(s, delta_ms)).map_values(
                |s: Star| wrapped_star(s),
            );
            assert(self.stars@ == stars1);
            assert forall|j: int| 0 <= j < self.stars@.len() implies (
            #[trigger] self.stars@[j]).wf() by {
                assert(w0.stars[j].wf());
                let m = moved_star(w0.stars[j], delta_ms);
                assert(0 <= STAR_SPEED * delta_ms <= 400_000) by (nonlinear_arith)
                    requires
                        STAR_SPEED == 40,
                        delta_ms <= 10_000,
                ;
                assert(self.stars@[j] == wrapped_star(m));
            }
        }
        proof {
            assert forall|j: int| 0 <= j < self.explosions@.len() implies (
            #[trigger] self.explosions@[j]).wf() by {
                assert(explosion_ok(w0.explosions[j]));
            }
        }
        tick_explosion_timers(&mut self.explosions, delta_ms);
        proof {
            crate::explosion::lemma_tick_explosions_coords(w0.explosions, delta_ms);
            assert forall|j: int| 0 <= j < self.explosions@.len() implies explosion_ok(
                #[trigger] self.explosions@[j],
            ) by {
                assert(self.explosions@[j] == tick_explosions_spec(w0.explosions, delta_ms)[j]);
            }
        }
        // The state machine.
        let mut start_round = false;
        let mut end_round = false;
        match &mut self.session {
            None => {
                start_round = crate::state::start_game(input.start, self.state).is_some();
            },
            Some(sess) => {
                session_step(sess, &mut self.explosions, &mut sounds, input, picks, delta_ms);
                end_round = crate::state::go_to_main_menu(input.menu, self.state).is_some()
                    || sess.player.health == 0;
            },
        }
        if start_round {
            self.state = AppState::Game;
            self.session = Some(GameSession::new());
        }
        if end_round {
            match &self.session {
                Some(sess) => update_highscore(&sess.score, &mut self.highscore),
                None => {},
            }
            self.state = AppState::MainMenu;
            self.session = None;
        }
        proof {
            let r = step_spec(w0, *input, *picks, delta_ms);
            assert(self@.stars == r.0.stars && self@.explosions == r.0.explosions);
            assert(self@.state == r.0.state && self@.highscore == r.0.highscore);
            assert(self@.session == r.0.session);
            assert(self@ == r.0 && sounds@ == r.1);
            assert(self@.wf());
        }
        sounds
    }
}


/// Law: the ship is destroyed on the very step its health reaches
/// zero: a session that is still running after a step always has a
/// ship with positive health.
pub proof fn lemma_ship_destroyed_ends_round(
    w: WorldView,
    input: GameInput,
    picks: FrameRandom,
    delta_ms: u64,
)
    requires
        w.wf(),
    ensures
        ({
            let r = step_spec(w, input, picks, delta_ms);
            r.0.session matches Some(s2) ==> s2.player.health > 0
        }),
{
}

/// Law: wherever the world invariant holds — and every step keeps it —
/// no active rock or crate sits past the arena's far boundary: the
/// step that moves one across also removes it from the collection.
pub proof fn lemma_active_entities_within_bounds(w: WorldView)
    requires
        w.wf(),
    ensures
        forall|j: int|
            0 <= j < w.active_rocks().len() ==> rock_on_screen(#[trigger] w.active_rocks()[j]),
        forall|j: int|
            0 <= j < w.active_crates().len() ==> crate_on_screen(#[trigger] w.active_crates()[j]),
{
    match w.session {
        Some(s) => {
            assert forall|j: int| 0 <= j < w.active_rocks().len() implies rock_on_screen(
                #[trigger] w.active_rocks()[j],
            ) by {
                assert(rock_ok(s.rocks[j], s.next_id));
            }
            assert forall|j: int| 0 <= j < w.active_crates().len() implies crate_on_screen(
                #[trigger] w.active_crates()[j],
            ) by {
                assert(crate_ok(s.crates[j], s.next_id));
            }
        },
        None => {},
    }
}

/// Law: a destroyed rock never reappears. An identifier that was
/// already handed out but is absent from the active rocks stays
/// absent after any step: fresh rocks always take a fresh identifier.
pub proof fn lemma_destroyed_rock_never_reappears(
    w: WorldView,
    input: GameInput,
    picks: FrameRandom,
    delta_ms: u64,
    id: u64,
)
    requires
        w.wf(),
        w.session matches Some(s) && id < s.next_id && (forall|j: int|
            0 <= j < s.rocks.len() ==> (#[trigger] s.rocks[j]).id != id),
    ensures
        ({
            let r = step_spec(w, input, picks, delta_ms);
            r.0.session matches Some(s2) ==> forall|j: int|
                0 <= j < s2.rocks.len() ==> (#[trigger] s2.rocks[j]).id != id
        }),
{
    let s = w.session->Some_0;
    let rock_timer1 = s.rock_spawn_timer.tick_spec(delta_ms);
    let rock_spawned = rock_timer1.finished && s.next_id < u64::MAX;
    let rocks2 = if rock_spawned {
        s.rocks.push(new_rock(s.next_id, picks.rock_x, picks.rock_size_pick, picks.rock_speed_pick))
    } else {
        s.rocks
    };
    let rocks3 = rocks2.map_values(|r: Rock| moved_rock(r, delta_ms));
    let rocks4 = rocks3.filter(|r: Rock| rock_on_screen(r));
    assert forall|j: int| 0 <= j < rocks3.len() implies (#[trigger] rocks3[j]).id != id by {
        assert(rocks3[j] == moved_rock(rocks2[j], delta_ms));
    }
    let p = |r: Rock| r.id != id;
    assert forall|k: int| 0 <= k < rocks4.len() implies p(#[trigger] rocks4[k]) by {
        lemma_filter_members(rocks3, |r: Rock| rock_on_screen(r));
        assert(rocks3.contains(rocks4[k]));
        let i = choose|i: int| 0 <= i < rocks3.len() && rocks3[i] == rocks4[k];
        assert(rocks3[i].id != id);
    }
    let explosions1 = tick_explosions_spec(w.explosions, delta_ms);
    let r = session_step_spec(s, explosions1, Seq::<SoundCue>::empty(), input, picks, delta_ms);
    let cooldown1 = s.bullet_cooldown_timer.tick_spec(delta_ms);
    let score_timer1 = s.score_timer.tick_spec(delta_ms);
    let crate_timer1 = s.crate_spawn_timer.tick_spec(delta_ms);
    let player3 = moved_player(s.player, input, delta_ms);
    let nid2 = if rock_spawned {
        (s.next_id + 1) as u64
    } else {
        s.next_id
    };
    let crate_spawned = crate_timer1.finished && nid2 < u64::MAX;
    let nid3 = if crate_spawned {
        (nid2 + 1) as u64
    } else {
        nid2
    };
    let destroyed4 = sat_add_amt(s.rocks_destroyed, rocks3.len() - rocks4.len());
    let score2 = if score_timer1.finished {
        sat_add(s.score, SCORE_PER_TICK)
    } else {
        s.score
    };
    let fired = input.fire && cooldown1.finished && nid3 < u64::MAX;
    let sounds1 = if fired {
        Seq::<SoundCue>::empty().push(SoundCue::Shoot)
    } else {
        Seq::<SoundCue>::empty()
    };
    let bullets2 = if fired {
        s.bullets.push(Bullet { id: nid3, x: s.player.x, y: s.player.y })
    } else {
        s.bullets
    };
    let bullets3 = bullets2.map_values(|b: Bullet| moved_bullet(b, delta_ms));
    let bullets4 = bullets3.filter(|b: Bullet| bullet_on_screen(b));
    let pr_init = PlayerRockOutcome {
        rocks: Seq::<Rock>::empty(),
        health: player3.health,
        score: score2,
        destroyed: destroyed4,
        explosions: explosions1,
        sounds: sounds1,
    };
    let q = |e: Explosion| true;
    lemma_player_rock_fold_props(pr_init, player3.x, player3.y, rocks4, p, q);
    let pr = player_rock_fold(pr_init, player3.x, player3.y, rocks4);
    let br_init = BulletRockOutcome {
        bullets: Seq::<Bullet>::empty(),
        rocks: pr.rocks,
        score: pr.score,
        sounds: pr.sounds,
    };
    let pb = |b: Bullet| true;
    lemma_bullet_rock_fold_props(br_init, bullets4, p, pb);
    let br = bullet_rock_fold(br_init, bullets4);
    assert forall|j: int| 0 <= j < br.rocks.len() implies (#[trigger] br.rocks[j]).id != id by {
        assert(p(br.rocks[j]));
    }
    assert(r.0.rocks == br.rocks);
}

/// Law: a destroyed crate never reappears. An identifier that was
/// already handed out but is absent from the active crates stays
/// absent after any step: fresh crates always take a fresh identifier.
pub proof fn lemma_destroyed_crate_never_reappears(
    w: WorldView,
    input: GameInput,
    picks: FrameRandom,
    delta_ms: u64,
    id: u64,
)
    requires
        w.wf(),
        w.session matches Some(s) && id < s.next_id && (forall|j: int|
            0 <= j < s.crates.len() ==> (#[trigger] s.crates[j]).id != id),
    ensures
        ({
            let r = step_spec(w, input, picks, delta_ms);
            r.0.session matches Some(s2) ==> forall|j: int|
                0 <= j < s2.crates.len() ==> (#[trigger] s2.crates[j]).id != id
        }),
{
    let s = w.session->Some_0;
    let rock_timer1 = s.rock_spawn_timer.tick_spec(delta_ms);
    let crate_timer1 = s.crate_spawn_timer.tick_spec(delta_ms);
    let cooldown1 = s.bullet_cooldown_timer.tick_spec(delta_ms);
    let score_timer1 = s.score_timer.tick_spec(delta_ms);
    let rock_spawned = rock_timer1.finished && s.next_id < u64::MAX;
    let rocks2 = if rock_spawned {
        s.rocks.push(new_rock(s.next_id, picks.rock_x, picks.rock_size_pick, picks.rock_speed_pick))
    } else {
        s.rocks
    };
    let nid2 = if rock_spawned {
        (s.next_id + 1) as u64
    } else {
        s.next_id
    };
    let crate_spawned = crate_timer1.finished && nid2 < u64::MAX;
    let crates2 = if crate_spawned {
        s.crates.push(new_crate(nid2, picks.crate_x, picks.crate_kind_pick))
    } else {
        s.crates
    };
    let nid3 = if crate_spawned {
        (nid2 + 1) as u64
    } else {
        nid2
    };
    let score2 = if score_timer1.finished {
        sat_add(s.score, SCORE_PER_TICK)
    } else {
        s.score
    };
    let fired = input.fire && cooldown1.finished && nid3 < u64::MAX;
    let bullets2 = if fired {
        s.bullets.push(Bullet { id: nid3, x: s.player.x, y: s.player.y })
    } else {
        s.bullets
    };
    let sounds1 = if fired {
        Seq::<SoundCue>::empty().push(SoundCue::Shoot)
    } else {
        Seq::<SoundCue>::empty()
    };
    let player3 = moved_player(s.player, input, delta_ms);
    let rocks3 = rocks2.map_values(|r: Rock| moved_rock(r, delta_ms));
    let bullets3 = bullets2.map_values(|b: Bullet| moved_bullet(b, delta_ms));
    let crates3 = crates2.map_values(|c: SpaceCrate| moved_crate(c, delta_ms));
    let rocks4 = rocks3.filter(|r: Rock| rock_on_screen(r));
    let destroyed4 = sat_add_amt(s.rocks_destroyed, rocks3.len() - rocks4.len());
    let bullets4 = bullets3.filter(|b: Bullet| bullet_on_screen(b));
    let crates4 = crates3.filter(|c: SpaceCrate| crate_on_screen(c));
    let explosions1 = tick_explosions_spec(w.explosions, delta_ms);
    let pr_init = PlayerRockOutcome {
        rocks: Seq::<Rock>::empty(),
        health: player3.health,
        score: score2,
        destroyed: destroyed4,
        explosions: explosions1,
        sounds: sounds1,
    };
    let pr = player_rock_fold(pr_init, player3.x, player3.y, rocks4);
    let br_init = BulletRockOutcome {
        bullets: Seq::<Bullet>::empty(),
        rocks: pr.rocks,
        score: pr.score,
        sounds: pr.sounds,
    };
    let br = bullet_rock_fold(br_init, bullets4);
    let pc_init = PlayerCrateOutcome {
        crates: Seq::<SpaceCrate>::empty(),
        health: pr.health,
        score: br.score,
        explosions: pr.explosions,
        sounds: br.sounds,
    };
    let p_any_rock = |r: Rock| true;
    let q_any = |e: Explosion| true;
    lemma_player_rock_fold_props(pr_init, player3.x, player3.y, rocks4, p_any_rock, q_any);
    assert(pr.health <= player3.health);
    let p = |c: SpaceCrate| c.id != id;
    assert forall|j: int| 0 <= j < crates3.len() implies (#[trigger] crates3[j]).id != id by {
        assert(crates3[j] == moved_crate(crates2[j], delta_ms));
    }
    assert forall|k: int| 0 <= k < crates4.len() implies p(#[trigger] crates4[k]) by {
        lemma_filter_members(crates3, |c: SpaceCrate| crate_on_screen(c));
        assert(crates3.contains(crates4[k]));
        let i = choose|i: int| 0 <= i < crates3.len() && crates3[i] == crates4[k];
        assert(crates3[i].id != id);
    }
    lemma_player_crate_fold_props(pc_init, player3.x, player3.y, crates4, p, q_any);
    let pc = player_crate_fold(pc_init, player3.x, player3.y, crates4);
    assert forall|j: int| 0 <= j < pc.crates.len() implies (#[trigger] pc.crates[j]).id != id by {
        assert(p(pc.crates[j]));
    }
    let r = session_step_spec(s, explosions1, Seq::<SoundCue>::empty(), input, picks, delta_ms);
    assert(r.0.crates == pc.crates);
}

/// Law: entering the game and leaving it again on the very next step
/// tears the round down completely: no rocks, bullets or crates stay
/// active and no player ship exists.
pub proof fn lemma_round_teardown(
    w: WorldView,
    start_input: GameInput,
    menu_input: GameInput,
    picks1: FrameRandom,
    picks2: FrameRandom,
    delta1: u64,
    delta2: u64,
)
    requires
        w.wf(),
        w.session is None,
        start_input.start,
        menu_input.menu,
    ensures
        ({
            let r1 = step_spec(w, start_input, picks1, delta1);
            let r2 = step_spec(r1.0, menu_input, picks2, delta2);
            &&& r1.0.session is Some && r1.0.state is Game
            &&& r2.0.session is None && r2.0.state is MainMenu
            &&& r2.0.active_rocks().len() == 0
            &&& r2.0.active_bullets().len() == 0
            &&& r2.0.active_crates().len() == 0
            &&& !r2.0.player_present()
        }),
{
}

/// Law: the score never decreases while a round keeps running.
pub proof fn lemma_score_monotonic(
    w: WorldView,
    input: GameInput,
    picks: FrameRandom,
    delta_ms: u64,
)
    requires
        w.wf(),
        w.session is Some,
    ensures
        ({
            let r = step_spec(w, input, picks, delta_ms);
            r.0.session matches Some(s2) ==> s2.score >= w.session->Some_0.score
        }),
{
    let s = w.session->Some_0;
    let rock_timer1 = s.rock_spawn_timer.tick_spec(delta_ms);
    let crate_timer1 = s.crate_spawn_timer.tick_spec(delta_ms);
    let cooldown1 = s.bullet_cooldown_timer.tick_spec(delta_ms);
    let score_timer1 = s.score_timer.tick_spec(delta_ms);
    let rock_spawned = rock_timer1.finished && s.next_id < u64::MAX;
    let rocks2 = if rock_spawned {
        s.rocks.push(new_rock(s.next_id, picks.rock_x, picks.rock_size_pick, picks.rock_speed_pick))
    } else {
        s.rocks
    };
    let nid2 = if rock_spawned {
        (s.next_id + 1) as u64
    } else {
        s.next_id
    };
    let crate_spawned = crate_timer1.finished && nid2 < u64::MAX;
    let nid3 = if crate_spawned {
        (nid2 + 1) as u64
    } else {
        nid2
    };
    let score2 = if score_timer1.finished {
        sat_add(s.score, SCORE_PER_TICK)
    } else {
        s.score
    };
    let fired = input.fire && cooldown1.finished && nid3 < u64::MAX;
    let bullets2 = if fired {
        s.bullets.push(Bullet { id: nid3, x: s.player.x, y: s.player.y })
    } else {
        s.bullets
    };
    let sounds1 = if fired {
        Seq::<SoundCue>::empty().push(SoundCue::Shoot)
    } else {
        Seq::<SoundCue>::empty()
    };
    let player3 = moved_player(s.player, input, delta_ms);
    let rocks3 = rocks2.map_values(|r: Rock| moved_rock(r, delta_ms));
    let bullets3 = bullets2.map_values(|b: Bullet| moved_bullet(b, delta_ms));
    let rocks4 = rocks3.filter(|r: Rock| rock_on_screen(r));
    let destroyed4 = sat_add_amt(s.rocks_destroyed, rocks3.len() - rocks4.len());
    let bullets4 = bullets3.filter(|b: Bullet| bullet_on_screen(b));
    let crates3 = (if crate_spawned {
        s.crates.push(new_crate(nid2, picks.crate_x, picks.crate_kind_pick))
    } else {
        s.crates
    }).map_values(|c: SpaceCrate| moved_crate(c, delta_ms));
    let crates4 = crates3.filter(|c: SpaceCrate| crate_on_screen(c));
    let explosions1 = tick_explosions_spec(w.explosions, delta_ms);
    let pr_init = PlayerRockOutcome {
        rocks: Seq::<Rock>::empty(),
        health: player3.health,
        score: score2,
        destroyed: destroyed4,
        explosions: explosions1,
        sounds: sounds1,
    };
    let pr = player_rock_fold(pr_init, player3.x, player3.y, rocks4);
    let br_init = BulletRockOutcome {
        bullets: Seq::<Bullet>::empty(),
        rocks: pr.rocks,
        score: pr.score,
        sounds: pr.sounds,
    };
    let br = bullet_rock_fold(br_init, bullets4);
    let pc_init = PlayerCrateOutcome {
        crates: Seq::<SpaceCrate>::empty(),
        health: pr.health,
        score: br.score,
        explosions: pr.explosions,
        sounds: br.sounds,
    };
    let p_rock = |r: Rock| true;
    let p_bullet = |b: Bullet| true;
    let p_crate = |c: SpaceCrate| true;
    let q_any = |e: Explosion| true;
    lemma_player_rock_fold_props(pr_init, player3.x, player3.y, rocks4, p_rock, q_any);
    lemma_bullet_rock_fold_props(br_init, bullets4, p_rock, p_bullet);
    lemma_player_crate_fold_props(pc_init, player3.x, player3.y, crates4, p_crate, q_any);
}

} // verus!
