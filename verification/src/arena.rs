//! The fixed play field: its dimensions, the wall geometry around it,
//! and the two collision primitives the gameplay rules use.
//!
//! Every length here is in milli-units (thousandths of a world unit)
//! and every duration in milliseconds, as laid out in the crate root.

use vstd::prelude::*;

verus! {

use vstd::math::abs;

/// Milli-units per world unit.
pub const MILLI: i64 = 1000;

/// Scale applied to the pixel sizes of the sprite sheet to obtain
/// world-unit sizes (a 16-pixel sprite is 16 * ASSET_SCALE units wide).
pub const ASSET_SCALE: i64 = 3;

pub const ARENA_WIDTH: i64 = 900 * MILLI;

pub const ARENA_HEIGHT: i64 = 900 * MILLI;

pub const LEFT_WALL_X: i64 = 0;

pub const RIGHT_WALL_X: i64 = 900 * MILLI;

pub const TOP_WALL_Y: i64 = 900 * MILLI;

pub const BOTTOM_WALL_Y: i64 = 0;

pub const HIDE_ARENA_OVERFLOW_AREA_THICKNESS: i64 = 200 * MILLI;

pub const WALL_THICKNESS: i64 = 10 * MILLI;

/// Draw layer of the visible arena walls (a bare z-index, not scaled).
pub const WALL_LAYER: i64 = 3;

/// Draw layer of the thick masking walls that hide entities outside
/// the arena before they are removed.
pub const HIDE_OVERFLOW_LAYER: i64 = 2;

/// The largest per-step time delta the simulation accepts, so that all
/// displacement arithmetic stays comfortably in range.
pub const MAX_STEP_MS: u64 = 10_000;

/// Coordinates the simulation works with stay inside this bound; it
/// leaves room for the fastest entity to travel for a full
/// `MAX_STEP_MS` from anywhere near the arena.
pub const POS_LIMIT: i64 = 8_000_000;

/// Whether a coordinate is within the range the arithmetic contracts
/// assume.
pub open spec fn coord_ok(v: i64) -> bool {
    -POS_LIMIT <= v <= POS_LIMIT
}

/// Whether the two axis-aligned boxes centred at `(ax, ay)` and
/// `(bx, by)` with sizes `(aw, ah)` and `(bw, bh)` strictly overlap.
/// Written without divisions so that it is exact for odd sizes too.
pub open spec fn boxes_overlap(
    ax: i64,
    ay: i64,
    aw: i64,
    ah: i64,
    bx: i64,
    by: i64,
    bw: i64,
    bh: i64,
) -> bool {
    2 * abs(ax - bx) < aw + bw && 2 * abs(ay - by) < ah + bh
}

/// Whether the centres `(ax, ay)` and `(bx, by)` are strictly closer
/// than `dist`, compared through squared Euclidean distance.
pub open spec fn centers_within(ax: i64, ay: i64, bx: i64, by: i64, dist: i64) -> bool {
    (ax - bx) * (ax - bx) + (ay - by) * (ay - by) < dist * dist
}

/// Strict overlap test between two axis-aligned boxes given by centre
/// and size.
pub fn collide(ax: i64, ay: i64, aw: i64, ah: i64, bx: i64, by: i64, bw: i64, bh: i64) -> (r:
    bool)
    requires
        coord_ok(ax) && coord_ok(ay) && coord_ok(bx) && coord_ok(by),
        0 <= aw <= 2 * POS_LIMIT && 0 <= ah <= 2 * POS_LIMIT,
        0 <= bw <= 2 * POS_LIMIT && 0 <= bh <= 2 * POS_LIMIT,
    ensures
        r == boxes_overlap(ax, ay, aw, ah, bx, by, bw, bh),
{
    let dx = ax - bx;
    let adx = if dx < 0 {
        -dx
    } else {
        dx
    };
    let dy = ay - by;
    let ady = if dy < 0 {
        -dy
    } else {
        dy
    };
    2 * adx < aw + bw && 2 * ady < ah + bh
}

/// Strict distance test between two centres, against `dist`.
pub fn within_distance(ax: i64, ay: i64, bx: i64, by: i64, dist: i64) -> (r: bool)
    requires
        coord_ok(ax) && coord_ok(ay) && coord_ok(bx) && coord_ok(by),
        0 <= dist <= 2 * POS_LIMIT,
    ensures
        r == centers_within(ax, ay, bx, by, dist),
{
    let dx = ax - bx;
    let dy = ay - by;
    proof {
        assert(0 <= dx * dx <= 256_000_000_000_000) by (nonlinear_arith)
            requires
                -16_000_000 <= dx <= 16_000_000,
        ;
        assert(0 <= dy * dy <= 256_000_000_000_000) by (nonlinear_arith)
            requires
                -16_000_000 <= dy <= 16_000_000,
        ;
        assert(0 <= dist * dist <= 256_000_000_000_000) by (nonlinear_arith)
            requires
                0 <= dist <= 16_000_000,
        ;
    }
    dx * dx + dy * dy < dist * dist
}

/// Marker for an arena wall, kept on each wall record the host draws.
#[derive(Clone, Copy, Debug, PartialEq, Eq, Structural)]
pub struct ArenaWall {}

/// One rectangle of wall geometry for the host to draw: centre
/// position, size, draw layer, and whether it is one of the thick
/// clear-coloured masking walls rather than a visible wall.
#[derive(Clone, Copy, Debug, PartialEq, Eq, Structural)]
pub struct ArenaWallBundle {
    pub x: i64,
    pub y: i64,
    pub width: i64,
    pub height: i64,
    pub draw_layer: i64,
    pub hides_overflow: bool,
}

/// The four sides a wall rectangle can sit on.
#[derive(Clone, Copy, Debug, PartialEq, Eq, Structural)]
pub enum ArenaWallLocation {
    Left,
    Right,
    Top,
    Bottom,
}

impl ArenaWallLocation {
    /// The centre of a wall of the given thickness on this side,
    /// together with its draw layer.
    pub open spec fn position_spec(self, wall_thickness: i64, draw_layer: i64) -> (i64, i64, i64) {
        match self {
            ArenaWallLocation::Left => (
                (LEFT_WALL_X - wall_thickness / 2) as i64,
                (450 * MILLI) as i64,
                draw_layer,
            ),
            ArenaWallLocation::Right => (
                (RIGHT_WALL_X + wall_thickness / 2) as i64,
                (450 * MILLI) as i64,
                draw_layer,
            ),
            ArenaWallLocation::Top => (
                (450 * MILLI) as i64,
                (TOP_WALL_Y + wall_thickness / 2) as i64,
                draw_layer,
            ),
            ArenaWallLocation::Bottom => (
                (450 * MILLI) as i64,
                (BOTTOM_WALL_Y - wall_thickness / 2) as i64,
                draw_layer,
            ),
        }
    }

    /// The size of a wall of the given thickness on this side: the
    /// horizontal walls span the arena width, the vertical ones
    /// overhang by a thickness at both ends.
    pub open spec fn size_spec(self, wall_thickness: i64) -> (i64, i64) {
        match self {
            ArenaWallLocation::Top | ArenaWallLocation::Bottom => (ARENA_WIDTH, wall_thickness),
            ArenaWallLocation::Left | ArenaWallLocation::Right => (
                wall_thickness,
                (ARENA_HEIGHT + wall_thickness * 2) as i64,
            ),
        }
    }

    pub fn position(&self, wall_thickness: i64, draw_layer: i64) -> (p: (i64, i64, i64))
        requires
            0 <= wall_thickness <= 1000 * MILLI,
        ensures
            p == self.position_spec(wall_thickness, draw_layer),
    {
        match self {
            ArenaWallLocation::Left => (LEFT_WALL_X - wall_thickness / 2, 450 * MILLI, draw_layer),
            ArenaWallLocation::Right => (RIGHT_WALL_X + wall_thickness / 2, 450 * MILLI, draw_layer),
            ArenaWallLocation::Top => (450 * MILLI, TOP_WALL_Y + wall_thickness / 2, draw_layer),
            ArenaWallLocation::Bottom => (
                450 * MILLI,
                BOTTOM_WALL_Y - wall_thickness / 2,
                draw_layer,
            ),
        }
    }

    pub fn size(&self, wall_thickness: i64) -> (s: (i64, i64))
        requires
            0 <= wall_thickness <= 1000 * MILLI,
        ensures
            s == self.size_spec(wall_thickness),
    {
        match self {
            ArenaWallLocation::Top | ArenaWallLocation::Bottom => (ARENA_WIDTH, wall_thickness),
            ArenaWallLocation::Left | ArenaWallLocation::Right => (
                wall_thickness,
                ARENA_HEIGHT + wall_thickness * 2,
            ),
        }
    }
}

impl ArenaWallBundle {
    /// The wall record for the given side, thickness, masking role and
    /// draw layer.
    pub open spec fn new_spec(
        location: ArenaWallLocation,
        wall_thickness: i64,
        hides_overflow: bool,
        draw_layer: i64,
    ) -> ArenaWallBundle {
        let pos = location.position_spec(wall_thickness, draw_layer);
        let size = location.size_spec(wall_thickness);
        ArenaWallBundle {
            x: pos.0,
            y: pos.1,
            width: size.0,
            height: size.1,
            draw_layer,
            hides_overflow,
        }
    }

    pub fn new(
        location: ArenaWallLocation,
        wall_thickness: i64,
        hides_overflow: bool,
        draw_layer: i64,
    ) -> (b: ArenaWallBundle)
        requires
            0 <= wall_thickness <= 1000 * MILLI,
        ensures
            b == ArenaWallBundle::new_spec(location, wall_thickness, hides_overflow, draw_layer),
    {
        let pos = location.position(wall_thickness, draw_layer);
        let size = location.size(wall_thickness);
        ArenaWallBundle {
            x: pos.0,
            y: pos.1,
            width: size.0,
            height: size.1,
            draw_layer,
            hides_overflow,
        }
    }
}

/// The eight wall rectangles around the arena, in a fixed order: the
/// four thick masking walls first, then the four visible walls.
pub open spec fn arena_walls_spec() -> Seq<ArenaWallBundle> {
    seq![
        ArenaWallBundle::new_spec(
            ArenaWallLocation::Bottom,
            HIDE_ARENA_OVERFLOW_AREA_THICKNESS,
            true,
            HIDE_OVERFLOW_LAYER,
        ),
        ArenaWallBundle::new_spec(
            ArenaWallLocation::Top,
            HIDE_ARENA_OVERFLOW_AREA_THICKNESS,
            true,
            HIDE_OVERFLOW_LAYER,
        ),
        ArenaWallBundle::new_spec(
            ArenaWallLocation::Left,
            HIDE_ARENA_OVERFLOW_AREA_THICKNESS,
            true,
            HIDE_OVERFLOW_LAYER,
        ),
        ArenaWallBundle::new_spec(
            ArenaWallLocation::Right,
            HIDE_ARENA_OVERFLOW_AREA_THICKNESS,
            true,
            HIDE_OVERFLOW_LAYER,
        ),
        ArenaWallBundle::new_spec(ArenaWallLocation::Top, WALL_THICKNESS, false, WALL_LAYER),
        ArenaWallBundle::new_spec(ArenaWallLocation::Bottom, WALL_THICKNESS, false, WALL_LAYER),
        ArenaWallBundle::new_spec(ArenaWallLocation::Right, WALL_THICKNESS, false, WALL_LAYER),
        ArenaWallBundle::new_spec(ArenaWallLocation::Left, WALL_THICKNESS, false, WALL_LAYER),
    ]
}

/// Produce the wall geometry the host should draw around the arena.
pub fn spawn_arena_walls() -> (walls: Vec<ArenaWallBundle>)
    ensures
        walls@ == arena_walls_spec(),
{
    let mut walls: Vec<ArenaWallBundle> = Vec::new();
    walls.push(
        ArenaWallBundle::new(
            ArenaWallLocation::Bottom,
            HIDE_ARENA_OVERFLOW_AREA_THICKNESS,
            true,
            HIDE_OVERFLOW_LAYER,
        ),
    );
    walls.push(
        ArenaWallBundle::new(
            ArenaWallLocation::Top,
            HIDE_ARENA_OVERFLOW_AREA_THICKNESS,
            true,
            HIDE_OVERFLOW_LAYER,
        ),
    );
    walls.push(
        ArenaWallBundle::new(
            ArenaWallLocation::Left,
            HIDE_ARENA_OVERFLOW_AREA_THICKNESS,
            true,
            HIDE_OVERFLOW_LAYER,
        ),
    );
    walls.push(
        ArenaWallBundle::new(
            ArenaWallLocation::Right,
            HIDE_ARENA_OVERFLOW_AREA_THICKNESS,
            true,
            HIDE_OVERFLOW_LAYER,
        ),
    );
    walls.push(ArenaWallBundle::new(ArenaWallLocation::Top, WALL_THICKNESS, false, WALL_LAYER));
    walls.push(ArenaWallBundle::new(ArenaWallLocation::Bottom, WALL_THICKNESS, false, WALL_LAYER));
    walls.push(ArenaWallBundle::new(ArenaWallLocation::Right, WALL_THICKNESS, false, WALL_LAYER));
    walls.push(ArenaWallBundle::new(ArenaWallLocation::Left, WALL_THICKNESS, false, WALL_LAYER));
    proof {
        assert(walls@ =~= arena_walls_spec());
    }
    walls
}

} // verus!
