use vstd::prelude::*;

verus! {

/// Side of one grid tile, in world units.
pub const TILE_SIZE: i64 = 16;

/// Draw-order depth at which the player and the enemies are placed.
pub const SPRITE_DEPTH: i64 = 900;

/// A point in the world, in world units. Entities on the grid stand on
/// multiples of `TILE_SIZE`.
#[derive(Clone, Copy, Debug, PartialEq, Eq)]
pub struct Position {
    pub x: i64,
    pub y: i64,
}

/// A cell of the level grid.
#[derive(Clone, Copy, Debug, PartialEq, Eq)]
pub struct GridCoords {
    pub x: i32,
    pub y: i32,
}

pub open spec fn abs(v: int) -> int {
    if v < 0 {
        -v
    } else {
        v
    }
}

/// Two collision boxes centred on `a` and `b` overlap. Each box has a side of
/// nine tenths of a tile, so boxes on neighbouring tiles (also diagonal ones)
/// never touch; the overlap is strict on both axes.
pub open spec fn overlaps(a: Position, b: Position) -> bool {
    &&& 10 * abs(a.x - b.x) < 9 * TILE_SIZE
    &&& 10 * abs(a.y - b.y) < 9 * TILE_SIZE
}

/// `target` overlaps at least one of `obstacles`.
pub open spec fn overlaps_any(target: Position, obstacles: Seq<Position>) -> bool {
    exists|i: int| 0 <= i < obstacles.len() && #[trigger] overlaps(target, obstacles[i])
}

/// The world position of the centre of a grid cell.
pub open spec fn cell_position(g: GridCoords) -> Position {
    Position { x: (g.x * TILE_SIZE) as i64, y: (g.y * TILE_SIZE) as i64 }
}

impl Position {
    pub fn new(x: i64, y: i64) -> (r: Position)
        ensures
            r.x == x,
            r.y == y,
    {
        Position { x, y }
    }

    /// The world position of a grid cell.
    pub fn from_grid(g: GridCoords) -> (r: Position)
        ensures
            r == cell_position(g),
    {
        Position { x: g.x as i64 * TILE_SIZE, y: g.y as i64 * TILE_SIZE }
    }
}

/// Whether one axis of two boxes overlaps: ten times the distance between
/// the centres is below nine tiles.
fn axis_overlaps(a: i64, b: i64) -> (r: bool)
    ensures
        r == (10 * abs(a - b) < 9 * TILE_SIZE),
{
    let d: i128 = a as i128 - b as i128;
    let dist: i128 = if d < 0 {
        -d
    } else {
        d
    };
    10 * dist < 9 * TILE_SIZE as i128
}

/// Box overlap test between two entities centred on `a` and `b`.
pub fn collide(a: Position, b: Position) -> (r: bool)
    ensures
        r == overlaps(a, b),
{
    axis_overlaps(a.x, b.x) && axis_overlaps(a.y, b.y)
}

/// Whether a player standing on `target` would touch one of the roaming
/// enemies.
pub fn enemy_collision_check(target: Position, enemies: &Vec<Position>) -> (r: bool)
    ensures
        r == overlaps_any(target, enemies@),
{
    let mut i: usize = 0;
    while i < enemies.len()
        invariant
            0 <= i <= enemies.len(),
            forall|j: int| 0 <= j < i ==> !overlaps(target, #[trigger] enemies@[j]),
        decreases enemies.len() - i,
    {
        if collide(target, enemies[i]) {
            return true;
        }
        i = i + 1;
    }
    false
}

/// Whether `target` is free of walls: true when no wall collider overlaps it.
pub fn wall_collision_check(target: Position, walls: &Vec<Position>) -> (free: bool)
    ensures
        free == !overlaps_any(target, walls@),
{
    let mut i: usize = 0;
    while i < walls.len()
        invariant
            0 <= i <= walls.len(),
            forall|j: int| 0 <= j < i ==> !overlaps(target, #[trigger] walls@[j]),
        decreases walls.len() - i,
    {
        if collide(target, walls[i]) {
            return false;
        }
        i = i + 1;
    }
    true
}

} // verus!
