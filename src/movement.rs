use vstd::prelude::*;
use crate::collision::{
    enemy_collision_check, overlaps_any, wall_collision_check, Position, TILE_SIZE,
};

verus! {

/// One step on the grid.
#[derive(Clone, Copy, Debug, PartialEq, Eq, Structural)]
pub enum Direction {
    Up,
    Left,
    Right,
    Down,
}

/// Which direction keys were pressed during the current tick.
#[derive(Clone, Copy, Debug, PartialEq, Eq)]
pub struct DirectionKeys {
    pub up: bool,
    pub left: bool,
    pub right: bool,
    pub down: bool,
}

/// What a movement tick ended in.
#[derive(Clone, Copy, Debug, PartialEq, Eq, Structural)]
pub enum MoveOutcome {
    /// The target was free: the player now stands on it.
    Committed,
    /// A wall stands on the target: the player stays.
    BlockedByWall,
    /// A roaming enemy stands on the target: the player stays and an
    /// encounter starts.
    EnemyContact,
}

/// The direction taken when several keys are pressed at once: up first, then
/// left, right and down.
pub open spec fn chosen_direction(k: DirectionKeys) -> Option<Direction> {
    if k.up {
        Some(Direction::Up)
    } else if k.left {
        Some(Direction::Left)
    } else if k.right {
        Some(Direction::Right)
    } else if k.down {
        Some(Direction::Down)
    } else {
        None
    }
}

/// A step of one tile can be taken from `p` without leaving the range of
/// world coordinates.
pub open spec fn steppable(p: Position) -> bool {
    &&& i64::MIN + TILE_SIZE <= p.x <= i64::MAX - TILE_SIZE
    &&& i64::MIN + TILE_SIZE <= p.y <= i64::MAX - TILE_SIZE
}

/// Where one tile in direction `d` leads from `p`; no direction stays put.
pub open spec fn step_target(p: Position, d: Option<Direction>) -> Position {
    match d {
        Some(Direction::Up) => Position { x: p.x, y: (p.y + TILE_SIZE) as i64 },
        Some(Direction::Left) => Position { x: (p.x - TILE_SIZE) as i64, y: p.y },
        Some(Direction::Right) => Position { x: (p.x + TILE_SIZE) as i64, y: p.y },
        Some(Direction::Down) => Position { x: p.x, y: (p.y - TILE_SIZE) as i64 },
        None => p,
    }
}

/// Where the player stands after a movement tick that aimed at `target`.
pub open spec fn position_after_move(
    p: Position,
    target: Position,
    walls: Seq<Position>,
    enemies: Seq<Position>,
) -> Position {
    if overlaps_any(target, enemies) || overlaps_any(target, walls) {
        p
    } else {
        target
    }
}

/// The outcome of a movement tick that aimed at `target`. Enemy contact is
/// tested before walls.
pub open spec fn move_outcome(
    target: Position,
    walls: Seq<Position>,
    enemies: Seq<Position>,
) -> MoveOutcome {
    if overlaps_any(target, enemies) {
        MoveOutcome::EnemyContact
    } else if overlaps_any(target, walls) {
        MoveOutcome::BlockedByWall
    } else {
        MoveOutcome::Committed
    }
}

impl DirectionKeys {
    /// The single direction that counts this tick, by priority.
    pub fn pressed_direction(&self) -> (r: Option<Direction>)
        ensures
            r == chosen_direction(*self),
    {
        if self.up {
            Some(Direction::Up)
        } else if self.left {
            Some(Direction::Left)
        } else if self.right {
            Some(Direction::Right)
        } else if self.down {
            Some(Direction::Down)
        } else {
            None
        }
    }
}

/// The position one tile away from `p` in direction `d`.
pub fn target_position(p: Position, d: Option<Direction>) -> (r: Position)
    requires
        steppable(p),
    ensures
        r == step_target(p, d),
{
    match d {
        Some(Direction::Up) => Position { x: p.x, y: p.y + TILE_SIZE },
        Some(Direction::Left) => Position { x: p.x - TILE_SIZE, y: p.y },
        Some(Direction::Right) => Position { x: p.x + TILE_SIZE, y: p.y },
        Some(Direction::Down) => Position { x: p.x, y: p.y - TILE_SIZE },
        None => p,
    }
}

/// One movement tick: aims one tile in the pressed direction, and moves the
/// player there unless an enemy or a wall stands on the target.
pub fn player_movement(
    player: &mut Position,
    keys: DirectionKeys,
    walls: &Vec<Position>,
    enemies: &Vec<Position>,
) -> (r: MoveOutcome)
    requires
        steppable(*old(player)),
    ensures
        r == move_outcome(step_target(*old(player), chosen_direction(keys)), walls@, enemies@),
        *final(player) == position_after_move(
            *old(player),
            step_target(*old(player), chosen_direction(keys)),
            walls@,
            enemies@,
        ),
{
    let target = target_position(*player, keys.pressed_direction());
    if enemy_collision_check(target, enemies) {
        MoveOutcome::EnemyContact
    } else if wall_collision_check(target, walls) {
        *player = target;
        MoveOutcome::Committed
    } else {
        MoveOutcome::BlockedByWall
    }
}

} // verus!

verus! {

/// A target that a wall or a roaming enemy overlaps is never committed: the
/// player stays where it was. Contact with an enemy is reported as such,
/// whether or not a wall stands there too.
pub proof fn lemma_blocked_target_never_commits(
    p: Position,
    target: Position,
    walls: Seq<Position>,
    enemies: Seq<Position>,
)
    requires
        overlaps_any(target, walls) || overlaps_any(target, enemies),
    ensures
        position_after_move(p, target, walls, enemies) == p,
        overlaps_any(target, enemies) ==> move_outcome(target, walls, enemies)
            == MoveOutcome::EnemyContact,
        !overlaps_any(target, enemies) ==> move_outcome(target, walls, enemies)
            == MoveOutcome::BlockedByWall,
{
}

} // verus!
