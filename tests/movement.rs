use tile_rpg::collision::{
    collide, enemy_collision_check, wall_collision_check, GridCoords, Position,
};
use tile_rpg::enemy::EnemySpawnEntity;
use tile_rpg::game::{EnterCombatEvent, Game, Mode};
use tile_rpg::movement::{player_movement, target_position, Direction, DirectionKeys, MoveOutcome};

fn keys(up: bool, left: bool, right: bool, down: bool) -> DirectionKeys {
    DirectionKeys { up, left, right, down }
}

fn right() -> DirectionKeys {
    keys(false, false, true, false)
}

fn game_with(walls: Vec<Position>, enemy: Position) -> Game {
    let mut g = Game::new(walls);
    g.overworld_enemies = vec![enemy];
    g
}

#[test]
fn wall_to_the_right_blocks() {
    let mut g = game_with(vec![Position::new(16, 0)], Position::new(160, 160));
    let event = g.player_movement(right());
    assert_eq!(g.player, Position::new(0, 0));
    assert_eq!(event, None);
    assert_eq!(g.mode, Mode::Overworld);
}

#[test]
fn enemy_to_the_right_starts_combat() {
    let mut g = game_with(Vec::new(), Position::new(16, 0));
    let event = g.player_movement(right());
    assert_eq!(g.player, Position::new(0, 0));
    assert_eq!(event, Some(EnterCombatEvent));
    g.enter_combat(event.unwrap());
    assert_eq!(g.mode, Mode::Combat);
    assert_eq!(g.enemy.unwrap().health, 3);
}

#[test]
fn enemy_contact_reported_each_blocked_tick() {
    let mut g = game_with(Vec::new(), Position::new(0, 16));
    let up = keys(true, false, false, false);
    assert_eq!(g.player_movement(up), Some(EnterCombatEvent));
    assert_eq!(g.player_movement(up), Some(EnterCombatEvent));
    assert_eq!(g.player, Position::new(0, 0));
}

#[test]
fn free_move_commits() {
    let mut g = game_with(vec![Position::new(16, 16)], Position::new(-32, 0));
    assert_eq!(g.player_movement(right()), None);
    assert_eq!(g.player, Position::new(16, 0));
    assert_eq!(g.player_movement(keys(false, false, false, true)), None);
    assert_eq!(g.player, Position::new(16, -16));
    assert_eq!(g.player_movement(keys(false, false, false, false)), None);
    assert_eq!(g.player, Position::new(16, -16));
}

#[test]
fn no_movement_during_combat() {
    let mut g = game_with(Vec::new(), Position::new(160, 160));
    g.enter_combat(EnterCombatEvent);
    assert_eq!(g.player_movement(right()), None);
    assert_eq!(g.player, Position::new(0, 0));
}

#[test]
fn direction_priority() {
    assert_eq!(keys(true, true, true, true).pressed_direction(), Some(Direction::Up));
    assert_eq!(keys(false, true, true, true).pressed_direction(), Some(Direction::Left));
    assert_eq!(keys(false, false, true, true).pressed_direction(), Some(Direction::Right));
    assert_eq!(keys(false, false, false, true).pressed_direction(), Some(Direction::Down));
    assert_eq!(keys(false, false, false, false).pressed_direction(), None);
}

#[test]
fn targets_are_one_tile_away() {
    let p = Position::new(32, 48);
    assert_eq!(target_position(p, Some(Direction::Up)), Position::new(32, 64));
    assert_eq!(target_position(p, Some(Direction::Left)), Position::new(16, 48));
    assert_eq!(target_position(p, Some(Direction::Right)), Position::new(48, 48));
    assert_eq!(target_position(p, Some(Direction::Down)), Position::new(32, 32));
    assert_eq!(target_position(p, None), p);
}

#[test]
fn boxes_overlap_strictly_within_nine_tenths_of_a_tile() {
    let o = Position::new(0, 0);
    assert!(collide(o, o));
    assert!(collide(o, Position::new(14, -14)));
    assert!(!collide(o, Position::new(15, 0)));
    assert!(!collide(o, Position::new(16, 0)));
    assert!(!collide(o, Position::new(0, -16)));
    assert!(!collide(o, Position::new(16, 16)));
    assert!(!collide(Position::new(i64::MIN, 0), Position::new(i64::MAX, 0)));
}

#[test]
fn collision_checks_over_sets() {
    let target = Position::new(16, 0);
    let obstacles = vec![Position::new(100, 100), Position::new(16, 0)];
    assert!(enemy_collision_check(target, &obstacles));
    assert!(!wall_collision_check(target, &obstacles));
    assert!(!enemy_collision_check(target, &Vec::new()));
    assert!(wall_collision_check(target, &Vec::new()));
}

#[test]
fn enemy_checked_before_wall() {
    let mut p = Position::new(0, 0);
    let both = vec![Position::new(16, 0)];
    let outcome = player_movement(&mut p, right(), &both, &both);
    assert_eq!(outcome, MoveOutcome::EnemyContact);
    assert_eq!(p, Position::new(0, 0));
    let outcome = player_movement(&mut p, right(), &both, &Vec::new());
    assert_eq!(outcome, MoveOutcome::BlockedByWall);
    let outcome = player_movement(&mut p, right(), &Vec::new(), &Vec::new());
    assert_eq!(outcome, MoveOutcome::Committed);
    assert_eq!(p, Position::new(16, 0));
}

#[test]
fn start_up_state() {
    let g = Game::new(Vec::new());
    assert_eq!(g.player, Position::new(0, 0));
    assert_eq!(g.player_stats.health, 6);
    assert_eq!(g.player_stats.defense, 2);
    assert_eq!(g.overworld_enemies, vec![Position::new(100, 100)]);
    assert_eq!(g.camera, Position::new(0, 0));
}

#[test]
fn spawns_place_player_and_enemy() {
    let mut g = Game::new(Vec::new());
    g.move_player_to_spawn(&vec![GridCoords { x: 1, y: 2 }, GridCoords { x: 3, y: -1 }]);
    assert_eq!(g.player, Position::new(48, -16));
    g.move_enemys_to_spawns(&vec![GridCoords { x: 5, y: 5 }]);
    assert_eq!(g.overworld_enemies, vec![Position::new(80, 80)]);
    g.move_player_to_spawn(&Vec::new());
    assert_eq!(g.player, Position::new(48, -16));
    g.enter_combat(EnterCombatEvent);
    g.move_player_to_spawn(&vec![GridCoords { x: 0, y: 0 }]);
    assert_eq!(g.player, Position::new(48, -16));
}

#[test]
fn grid_cells_scale_by_tile_size() {
    assert_eq!(Position::from_grid(GridCoords { x: -2, y: 7 }), Position::new(-32, 112));
}

#[test]
fn enemy_spawn_stats() {
    let e = EnemySpawnEntity::standard();
    assert_eq!((e.health, e.max_health, e.attack, e.defense), (3, 3, 3, 3));
    assert_eq!(e.name, "Name");
}
