//! The rules of a small tile-based role-playing game: grid movement with
//! collision against walls and roaming enemies, the switch between free
//! roaming and turn-based combat, and damage resolution in combat.
pub mod collision;
pub mod enemy;
pub mod game;
pub mod menu;
pub mod movement;
pub mod stats;
