use vstd::prelude::*;
use crate::collision::{cell_position, GridCoords, Position};
use crate::menu::{fresh_menu, label_after, CombatMenu, Interaction};
use crate::movement::{
    chosen_direction, move_outcome, position_after_move, step_target, steppable, DirectionKeys,
    MoveOutcome,
};
use crate::stats::{health_after_hit, CombatStats};

verus! {

/// The two modes of play. Exactly one is current; the transitions of `Game`
/// are the only way to change it.
#[derive(Clone, Copy, Debug, PartialEq, Eq, Structural)]
pub enum Mode {
    Overworld,
    Combat,
}

/// Who a hit is aimed at.
#[derive(Clone, Copy, Debug, PartialEq, Eq, Structural)]
pub enum Combatant {
    Player,
    Enemy,
}

/// A request to hit `target` with `damage_amount`, resolved once by
/// `Game::damage_calculation`.
#[derive(Clone, Copy, Debug, PartialEq, Eq)]
pub struct FightEvent {
    pub target: Combatant,
    pub damage_amount: isize,
}

/// Signals that the player ran into a roaming enemy; resolved once by
/// `Game::enter_combat`.
#[derive(Clone, Copy, Debug, PartialEq, Eq)]
pub struct EnterCombatEvent;

/// The whole game state: one player, the roaming enemies, the walls, and
/// during combat the enemy being fought and the combat menu.
#[derive(Debug)]
pub struct Game {
    pub mode: Mode,
    pub player: Position,
    pub player_stats: CombatStats,
    pub player_visible: bool,
    pub overworld_enemies: Vec<Position>,
    pub overworld_enemies_visible: bool,
    pub map_visible: bool,
    pub walls: Vec<Position>,
    /// The enemy fought in the current encounter.
    pub enemy: Option<CombatStats>,
    /// The menu shown during combat.
    pub menu: Option<CombatMenu>,
    pub camera: Position,
}

/// Stats the player starts the game with.
pub open spec fn starting_player_stats() -> CombatStats {
    CombatStats { health: 6, max_health: 6, attack: 3, defense: 2 }
}

/// Stats of the enemy that each encounter starts with.
pub open spec fn encounter_enemy_stats() -> CombatStats {
    CombatStats { health: 3, max_health: 3, attack: 2, defense: 1 }
}

/// Where the roaming enemy stands before the level places it.
pub open spec fn roaming_enemy_start() -> Position {
    Position { x: 100, y: 100 }
}

pub open spec fn origin() -> Position {
    Position { x: 0, y: 0 }
}

/// `s` after one hit of `amount`.
pub open spec fn hit(s: CombatStats, amount: isize) -> CombatStats {
    CombatStats {
        health: health_after_hit(s.health as int, amount as int, s.defense as int) as isize,
        max_health: s.max_health,
        attack: s.attack,
        defense: s.defense,
    }
}

/// The player, the roaming enemies, the walls and the camera are the same in
/// `a` and `b`.
pub open spec fn same_world(a: Game, b: Game) -> bool {
    &&& a.player == b.player
    &&& a.player_stats == b.player_stats
    &&& a.overworld_enemies@ == b.overworld_enemies@
    &&& a.walls@ == b.walls@
    &&& a.camera == b.camera
}

/// The player, the roaming enemies and the map are all shown, or all hidden.
pub open spec fn overworld_shown(g: Game, shown: bool) -> bool {
    &&& g.player_visible == shown
    &&& g.overworld_enemies_visible == shown
    &&& g.map_visible == shown
}

/// `b` is `a` in the overworld again, with the encounter gone and the world
/// otherwise as `a` has it (but for the player's stats).
pub open spec fn back_in_overworld(a: Game, b: Game) -> bool {
    &&& b.mode == Mode::Overworld
    &&& b.enemy is None
    &&& b.menu is None
    &&& overworld_shown(b, true)
    &&& b.player == a.player
    &&& b.overworld_enemies@ == a.overworld_enemies@
    &&& b.walls@ == a.walls@
    &&& b.camera == a.camera
}

/// What `Game::enter_combat` makes of `a`: from the overworld a fresh
/// encounter; in combat nothing changes.
pub open spec fn combat_entered(a: Game, b: Game) -> bool {
    if a.mode == Mode::Overworld {
        &&& b.mode == Mode::Combat
        &&& b.enemy == Some(encounter_enemy_stats())
        &&& b.menu == Some(fresh_menu())
        &&& overworld_shown(b, false)
        &&& same_world(a, b)
    } else {
        b == a
    }
}

/// What `Game::leave_combat` makes of `a`: from combat back to the overworld,
/// with the encounter removed whole; in the overworld nothing changes.
pub open spec fn combat_left(a: Game, b: Game) -> bool {
    if a.mode == Mode::Combat {
        &&& back_in_overworld(a, b)
        &&& b.player_stats == a.player_stats
    } else {
        b == a
    }
}

impl Game {
    /// The mode decides what exists: in the overworld no encounter and
    /// everything roaming shown; in combat one enemy, one menu, and the
    /// roaming world hidden.
    pub open spec fn wf(&self) -> bool {
        &&& self.player_stats.wf()
        &&& match self.mode {
            Mode::Overworld => {
                &&& self.enemy is None
                &&& self.menu is None
                &&& overworld_shown(*self, true)
            },
            Mode::Combat => {
                &&& match self.enemy {
                    Some(e) => e.wf(),
                    None => false,
                }
                &&& self.menu is Some
                &&& overworld_shown(*self, false)
            },
        }
    }

    /// The game at start-up, in the overworld: the player at the origin with
    /// its starting stats, one roaming enemy at its start point, the given
    /// walls, and the camera at the origin.
    pub fn new(walls: Vec<Position>) -> (r: Game)
        ensures
            r.wf(),
            r.mode == Mode::Overworld,
            r.player == origin(),
            r.player_stats == starting_player_stats(),
            r.overworld_enemies@ == seq![roaming_enemy_start()],
            r.walls@ == walls@,
            r.camera == origin(),
    {
        let mut overworld_enemies: Vec<Position> = Vec::new();
        overworld_enemies.push(Position { x: 100, y: 100 });
        Game {
            mode: Mode::Overworld,
            player: Position { x: 0, y: 0 },
            player_stats: CombatStats::new(6, 3, 2),
            player_visible: true,
            overworld_enemies,
            overworld_enemies_visible: true,
            map_visible: true,
            walls,
            enemy: None,
            menu: None,
            camera: Position { x: 0, y: 0 },
        }
    }

    /// Places the player on the spawn cells that the level reports, in turn:
    /// the last one wins. Only in the overworld.
    pub fn move_player_to_spawn(&mut self, spawns: &Vec<GridCoords>)
        requires
            old(self).wf(),
        ensures
            final(self).wf(),
            old(self).mode == Mode::Overworld && spawns@.len() > 0 ==> {
                &&& final(self).player == cell_position(spawns@.last())
                &&& final(self).mode == old(self).mode
                &&& final(self).enemy == old(self).enemy
                &&& final(self).menu == old(self).menu
                &&& final(self).player_stats == old(self).player_stats
                &&& final(self).overworld_enemies@ == old(self).overworld_enemies@
                &&& final(self).walls@ == old(self).walls@
                &&& final(self).camera == old(self).camera
                &&& overworld_shown(*final(self), true)
            },
            !(old(self).mode == Mode::Overworld && spawns@.len() > 0) ==> *final(self) == *old(
                self,
            ),
    {
        if self.mode == Mode::Overworld && spawns.len() > 0 {
            self.player = Position::from_grid(spawns[spawns.len() - 1]);
        }
    }

    /// Places the roaming enemy on the spawn cells that the level reports, in
    /// turn: the last one wins. Only in the overworld; there must then be
    /// exactly one roaming enemy.
    pub fn move_enemys_to_spawns(&mut self, spawns: &Vec<GridCoords>)
        requires
            old(self).wf(),
            old(self).mode == Mode::Overworld && spawns@.len() > 0
                ==> old(self).overworld_enemies@.len() == 1,
        ensures
            final(self).wf(),
            old(self).mode == Mode::Overworld && spawns@.len() > 0 ==> {
                &&& final(self).overworld_enemies@ == seq![cell_position(spawns@.last())]
                &&& final(self).mode == old(self).mode
                &&& final(self).player == old(self).player
                &&& final(self).player_stats == old(self).player_stats
                &&& final(self).walls@ == old(self).walls@
                &&& final(self).camera == old(self).camera
                &&& overworld_shown(*final(self), true)
            },
            !(old(self).mode == Mode::Overworld && spawns@.len() > 0) ==> *final(self) == *old(
                self,
            ),
    {
        if self.mode == Mode::Overworld && spawns.len() > 0 {
            self.overworld_enemies.set(0, Position::from_grid(spawns[spawns.len() - 1]));
            assert(self.overworld_enemies@ =~= seq![cell_position(spawns@.last())]);
        }
    }

    /// Hides or shows the player, the roaming enemies and the map, with
    /// everything drawn under them.
    fn set_overworld_shown(&mut self, shown: bool)
        ensures
            overworld_shown(*final(self), shown),
            final(self).mode == old(self).mode,
            final(self).enemy == old(self).enemy,
            final(self).menu == old(self).menu,
            same_world(*old(self), *final(self)),
    {
        self.player_visible = shown;
        self.overworld_enemies_visible = shown;
        self.map_visible = shown;
    }

    /// Starts an encounter: the roaming world is hidden, a fresh enemy and
    /// the combat menu appear, and the mode becomes combat. Already in
    /// combat this does nothing, so a contact reported twice starts one
    /// encounter only.
    pub fn enter_combat(&mut self, event: EnterCombatEvent)
        requires
            old(self).wf(),
        ensures
            final(self).wf(),
            combat_entered(*old(self), *final(self)),
    {
        if self.mode == Mode::Overworld {
            self.mode = Mode::Combat;
            self.set_overworld_shown(false);
            self.enemy = Some(CombatStats::new(3, 2, 1));
            self.menu = Some(CombatMenu::build_combat_menu());
        }
    }

    /// Ends the encounter: the enemy and the whole combat menu are removed,
    /// the roaming world is shown again, and the mode becomes overworld. In
    /// the overworld this does nothing.
    pub fn leave_combat(&mut self)
        requires
            old(self).wf(),
        ensures
            final(self).wf(),
            combat_left(*old(self), *final(self)),
    {
        if self.mode == Mode::Combat {
            self.mode = Mode::Overworld;
            self.enemy = None;
            self.menu = None;
            self.set_overworld_shown(true);
        }
    }

    /// One movement tick in the overworld (in combat nothing moves). Returns
    /// the encounter to start when the player ran into a roaming enemy.
    pub fn player_movement(&mut self, keys: DirectionKeys) -> (r: Option<EnterCombatEvent>)
        requires
            old(self).wf(),
            steppable(old(self).player),
        ensures
            final(self).wf(),
            old(self).mode == Mode::Overworld ==> {
                let target = step_target(old(self).player, chosen_direction(keys));
                &&& final(self).player == position_after_move(
                    old(self).player,
                    target,
                    old(self).walls@,
                    old(self).overworld_enemies@,
                )
                &&& r is Some == (move_outcome(
                    target,
                    old(self).walls@,
                    old(self).overworld_enemies@,
                ) == MoveOutcome::EnemyContact)
                &&& final(self).mode == old(self).mode
                &&& final(self).enemy == old(self).enemy
                &&& final(self).menu == old(self).menu
                &&& final(self).player_stats == old(self).player_stats
                &&& final(self).overworld_enemies@ == old(self).overworld_enemies@
                &&& final(self).walls@ == old(self).walls@
                &&& final(self).camera == old(self).camera
                &&& overworld_shown(*final(self), true)
            },
            old(self).mode == Mode::Combat ==> *final(self) == *old(self) && r is None,
    {
        if self.mode == Mode::Overworld {
            let outcome = crate::movement::player_movement(
                &mut self.player,
                keys,
                &self.walls,
                &self.overworld_enemies,
            );
            if outcome == MoveOutcome::EnemyContact {
                Some(EnterCombatEvent)
            } else {
                None
            }
        } else {
            None
        }
    }

    /// Resolves one hit in combat (in the overworld nothing happens). When
    /// the target is out of health afterwards, the encounter ends.
    pub fn damage_calculation(&mut self, event: FightEvent)
        requires
            old(self).wf(),
        ensures
            final(self).wf(),
            old(self).mode == Mode::Overworld ==> *final(self) == *old(self),
            old(self).mode == Mode::Combat ==> {
                let enemy = old(self).enemy.unwrap();
                let (player_after, enemy_after) = match event.target {
                    Combatant::Player => (hit(old(self).player_stats, event.damage_amount), enemy),
                    Combatant::Enemy => (old(self).player_stats, hit(enemy, event.damage_amount)),
                };
                let defeated = match event.target {
                    Combatant::Player => player_after.health == 0,
                    Combatant::Enemy => enemy_after.health == 0,
                };
                &&& final(self).player_stats == player_after
                &&& defeated ==> back_in_overworld(*old(self), *final(self))
                &&& !defeated ==> {
                    &&& final(self).mode == Mode::Combat
                    &&& final(self).enemy == Some(enemy_after)
                    &&& final(self).menu == old(self).menu
                    &&& overworld_shown(*final(self), false)
                    &&& final(self).player == old(self).player
                    &&& final(self).overworld_enemies@ == old(self).overworld_enemies@
                    &&& final(self).walls@ == old(self).walls@
                    &&& final(self).camera == old(self).camera
                }
            },
    {
        if self.mode == Mode::Combat {
            let defeated = match event.target {
                Combatant::Player => self.player_stats.take_hit(event.damage_amount),
                Combatant::Enemy => {
                    let mut enemy = self.enemy.unwrap();
                    let down = enemy.take_hit(event.damage_amount);
                    self.enemy = Some(enemy);
                    down
                },
            };
            if defeated {
                self.leave_combat();
            }
        }
    }


    /// Reacts to a change of the attack button in combat (in the overworld
    /// nothing happens). A click asks to hit the enemy with the player's
    /// attack.
    pub fn attack_button_system(&mut self, interaction: Interaction) -> (r: Option<FightEvent>)
        requires
            old(self).wf(),
        ensures
            final(self).wf(),
            old(self).mode == Mode::Overworld ==> *final(self) == *old(self) && r is None,
            old(self).mode == Mode::Combat ==> {
                let menu = old(self).menu.unwrap();
                &&& final(self).menu == Some(
                    CombatMenu {
                        enemy_health: menu.enemy_health,
                        attack_label: label_after(menu.attack_label, interaction),
                    },
                )
                &&& r == if interaction == Interaction::Clicked {
                    Some(
                        FightEvent {
                            target: Combatant::Enemy,
                            damage_amount: old(self).player_stats.attack,
                        },
                    )
                } else {
                    None::<FightEvent>
                }
                &&& final(self).mode == old(self).mode
                &&& final(self).enemy == old(self).enemy
                &&& same_world(*old(self), *final(self))
                &&& overworld_shown(*final(self), false)
            },
    {
        if self.mode == Mode::Combat {
            let mut menu = self.menu.unwrap();
            let clicked = menu.attack_button(interaction);
            self.menu = Some(menu);
            if clicked {
                Some(FightEvent { target: Combatant::Enemy, damage_amount: self.player_stats.attack })
            } else {
                None
            }
        } else {
            None
        }
    }

    /// Shows the enemy's current health on the combat menu (in the overworld
    /// nothing happens).
    pub fn update_enemy_health_text(&mut self)
        requires
            old(self).wf(),
        ensures
            final(self).wf(),
            old(self).mode == Mode::Overworld ==> *final(self) == *old(self),
            old(self).mode == Mode::Combat ==> {
                &&& final(self).menu == Some(
                    CombatMenu {
                        enemy_health: Some(old(self).enemy.unwrap().health),
                        attack_label: old(self).menu.unwrap().attack_label,
                    },
                )
                &&& final(self).mode == old(self).mode
                &&& final(self).enemy == old(self).enemy
                &&& same_world(*old(self), *final(self))
                &&& overworld_shown(*final(self), false)
            },
    {
        if self.mode == Mode::Combat {
            let mut menu = self.menu.unwrap();
            menu.update_enemy_health_text(self.enemy.unwrap().health);
            self.menu = Some(menu);
        }
    }

    /// Centres the camera on the origin, where combat is drawn (in the
    /// overworld nothing happens).
    pub fn combat_camera(&mut self)
        requires
            old(self).wf(),
        ensures
            final(self).wf(),
            old(self).mode == Mode::Overworld ==> *final(self) == *old(self),
            old(self).mode == Mode::Combat ==> {
                &&& final(self).camera == origin()
                &&& final(self).mode == old(self).mode
                &&& final(self).enemy == old(self).enemy
                &&& final(self).menu == old(self).menu
                &&& final(self).player == old(self).player
                &&& final(self).player_stats == old(self).player_stats
                &&& final(self).overworld_enemies@ == old(self).overworld_enemies@
                &&& final(self).walls@ == old(self).walls@
                &&& overworld_shown(*final(self), false)
            },
    {
        if self.mode == Mode::Combat {
            self.camera = Position { x: 0, y: 0 };
        }
    }

}

} // verus!

verus! {

/// Entering combat twice is entering it once: the second entry spawns no
/// second enemy and no second menu.
pub proof fn lemma_enter_combat_idempotent(a: Game, b: Game, c: Game)
    requires
        a.wf(),
        combat_entered(a, b),
        combat_entered(b, c),
    ensures
        c == b,
        c.mode == Mode::Combat,
{
}

/// Entering combat and then leaving it gives back the player's position and
/// stats and the visibility of the roaming world as they were before, and
/// leaves neither the enemy nor the menu behind.
pub proof fn lemma_combat_round_trip(a: Game, b: Game, c: Game)
    requires
        a.wf(),
        a.mode == Mode::Overworld,
        combat_entered(a, b),
        combat_left(b, c),
    ensures
        c.mode == Mode::Overworld,
        c.player == a.player,
        c.player_stats == a.player_stats,
        c.player_visible == a.player_visible,
        c.overworld_enemies_visible == a.overworld_enemies_visible,
        c.map_visible == a.map_visible,
        c.overworld_enemies@ == a.overworld_enemies@,
        c.walls@ == a.walls@,
        c.enemy is None,
        c.menu is None,
{
}

} // verus!
