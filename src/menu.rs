use vstd::prelude::*;

verus! {

/// What the attack button reads.
#[derive(Clone, Copy, Debug, PartialEq, Eq, Structural)]
pub enum AttackLabel {
    /// "Attack": the button waits for a click.
    Attack,
    /// "Attacked!": the button was just clicked.
    Attacked,
}

/// How the pointer currently relates to a button.
#[derive(Clone, Copy, Debug, PartialEq, Eq, Structural)]
pub enum Interaction {
    Clicked,
    Hovered,
    Idle,
}

/// The menu shown during combat: a label with the enemy's health, an attack
/// button and a run button.
#[derive(Clone, Copy, Debug, PartialEq, Eq)]
pub struct CombatMenu {
    /// The health the label shows; none before the first update.
    pub enemy_health: Option<isize>,
    pub attack_label: AttackLabel,
}

/// The menu as it is built when an encounter starts.
pub open spec fn fresh_menu() -> CombatMenu {
    CombatMenu { enemy_health: None, attack_label: AttackLabel::Attack }
}

/// The label of the attack button after `i`: a click marks it attacked, the
/// pointer leaving restores it, hovering keeps it.
pub open spec fn label_after(label: AttackLabel, i: Interaction) -> AttackLabel {
    match i {
        Interaction::Clicked => AttackLabel::Attacked,
        Interaction::Hovered => label,
        Interaction::Idle => AttackLabel::Attack,
    }
}

impl AttackLabel {
    /// The text the button shows.
    pub fn text(&self) -> (r: &'static str)
        ensures
            *self == AttackLabel::Attack ==> r@ == "Attack"@,
            *self == AttackLabel::Attacked ==> r@ == "Attacked!"@,
    {
        match self {
            AttackLabel::Attack => "Attack",
            AttackLabel::Attacked => "Attacked!",
        }
    }
}

impl CombatMenu {
    /// Builds the menu for a new encounter.
    pub fn build_combat_menu() -> (r: CombatMenu)
        ensures
            r == fresh_menu(),
    {
        CombatMenu { enemy_health: None, attack_label: AttackLabel::Attack }
    }

    /// Shows `health` on the enemy health label.
    pub fn update_enemy_health_text(&mut self, health: isize)
        ensures
            final(self).enemy_health == Some(health),
            final(self).attack_label == old(self).attack_label,
    {
        self.enemy_health = Some(health);
    }

    /// Reacts to a change of the attack button's interaction. Returns whether
    /// the button was clicked, that is whether an attack is to be made.
    pub fn attack_button(&mut self, interaction: Interaction) -> (clicked: bool)
        ensures
            final(self).attack_label == label_after(old(self).attack_label, interaction),
            final(self).enemy_health == old(self).enemy_health,
            clicked == (interaction == Interaction::Clicked),
    {
        match interaction {
            Interaction::Clicked => {
                self.attack_label = AttackLabel::Attacked;
                true
            },
            Interaction::Hovered => false,
            Interaction::Idle => {
                self.attack_label = AttackLabel::Attack;
                false
            },
        }
    }
}

} // verus!
