use vstd::prelude::*;

verus! {

/// Damage that gets through the defense: the part of the incoming amount that
/// exceeds the defense, and never less than zero (a weak hit does not heal).
pub open spec fn effective_damage(amount: int, defense: int) -> int {
    if amount > defense {
        amount - defense
    } else {
        0
    }
}

/// Health left after a hit of `amount` against `defense`, floored at zero.
pub open spec fn health_after_hit(health: int, amount: int, defense: int) -> int {
    let left = health - effective_damage(amount, defense);
    if left > 0 {
        left
    } else {
        0
    }
}

/// Health and fighting values of a combatant.
#[derive(Clone, Copy, Debug, PartialEq, Eq)]
pub struct CombatStats {
    pub health: isize,
    pub max_health: isize,
    pub attack: isize,
    pub defense: isize,
}

impl CombatStats {
    /// Health within `[0, max_health]`, a positive maximum, and no negative
    /// attack or defense.
    pub open spec fn wf(&self) -> bool {
        &&& 0 <= self.health <= self.max_health
        &&& self.max_health > 0
        &&& self.attack >= 0
        &&& self.defense >= 0
    }

    /// Stats at full health.
    pub fn new(max_health: isize, attack: isize, defense: isize) -> (r: CombatStats)
        requires
            max_health > 0,
            attack >= 0,
            defense >= 0,
        ensures
            r.wf(),
            r.health == max_health,
            r.max_health == max_health,
            r.attack == attack,
            r.defense == defense,
    {
        CombatStats { health: max_health, max_health, attack, defense }
    }

    /// Applies one hit of `damage_amount`. The defense is subtracted from the
    /// amount (never below zero) and the result from the health (never below
    /// zero). Returns whether the combatant is now out of health.
    pub fn take_hit(&mut self, damage_amount: isize) -> (defeated: bool)
        requires
            old(self).wf(),
        ensures
            final(self).wf(),
            final(self).health == health_after_hit(
                old(self).health as int,
                damage_amount as int,
                old(self).defense as int,
            ),
            final(self).max_health == old(self).max_health,
            final(self).attack == old(self).attack,
            final(self).defense == old(self).defense,
            defeated == (final(self).health == 0),
    {
        let through: isize = if damage_amount > self.defense {
            damage_amount - self.defense
        } else {
            0
        };
        let left: isize = self.health - through;
        self.health = if left > 0 {
            left
        } else {
            0
        };
        self.health == 0
    }
}

} // verus!

verus! {

/// A hit never raises health and never takes it below zero, so health stays
/// within `[0, max_health]`; a hit whose effective damage reaches the health
/// leaves exactly zero.
pub proof fn lemma_hit_stays_in_range(health: int, max_health: int, amount: int, defense: int)
    requires
        0 <= health <= max_health,
        defense >= 0,
    ensures
        0 <= health_after_hit(health, amount, defense) <= health <= max_health,
        effective_damage(amount, defense) >= health ==> health_after_hit(health, amount, defense)
            == 0,
{
}

} // verus!
