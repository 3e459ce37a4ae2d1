use vstd::prelude::*;

verus! {

/// The stats that the level's enemy spawn points carry.
#[derive(Clone, Debug, PartialEq, Eq)]
pub struct EnemySpawnEntity {
    pub health: isize,
    pub max_health: isize,
    pub attack: isize,
    pub defense: isize,
    pub name: String,
}

impl EnemySpawnEntity {
    /// The stats given to every enemy spawn point of the level, whatever name
    /// the level gives it.
    pub fn standard() -> (r: EnemySpawnEntity)
        ensures
            r.health == 3,
            r.max_health == 3,
            r.attack == 3,
            r.defense == 3,
            r.name@ == "Name"@,
    {
        EnemySpawnEntity {
            health: 3,
            max_health: 3,
            attack: 3,
            defense: 3,
            name: String::from_str("Name"),
        }
    }
}

} // verus!
