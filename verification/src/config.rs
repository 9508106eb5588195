use vstd::prelude::*;

verus! {

/// Enemy tanks that a stage sends in all.
pub const MAX_ENEMY_TANK_COUNT: usize = 20;

/// Enemy tanks that may be on the field (or spawning) at once.
pub const MAX_ENEMY_TANK_COUNT_PER_STAGE: usize = 6;

/// Lives (chances) a player starts a game with.
pub const PLAYER_CHANCE: u8 = 2;

/// Enemy tanks sent before later ones wait for the spawn interval.
pub const ENEMY_FREE_SPAWNS: usize = 3;

/// Highest weapon level of a tank.
pub const MAX_TANK_LEVEL: u8 = 3;

} // verus!
