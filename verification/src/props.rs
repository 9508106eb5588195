use vstd::prelude::*;
use crate::enemy::{EnemyInfo, EnemyNumberState};
use crate::player::{spec_upgraded_level, PlayerInfo};
use crate::rng::random_below;

verus! {

/// Kinds of power-up.
#[derive(Clone, Copy, Debug, PartialEq, Eq, Structural)]
pub enum PropType {
    /// An extra tank.
    Chance,
    /// Freezes the other side for a while.
    Idle,
    /// Walls the camp in stone (or, for enemies, tears its walls down).
    Shovel,
    /// Destroys every tank of the other side.
    Boom,
    /// One weapon level up.
    Star,
    /// A temporary shield.
    Bulletproof,
    /// Weapon level straight to 3.
    Gun,
    /// A shield that lets the tank cross water and absorbs one bullet.
    Waterproof,
}

/// What a power-up picked up by a player does.
#[derive(Clone, Copy, Debug, PartialEq, Eq, Structural)]
pub enum PlayerPickup {
    ExtraLife,
    FreezeEnemies,
    FortifyCamp,
    DestroyEnemies,
    Upgraded,
    Shield,
    WaterShield,
}

/// What a power-up picked up by an enemy does.
#[derive(Clone, Copy, Debug, PartialEq, Eq, Structural)]
pub enum EnemyPickup {
    /// Every player tank on the field is destroyed.
    DestroyPlayers,
    /// The camp's walls are torn down for good.
    BreakCampWalls,
    /// The players are frozen for a while.
    FreezePlayers,
    Upgraded,
    /// A shield and a water shield.
    Shield,
    /// The stage sends one enemy more.
    Reinforcement,
    WaterShield,
}

/// Power-up kind of a number drawn from `0..8`, in the order of the
/// power-up sprite sheet (anything larger is a bomb).
pub open spec fn spec_prop_from_index(i: u64) -> PropType {
    if i == 0 {
        PropType::Chance
    } else if i == 1 {
        PropType::Idle
    } else if i == 2 {
        PropType::Shovel
    } else if i == 3 {
        PropType::Boom
    } else if i == 4 {
        PropType::Star
    } else if i == 5 {
        PropType::Bulletproof
    } else if i == 6 {
        PropType::Gun
    } else if i == 7 {
        PropType::Waterproof
    } else {
        PropType::Boom
    }
}

/// Position of a power-up kind in the sprite sheet.
pub open spec fn spec_prop_index(p: PropType) -> nat {
    match p {
        PropType::Chance => 0,
        PropType::Idle => 1,
        PropType::Shovel => 2,
        PropType::Boom => 3,
        PropType::Star => 4,
        PropType::Bulletproof => 5,
        PropType::Gun => 6,
        PropType::Waterproof => 7,
    }
}

/// Power-up kind of a drawn number.
pub fn prop_from_index(i: u64) -> (r: PropType)
    ensures
        r == spec_prop_from_index(i),
{
    if i == 0 {
        PropType::Chance
    } else if i == 1 {
        PropType::Idle
    } else if i == 2 {
        PropType::Shovel
    } else if i == 3 {
        PropType::Boom
    } else if i == 4 {
        PropType::Star
    } else if i == 5 {
        PropType::Bulletproof
    } else if i == 6 {
        PropType::Gun
    } else if i == 7 {
        PropType::Waterproof
    } else {
        PropType::Boom
    }
}

/// Position of a power-up kind in the sprite sheet.
pub fn prop_index(p: PropType) -> (r: usize)
    ensures
        r == spec_prop_index(p),
        r < 8,
{
    match p {
        PropType::Chance => 0,
        PropType::Idle => 1,
        PropType::Shovel => 2,
        PropType::Boom => 3,
        PropType::Star => 4,
        PropType::Bulletproof => 5,
        PropType::Gun => 6,
        PropType::Waterproof => 7,
    }
}

impl PropType {
    /// A power-up kind drawn at random, each of the eight with the
    /// generator's chance.
    pub fn random() -> (r: Self)
        ensures
            exists|i: u64| i < 8 && r == spec_prop_from_index(i),
    {
        let i = random_below(8);
        prop_from_index(i)
    }
}

/// Orders the two colliders of a collision: the power-up first, the tank
/// second; the flag says whether exactly one of them is a power-up.
pub fn distinguish_prop_entities(e1: u64, e2: u64, e1_is_prop: bool, e2_is_prop: bool) -> (r: (
    u64,
    u64,
    bool,
))
    ensures
        r == (if e1_is_prop && !e2_is_prop {
            (e1, e2, true)
        } else if !e1_is_prop && e2_is_prop {
            (e2, e1, true)
        } else {
            (e1, e2, false)
        }),
{
    if e1_is_prop && !e2_is_prop {
        (e1, e2, true)
    } else if !e1_is_prop && e2_is_prop {
        (e2, e1, true)
    } else {
        (e1, e2, false)
    }
}

/// Whether picking up `p` plays the extra-life jingle (else the power-up
/// sound).
pub fn plays_extra_life_sound(p: PropType) -> (r: bool)
    ensures
        r == (p == PropType::Chance),
{
    match p {
        PropType::Chance => true,
        _ => false,
    }
}

/// A player picks up a power-up: an extra tank, or a level up (star: one,
/// gun: to 3); the other kinds act on the field, as the result says.
pub fn player_pickup(p: PropType, player: &mut PlayerInfo) -> (r: PlayerPickup)
    requires
        p == PropType::Chance ==> old(player).chance < u8::MAX,
    ensures
        match p {
            PropType::Chance => r == PlayerPickup::ExtraLife && *final(player) == (PlayerInfo {
                chance: (old(player).chance + 1) as u8,
                ..*old(player)
            }),
            PropType::Idle => r == PlayerPickup::FreezeEnemies && *final(player) == *old(player),
            PropType::Shovel => r == PlayerPickup::FortifyCamp && *final(player) == *old(player),
            PropType::Boom => r == PlayerPickup::DestroyEnemies && *final(player) == *old(player),
            PropType::Star => r == PlayerPickup::Upgraded && *final(player) == (PlayerInfo {
                level: spec_upgraded_level(old(player).level, false),
                ..*old(player)
            }),
            PropType::Gun => r == PlayerPickup::Upgraded && *final(player) == (PlayerInfo {
                level: spec_upgraded_level(old(player).level, true),
                ..*old(player)
            }),
            PropType::Bulletproof => r == PlayerPickup::Shield && *final(player) == *old(player),
            PropType::Waterproof => r == PlayerPickup::WaterShield && *final(player) == *old(
                player,
            ),
        },
{
    match p {
        PropType::Chance => {
            player.gain_chance();
            PlayerPickup::ExtraLife
        },
        PropType::Idle => PlayerPickup::FreezeEnemies,
        PropType::Shovel => PlayerPickup::FortifyCamp,
        PropType::Boom => PlayerPickup::DestroyEnemies,
        PropType::Star => {
            player.upgrade(false);
            PlayerPickup::Upgraded
        },
        PropType::Gun => {
            player.upgrade(true);
            PlayerPickup::Upgraded
        },
        PropType::Bulletproof => PlayerPickup::Shield,
        PropType::Waterproof => PlayerPickup::WaterShield,
    }
}

/// An enemy picks up a power-up: a level up (star: one, gun: to 3), or one
/// enemy more for the stage; the other kinds act on the field.
pub fn enemy_pickup(p: PropType, enemy: &mut EnemyInfo, state: &mut EnemyNumberState) -> (r:
    EnemyPickup)
    requires
        p == PropType::Chance ==> old(state).max_enemy_count < usize::MAX,
    ensures
        match p {
            PropType::Boom => r == EnemyPickup::DestroyPlayers && *final(enemy) == *old(enemy)
                && *final(state) == *old(state),
            PropType::Shovel => r == EnemyPickup::BreakCampWalls && *final(enemy) == *old(enemy)
                && *final(state) == *old(state),
            PropType::Idle => r == EnemyPickup::FreezePlayers && *final(enemy) == *old(enemy)
                && *final(state) == *old(state),
            PropType::Star => r == EnemyPickup::Upgraded && *final(enemy) == (EnemyInfo {
                level: spec_upgraded_level(old(enemy).level, false),
                ..*old(enemy)
            }) && *final(state) == *old(state),
            PropType::Gun => r == EnemyPickup::Upgraded && *final(enemy) == (EnemyInfo {
                level: spec_upgraded_level(old(enemy).level, true),
                ..*old(enemy)
            }) && *final(state) == *old(state),
            PropType::Bulletproof => r == EnemyPickup::Shield && *final(enemy) == *old(enemy)
                && *final(state) == *old(state),
            PropType::Chance => r == EnemyPickup::Reinforcement && *final(enemy) == *old(enemy)
                && *final(state) == (EnemyNumberState {
                max_enemy_count: (old(state).max_enemy_count + 1) as usize,
                ..*old(state)
            }),
            PropType::Waterproof => r == EnemyPickup::WaterShield && *final(enemy) == *old(enemy)
                && *final(state) == *old(state),
        },
{
    match p {
        PropType::Boom => EnemyPickup::DestroyPlayers,
        PropType::Shovel => EnemyPickup::BreakCampWalls,
        PropType::Idle => EnemyPickup::FreezePlayers,
        PropType::Star => {
            enemy.upgrade(false);
            EnemyPickup::Upgraded
        },
        PropType::Gun => {
            enemy.upgrade(true);
            EnemyPickup::Upgraded
        },
        PropType::Bulletproof => EnemyPickup::Shield,
        PropType::Chance => {
            state.add_reinforcement();
            EnemyPickup::Reinforcement
        },
        PropType::Waterproof => EnemyPickup::WaterShield,
    }
}

/// Index of a random grid cell among `len` playable ones, or `None` when
/// there are none (the power-up then goes to the first cell).
pub fn random_cell_index(len: usize) -> (r: Option<usize>)
    ensures
        len == 0 ==> r is None,
        len > 0 ==> (r matches Some(i) && i < len),
{
    if len == 0 {
        None
    } else {
        let i = random_below(len as u64);
        Some(i as usize)
    }
}

} // verus!
