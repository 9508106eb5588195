use vstd::prelude::*;

verus! {

/// Side a bullet belongs to.
pub const HORDE_PLAYER: u8 = 1;
/// Side of the enemy tanks.
pub const HORDE_ENEMY: u8 = 2;

/// A bullet in flight.
#[derive(Clone, Copy, Debug, PartialEq, Eq, Structural)]
pub struct BulletInfo {
    /// Id of the tank that fired it.
    pub entity: u64,
    /// Weapon level of that tank when it fired (level 3 breaks stone).
    pub level: u8,
    /// Side: 1 for players, 2 for enemies.
    pub horde: u8,
}

/// A bullet fired by player tank `entity` at weapon level `level`.
pub fn player_bullet(entity: u64, level: u8) -> (r: BulletInfo)
    ensures
        r == (BulletInfo { entity, level, horde: HORDE_PLAYER }),
{
    BulletInfo { entity, level, horde: HORDE_PLAYER }
}

/// A bullet fired by enemy tank `entity` at weapon level `level`.
pub fn enemy_bullet(entity: u64, level: u8) -> (r: BulletInfo)
    ensures
        r == (BulletInfo { entity, level, horde: HORDE_ENEMY }),
{
    BulletInfo { entity, level, horde: HORDE_ENEMY }
}

/// Bullets in `s` fired by the player tank `shooter`.
pub open spec fn spec_player_bullets_of(s: Seq<BulletInfo>, shooter: u64) -> nat
    decreases s.len(),
{
    if s.len() == 0 {
        0
    } else {
        spec_player_bullets_of(s.drop_last(), shooter) + (if s.last().entity == shooter
            && s.last().horde == HORDE_PLAYER {
            1nat
        } else {
            0nat
        })
    }
}

/// Player bullets of `shooter` on the screen, counted modulo 256 as a byte.
pub fn count_active_bullets(bullets: &Vec<BulletInfo>, shooter: u64) -> (r: u8)
    ensures
        r == spec_player_bullets_of(bullets@, shooter) % 256,
{
    let mut n: u8 = 0;
    let mut i: usize = 0;
    while i < bullets.len()
        invariant
            i <= bullets@.len(),
            n == spec_player_bullets_of(bullets@.take(i as int), shooter) % 256,
        decreases bullets@.len() - i,
    {
        proof {
            assert(bullets@.take(i + 1).drop_last() =~= bullets@.take(i as int));
        }
        let b = bullets[i];
        if b.entity == shooter && b.horde == HORDE_PLAYER {
            n = if n == 255 { 0 } else { n + 1 };
        }
        i = i + 1;
    }
    proof {
        assert(bullets@.take(bullets@.len() as int) =~= bullets@);
    }
    n
}

/// Bullets a player tank may have on screen: two from level 2 up, else one.
pub fn max_bullets(level: u8) -> (r: u8)
    ensures
        r == (if level >= 2 { 2u8 } else { 1u8 }),
{
    if level >= 2 {
        2
    } else {
        1
    }
}

/// Bullets a shot fires: the allowance left, never below zero.
pub fn bullets_to_fire(level: u8, active: u8) -> (r: u8)
    ensures
        r == (if active >= (if level >= 2 { 2u8 } else { 1u8 }) {
            0
        } else {
            (if level >= 2 { 2u8 } else { 1u8 }) - active
        }),
        r + active <= 2 || r == 0,
{
    let max = max_bullets(level);
    if active >= max {
        0
    } else {
        max - active
    }
}

/// A player tank never has more bullets on screen than its level allows:
/// a shot fires at most the allowance left.
pub proof fn law_shots_within_allowance(level: u8, active: u8)
    ensures
        ({
            let max: u8 = if level >= 2 { 2u8 } else { 1u8 };
            let fired: int = if active >= max { 0 } else { max - active };
            &&& active <= max ==> active + fired == max
            &&& active >= max ==> fired == 0
        }),
{
}

} // verus!
