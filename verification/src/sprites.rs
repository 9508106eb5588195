use vstd::prelude::*;

verus! {

/// Sprite set of a player tank: (player 1 or 2, level 0 to 3). Unknown
/// players use the first player's level-0 set; unknown levels use level 0.
pub fn player_sprite_set(id: u8, level: u8) -> (r: (u8, u8))
    ensures
        r == (if id == 1 || id == 2 {
            (id, if 1 <= level <= 3 { level } else { 0u8 })
        } else {
            (1u8, 0u8)
        }),
{
    if id == 1 || id == 2 {
        if 1 <= level && level <= 3 {
            (id, level)
        } else {
            (id, 0)
        }
    } else {
        (1, 0)
    }
}

/// Sprite set of an enemy tank: its kind (1 to 3; unknown kinds look light)
/// and whether it carries a power-up (the flashing look).
pub fn enemy_sprite_set(tank_type: u8, carrying_prop: bool) -> (r: (u8, bool))
    ensures
        r == (if tank_type == 2 || tank_type == 3 { tank_type } else { 1u8 }, carrying_prop),
{
    if tank_type == 2 || tank_type == 3 {
        (tank_type, carrying_prop)
    } else {
        (1, carrying_prop)
    }
}

/// Enemy kind pictured on a row of the stage tally.
pub fn tally_row_tank_type(row: usize) -> (r: u8)
    ensures
        r == (if row == 1 { 2u8 } else if row == 2 { 3u8 } else { 1u8 }),
{
    if row == 1 {
        2
    } else if row == 2 {
        3
    } else {
        1
    }
}

} // verus!
