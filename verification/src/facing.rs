use vstd::prelude::*;
use crate::rng::random_below;

verus! {

/// The four directions a tank can face.
#[derive(Clone, Copy, Debug, PartialEq, Eq, Structural)]
pub enum Facing {
    Up,
    Down,
    Left,
    Right,
}

/// Index of a facing into the table of tank rotations (up, down, left, right).
pub open spec fn spec_rotation_index(f: Facing) -> nat {
    match f {
        Facing::Up => 0,
        Facing::Down => 1,
        Facing::Left => 2,
        Facing::Right => 3,
    }
}

/// Unit step of a facing on the screen grid, y pointing up.
pub open spec fn spec_unit(f: Facing) -> (int, int) {
    match f {
        Facing::Up => (0, 1),
        Facing::Down => (0, -1),
        Facing::Left => (-1, 0),
        Facing::Right => (1, 0),
    }
}

/// Facing picked by a number drawn from `0..4` (anything larger faces right).
pub open spec fn spec_facing_from_index(r: u64) -> Facing {
    if r == 0 {
        Facing::Up
    } else if r == 1 {
        Facing::Down
    } else if r == 2 {
        Facing::Left
    } else {
        Facing::Right
    }
}

/// Direction asked for by the four move keys: up wins over down, down over
/// left, left over right; no key, no direction.
pub open spec fn spec_intent(up: bool, down: bool, left: bool, right: bool) -> Option<Facing> {
    if up {
        Some(Facing::Up)
    } else if down {
        Some(Facing::Down)
    } else if left {
        Some(Facing::Left)
    } else if right {
        Some(Facing::Right)
    } else {
        None
    }
}

/// Index into the rotation table.
pub fn rotation_index(f: Facing) -> (r: usize)
    ensures
        r == spec_rotation_index(f),
        r < 4,
{
    match f {
        Facing::Up => 0,
        Facing::Down => 1,
        Facing::Left => 2,
        Facing::Right => 3,
    }
}

/// Unit step of a facing, y pointing up.
pub fn unit(f: Facing) -> (r: (i32, i32))
    ensures
        (r.0 as int, r.1 as int) == spec_unit(f),
{
    match f {
        Facing::Up => (0, 1),
        Facing::Down => (0, -1),
        Facing::Left => (-1, 0),
        Facing::Right => (1, 0),
    }
}

/// Facing picked by a number drawn from `0..4`.
pub fn facing_from_index(r: u64) -> (f: Facing)
    ensures
        f == spec_facing_from_index(r),
{
    if r == 0 {
        Facing::Up
    } else if r == 1 {
        Facing::Down
    } else if r == 2 {
        Facing::Left
    } else {
        Facing::Right
    }
}

/// A facing drawn at random, each of the four with the generator's
/// chance.
pub fn random_facing() -> (f: Facing)
    ensures
        exists|i: u64| i < 4 && f == spec_facing_from_index(i),
{
    let r = random_below(4);
    facing_from_index(r)
}

/// An enemy's turn: when its turn timer runs out and the chance roll
/// succeeds, it faces a direction drawn at random; otherwise it keeps its
/// facing (`None`).
pub fn enemy_turn(timer_finished: bool, roll_succeeded: bool) -> (r: Option<Facing>)
    ensures
        !(timer_finished && roll_succeeded) ==> r is None,
        timer_finished && roll_succeeded ==> r is Some,
{
    if timer_finished && roll_succeeded {
        Some(random_facing())
    } else {
        None
    }
}

/// Direction asked for by the move keys held down.
pub fn movement_intent(up: bool, down: bool, left: bool, right: bool) -> (r: Option<Facing>)
    ensures
        r == spec_intent(up, down, left, right),
{
    if up {
        Some(Facing::Up)
    } else if down {
        Some(Facing::Down)
    } else if left {
        Some(Facing::Left)
    } else if right {
        Some(Facing::Right)
    } else {
        None
    }
}

/// Offset from a tank's centre to where its bullet number `index` appears:
/// five pixels ahead, the second bullet six pixels behind the first.
pub fn muzzle_offset(f: Facing, index: u8) -> (r: (i32, i32))
    ensures
        r.0 == spec_unit(f).0 * (if index > 0 { -1int } else { 5int }),
        r.1 == spec_unit(f).1 * (if index > 0 { -1int } else { 5int }),
{
    let ahead: i32 = if index > 0 { 5 - 6 } else { 5 };
    let (dx, dy) = unit(f);
    (dx * ahead, dy * ahead)
}

/// Velocity of a bullet before any speed ratio: 100 pixels per second ahead.
pub fn bullet_velocity(f: Facing) -> (r: (i32, i32))
    ensures
        r.0 == spec_unit(f).0 * 100,
        r.1 == spec_unit(f).1 * 100,
{
    let (dx, dy) = unit(f);
    (dx * 100, dy * 100)
}

} // verus!
