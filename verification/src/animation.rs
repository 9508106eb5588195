use vstd::prelude::*;

verus! {

/// One step of a spawn animation.
#[derive(Clone, Copy, Debug, PartialEq, Eq, Structural)]
pub enum SpawnStep {
    /// Show frame `index` next.
    Frame { index: usize },
    /// The last frame was shown; start again from the first with `loops`
    /// rounds left.
    Restart { index: usize, loops: u8 },
    /// The animation is over: turn it into an enemy tank.
    SpawnEnemy,
    /// The animation is over: remove it and bring player `id` in.
    SpawnPlayer { id: u8 },
}

/// The next step of a spawn animation showing frame `index`.
pub open spec fn spec_spawn_step(index: usize, first: usize, last: usize, loops: u8, tank_id: u8) -> SpawnStep {
    if index != last {
        SpawnStep::Frame { index: (index + 1) as usize }
    } else if loops > 1 {
        SpawnStep::Restart { index: first, loops: (loops - 1) as u8 }
    } else if tank_id == 0 {
        SpawnStep::SpawnEnemy
    } else {
        SpawnStep::SpawnPlayer { id: tank_id }
    }
}

/// The next frame of a looping shield animation.
pub open spec fn spec_shield_step(cur: usize, first: usize, last: usize) -> usize {
    if cur < last {
        (cur + 1) as usize
    } else {
        first
    }
}

/// Tread animation: when its frame timer fires, a tank shows frame `cur` and
/// moves on; after the last frame it goes back to the start without showing
/// one. Returns the next position and the frame to show.
pub fn move_animation_step(cur: usize, frame_count: usize) -> (r: (usize, Option<usize>))
    ensures
        cur < frame_count ==> r == ((cur + 1) as usize, Some(cur)),
        cur >= frame_count ==> r == (0usize, None::<usize>),
{
    if cur < frame_count {
        (cur + 1, Some(cur))
    } else {
        (0, None)
    }
}

/// Explosion animation: after the last frame the explosion disappears
/// (`None`), otherwise it advances one frame.
pub fn effect_animation_step(index: usize, last: usize) -> (r: Option<usize>)
    requires
        index < usize::MAX,
    ensures
        index == last ==> r is None,
        index != last ==> r == Some((index + 1) as usize),
{
    if index == last {
        None
    } else {
        Some(index + 1)
    }
}

/// Spawn animation (`tank_id` 0 for an enemy, else the player's id): it
/// plays frames `first..=last` `loops` times, then hands over to the tank.
pub fn spawn_animation_step(index: usize, first: usize, last: usize, loops: u8, tank_id: u8) -> (r:
    SpawnStep)
    requires
        index < usize::MAX,
        index == last ==> loops > 0,
    ensures
        r == spec_spawn_step(index, first, last, loops, tank_id),
{
    if index == last {
        let left = loops - 1;
        if left == 0 {
            if tank_id == 0 {
                SpawnStep::SpawnEnemy
            } else {
                SpawnStep::SpawnPlayer { id: tank_id }
            }
        } else {
            SpawnStep::Restart { index: first, loops: left }
        }
    } else {
        SpawnStep::Frame { index: index + 1 }
    }
}

/// Shield animation: frames `first..=last` in a loop.
pub fn shield_frame_step(cur: usize, first: usize, last: usize) -> (r: usize)
    ensures
        r == spec_shield_step(cur, first, last),
{
    if cur < last {
        cur + 1
    } else {
        first
    }
}

/// A spawn animation inside its frame range stays inside it, and each
/// round through the frames uses up one of its loops until the tank comes.
pub proof fn law_spawn_animation_stays_in_range(index: usize, first: usize, last: usize, loops: u8, tank_id: u8)
    requires
        first <= index <= last,
        index == last ==> loops > 0,
    ensures
        match spec_spawn_step(index, first, last, loops, tank_id) {
            SpawnStep::Frame { index: i } => first <= i <= last,
            SpawnStep::Restart { index: i, loops: l } => i == first && l < loops && l > 0,
            SpawnStep::SpawnEnemy => index == last && loops == 1 && tank_id == 0,
            SpawnStep::SpawnPlayer { id } => index == last && loops == 1 && id == tank_id,
        },
{
}

/// A looping shield animation inside its frame range stays inside it.
pub proof fn law_shield_frames_stay_in_range(cur: usize, first: usize, last: usize)
    requires
        first <= cur <= last,
    ensures
        first <= spec_shield_step(cur, first, last) <= last,
{
}

} // verus!
