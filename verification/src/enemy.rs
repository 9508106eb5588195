use vstd::prelude::*;
use crate::config::{ENEMY_FREE_SPAWNS, MAX_ENEMY_TANK_COUNT, MAX_ENEMY_TANK_COUNT_PER_STAGE, MAX_TANK_LEVEL};
use crate::player::spec_upgraded_level;
use crate::rng::random_below;

verus! {

/// Enemy bookkeeping of a stage.
#[derive(Clone, Copy, Debug, PartialEq, Eq, Structural)]
pub struct EnemyNumberState {
    /// Enemy tanks sent so far in this stage.
    pub spawned_enemy_count: usize,
    /// Enemy tanks this stage sends in all.
    pub max_enemy_count: usize,
    /// Enemy tanks on the field or spawning.
    pub current_enemy_count: usize,
}

/// Stats of one enemy tank.
#[derive(Clone, Copy, Debug, PartialEq, Eq, Structural)]
pub struct EnemyInfo {
    /// Weapon level (0 to 3).
    pub level: u8,
    /// Hits it can still take.
    pub life: u8,
    /// Points for destroying it.
    pub score: usize,
    /// Whether destroying (or hitting) it drops a power-up.
    pub carrying_prop: bool,
}

/// Movement class of an enemy kind; each class has its own speed.
#[derive(Clone, Copy, Debug, PartialEq, Eq, Structural)]
pub enum SpeedClass {
    Light,
    Fast,
    Heavy,
}

/// The state a stage starts from.
pub open spec fn spec_fresh_state() -> EnemyNumberState {
    EnemyNumberState {
        spawned_enemy_count: 0,
        max_enemy_count: MAX_ENEMY_TANK_COUNT,
        current_enemy_count: 0,
    }
}

/// Life and score of an enemy kind: heavy (3) takes three hits and is worth
/// 500, fast (2) is worth 200, any other kind 100, both with one life.
pub open spec fn spec_life_and_score(tank_type: u8) -> (u8, usize) {
    if tank_type == 3 {
        (3, 500)
    } else if tank_type == 2 {
        (1, 200)
    } else {
        (1, 100)
    }
}

/// Speed class of an enemy kind.
pub open spec fn spec_speed_class(tank_type: u8) -> SpeedClass {
    if tank_type == 3 {
        SpeedClass::Heavy
    } else if tank_type == 2 {
        SpeedClass::Fast
    } else {
        SpeedClass::Light
    }
}

impl EnemyNumberState {
    /// The state of a stage before any enemy is sent.
    pub fn new() -> (r: Self)
        ensures
            r == spec_fresh_state(),
    {
        EnemyNumberState {
            spawned_enemy_count: 0,
            max_enemy_count: MAX_ENEMY_TANK_COUNT,
            current_enemy_count: 0,
        }
    }

    /// Resets the counts for a new stage.
    pub fn reset(&mut self)
        ensures
            *final(self) == spec_fresh_state(),
    {
        self.spawned_enemy_count = 0;
        self.current_enemy_count = 0;
        self.max_enemy_count = MAX_ENEMY_TANK_COUNT;
    }

    /// The counts agree: no more enemies on the field than were sent, no
    /// more sent than the stage has, and no more on the field than allowed.
    pub open spec fn wf(&self) -> bool {
        &&& self.current_enemy_count <= self.spawned_enemy_count
        &&& self.spawned_enemy_count <= self.max_enemy_count
        &&& self.current_enemy_count <= MAX_ENEMY_TANK_COUNT_PER_STAGE
    }

    /// Whether the stage is won: every enemy was sent and none is left.
    pub open spec fn spec_stage_cleared(&self) -> bool {
        self.spawned_enemy_count >= self.max_enemy_count && self.current_enemy_count == 0
    }

    /// Whether the stage is won.
    pub fn stage_cleared(&self) -> (r: bool)
        ensures
            r == self.spec_stage_cleared(),
    {
        self.spawned_enemy_count >= self.max_enemy_count && self.current_enemy_count == 0
    }

    /// Whether a new enemy may appear now: fewer than the field limit are
    /// present and the stage has enemies left to send.
    pub open spec fn spec_can_spawn(&self) -> bool {
        self.current_enemy_count < MAX_ENEMY_TANK_COUNT_PER_STAGE && self.spawned_enemy_count
            < self.max_enemy_count
    }

    /// Whether the next enemy waits for the spawn interval (all but the
    /// first few do).
    pub fn spawn_waits_for_timer(&self) -> (r: bool)
        ensures
            r == (self.spawned_enemy_count >= ENEMY_FREE_SPAWNS),
    {
        self.spawned_enemy_count >= ENEMY_FREE_SPAWNS
    }

    /// Enemies the stage has still to send.
    pub fn remaining_to_spawn(&self) -> (r: usize)
        requires
            self.spawned_enemy_count <= self.max_enemy_count,
        ensures
            r == self.max_enemy_count - self.spawned_enemy_count,
    {
        self.max_enemy_count - self.spawned_enemy_count
    }

    /// One enemy left the field (destroyed).
    pub fn enemy_destroyed(&mut self)
        requires
            old(self).current_enemy_count > 0,
        ensures
            final(self).current_enemy_count == old(self).current_enemy_count - 1,
            final(self).spawned_enemy_count == old(self).spawned_enemy_count,
            final(self).max_enemy_count == old(self).max_enemy_count,
    {
        self.current_enemy_count = self.current_enemy_count - 1;
    }

    /// A bomb destroyed `n` enemies at once.
    pub fn enemies_destroyed(&mut self, n: usize)
        requires
            old(self).current_enemy_count >= n,
        ensures
            final(self).current_enemy_count == old(self).current_enemy_count - n,
            final(self).spawned_enemy_count == old(self).spawned_enemy_count,
            final(self).max_enemy_count == old(self).max_enemy_count,
    {
        self.current_enemy_count = self.current_enemy_count - n;
    }

    /// The stage sends one enemy more (an enemy picked up an extra life).
    pub fn add_reinforcement(&mut self)
        requires
            old(self).max_enemy_count < usize::MAX,
        ensures
            final(self).max_enemy_count == old(self).max_enemy_count + 1,
            final(self).spawned_enemy_count == old(self).spawned_enemy_count,
            final(self).current_enemy_count == old(self).current_enemy_count,
    {
        self.max_enemy_count = self.max_enemy_count + 1;
    }

    /// Picks the spawn point of the next enemy and counts it as sent.
    ///
    /// `timer_ready` says whether the spawn interval has just run out; it
    /// matters only once the first few enemies are out. `spawn_tiles` are the
    /// map tiles of the spawn points in order, `occupied_tiles` those under a
    /// tank. The first free spawn point is chosen when the stage may send an
    /// enemy; at most one enemy is sent per call.
    pub fn choose_spawn_point(
        &mut self,
        timer_ready: bool,
        spawn_tiles: &Vec<(i32, i32)>,
        occupied_tiles: &Vec<(i32, i32)>,
    ) -> (r: Option<usize>)
        ensures
            ({
                let s = *old(self);
                let go = (s.spawned_enemy_count < ENEMY_FREE_SPAWNS || timer_ready)
                    && s.spec_can_spawn();
                match r {
                    Some(i) => {
                        &&& go
                        &&& i < spawn_tiles@.len()
                        &&& !occupied_tiles@.contains(spawn_tiles@[i as int])
                        &&& forall|j: int|
                            0 <= j < i ==> occupied_tiles@.contains(#[trigger] spawn_tiles@[j])
                        &&& final(self).spawned_enemy_count == s.spawned_enemy_count + 1
                        &&& final(self).current_enemy_count == s.current_enemy_count + 1
                        &&& final(self).max_enemy_count == s.max_enemy_count
                    },
                    None => {
                        &&& *final(self) == s
                        &&& ((s.spawned_enemy_count < ENEMY_FREE_SPAWNS || timer_ready)
                            && s.current_enemy_count < 6 && s.spawned_enemy_count
                            < s.max_enemy_count) ==> forall|j: int|
                            0 <= j < spawn_tiles@.len() ==> occupied_tiles@.contains(
                                #[trigger] spawn_tiles@[j],
                            )
                        &&& go ==> forall|j: int|
                            0 <= j < spawn_tiles@.len() ==> occupied_tiles@.contains(
                                #[trigger] spawn_tiles@[j],
                            )
                    },
                }
            }),
    {
        if self.spawned_enemy_count >= ENEMY_FREE_SPAWNS && !timer_ready {
            return None;
        }
        if !(self.current_enemy_count < MAX_ENEMY_TANK_COUNT_PER_STAGE
            && self.spawned_enemy_count < self.max_enemy_count) {
            return None;
        }
        let mut i: usize = 0;
        while i < spawn_tiles.len()
            invariant
                i <= spawn_tiles@.len(),
                *self == *old(self),
                self.spec_can_spawn(),
                self.spawned_enemy_count < ENEMY_FREE_SPAWNS || timer_ready,
                forall|j: int| 0 <= j < i ==> occupied_tiles@.contains(#[trigger] spawn_tiles@[j]),
            decreases spawn_tiles@.len() - i,
        {
            if !contains_tile(occupied_tiles, spawn_tiles[i]) {
                self.current_enemy_count = self.current_enemy_count + 1;
                self.spawned_enemy_count = self.spawned_enemy_count + 1;
                return Some(i);
            }
            i = i + 1;
        }
        None
    }
}

/// Whether `tiles` holds `t`.
pub fn contains_tile(tiles: &Vec<(i32, i32)>, t: (i32, i32)) -> (r: bool)
    ensures
        r == tiles@.contains(t),
{
    let mut i: usize = 0;
    while i < tiles.len()
        invariant
            i <= tiles@.len(),
            forall|j: int| 0 <= j < i ==> tiles@[j] != t,
        decreases tiles@.len() - i,
    {
        if tiles[i].0 == t.0 && tiles[i].1 == t.1 {
            assert(tiles@[i as int] == t);
            return true;
        }
        i = i + 1;
    }
    false
}

/// Life and score of an enemy kind.
pub fn life_and_score(tank_type: u8) -> (r: (u8, usize))
    ensures
        r == spec_life_and_score(tank_type),
{
    if tank_type == 3 {
        (3, 500)
    } else if tank_type == 2 {
        (1, 200)
    } else {
        (1, 100)
    }
}

/// Speed class of an enemy kind.
pub fn speed_class(tank_type: u8) -> (r: SpeedClass)
    ensures
        r == spec_speed_class(tank_type),
{
    if tank_type == 3 {
        SpeedClass::Heavy
    } else if tank_type == 2 {
        SpeedClass::Fast
    } else {
        SpeedClass::Light
    }
}

/// Enemy kind picked by a number drawn from `0..3`: kinds are numbered
/// from 1.
pub fn tank_type_from_draw(draw: u64) -> (r: u8)
    requires
        draw < 3,
    ensures
        r == draw + 1,
{
    (draw + 1) as u8
}

/// A kind of enemy tank drawn at random: 1, 2 or 3.
pub fn random_tank_type() -> (r: u8)
    ensures
        1 <= r <= 3,
{
    let d = random_below(3);
    tank_type_from_draw(d)
}

impl EnemyInfo {
    /// Stats of a freshly sent enemy of kind `tank_type`.
    pub fn for_type(tank_type: u8, carrying_prop: bool) -> (r: Self)
        ensures
            r.level == 0,
            (r.life, r.score) == spec_life_and_score(tank_type),
            r.carrying_prop == carrying_prop,
    {
        let (life, score) = life_and_score(tank_type);
        EnemyInfo { level: 0, life, score, carrying_prop }
    }

    /// A star raises the weapon level by one up to 3; a gun raises it to 3.
    pub fn upgrade(&mut self, gun: bool)
        ensures
            final(self).level == spec_upgraded_level(old(self).level, gun),
            gun ==> final(self).level == 3,
            !gun && old(self).level < 3 ==> final(self).level == old(self).level + 1,
            !gun && old(self).level >= 3 ==> final(self).level == old(self).level,
            final(self).life == old(self).life,
            final(self).score == old(self).score,
            final(self).carrying_prop == old(self).carrying_prop,
    {
        if gun {
            self.level = MAX_TANK_LEVEL;
        } else if self.level < MAX_TANK_LEVEL {
            self.level = self.level + 1;
        }
    }
}

/// A fresh stage's counts agree.
pub proof fn law_fresh_counts_agree()
    ensures
        spec_fresh_state().wf(),
{
}

/// Sending an enemy keeps the counts in agreement: the field limit and the
/// stage total are never exceeded.
pub proof fn law_spawn_keeps_counts_agreeing(s: EnemyNumberState)
    requires
        s.wf(),
        s.spec_can_spawn(),
    ensures
        (EnemyNumberState {
            spawned_enemy_count: (s.spawned_enemy_count + 1) as usize,
            current_enemy_count: (s.current_enemy_count + 1) as usize,
            ..s
        }).wf(),
{
}

/// Destroying enemies on the field, or granting the stage one more, keeps
/// the counts in agreement.
pub proof fn law_losses_and_reinforcements_keep_counts_agreeing(s: EnemyNumberState, n: usize)
    requires
        s.wf(),
        n <= s.current_enemy_count,
        s.max_enemy_count < usize::MAX,
    ensures
        (EnemyNumberState { current_enemy_count: (s.current_enemy_count - n) as usize, ..s }).wf(),
        (EnemyNumberState { max_enemy_count: (s.max_enemy_count + 1) as usize, ..s }).wf(),
{
}

/// Once every enemy is out and none is on the field, nothing more is sent.
pub proof fn law_cleared_stage_sends_nothing(s: EnemyNumberState)
    requires
        s.wf(),
    ensures
        s.spec_stage_cleared() ==> !s.spec_can_spawn(),
{
}

/// A stage may send an enemy exactly when fewer than six are on the field
/// and it has not yet sent all of its enemies; in particular the last one
/// of the stage can always be sent once the field has room, so a fresh
/// stage can send every one of its enemies.
pub proof fn law_spawn_condition(s: EnemyNumberState)
    ensures
        s.spec_can_spawn() <==> (s.current_enemy_count < 6 && s.spawned_enemy_count
            < s.max_enemy_count),
        s.spawned_enemy_count + 1 == s.max_enemy_count && s.current_enemy_count < 6
            ==> s.spec_can_spawn(),
        spec_fresh_state().spec_can_spawn(),
{
}

/// A star raises a weapon level below 3 by exactly one and leaves 3 as it
/// is; a gun brings any level to 3.
pub proof fn law_star_and_gun_levels(level: u8)
    ensures
        level < 3 ==> spec_upgraded_level(level, false) == level + 1,
        level >= 3 ==> spec_upgraded_level(level, false) == level,
        spec_upgraded_level(level, true) == 3,
{
}

/// A tank's weapon level never goes past 3 through power-ups.
pub proof fn law_enemy_level_capped(level: u8, gun: bool)
    requires
        level <= MAX_TANK_LEVEL,
    ensures
        spec_upgraded_level(level, gun) <= MAX_TANK_LEVEL,
{
}

} // verus!
