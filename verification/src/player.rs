use vstd::prelude::*;
use crate::config::{MAX_TANK_LEVEL, PLAYER_CHANCE};
use crate::facing::Facing;
use crate::kill_records::EnemyKillRecords;

verus! {

/// Stats of one player.
#[derive(Clone, Copy, Debug)]
pub struct PlayerInfo {
    /// 1 for the first player, 2 for the second.
    pub id: u8,
    /// Weapon level (0 to 3).
    pub level: u8,
    /// 1 while the tank is on the field, 0 once destroyed.
    pub life: u8,
    /// Tanks left, the one on the field included.
    pub chance: u8,
    /// Points scored in the game.
    pub score: usize,
    /// Kills in the current stage.
    pub enemy_kills: EnemyKillRecords,
    /// Id of the engine sound that plays while the tank moves, if any.
    pub move_sound: Option<u64>,
}

/// What an enemy bullet does to a player tank.
#[derive(Clone, Copy, Debug, PartialEq, Eq, Structural)]
pub enum PlayerHit {
    /// The tank was already destroyed this frame: nothing happens.
    AlreadyDestroyed,
    /// The tank lost a life but stays.
    Damaged,
    /// The tank is destroyed; `respawn` says whether it comes back.
    Destroyed { respawn: bool },
}

/// Where a moving tank turns its sprite.
#[derive(Clone, Copy, Debug, PartialEq, Eq, Structural)]
pub enum FacingUpdate {
    /// Keep the current facing.
    Keep,
    /// Face the direction the keys ask for.
    Intent(Facing),
    /// Face the way the tank slides.
    FromVelocity,
}

/// What happens to the engine sound.
#[derive(Clone, Copy, Debug, PartialEq, Eq, Structural)]
pub enum SoundChange {
    Keep,
    Start,
    Stop,
}

/// Outcome of one frame of player movement.
#[derive(Clone, Copy, Debug, PartialEq, Eq, Structural)]
pub struct MoveDecision {
    /// Whether the tread animation plays.
    pub playing: bool,
    /// Whether the tank is held still (stunned).
    pub halt: bool,
    /// Whether the sprite is turned to the facing this frame.
    pub rotate: bool,
    pub facing: FacingUpdate,
    pub sound: SoundChange,
}

/// A player record as the game starts it: its stats, all kills cleared.
pub open spec fn spec_is_fresh(p: PlayerInfo, id: u8) -> bool {
    &&& p.id == id
    &&& p.level == 0
    &&& p.life == 1
    &&& p.chance == PLAYER_CHANCE
    &&& p.score == 0
    &&& p.enemy_kills.is_empty()
    &&& p.move_sound is None
}

/// The movement rule of a player tank for one frame.
pub open spec fn spec_move_decision(
    stunned: bool,
    intent: Option<Facing>,
    sliding: bool,
    has_sound: bool,
) -> MoveDecision {
    if stunned {
        MoveDecision {
            playing: false,
            halt: true,
            rotate: false,
            facing: FacingUpdate::Keep,
            sound: if has_sound { SoundChange::Stop } else { SoundChange::Keep },
        }
    } else if intent is Some {
        MoveDecision {
            playing: true,
            halt: false,
            rotate: true,
            facing: FacingUpdate::Intent(intent->0),
            sound: if has_sound { SoundChange::Keep } else { SoundChange::Start },
        }
    } else if sliding {
        MoveDecision {
            playing: true,
            halt: false,
            rotate: true,
            facing: FacingUpdate::FromVelocity,
            sound: if has_sound { SoundChange::Keep } else { SoundChange::Start },
        }
    } else {
        MoveDecision {
            playing: false,
            halt: false,
            rotate: false,
            facing: FacingUpdate::Keep,
            sound: if has_sound { SoundChange::Stop } else { SoundChange::Keep },
        }
    }
}

/// Decides one frame of player movement. `stunned`: the tank was hit by a
/// fellow player; `intent`: the direction the keys ask for; `sliding`: the
/// tank still moves faster than the stop speed (on ice); `has_sound`: the
/// engine sound plays.
pub fn move_decision(stunned: bool, intent: Option<Facing>, sliding: bool, has_sound: bool) -> (r:
    MoveDecision)
    ensures
        r == spec_move_decision(stunned, intent, sliding, has_sound),
        r.halt == stunned,
{
    if stunned {
        MoveDecision {
            playing: false,
            halt: true,
            rotate: false,
            facing: FacingUpdate::Keep,
            sound: if has_sound { SoundChange::Stop } else { SoundChange::Keep },
        }
    } else {
        match intent {
            Some(f) => MoveDecision {
                playing: true,
                halt: false,
                rotate: true,
                facing: FacingUpdate::Intent(f),
                sound: if has_sound { SoundChange::Keep } else { SoundChange::Start },
            },
            None => {
                if sliding {
                    MoveDecision {
                        playing: true,
                        halt: false,
                        rotate: true,
                        facing: FacingUpdate::FromVelocity,
                        sound: if has_sound { SoundChange::Keep } else { SoundChange::Start },
                    }
                } else {
                    MoveDecision {
                        playing: false,
                        halt: false,
                        rotate: false,
                        facing: FacingUpdate::Keep,
                        sound: if has_sound { SoundChange::Stop } else { SoundChange::Keep },
                    }
                }
            },
        }
    }
}

/// Only a stunned tank is held still: keys released on ice leave the tank
/// sliding, and a tank that is not stunned keeps its velocity whatever the
/// keys say. A stunned tank neither animates nor turns.
pub proof fn law_only_stun_halts(stunned: bool, intent: Option<Facing>, sliding: bool, has_sound: bool)
    ensures
        spec_move_decision(stunned, intent, sliding, has_sound).halt == stunned,
        stunned ==> !spec_move_decision(stunned, intent, sliding, has_sound).playing
            && !spec_move_decision(stunned, intent, sliding, has_sound).rotate,
        !stunned && (intent is Some || sliding) ==> spec_move_decision(stunned, intent, sliding, has_sound).playing,
{
}

/// The tread animation plays and the sprite turns exactly when the tank is
/// not stunned and either a key is held or it slides; it faces the key's
/// direction, else the way it slides. The engine sound starts when the tank
/// starts moving and stops when it stops, and is otherwise left alone.
pub proof fn law_motion_and_engine_sound(stunned: bool, intent: Option<Facing>, sliding: bool, has_sound: bool)
    ensures
        ({
            let d = spec_move_decision(stunned, intent, sliding, has_sound);
            let moving = !stunned && (intent is Some || sliding);
            &&& d.playing == moving
            &&& d.rotate == moving
            &&& (!stunned && intent is Some) ==> d.facing == FacingUpdate::Intent(intent->0)
            &&& (!stunned && intent is None && sliding) ==> d.facing == FacingUpdate::FromVelocity
            &&& !moving ==> d.facing == FacingUpdate::Keep
            &&& d.sound == (if moving && !has_sound {
                SoundChange::Start
            } else if !moving && has_sound {
                SoundChange::Stop
            } else {
                SoundChange::Keep
            })
        }),
{
}

/// A player after an enemy bullet: one life less; losing the last one
/// costs a chance. A tank already destroyed is left as it is.
pub open spec fn spec_after_enemy_hit(p: PlayerInfo) -> PlayerInfo {
    if p.life == 0 {
        p
    } else if p.life == 1 {
        PlayerInfo { life: 0, chance: (p.chance - 1) as u8, ..p }
    } else {
        PlayerInfo { life: (p.life - 1) as u8, ..p }
    }
}

/// A player after an enemy's bomb: a tank on the field is destroyed and
/// costs a chance (none below zero).
pub open spec fn spec_after_blast(p: PlayerInfo) -> PlayerInfo {
    if p.life == 0 {
        p
    } else {
        PlayerInfo { life: 0, chance: if p.chance > 0 { (p.chance - 1) as u8 } else { 0u8 }, ..p }
    }
}

/// Weapon level after a star (one up, at most 3) or a gun (3).
pub open spec fn spec_upgraded_level(level: u8, gun: bool) -> u8 {
    if gun {
        MAX_TANK_LEVEL
    } else if level < MAX_TANK_LEVEL {
        (level + 1) as u8
    } else {
        level
    }
}

impl PlayerInfo {
    /// A player record is consistent: its tank has at most one life, a tank
    /// on the field has its chance still counted, and the weapon level is
    /// at most 3.
    pub open spec fn wf(&self) -> bool {
        &&& self.life <= 1
        &&& self.life == 1 ==> self.chance >= 1
        &&& self.level <= MAX_TANK_LEVEL
    }

    /// Player `id` as a game starts.
    pub fn fresh(id: u8) -> (r: Self)
        ensures
            spec_is_fresh(r, id),
    {
        PlayerInfo {
            id,
            level: 0,
            life: 1,
            chance: PLAYER_CHANCE,
            score: 0,
            enemy_kills: EnemyKillRecords::default(),
            move_sound: None,
        }
    }

    /// Whether the player enters the field when the map is ready: it takes
    /// part (its id is within the player count) and has tanks left.
    pub fn wants_initial_spawn(&self, player_number: u8) -> (r: bool)
        ensures
            r == (self.id <= player_number && self.chance > 0),
    {
        self.id <= player_number && self.chance > 0
    }

    /// Whether a request to play the spawn animation of player `request_id`
    /// is honoured: none is already playing for this player, the id matches
    /// and the player has tanks left.
    pub fn accepts_spawn_request(&self, request_id: u8, already_spawning: bool) -> (r: bool)
        ensures
            r == (!already_spawning && self.id == request_id && self.chance > 0),
    {
        !already_spawning && self.id == request_id && self.chance > 0
    }

    /// The tank enters the field with one life.
    pub fn revive(&mut self)
        ensures
            *final(self) == (PlayerInfo { life: 1, ..*old(self) }),
    {
        self.life = 1;
    }

    /// An enemy bullet hits the tank. It loses a life; at none left it is
    /// destroyed, costs a chance, and comes back while chances remain.
    pub fn hit_by_enemy(&mut self) -> (r: PlayerHit)
        requires
            old(self).life == 1 ==> old(self).chance > 0,
        ensures
            *final(self) == spec_after_enemy_hit(*old(self)),
            old(self).life == 0 ==> r == PlayerHit::AlreadyDestroyed,
            old(self).life > 1 ==> r == PlayerHit::Damaged,
            old(self).life == 1 ==> r == (PlayerHit::Destroyed { respawn: old(self).chance > 1 }),
    {
        if self.life == 0 {
            return PlayerHit::AlreadyDestroyed;
        }
        self.life = self.life - 1;
        if self.life == 0 {
            self.chance = self.chance - 1;
            PlayerHit::Destroyed { respawn: self.chance > 0 }
        } else {
            PlayerHit::Damaged
        }
    }

    /// An enemy set off a bomb: the tank, if on the field, is destroyed and
    /// costs a chance (if any). Returns `None` for a tank already off the
    /// field, else whether it comes back.
    pub fn blasted(&mut self) -> (r: Option<bool>)
        ensures
            *final(self) == spec_after_blast(*old(self)),
            old(self).life == 0 ==> r is None,
            old(self).life != 0 ==> r == Some(final(self).chance > 0),
    {
        if self.life == 0 {
            return None;
        }
        self.life = 0;
        if self.chance > 0 {
            self.chance = self.chance - 1;
        }
        Some(self.chance > 0)
    }

    /// An extra-life power-up.
    pub fn gain_chance(&mut self)
        requires
            old(self).chance < u8::MAX,
        ensures
            *final(self) == (PlayerInfo { chance: (old(self).chance + 1) as u8, ..*old(self) }),
    {
        self.chance = self.chance + 1;
    }

    /// A star (one level up to 3) or a gun (straight to 3).
    pub fn upgrade(&mut self, gun: bool)
        ensures
            *final(self) == (PlayerInfo { level: spec_upgraded_level(old(self).level, gun), ..*old(self) }),
            gun ==> final(self).level == 3,
            !gun && old(self).level < 3 ==> final(self).level == old(self).level + 1,
            !gun && old(self).level >= 3 ==> final(self).level == old(self).level,
    {
        if gun {
            self.level = MAX_TANK_LEVEL;
        }
        if self.level < MAX_TANK_LEVEL {
            self.level = self.level + 1;
        }
    }

    /// Credits a destroyed enemy of kind `tank_type` worth `score`.
    pub fn credit_kill(&mut self, tank_type: u8, score: usize)
        requires
            old(self).score + score <= usize::MAX,
            1 <= tank_type,
            tank_type <= 3 ==> old(self).enemy_kills.types@[tank_type - 1].count < u32::MAX,
        ensures
            final(self).score == old(self).score + score,
            final(self).enemy_kills.types@ == EnemyKillRecords::recorded(
                old(self).enemy_kills.types@,
                tank_type,
                score,
            ),
            final(self).id == old(self).id,
            final(self).level == old(self).level,
            final(self).life == old(self).life,
            final(self).chance == old(self).chance,
            final(self).move_sound == old(self).move_sound,
    {
        self.score = self.score + score;
        self.enemy_kills.record(tank_type, score);
    }
}

/// `after` is `before` credited with a kill of kind `tank_type` worth
/// `score`: the points are added, the kill recorded, and nothing else moves.
pub open spec fn spec_credited(before: PlayerInfo, after: PlayerInfo, tank_type: u8, score: usize) -> bool {
    &&& after.score == before.score + score
    &&& after.enemy_kills.types@ == EnemyKillRecords::recorded(
        before.enemy_kills.types@,
        tank_type,
        score,
    )
    &&& after.id == before.id
    &&& after.level == before.level
    &&& after.life == before.life
    &&& after.chance == before.chance
    &&& after.move_sound == before.move_sound
}

/// A player record stays consistent through the game: a new player is
/// consistent, and so is one after an enemy bullet, a bomb, an extra life,
/// an upgrade, a kill, or a respawn granted while chances remain.
pub proof fn law_player_stays_consistent(p: PlayerInfo, id: u8, gun: bool, tank_type: u8, score: usize)
    requires
        p.wf(),
    ensures
        forall|q: PlayerInfo| spec_is_fresh(q, id) ==> #[trigger] q.wf(),
        spec_after_enemy_hit(p).wf(),
        spec_after_blast(p).wf(),
        p.chance < u8::MAX ==> (PlayerInfo { chance: (p.chance + 1) as u8, ..p }).wf(),
        (PlayerInfo { level: spec_upgraded_level(p.level, gun), ..p }).wf(),
        forall|k: EnemyKillRecords| #[trigger] (PlayerInfo { score, enemy_kills: k, ..p }).wf(),
        p.chance > 0 ==> (PlayerInfo { life: 1, ..p }).wf(),
{
}

/// A tank hit by enemy bullets keeps coming back while it has chances: a
/// destroyed tank respawns exactly when a chance remains, and each
/// destruction costs exactly one chance.
pub proof fn law_destruction_costs_one_chance(p: PlayerInfo)
    requires
        p.wf(),
        p.life == 1,
    ensures
        spec_after_enemy_hit(p).life == 0,
        spec_after_enemy_hit(p).chance == p.chance - 1,
        spec_after_blast(p).chance == p.chance - 1,
        spec_after_enemy_hit(p).chance > 0 <==> p.chance > 1,
{
}

/// The players of a game of `player_number` players, ids 1 upward.
pub fn initial_players(player_number: u8) -> (r: Vec<PlayerInfo>)
    ensures
        r@.len() == player_number,
        forall|i: int| 0 <= i < r@.len() ==> spec_is_fresh(#[trigger] r@[i], (i + 1) as u8),
{
    let mut v: Vec<PlayerInfo> = Vec::new();
    let mut i: u8 = 0;
    while i < player_number
        invariant
            i <= player_number,
            v@.len() == i,
            forall|k: int| 0 <= k < v@.len() ==> spec_is_fresh(#[trigger] v@[k], (k + 1) as u8),
        decreases player_number - i,
    {
        v.push(PlayerInfo::fresh(i + 1));
        i = i + 1;
    }
    v
}

/// Index of the first spawn point marked for player `id`.
pub fn find_spawn_point(spawn_ids: &Vec<u8>, id: u8) -> (r: Option<usize>)
    ensures
        match r {
            Some(i) => i < spawn_ids@.len() && spawn_ids@[i as int] == id && forall|j: int|
                0 <= j < i ==> #[trigger] spawn_ids@[j] != id,
            None => !spawn_ids@.contains(id),
        },
{
    let mut i: usize = 0;
    while i < spawn_ids.len()
        invariant
            i <= spawn_ids@.len(),
            forall|j: int| 0 <= j < i ==> #[trigger] spawn_ids@[j] != id,
        decreases spawn_ids@.len() - i,
    {
        if spawn_ids[i] == id {
            return Some(i);
        }
        i = i + 1;
    }
    None
}

/// Sum of a sequence of chance counts.
pub open spec fn spec_sum_chances(s: Seq<u8>) -> int
    decreases s.len(),
{
    if s.len() == 0 {
        0
    } else {
        spec_sum_chances(s.drop_last()) + s.last()
    }
}

/// Whether every player has used up its tanks (the game is lost). The
/// chances are added up in a byte, so their sum must fit in one.
pub fn all_chances_spent(chances: &Vec<u8>) -> (r: bool)
    requires
        spec_sum_chances(chances@) <= u8::MAX,
    ensures
        r == (spec_sum_chances(chances@) == 0),
{
    let mut sum: u8 = 0;
    let mut i: usize = 0;
    while i < chances.len()
        invariant
            i <= chances@.len(),
            spec_sum_chances(chances@) <= u8::MAX,
            sum == spec_sum_chances(chances@.take(i as int)),
        decreases chances@.len() - i,
    {
        proof {
            assert(chances@.take(i + 1).drop_last() =~= chances@.take(i as int));
            lemma_sum_chances_prefix(chances@, i + 1);
        }
        sum = sum + chances[i];
        i = i + 1;
    }
    proof {
        assert(chances@.take(chances@.len() as int) =~= chances@);
    }
    sum == 0
}

/// A prefix of the chances never sums to more than all of them.
pub proof fn lemma_sum_chances_prefix(s: Seq<u8>, n: int)
    requires
        0 <= n <= s.len(),
    ensures
        spec_sum_chances(s.take(n)) <= spec_sum_chances(s),
    decreases s.len(),
{
    if n < s.len() {
        lemma_sum_chances_prefix(s.drop_last(), n);
        assert(s.drop_last().take(n) =~= s.take(n));
    } else {
        assert(s.take(n) =~= s);
    }
}

/// Kills of player `id`, or no kills when no such player takes part.
pub fn player_kills(players: &Vec<PlayerInfo>, id: u8) -> (r: EnemyKillRecords)
    ensures
        (exists|i: int| 0 <= i < players@.len() && #[trigger] players@[i].id == id) ==> exists|
            i: int,
        |
            0 <= i < players@.len() && players@[i].id == id && r == #[trigger] players@[i].enemy_kills
                && forall|j: int| 0 <= j < i ==> #[trigger] players@[j].id != id,
        (forall|i: int| 0 <= i < players@.len() ==> #[trigger] players@[i].id != id) ==> r.is_empty(),
{
    let mut i: usize = 0;
    while i < players.len()
        invariant
            i <= players@.len(),
            forall|j: int| 0 <= j < i ==> #[trigger] players@[j].id != id,
        decreases players@.len() - i,
    {
        if players[i].id == id {
            return players[i].enemy_kills;
        }
        i = i + 1;
    }
    EnemyKillRecords::default()
}

} // verus!
