use vstd::prelude::*;
use std::collections::HashSet;
use crate::bullet::{BulletInfo, HORDE_PLAYER};
use crate::enemy::{EnemyInfo, EnemyNumberState};
use crate::player::{spec_credited, PlayerHit, PlayerInfo};

verus! {

broadcast use vstd::std_specs::hash::group_hash_axioms;

/// Explosion size of a camp being destroyed.
pub const BOOM_CAMP: usize = 4;
/// Explosion size of a player tank being destroyed.
pub const BOOM_PLAYER: usize = 3;
/// Explosion size of an enemy tank being destroyed.
pub const BOOM_ENEMY: usize = 2;
/// Explosion size of a wall piece breaking.
pub const BOOM_WALL: usize = 1;
/// Explosion size of a bullet hitting without breaking anything.
pub const BOOM_HIT: usize = 0;

/// Sound an explosion plays.
#[derive(Clone, Copy, Debug, PartialEq, Eq, Structural)]
pub enum BoomSound {
    BigExplosion,
    PowerupAppear,
    BulletExplosion,
    BulletHit1,
    BulletHit2,
    PropShow,
}

/// What a player bullet does to an enemy tank, or an enemy bullet to
/// another enemy tank.
#[derive(Clone, Copy, Debug, PartialEq, Eq, Structural)]
pub enum EnemyHit {
    /// An enemy bullet: it explodes on its fellow tank and does nothing.
    FriendlyFire,
    /// The tank's shield stops the bullet.
    Deflected,
    /// The tank's water shield absorbs the bullet and is lost.
    ShieldLost,
    /// The tank loses a life and keeps `life`; `drop_prop` says whether a
    /// power-up appears.
    Damaged { life: u8, drop_prop: bool },
    /// The tank is destroyed; `drop_prop` says whether a power-up appears.
    Destroyed { drop_prop: bool },
    /// The tank was already destroyed this frame: nothing happens.
    AlreadyDestroyed,
}

/// What a bullet does to a player tank.
#[derive(Clone, Copy, Debug, PartialEq, Eq, Structural)]
pub enum PlayerBulletHit {
    /// The tank's shield stops the bullet.
    Deflected,
    /// The tank's water shield absorbs the bullet and is lost.
    ShieldLost,
    /// A fellow player's bullet: the tank is stunned.
    Stunned,
    /// An enemy bullet.
    Hit(PlayerHit),
}

/// Bullets already used up by a wall this frame.
pub struct BulletsConsumed {
    pub ids: HashSet<u64>,
}

/// Orders the two colliders of a collision: a bullet first, then the other
/// one; the flag says whether both are bullets.
pub open spec fn spec_distinguish(e1: u64, e2: u64, b1: bool, b2: bool) -> (u64, u64, bool) {
    if b1 && !b2 {
        (e1, e2, false)
    } else if !b1 && b2 {
        (e2, e1, false)
    } else if b1 && b2 {
        (e1, e2, true)
    } else {
        (e1, e2, false)
    }
}

/// Whether the physics engine lets two colliders touch, given which of them
/// are bullets: two bullets only when of different sides, a bullet never
/// with the tank that fired it, anything else always.
pub open spec fn spec_pair_allowed(c1: u64, b1: Option<BulletInfo>, c2: u64, b2: Option<BulletInfo>) -> bool {
    match (b1, b2) {
        (Some(x), Some(y)) => x.horde != y.horde,
        (Some(x), None) => c2 != x.entity,
        (None, Some(y)) => c1 != y.entity,
        (None, None) => true,
    }
}

/// The sound of an explosion of size `level`.
pub open spec fn spec_boom_sound(level: usize, show_prop: bool) -> BoomSound {
    if level == 4 || level == 3 {
        BoomSound::BigExplosion
    } else if level == 2 {
        if show_prop { BoomSound::PowerupAppear } else { BoomSound::BulletExplosion }
    } else if level == 1 {
        BoomSound::BulletHit2
    } else if level == 0 {
        if show_prop { BoomSound::PropShow } else { BoomSound::BulletHit1 }
    } else {
        BoomSound::BulletHit2
    }
}

/// Orders the two colliders of a collision, bullet first.
pub fn distinguish_entities(e1: u64, e2: u64, e1_is_bullet: bool, e2_is_bullet: bool) -> (r: (
    u64,
    u64,
    bool,
))
    ensures
        r == spec_distinguish(e1, e2, e1_is_bullet, e2_is_bullet),
{
    match (e1_is_bullet, e2_is_bullet) {
        (true, false) => (e1, e2, false),
        (false, true) => (e2, e1, false),
        (true, true) => (e1, e2, true),
        (false, false) => (e1, e2, false),
    }
}

/// Whether two colliders may touch.
pub fn filter_pairs(c1: u64, b1: Option<BulletInfo>, c2: u64, b2: Option<BulletInfo>) -> (r: bool)
    ensures
        r == spec_pair_allowed(c1, b1, c2, b2),
{
    match (b1, b2) {
        (Some(x), Some(y)) => x.horde != y.horde,
        (Some(x), None) => c2 != x.entity,
        (None, Some(y)) => c1 != y.entity,
        (None, None) => true,
    }
}

/// The sound of an explosion.
pub fn boom_sound(level: usize, show_prop: bool) -> (r: BoomSound)
    ensures
        r == spec_boom_sound(level, show_prop),
{
    if level == 4 || level == 3 {
        BoomSound::BigExplosion
    } else if level == 2 {
        if show_prop {
            BoomSound::PowerupAppear
        } else {
            BoomSound::BulletExplosion
        }
    } else if level == 1 {
        BoomSound::BulletHit2
    } else if level == 0 {
        if show_prop {
            BoomSound::PropShow
        } else {
            BoomSound::BulletHit1
        }
    } else {
        BoomSound::BulletHit2
    }
}

/// Whether an explosion is the camp's (its end means game over).
pub fn is_camp_boom(level: usize) -> (r: bool)
    ensures
        r == (level == BOOM_CAMP),
{
    level == BOOM_CAMP
}

/// A bullet reaches the camp: the camp falls once; later hits, bullet pairs
/// and other targets do nothing. Returns whether it falls now.
pub fn camp_hit(is_all_bullet: bool, target_is_camp: bool, destroy_pending: &mut bool) -> (r: bool)
    ensures
        r == (!is_all_bullet && target_is_camp && !*old(destroy_pending)),
        *final(destroy_pending) == (*old(destroy_pending) || r),
{
    if is_all_bullet || !target_is_camp || *destroy_pending {
        return false;
    }
    *destroy_pending = true;
    true
}

/// A bullet hits stone: a level-3 bullet breaks it (explosion 1), any other
/// bounces off (explosion 0). Returns whether the stone breaks and the
/// explosion size.
pub fn stone_hit(bullet_level: u8) -> (r: (bool, usize))
    ensures
        r == (if bullet_level == 3 { (true, BOOM_WALL) } else { (false, BOOM_HIT) }),
{
    if bullet_level == 3 {
        (true, BOOM_WALL)
    } else {
        (false, BOOM_HIT)
    }
}

/// Whether a bullet breaks a red brick: not for a bullet pair, a bullet
/// already used up by another wall this frame, or a brick hidden under the
/// shovel's stone.
pub fn red_brick_hit(is_all_bullet: bool, consumed: bool, hidden: bool, is_red_brick: bool) -> (r:
    bool)
    ensures
        r == (!is_all_bullet && !consumed && !hidden && is_red_brick),
{
    !(is_all_bullet || consumed || hidden || !is_red_brick)
}

/// Whether a bullet hit concerns a target of the kind a rule handles: not a
/// bullet pair, and the other collider is of that kind.
pub fn hit_applies(is_all_bullet: bool, target_matches: bool) -> (r: bool)
    ensures
        r == (!is_all_bullet && target_matches),
{
    !is_all_bullet && target_matches
}

/// Whether a tank still in its spawn animation swallows a bullet (one not
/// already marked for removal); the same test picks the bullets that reach
/// a player tank.
pub fn spawning_tank_hit(is_all_bullet: bool, bullet_marked: bool, target_spawning: bool) -> (r:
    bool)
    ensures
        r == (!is_all_bullet && !bullet_marked && target_spawning),
{
    !(is_all_bullet || bullet_marked || !target_spawning)
}

/// Outcome of a bullet of side `horde` hitting an enemy tank `info`, and the
/// tank's stats afterwards.
pub open spec fn spec_enemy_hit(horde: u8, bulletproof: bool, waterproof: bool, info: EnemyInfo) -> (
    EnemyHit,
    EnemyInfo,
) {
    if horde != HORDE_PLAYER {
        (EnemyHit::FriendlyFire, info)
    } else if bulletproof {
        (EnemyHit::Deflected, info)
    } else if waterproof {
        (EnemyHit::ShieldLost, info)
    } else if info.life == 0 {
        (EnemyHit::AlreadyDestroyed, info)
    } else if info.life == 1 {
        (EnemyHit::Destroyed { drop_prop: info.carrying_prop }, EnemyInfo { life: 0, ..info })
    } else {
        (
            EnemyHit::Damaged { life: (info.life - 1) as u8, drop_prop: info.carrying_prop },
            EnemyInfo { life: (info.life - 1) as u8, ..info },
        )
    }
}

/// A bullet of side `horde` hits an enemy tank. Player bullets are stopped by
/// a shield, then absorbed by a water shield; otherwise the tank loses a
/// life, and on its last one is destroyed (its life drops to 0, so a second
/// bullet reaching it in the same frame does nothing). A tank carrying a
/// power-up drops one whenever such a hit gets through.
pub fn enemy_hit(horde: u8, bulletproof: bool, waterproof: bool, info: &mut EnemyInfo) -> (r:
    EnemyHit)
    ensures
        (r, *final(info)) == spec_enemy_hit(horde, bulletproof, waterproof, *old(info)),
        r matches EnemyHit::Damaged { drop_prop, .. } ==> drop_prop == old(info).carrying_prop,
        r matches EnemyHit::Destroyed { drop_prop } ==> drop_prop == old(info).carrying_prop,
{
    if horde != HORDE_PLAYER {
        return EnemyHit::FriendlyFire;
    }
    if bulletproof {
        return EnemyHit::Deflected;
    }
    if waterproof {
        return EnemyHit::ShieldLost;
    }
    if info.life == 0 {
        return EnemyHit::AlreadyDestroyed;
    }
    if info.life == 1 {
        info.life = 0;
        EnemyHit::Destroyed { drop_prop: info.carrying_prop }
    } else {
        info.life = info.life - 1;
        EnemyHit::Damaged { life: info.life, drop_prop: info.carrying_prop }
    }
}

/// Stats of an enemy tank after a sequence of bullet hits, each given as
/// (side of the bullet, shielded, water-shielded).
pub open spec fn spec_after_hits(info: EnemyInfo, hits: Seq<(u8, bool, bool)>) -> EnemyInfo
    decreases hits.len(),
{
    if hits.len() == 0 {
        info
    } else {
        let h = hits.last();
        spec_enemy_hit(h.0, h.1, h.2, spec_after_hits(info, hits.drop_last())).1
    }
}

/// How many hits of such a sequence report the tank destroyed.
pub open spec fn spec_destroyed_count(info: EnemyInfo, hits: Seq<(u8, bool, bool)>) -> nat
    decreases hits.len(),
{
    if hits.len() == 0 {
        0
    } else {
        let h = hits.last();
        let before = spec_after_hits(info, hits.drop_last());
        spec_destroyed_count(info, hits.drop_last()) + if spec_enemy_hit(
            h.0,
            h.1,
            h.2,
            before,
        ).0 is Destroyed {
            1nat
        } else {
            0nat
        }
    }
}

/// An enemy tank is reported destroyed at most once, whatever bullets reach
/// it (several in one frame included); once it is, it has no life left, and
/// a tank with no life left is never reported destroyed.
pub proof fn law_enemy_destroyed_at_most_once(info: EnemyInfo, hits: Seq<(u8, bool, bool)>)
    ensures
        spec_destroyed_count(info, hits) <= 1,
        spec_destroyed_count(info, hits) == 1 ==> spec_after_hits(info, hits).life == 0,
        info.life == 0 ==> spec_destroyed_count(info, hits) == 0,
    decreases hits.len(),
{
    if hits.len() > 0 {
        law_enemy_destroyed_at_most_once(info, hits.drop_last());
        if info.life == 0 {
            lemma_no_life_stays_gone(info, hits.drop_last());
        }
    }
}

/// A hit drops a power-up exactly when the tank carries one: a tank that
/// carries none never drops one. A damaging hit takes one life and reports
/// the life left; only a tank on its last life is destroyed, and only a
/// player bullet that no shield stops hurts a tank at all.
pub proof fn law_enemy_hit_outcomes(horde: u8, bulletproof: bool, waterproof: bool, info: EnemyInfo)
    ensures
        ({
            let (r, after) = spec_enemy_hit(horde, bulletproof, waterproof, info);
            &&& r matches EnemyHit::Damaged { drop_prop, .. } ==> drop_prop == info.carrying_prop
            &&& r matches EnemyHit::Destroyed { drop_prop } ==> drop_prop == info.carrying_prop
            &&& r matches EnemyHit::Damaged { life, .. } ==> life == after.life && after.life + 1 == info.life
                && life >= 1
            &&& r is Destroyed ==> info.life == 1 && after.life == 0
            &&& (horde == 1 && !bulletproof && !waterproof && info.life >= 1) ==> (r is Damaged
                || r is Destroyed)
            &&& !(horde == 1 && !bulletproof && !waterproof) ==> after == info && !(r is Damaged)
                && !(r is Destroyed)
            &&& after.score == info.score && after.level == info.level && after.carrying_prop
                == info.carrying_prop
        }),
{
}

/// A tank with no life left keeps none.
proof fn lemma_no_life_stays_gone(info: EnemyInfo, hits: Seq<(u8, bool, bool)>)
    requires
        info.life == 0,
    ensures
        spec_after_hits(info, hits).life == 0,
    decreases hits.len(),
{
    if hits.len() > 0 {
        lemma_no_life_stays_gone(info, hits.drop_last());
    }
}

/// What a lethal hit on an enemy tank brings about: the tank leaves the
/// field count, and the player who fired, if still in play, scores its
/// points and a kill of its kind.
pub fn destroy_enemy(
    enemies: &mut EnemyNumberState,
    shooter: &mut Option<PlayerInfo>,
    tank_type: u8,
    score: usize,
)
    requires
        old(enemies).current_enemy_count > 0,
        *old(shooter) matches Some(p) ==> {
            &&& p.score + score <= usize::MAX
            &&& 1 <= tank_type
            &&& tank_type <= 3 ==> p.enemy_kills.types@[tank_type - 1].count < u32::MAX
        },
    ensures
        *final(enemies) == (EnemyNumberState {
            current_enemy_count: (old(enemies).current_enemy_count - 1) as usize,
            ..*old(enemies)
        }),
        match *old(shooter) {
            None => *final(shooter) is None,
            Some(p) => *final(shooter) matches Some(q) && spec_credited(p, q, tank_type, score),
        },
{
    enemies.enemy_destroyed();
    match shooter {
        Some(p) => {
            p.credit_kill(tank_type, score);
        },
        None => {},
    }
}

/// Sprite set of a heavy tank after a hit: the two-lives look at 2 lives,
/// the last-life look otherwise.
pub fn damaged_look_has_two_lives(life: u8) -> (r: bool)
    ensures
        r == (life == 2),
{
    life == 2
}

/// A bullet of side `horde` hits a player tank: a shield stops it, a water
/// shield absorbs it, a fellow player's bullet stuns the tank, an enemy's
/// damages it.
pub fn player_hit(horde: u8, bulletproof: bool, waterproof: bool, player: &mut PlayerInfo) -> (r:
    PlayerBulletHit)
    requires
        !bulletproof && !waterproof && horde != HORDE_PLAYER && old(player).life == 1 ==> old(
            player,
        ).chance > 0,
    ensures
        bulletproof ==> r == PlayerBulletHit::Deflected && *final(player) == *old(player),
        !bulletproof && waterproof ==> r == PlayerBulletHit::ShieldLost && *final(player) == *old(
            player,
        ),
        !bulletproof && !waterproof && horde == HORDE_PLAYER ==> r == PlayerBulletHit::Stunned
            && *final(player) == *old(player),
        !bulletproof && !waterproof && horde != HORDE_PLAYER ==> {
            &&& r is Hit
            &&& old(player).life == 0 ==> r == PlayerBulletHit::Hit(PlayerHit::AlreadyDestroyed)
                && *final(player) == *old(player)
            &&& old(player).life > 1 ==> r == PlayerBulletHit::Hit(PlayerHit::Damaged)
                && *final(player) == (PlayerInfo {
                life: (old(player).life - 1) as u8,
                ..*old(player)
            })
            &&& old(player).life == 1 ==> r == PlayerBulletHit::Hit(
                PlayerHit::Destroyed { respawn: old(player).chance > 1 },
            ) && *final(player) == (PlayerInfo {
                life: 0,
                chance: (old(player).chance - 1) as u8,
                ..*old(player)
            })
        },
{
    if bulletproof {
        return PlayerBulletHit::Deflected;
    }
    if waterproof {
        return PlayerBulletHit::ShieldLost;
    }
    if horde == HORDE_PLAYER {
        return PlayerBulletHit::Stunned;
    }
    PlayerBulletHit::Hit(player.hit_by_enemy())
}

/// The pair filter does not depend on the order in which the physics
/// engine lists the two colliders.
pub proof fn law_pair_filter_symmetric(c1: u64, b1: Option<BulletInfo>, c2: u64, b2: Option<BulletInfo>)
    ensures
        spec_pair_allowed(c1, b1, c2, b2) == spec_pair_allowed(c2, b2, c1, b1),
{
}

/// A bullet never touches the tank that fired it, and two bullets of the
/// same side pass through each other.
pub proof fn law_no_self_or_friendly_bullet_hits(c1: u64, b1: BulletInfo, c2: u64, b2: BulletInfo)
    ensures
        !spec_pair_allowed(c1, Some(b1), b1.entity, None),
        b1.horde == b2.horde ==> !spec_pair_allowed(c1, Some(b1), c2, Some(b2)),
{
}

/// Ordering the colliders of a collision neither loses nor invents one,
/// puts the bullet first when there is exactly one, and flags bullet pairs.
pub proof fn law_distinguish_reorders(e1: u64, e2: u64, b1: bool, b2: bool)
    ensures
        ({
            let r = spec_distinguish(e1, e2, b1, b2);
            &&& (r.0 == e1 && r.1 == e2) || (r.0 == e2 && r.1 == e1)
            &&& (b1 != b2) ==> (if b1 { r.0 == e1 } else { r.0 == e2 })
            &&& r.2 == (b1 && b2)
        }),
{
}

/// The camp falls once: after a hit brings it down, no later hit does.
pub proof fn law_camp_falls_once(pending: bool, all1: bool, camp1: bool, all2: bool, camp2: bool)
    ensures
        ({
            let first = !all1 && camp1 && !pending;
            let after = pending || first;
            let second = !all2 && camp2 && !after;
            !(first && second) && (pending ==> !first)
        }),
{
}

impl BulletsConsumed {
    /// The ids of the consumed bullets.
    pub open spec fn view(&self) -> Set<u64> {
        self.ids@
    }

    /// No bullet consumed yet.
    pub fn new() -> (r: Self)
        ensures
            r.view() == Set::<u64>::empty(),
    {
        BulletsConsumed { ids: HashSet::new() }
    }

    /// Starts a new frame.
    pub fn clear(&mut self)
        ensures
            final(self).view() == Set::<u64>::empty(),
    {
        self.ids.clear();
    }

    /// Marks bullet `id` as used up.
    pub fn insert(&mut self, id: u64)
        ensures
            final(self).view() == old(self).view().insert(id),
    {
        self.ids.insert(id);
    }

    /// Whether bullet `id` was used up this frame.
    pub fn contains(&self, id: u64) -> (r: bool)
        ensures
            r == self.view().contains(id),
    {
        self.ids.contains(&id)
    }
}

} // verus!
