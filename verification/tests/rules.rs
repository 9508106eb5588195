use tank_battle::animation::{
    effect_animation_step, move_animation_step, shield_frame_step, spawn_animation_step, SpawnStep,
};
use tank_battle::bullet::{
    bullets_to_fire, count_active_bullets, enemy_bullet, max_bullets, player_bullet, BulletInfo,
};
use tank_battle::collision::{
    boom_sound, camp_hit, destroy_enemy, distinguish_entities, enemy_hit, filter_pairs, hit_applies,
    is_camp_boom, player_hit, red_brick_hit, spawning_tank_hit, stone_hit, BoomSound,
    BulletsConsumed, EnemyHit, PlayerBulletHit,
};
use tank_battle::enemy::{
    life_and_score, random_tank_type, speed_class, tank_type_from_draw, EnemyInfo, EnemyNumberState, SpeedClass,
};
use tank_battle::facing::{
    bullet_velocity, enemy_turn, facing_from_index, movement_intent, muzzle_offset, random_facing,
    rotation_index, Facing,
};
use tank_battle::kill_records::EnemyKillRecords;
use tank_battle::player::{
    all_chances_spent, find_spawn_point, initial_players, move_decision, player_kills,
    FacingUpdate, PlayerHit, PlayerInfo, SoundChange,
};

#[test]
fn kill_records_record_and_totals() {
    let mut k = EnemyKillRecords::default();
    k.record(1, 100);
    k.record(3, 500);
    k.record(3, 500);
    assert_eq!(k.count_for_type(0), 1);
    assert_eq!(k.count_for_type(1), 0);
    assert_eq!(k.count_for_type(2), 2);
    assert_eq!(k.points_for_type(2), 1000);
    assert_eq!(k.points_per_kill(0), 100);
    assert_eq!(k.total_kills(), 3);
}

#[test]
fn kill_records_ignore_unknown_kind() {
    let mut k = EnemyKillRecords::default();
    k.record(4, 900);
    k.record(200, 900);
    assert_eq!(k.total_kills(), 0);
    assert_eq!(k.points_per_kill(2), 0);
}

#[test]
fn kill_records_last_score_wins() {
    let mut k = EnemyKillRecords::default();
    k.record(2, 200);
    k.record(2, 250);
    assert_eq!(k.count_for_type(1), 2);
    assert_eq!(k.points_per_kill(1), 250);
    assert_eq!(k.points_for_type(1), 500);
}

#[test]
fn points_per_kill_follow_the_latest_kill_of_each_kind() {
    let mut k = EnemyKillRecords::default();
    assert_eq!(k.points_per_kill(0), 0);
    assert_eq!(k.points_per_kill(1), 0);
    assert_eq!(k.points_per_kill(2), 0);
    k.record(1, 100);
    k.record(3, 500);
    k.record(1, 150);
    k.record(4, 900);
    k.record(3, 450);
    assert_eq!(k.points_per_kill(0), 150);
    assert_eq!(k.points_per_kill(1), 0);
    assert_eq!(k.points_per_kill(2), 450);
    k.reset();
    k.record(2, 200);
    assert_eq!(k.points_per_kill(0), 0);
    assert_eq!(k.points_per_kill(1), 200);
    assert_eq!(k.points_per_kill(2), 0);
}

#[test]
fn kill_records_reset_clears() {
    let mut k = EnemyKillRecords::default();
    k.record(1, 100);
    k.record(2, 200);
    k.reset();
    assert_eq!(k.total_kills(), 0);
    for i in 0..3 {
        assert_eq!(k.count_for_type(i), 0);
        assert_eq!(k.points_per_kill(i), 0);
    }
}

#[test]
fn enemy_state_fresh_and_reset() {
    let mut s = EnemyNumberState::new();
    assert_eq!(s.spawned_enemy_count, 0);
    assert_eq!(s.max_enemy_count, 20);
    assert_eq!(s.current_enemy_count, 0);
    s.spawned_enemy_count = 7;
    s.current_enemy_count = 2;
    s.max_enemy_count = 21;
    s.reset();
    assert_eq!(s, EnemyNumberState::new());
}

#[test]
fn enemy_spawn_first_free_point() {
    let mut s = EnemyNumberState::new();
    let spawns = vec![(0, 12), (6, 12), (12, 12)];
    let occupied = vec![(0, 12), (3, 3)];
    assert_eq!(s.choose_spawn_point(false, &spawns, &occupied), Some(1));
    assert_eq!(s.spawned_enemy_count, 1);
    assert_eq!(s.current_enemy_count, 1);
}

#[test]
fn enemy_spawn_all_points_taken() {
    let mut s = EnemyNumberState::new();
    let spawns = vec![(0, 12), (6, 12)];
    let occupied = vec![(6, 12), (0, 12)];
    assert_eq!(s.choose_spawn_point(true, &spawns, &occupied), None);
    assert_eq!(s, EnemyNumberState::new());
}

#[test]
fn enemy_spawn_waits_for_timer_after_three() {
    let mut s = EnemyNumberState { spawned_enemy_count: 3, max_enemy_count: 20, current_enemy_count: 3 };
    assert!(s.spawn_waits_for_timer());
    let spawns = vec![(0, 12)];
    assert_eq!(s.choose_spawn_point(false, &spawns, &vec![]), None);
    assert_eq!(s.choose_spawn_point(true, &spawns, &vec![]), Some(0));
    assert_eq!(s.spawned_enemy_count, 4);
}

#[test]
fn enemy_spawn_respects_field_limit_and_stage_total() {
    let mut full = EnemyNumberState { spawned_enemy_count: 10, max_enemy_count: 20, current_enemy_count: 6 };
    assert_eq!(full.choose_spawn_point(true, &vec![(0, 0)], &vec![]), None);
    let mut done = EnemyNumberState { spawned_enemy_count: 20, max_enemy_count: 20, current_enemy_count: 1 };
    assert_eq!(done.choose_spawn_point(true, &vec![(0, 0)], &vec![]), None);
}

#[test]
fn stage_cleared_needs_all_sent_and_none_left() {
    let s = EnemyNumberState { spawned_enemy_count: 20, max_enemy_count: 20, current_enemy_count: 0 };
    assert!(s.stage_cleared());
    let t = EnemyNumberState { spawned_enemy_count: 20, max_enemy_count: 20, current_enemy_count: 1 };
    assert!(!t.stage_cleared());
    let u = EnemyNumberState { spawned_enemy_count: 19, max_enemy_count: 20, current_enemy_count: 0 };
    assert!(!u.stage_cleared());
    assert_eq!(u.remaining_to_spawn(), 1);
}

#[test]
fn enemy_counts_change() {
    let mut s = EnemyNumberState { spawned_enemy_count: 5, max_enemy_count: 20, current_enemy_count: 4 };
    s.enemy_destroyed();
    assert_eq!(s.current_enemy_count, 3);
    s.enemies_destroyed(3);
    assert_eq!(s.current_enemy_count, 0);
    s.add_reinforcement();
    assert_eq!(s.max_enemy_count, 21);
}

#[test]
fn enemy_kinds() {
    assert_eq!(life_and_score(1), (1, 100));
    assert_eq!(life_and_score(2), (1, 200));
    assert_eq!(life_and_score(3), (3, 500));
    assert_eq!(life_and_score(9), (1, 100));
    assert_eq!(speed_class(2), SpeedClass::Fast);
    assert_eq!(speed_class(3), SpeedClass::Heavy);
    assert_eq!(speed_class(1), SpeedClass::Light);
    let e = EnemyInfo::for_type(3, true);
    assert_eq!(e, EnemyInfo { level: 0, life: 3, score: 500, carrying_prop: true });
}

#[test]
fn tank_type_from_draws() {
    assert_eq!(tank_type_from_draw(0), 1);
    assert_eq!(tank_type_from_draw(1), 2);
    assert_eq!(tank_type_from_draw(2), 3);
}

#[test]
fn random_tank_type_in_range() {
    for _ in 0..500 {
        let t = random_tank_type();
        assert!((1..=3).contains(&t));
    }
}

#[test]
fn enemy_upgrades_capped() {
    let mut e = EnemyInfo::for_type(1, false);
    e.upgrade(false);
    assert_eq!(e.level, 1);
    e.upgrade(true);
    assert_eq!(e.level, 3);
    e.upgrade(false);
    assert_eq!(e.level, 3);
}

#[test]
fn facings() {
    assert_eq!(rotation_index(Facing::Up), 0);
    assert_eq!(rotation_index(Facing::Down), 1);
    assert_eq!(rotation_index(Facing::Left), 2);
    assert_eq!(rotation_index(Facing::Right), 3);
    assert_eq!(facing_from_index(0), Facing::Up);
    assert_eq!(facing_from_index(1), Facing::Down);
    assert_eq!(facing_from_index(2), Facing::Left);
    assert_eq!(facing_from_index(3), Facing::Right);
    assert_eq!(movement_intent(true, true, true, true), Some(Facing::Up));
    assert_eq!(movement_intent(false, true, true, false), Some(Facing::Down));
    assert_eq!(movement_intent(false, false, true, true), Some(Facing::Left));
    assert_eq!(movement_intent(false, false, false, true), Some(Facing::Right));
    assert_eq!(movement_intent(false, false, false, false), None);
}

#[test]
fn muzzles_and_velocities() {
    assert_eq!(muzzle_offset(Facing::Up, 0), (0, 5));
    assert_eq!(muzzle_offset(Facing::Up, 1), (0, -1));
    assert_eq!(muzzle_offset(Facing::Down, 1), (0, 1));
    assert_eq!(muzzle_offset(Facing::Left, 0), (-5, 0));
    assert_eq!(muzzle_offset(Facing::Right, 1), (-1, 0));
    assert_eq!(bullet_velocity(Facing::Down), (0, -100));
    assert_eq!(bullet_velocity(Facing::Right), (100, 0));
}

#[test]
fn random_facing_and_turns() {
    for _ in 0..200 {
        let _ = random_facing();
        assert!(enemy_turn(true, true).is_some());
    }
    assert_eq!(enemy_turn(true, false), None);
    assert_eq!(enemy_turn(false, true), None);
}

#[test]
fn bullet_allowance() {
    assert_eq!(max_bullets(0), 1);
    assert_eq!(max_bullets(1), 1);
    assert_eq!(max_bullets(2), 2);
    assert_eq!(max_bullets(3), 2);
    assert_eq!(bullets_to_fire(0, 0), 1);
    assert_eq!(bullets_to_fire(0, 1), 0);
    assert_eq!(bullets_to_fire(3, 1), 1);
    assert_eq!(bullets_to_fire(3, 0), 2);
    assert_eq!(bullets_to_fire(3, 5), 0);
}

#[test]
fn active_bullets_counted_per_player() {
    let bullets = vec![
        player_bullet(7, 0),
        player_bullet(8, 0),
        enemy_bullet(7, 0),
        player_bullet(7, 2),
    ];
    assert_eq!(count_active_bullets(&bullets, 7), 2);
    assert_eq!(count_active_bullets(&bullets, 8), 1);
    assert_eq!(count_active_bullets(&bullets, 9), 0);
    assert_eq!(bullets[2], BulletInfo { entity: 7, level: 0, horde: 2 });
}

#[test]
fn active_bullets_wrap_as_byte() {
    let bullets: Vec<BulletInfo> = (0..257).map(|_| player_bullet(1, 0)).collect();
    assert_eq!(count_active_bullets(&bullets, 1), 1);
}

#[test]
fn collision_ordering() {
    assert_eq!(distinguish_entities(1, 2, true, false), (1, 2, false));
    assert_eq!(distinguish_entities(1, 2, false, true), (2, 1, false));
    assert_eq!(distinguish_entities(1, 2, true, true), (1, 2, true));
    assert_eq!(distinguish_entities(1, 2, false, false), (1, 2, false));
}

#[test]
fn pair_filter() {
    let p = player_bullet(10, 0);
    let e = enemy_bullet(20, 0);
    assert!(filter_pairs(1, Some(p), 2, Some(e)));
    assert!(!filter_pairs(1, Some(p), 2, Some(player_bullet(11, 0))));
    assert!(!filter_pairs(1, Some(p), 10, None));
    assert!(filter_pairs(1, Some(p), 20, None));
    assert!(!filter_pairs(20, None, 2, Some(e)));
    assert!(filter_pairs(3, None, 4, None));
    // symmetric
    assert_eq!(filter_pairs(10, None, 1, Some(p)), filter_pairs(1, Some(p), 10, None));
}

#[test]
fn boom_sounds() {
    assert_eq!(boom_sound(4, false), BoomSound::BigExplosion);
    assert_eq!(boom_sound(3, true), BoomSound::BigExplosion);
    assert_eq!(boom_sound(2, true), BoomSound::PowerupAppear);
    assert_eq!(boom_sound(2, false), BoomSound::BulletExplosion);
    assert_eq!(boom_sound(1, false), BoomSound::BulletHit2);
    assert_eq!(boom_sound(0, true), BoomSound::PropShow);
    assert_eq!(boom_sound(0, false), BoomSound::BulletHit1);
    assert_eq!(boom_sound(9, false), BoomSound::BulletHit2);
    assert!(is_camp_boom(4));
    assert!(!is_camp_boom(3));
}

#[test]
fn camp_falls_once() {
    let mut pending = false;
    assert!(!camp_hit(true, true, &mut pending));
    assert!(!camp_hit(false, false, &mut pending));
    assert!(camp_hit(false, true, &mut pending));
    assert!(pending);
    assert!(!camp_hit(false, true, &mut pending));
}

#[test]
fn wall_rules() {
    assert_eq!(stone_hit(3), (true, 1));
    assert_eq!(stone_hit(2), (false, 0));
    assert!(red_brick_hit(false, false, false, true));
    assert!(!red_brick_hit(false, true, false, true));
    assert!(!red_brick_hit(false, false, true, true));
    assert!(!red_brick_hit(true, false, false, true));
    assert!(!red_brick_hit(false, false, false, false));
    assert!(spawning_tank_hit(false, false, true));
    assert!(!spawning_tank_hit(false, true, true));
    assert!(hit_applies(false, true));
    assert!(!hit_applies(true, true));
}

#[test]
fn consumed_bullets() {
    let mut c = BulletsConsumed::new();
    c.insert(5);
    assert!(c.contains(5));
    assert!(!c.contains(6));
    c.clear();
    assert!(!c.contains(5));
}

#[test]
fn enemy_hits() {
    let mut heavy = EnemyInfo::for_type(3, true);
    assert_eq!(enemy_hit(2, false, false, &mut heavy), EnemyHit::FriendlyFire);
    assert_eq!(enemy_hit(1, true, false, &mut heavy), EnemyHit::Deflected);
    assert_eq!(enemy_hit(1, false, true, &mut heavy), EnemyHit::ShieldLost);
    assert_eq!(heavy.life, 3);
    assert_eq!(enemy_hit(1, false, false, &mut heavy), EnemyHit::Damaged { life: 2, drop_prop: true });
    assert_eq!(enemy_hit(1, false, false, &mut heavy), EnemyHit::Damaged { life: 1, drop_prop: true });
    assert_eq!(enemy_hit(1, false, false, &mut heavy), EnemyHit::Destroyed { drop_prop: true });
    let mut light = EnemyInfo::for_type(1, false);
    assert_eq!(enemy_hit(1, false, false, &mut light), EnemyHit::Destroyed { drop_prop: false });
}

#[test]
fn enemy_destroyed_only_once() {
    let mut light = EnemyInfo::for_type(2, true);
    assert_eq!(enemy_hit(1, false, false, &mut light), EnemyHit::Destroyed { drop_prop: true });
    assert_eq!(light.life, 0);
    assert_eq!(light.score, 200);
    // A second bullet reaching the same tank in the same frame.
    assert_eq!(enemy_hit(1, false, false, &mut light), EnemyHit::AlreadyDestroyed);
    assert_eq!(light.life, 0);
    assert_eq!(enemy_hit(2, false, false, &mut light), EnemyHit::FriendlyFire);
    assert_eq!(enemy_hit(1, true, false, &mut light), EnemyHit::Deflected);
}

#[test]
fn lethal_hit_counts_and_credits() {
    let mut state = EnemyNumberState::new();
    state.current_enemy_count = 2;
    state.spawned_enemy_count = 5;
    let mut shooter = Some(PlayerInfo::fresh(1));
    destroy_enemy(&mut state, &mut shooter, 3, 500);
    assert_eq!(state.current_enemy_count, 1);
    assert_eq!(state.spawned_enemy_count, 5);
    assert_eq!(state.max_enemy_count, 20);
    let p = shooter.unwrap();
    assert_eq!(p.score, 500);
    assert_eq!(p.enemy_kills.count_for_type(2), 1);
    assert_eq!(p.enemy_kills.points_per_kill(2), 500);
    assert_eq!(p.enemy_kills.total_kills(), 1);
    assert_eq!(p.life, 1);
    assert_eq!(p.chance, 2);

    let mut nobody: Option<PlayerInfo> = None;
    destroy_enemy(&mut state, &mut nobody, 1, 100);
    assert_eq!(state.current_enemy_count, 0);
    assert!(nobody.is_none());
}

#[test]
fn player_hits() {
    let mut p = PlayerInfo::fresh(1);
    assert_eq!(player_hit(2, true, false, &mut p), PlayerBulletHit::Deflected);
    assert_eq!(player_hit(2, false, true, &mut p), PlayerBulletHit::ShieldLost);
    assert_eq!(player_hit(1, false, false, &mut p), PlayerBulletHit::Stunned);
    assert_eq!(p.life, 1);
    assert_eq!(
        player_hit(2, false, false, &mut p),
        PlayerBulletHit::Hit(PlayerHit::Destroyed { respawn: true })
    );
    assert_eq!((p.life, p.chance), (0, 1));
    assert_eq!(player_hit(2, false, false, &mut p), PlayerBulletHit::Hit(PlayerHit::AlreadyDestroyed));
    p.revive();
    assert_eq!(
        player_hit(2, false, false, &mut p),
        PlayerBulletHit::Hit(PlayerHit::Destroyed { respawn: false })
    );
    assert_eq!((p.life, p.chance), (0, 0));
}

#[test]
fn player_hit_with_extra_life_is_damage() {
    let mut p = PlayerInfo::fresh(2);
    p.life = 2;
    assert_eq!(p.hit_by_enemy(), PlayerHit::Damaged);
    assert_eq!((p.life, p.chance), (1, 2));
}

#[test]
fn player_blasted() {
    let mut p = PlayerInfo::fresh(1);
    assert_eq!(p.blasted(), Some(true));
    assert_eq!((p.life, p.chance), (0, 1));
    assert_eq!(p.blasted(), None);
    p.revive();
    assert_eq!(p.blasted(), Some(false));
    assert_eq!(p.chance, 0);
    p.life = 1;
    assert_eq!(p.blasted(), Some(false));
    assert_eq!(p.chance, 0);
}

#[test]
fn player_upgrades_and_chances() {
    let mut p = PlayerInfo::fresh(1);
    p.upgrade(false);
    p.upgrade(false);
    assert_eq!(p.level, 2);
    p.upgrade(true);
    assert_eq!(p.level, 3);
    p.upgrade(false);
    assert_eq!(p.level, 3);
    p.gain_chance();
    assert_eq!(p.chance, 3);
    p.credit_kill(2, 200);
    assert_eq!(p.score, 200);
    assert_eq!(p.enemy_kills.count_for_type(1), 1);
}

#[test]
fn initial_players_and_spawns() {
    let ps = initial_players(2);
    assert_eq!(ps.len(), 2);
    assert_eq!(ps[0].id, 1);
    assert_eq!(ps[1].id, 2);
    assert_eq!(ps[1].chance, 2);
    assert_eq!(ps[0].life, 1);
    assert!(ps[1].wants_initial_spawn(2));
    assert!(!ps[1].wants_initial_spawn(1));
    assert!(ps[0].accepts_spawn_request(1, false));
    assert!(!ps[0].accepts_spawn_request(1, true));
    assert!(!ps[0].accepts_spawn_request(2, false));
    assert_eq!(find_spawn_point(&vec![2, 1, 1], 1), Some(1));
    assert_eq!(find_spawn_point(&vec![2, 2], 1), None);
    assert_eq!(initial_players(0).len(), 0);
}

#[test]
fn chances_spent() {
    assert!(all_chances_spent(&vec![0, 0]));
    assert!(!all_chances_spent(&vec![0, 1]));
    assert!(all_chances_spent(&vec![]));
}

#[test]
fn kills_lookup() {
    let mut ps = initial_players(2);
    ps[1].enemy_kills.record(3, 500);
    assert_eq!(player_kills(&ps, 2).count_for_type(2), 1);
    assert_eq!(player_kills(&ps, 1).total_kills(), 0);
    assert_eq!(player_kills(&ps, 5).total_kills(), 0);
}

#[test]
fn movement_decisions() {
    let d = move_decision(true, Some(Facing::Up), true, true);
    assert!(d.halt && !d.playing);
    assert_eq!(d.sound, SoundChange::Stop);
    let d = move_decision(false, Some(Facing::Left), false, false);
    assert!(d.playing && d.rotate && !d.halt);
    assert_eq!(d.facing, FacingUpdate::Intent(Facing::Left));
    assert_eq!(d.sound, SoundChange::Start);
    let d = move_decision(false, None, true, true);
    assert_eq!(d.facing, FacingUpdate::FromVelocity);
    assert_eq!(d.sound, SoundChange::Keep);
    let d = move_decision(false, None, false, true);
    assert!(!d.playing);
    assert_eq!(d.sound, SoundChange::Stop);
    assert_eq!(d.facing, FacingUpdate::Keep);
}

#[test]
fn animations() {
    assert_eq!(move_animation_step(0, 2), (1, Some(0)));
    assert_eq!(move_animation_step(1, 2), (2, Some(1)));
    assert_eq!(move_animation_step(2, 2), (0, None));
    assert_eq!(effect_animation_step(1, 4), Some(2));
    assert_eq!(effect_animation_step(4, 4), None);
    assert_eq!(spawn_animation_step(1, 0, 3, 2, 0), SpawnStep::Frame { index: 2 });
    assert_eq!(spawn_animation_step(3, 0, 3, 2, 0), SpawnStep::Restart { index: 0, loops: 1 });
    assert_eq!(spawn_animation_step(3, 0, 3, 1, 0), SpawnStep::SpawnEnemy);
    assert_eq!(spawn_animation_step(3, 0, 3, 1, 2), SpawnStep::SpawnPlayer { id: 2 });
    assert_eq!(shield_frame_step(0, 0, 1), 1);
    assert_eq!(shield_frame_step(1, 0, 1), 0);
}
