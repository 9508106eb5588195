use tank_battle::enemy::EnemyNumberState;
use tank_battle::kill_records::EnemyKillRecords;
use tank_battle::level_info::{chance_rows, enemy_icon_cell, surplus_icons_from};
use tank_battle::map::{playable_cells, spawn_pos_id, FieldValue, MapLevel};
use tank_battle::player::{initial_players, PlayerInfo};
use tank_battle::props::{
    distinguish_prop_entities, enemy_pickup, player_pickup, plays_extra_life_sound, prop_from_index,
    prop_index, random_cell_index, EnemyPickup, PlayerPickup, PropType,
};
use tank_battle::screens::{
    after_loading, game_is_active, menu_choice, players_chosen, stage_complete, GameState,
    MenuChoice, Screen,
};
use tank_battle::shovel::{
    brick_overlaps_cell, camp_ring_cell_centers, in_camp_ring, walls_in_ring, CampShovelEffect,
};
use tank_battle::sprites::{enemy_sprite_set, player_sprite_set, tally_row_tank_type};
use tank_battle::stage_completion::{
    advance_stage, default_points_for_row, first_with_id, row_points, shown_points_per_kill,
    shown_total, tally_headers, AnimPhase, StageCompletionAnim, TallyStep,
};
use tank_battle::enemy::EnemyInfo;

fn run_tally(p1: &EnemyKillRecords, p2: &EnemyKillRecords, players: u8) -> (StageCompletionAnim, usize, usize) {
    let mut a = StageCompletionAnim::new();
    let mut ticks = 0;
    let mut counted = 0;
    loop {
        let step = a.tick(p1, p2, players);
        ticks += 1;
        if step == TallyStep::Counted {
            counted += 1;
        }
        if step == TallyStep::Idle {
            break;
        }
        assert!(ticks < 1000);
    }
    (a, ticks, counted)
}

#[test]
fn tally_counts_every_kill_two_players() {
    let mut p1 = EnemyKillRecords::default();
    let mut p2 = EnemyKillRecords::default();
    p1.record(1, 100);
    p1.record(1, 100);
    p1.record(3, 500);
    p2.record(2, 200);
    let (a, _, counted) = run_tally(&p1, &p2, 2);
    assert!(a.finished);
    assert_eq!(a.displayed, [[2, 0, 1], [0, 1, 0]]);
    assert_eq!(counted, 4);
    assert_eq!(shown_total(&a, 0), 3);
    assert_eq!(shown_total(&a, 1), 1);
}

#[test]
fn tally_ends_after_kills_plus_seven_ticks() {
    let mut p1 = EnemyKillRecords::default();
    let mut p2 = EnemyKillRecords::default();
    p1.record(1, 100);
    p1.record(3, 500);
    p1.record(3, 500);
    p2.record(2, 200);
    p2.record(2, 200);
    // 3 + 2 kills shown, then 7 more ticks.
    let length = 3 + 2 + 7;
    let mut a = StageCompletionAnim::new();
    for k in 0..length {
        assert!(!a.finished, "finished after {} ticks", k);
        a.tick(&p1, &p2, 2);
    }
    assert!(a.finished);
    assert_eq!(a.displayed, [[1, 0, 2], [0, 2, 0]]);
    assert_eq!(a.tick(&p1, &p2, 2), TallyStep::Idle);

    // One player: the second player's kills are not counted.
    let mut b = StageCompletionAnim::new();
    for _ in 0..(3 + 7 - 1) {
        b.tick(&p1, &p2, 1);
    }
    assert!(!b.finished);
    assert_eq!(b.tick(&p1, &p2, 1), TallyStep::Finished);
    assert_eq!(b.displayed, [[1, 0, 2], [0, 0, 0]]);
}

#[test]
fn tally_with_no_kills_takes_seven_ticks() {
    let p = EnemyKillRecords::default();
    let mut a = StageCompletionAnim::new();
    for _ in 0..6 {
        assert_eq!(a.tick(&p, &p, 2), TallyStep::Advanced);
    }
    assert_eq!(a.tick(&p, &p, 2), TallyStep::Finished);
    assert!(a.finished);
}

#[test]
fn tally_past_last_row_finishes() {
    let p = EnemyKillRecords::default();
    let mut a = StageCompletionAnim::new();
    a.row = 7;
    assert_eq!(a.tick(&p, &p, 2), TallyStep::Finished);
    assert!(a.finished);
    assert_eq!(a.row, 7);
}

#[test]
fn tally_headers_follow_players_and_mode() {
    let players = vec![PlayerInfo::fresh(2), PlayerInfo::fresh(1)];
    assert_eq!(first_with_id(&players, 1), Some(1));
    assert_eq!(first_with_id(&players, 3), None);
    assert_eq!(tally_headers(&players, 2), (Some(1), Some(0)));
    assert_eq!(tally_headers(&players, 1), (Some(1), None));
    let only_second = vec![PlayerInfo::fresh(2)];
    assert_eq!(tally_headers(&only_second, 2), (None, Some(0)));
    let none: Vec<PlayerInfo> = Vec::new();
    assert_eq!(tally_headers(&none, 2), (None, None));
}

#[test]
fn tally_one_player_leaves_second_column_empty() {
    let mut p1 = EnemyKillRecords::default();
    let mut p2 = EnemyKillRecords::default();
    p1.record(2, 200);
    p2.record(2, 200);
    let (a, ticks, counted) = run_tally(&p1, &p2, 1);
    assert_eq!(a.displayed, [[0, 1, 0], [0, 0, 0]]);
    assert_eq!(counted, 1);
    // 1 count + per row 2 advances + finish + idle
    assert_eq!(ticks, 1 + 6 + 1 + 1);
}

#[test]
fn tally_steps() {
    let mut p1 = EnemyKillRecords::default();
    p1.record(1, 100);
    let p2 = EnemyKillRecords::default();
    let mut a = StageCompletionAnim::new();
    assert_eq!(a.tick(&p1, &p2, 2), TallyStep::Counted);
    assert_eq!(a.displayed[0][0], 1);
    assert_eq!(a.tick(&p1, &p2, 2), TallyStep::Advanced);
    assert_eq!(a.phase, AnimPhase::Player2);
    assert_eq!(a.tick(&p1, &p2, 2), TallyStep::Advanced);
    assert_eq!((a.row, a.phase), (1, AnimPhase::Player1));
}

#[test]
fn tally_points() {
    assert_eq!(default_points_for_row(0), 100);
    assert_eq!(default_points_for_row(1), 200);
    assert_eq!(default_points_for_row(2), 500);
    let mut k = EnemyKillRecords::default();
    assert_eq!(shown_points_per_kill(&k, 2), 500);
    k.record(1, 150);
    assert_eq!(shown_points_per_kill(&k, 0), 150);
    k.record(2, 50);
    assert_eq!(shown_points_per_kill(&k, 1), 200);
    assert_eq!(row_points(3, 200), 600);
}

#[test]
fn next_stage_resets() {
    let mut level = 4usize;
    let mut enemies = EnemyNumberState { spawned_enemy_count: 20, max_enemy_count: 21, current_enemy_count: 0 };
    let mut players = initial_players(2);
    players[0].enemy_kills.record(1, 100);
    players[0].score = 100;
    advance_stage(&mut level, &mut enemies, &mut players);
    assert_eq!(level, 5);
    assert_eq!(enemies, EnemyNumberState::new());
    assert_eq!(players[0].enemy_kills.total_kills(), 0);
    assert_eq!(players[0].score, 100);
    let m = MapLevel { value: level };
    assert_eq!(m.value, 5);
}

#[test]
fn screens_rules() {
    assert!(game_is_active(GameState::Playing));
    assert!(!game_is_active(GameState::Pause));
    assert!(!game_is_active(GameState::GameSettlement));
    let done = EnemyNumberState { spawned_enemy_count: 20, max_enemy_count: 20, current_enemy_count: 0 };
    assert!(stage_complete(GameState::Playing, &done));
    assert!(!stage_complete(GameState::GameSettlement, &done));
    assert_eq!(menu_choice(true, true, true), MenuChoice::TwoPlayers);
    assert_eq!(menu_choice(false, true, true), MenuChoice::OnePlayer);
    assert_eq!(menu_choice(false, false, true), MenuChoice::Start);
    assert_eq!(menu_choice(false, false, false), MenuChoice::Nothing);
    assert_eq!(players_chosen(MenuChoice::TwoPlayers), Some(2));
    assert_eq!(players_chosen(MenuChoice::Start), None);
    assert_eq!(after_loading(true), Some(Screen::Menu));
    assert_eq!(after_loading(false), None);
}

#[test]
fn props_kinds() {
    let kinds = [
        PropType::Chance,
        PropType::Idle,
        PropType::Shovel,
        PropType::Boom,
        PropType::Star,
        PropType::Bulletproof,
        PropType::Gun,
        PropType::Waterproof,
    ];
    for (i, k) in kinds.iter().enumerate() {
        assert_eq!(prop_from_index(i as u64), *k);
        assert_eq!(prop_index(*k), i);
    }
    assert_eq!(prop_from_index(8), PropType::Boom);
    for _ in 0..200 {
        let p = PropType::random();
        assert!(prop_index(p) < 8);
    }
    assert!(plays_extra_life_sound(PropType::Chance));
    assert!(!plays_extra_life_sound(PropType::Gun));
    assert_eq!(distinguish_prop_entities(1, 2, false, true), (2, 1, true));
    assert_eq!(distinguish_prop_entities(1, 2, true, true), (1, 2, false));
}

#[test]
fn random_cells_in_range() {
    assert_eq!(random_cell_index(0), None);
    for _ in 0..200 {
        let i = random_cell_index(3).unwrap();
        assert!(i < 3);
    }
    assert_eq!(random_cell_index(1), Some(0));
}

#[test]
fn pickups() {
    let mut p = initial_players(1)[0];
    assert_eq!(player_pickup(PropType::Chance, &mut p), PlayerPickup::ExtraLife);
    assert_eq!(p.chance, 3);
    assert_eq!(player_pickup(PropType::Gun, &mut p), PlayerPickup::Upgraded);
    assert_eq!(p.level, 3);
    assert_eq!(player_pickup(PropType::Boom, &mut p), PlayerPickup::DestroyEnemies);
    let mut e = EnemyInfo::for_type(2, false);
    let mut s = EnemyNumberState::new();
    assert_eq!(enemy_pickup(PropType::Chance, &mut e, &mut s), EnemyPickup::Reinforcement);
    assert_eq!(s.max_enemy_count, 21);
    assert_eq!(enemy_pickup(PropType::Star, &mut e, &mut s), EnemyPickup::Upgraded);
    assert_eq!(e.level, 1);
    assert_eq!(enemy_pickup(PropType::Shovel, &mut e, &mut s), EnemyPickup::BreakCampWalls);
}

#[test]
fn camp_ring_geometry() {
    let c = camp_ring_cell_centers((100, 20));
    assert_eq!(c.len(), 12);
    assert_eq!(c[0], (88, 8));
    assert_eq!(c[11], (112, 32));
    assert!(brick_overlaps_cell((94, 14), (88, 8)));
    assert!(!brick_overlaps_cell((95, 14), (88, 8)));
    assert!(in_camp_ring((86, 10), &c));
    assert!(!in_camp_ring((100, 20), &c));
    let walls = vec![(1, (86, 10)), (2, (100, 60)), (3, (110, 30))];
    assert_eq!(walls_in_ring(&walls, &c), vec![1, 3]);
}

#[test]
fn shovel_effect_lifecycle() {
    let mut e = CampShovelEffect::new();
    assert!(!e.is_active(false));
    e.begin(vec![10, 11], vec![20, 21, 22]);
    assert!(e.is_active(false));
    assert!(!e.is_active(true));
    assert!(e.needs_tick());
    let (stones, bricks) = e.restore(false);
    assert_eq!(stones, vec![20, 21, 22]);
    assert_eq!(bricks, vec![10, 11]);
    assert!(!e.needs_tick());
}

#[test]
fn shovel_torn_down_by_enemy() {
    let mut e = CampShovelEffect::new();
    e.begin(vec![10, 11], vec![20, 21]);
    let mut cleared = false;
    let end = e.tear_down(&vec![10], &vec![20], false, &mut cleared);
    assert!(cleared);
    assert!(!end);
    assert_eq!(e.spawned_stones, vec![21]);
    assert_eq!(e.hidden_red_bricks, vec![11]);
    let end = e.tear_down(&vec![], &vec![21], false, &mut cleared);
    assert!(end);
    assert!(e.hidden_red_bricks.is_empty());
    let (stones, bricks) = e.restore(true);
    assert!(stones.is_empty() && bricks.is_empty());
}

#[test]
fn shovel_restore_after_clear_drops_bricks() {
    let mut e = CampShovelEffect::new();
    e.begin(vec![10], vec![20]);
    let (stones, bricks) = e.restore(true);
    assert_eq!(stones, vec![20]);
    assert!(bricks.is_empty());
}

#[test]
fn level_panel() {
    assert_eq!(enemy_icon_cell(0), (0, 0));
    assert_eq!(enemy_icon_cell(5), (1, 2));
    assert_eq!(surplus_icons_from(20, 17), Some(17));
    assert_eq!(surplus_icons_from(17, 17), None);
    let mut ps = initial_players(2);
    ps.swap(0, 1);
    assert_eq!(chance_rows(&ps, 2), vec![0, 1]);
    assert_eq!(chance_rows(&ps, 1), vec![1]);
    let ps3 = initial_players(3);
    assert_eq!(chance_rows(&ps3, 3), vec![2, 1, 0]);
}

#[test]
fn spawn_ids_and_cells() {
    assert_eq!(spawn_pos_id(&vec![]), 1);
    assert_eq!(spawn_pos_id(&vec![("name".to_string(), FieldValue::Other), ("id".to_string(), FieldValue::Int(Some(2)))]), 2);
    assert_eq!(spawn_pos_id(&vec![("id".to_string(), FieldValue::Int(None))]), 1);
    assert_eq!(spawn_pos_id(&vec![("id".to_string(), FieldValue::Int(Some(258)))]), 2);
    assert_eq!(spawn_pos_id(&vec![("id".to_string(), FieldValue::Other), ("id".to_string(), FieldValue::Int(Some(2)))]), 1);
    assert_eq!(playable_cells(&vec![1, 0, 0, 2, 0]), vec![1, 2, 4]);
}

#[test]
fn sprite_sets() {
    assert_eq!(player_sprite_set(1, 2), (1, 2));
    assert_eq!(player_sprite_set(2, 7), (2, 0));
    assert_eq!(player_sprite_set(3, 2), (1, 0));
    assert_eq!(enemy_sprite_set(3, true), (3, true));
    assert_eq!(enemy_sprite_set(0, false), (1, false));
    assert_eq!(tally_row_tank_type(0), 1);
    assert_eq!(tally_row_tank_type(1), 2);
    assert_eq!(tally_row_tank_type(2), 3);
}
