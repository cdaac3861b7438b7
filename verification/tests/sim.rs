use survivor_core::movement::{input_direction, seek_delta};
use survivor_core::store::{Faction, Health, Store};
use survivor_core::translate::AttackEvent;

const BAR_WIDTH: i32 = 30;

fn arena() -> (Store, usize, usize) {
    let mut store = Store::new();
    let player = store.spawn_player(100, 100);
    let enemy = store.spawn_enemy(50, 50, 10, 50);
    (store, player, enemy)
}

#[test]
fn empty_store_has_no_player() {
    let store = Store::new();
    assert_eq!(store.entity_count(), 0);
    assert_eq!(store.player_health(), None);
}

#[test]
fn spawns_hand_out_sequential_handles() {
    let (mut store, player, enemy) = arena();
    assert_eq!(player, 0);
    assert_eq!(enemy, 1);
    let bar = store.spawn_lifebar(player);
    assert_eq!(bar, 2);
    assert_eq!(store.entity_count(), 3);
}

#[test]
fn faction_queries_classify_handles() {
    let (store, player, enemy) = arena();
    assert!(store.is_player(player));
    assert!(!store.is_enemy(player));
    assert!(store.is_enemy(enemy));
    assert!(!store.is_player(enemy));
    assert!(!store.is_player(99));
    assert!(!store.is_enemy(99));
}

#[test]
fn overlay_reads_player_health() {
    let (store, _, _) = arena();
    assert_eq!(store.player_health(), Some(Health { current: 100, max: 100 }));
}

#[test]
fn attribute_lookups_answer_missing_attributes_with_none() {
    let (mut store, player, enemy) = arena();
    let bar = store.spawn_lifebar(player);
    assert_eq!(store.attack_of(player), None);
    assert_eq!(store.attack_of(enemy), Some(10));
    assert_eq!(store.attack_of(99), None);
    assert_eq!(store.seek_speed_of(enemy), Some(50));
    assert_eq!(store.seek_speed_of(player), None);
    assert_eq!(store.health_of(bar), None);
    assert_eq!(store.lifebar_fill_of(bar), None);
}

#[test]
fn collision_pair_is_symmetric() {
    let (store, player, enemy) = arena();
    let forward = store.translate_collisions(&vec![(player, enemy)]);
    let backward = store.translate_collisions(&vec![(enemy, player)]);
    let expected = AttackEvent { attacker: enemy, target: player };
    assert_eq!(forward, vec![expected]);
    assert_eq!(backward, vec![expected]);
}

#[test]
fn same_faction_or_untagged_pairs_emit_nothing() {
    let mut store = Store::new();
    let player = store.spawn_player(100, 100);
    let enemy_a = store.spawn_enemy(50, 50, 10, 50);
    let enemy_b = store.spawn_enemy(50, 50, 10, 50);
    let bar = store.spawn_lifebar(player);
    let events = store.translate_collisions(
        &vec![(enemy_a, enemy_b), (player, player), (player, bar), (bar, enemy_a), (7, 8)],
    );
    assert_eq!(events, vec![]);
}

#[test]
fn one_hit_subtracts_exact_damage() {
    let (mut store, player, enemy) = arena();
    let defeated = store.combat_step(&vec![(player, enemy)], BAR_WIDTH);
    assert_eq!(store.player_health(), Some(Health { current: 90, max: 100 }));
    assert_eq!(defeated, vec![]);
}

#[test]
fn two_hits_in_one_batch_accumulate_once() {
    let mut store = Store::new();
    let player = store.spawn_player(100, 100);
    let enemy_a = store.spawn_enemy(50, 50, 10, 50);
    let enemy_b = store.spawn_enemy(50, 50, 15, 50);
    let defeated = store.combat_step(&vec![(enemy_a, player), (player, enemy_b)], BAR_WIDTH);
    assert_eq!(store.player_health(), Some(Health { current: 75, max: 100 }));
    assert_eq!(defeated, vec![]);
    // A later step with no new overlap-start pairs applies nothing again.
    let defeated = store.combat_step(&vec![], BAR_WIDTH);
    assert_eq!(store.player_health(), Some(Health { current: 75, max: 100 }));
    assert_eq!(defeated, vec![]);
}

#[test]
fn attacker_without_damage_attribute_is_dropped() {
    let (mut store, player, _) = arena();
    let bar = store.spawn_lifebar(player);
    let events = vec![
        AttackEvent { attacker: bar, target: player },
        AttackEvent { attacker: 99, target: player },
    ];
    let defeated = store.resolve_attacks(&events);
    assert_eq!(store.player_health(), Some(Health { current: 100, max: 100 }));
    assert_eq!(defeated, vec![]);
}

#[test]
fn target_without_health_is_dropped() {
    let (mut store, player, enemy) = arena();
    let bar = store.spawn_lifebar(player);
    let events = vec![
        AttackEvent { attacker: enemy, target: bar },
        AttackEvent { attacker: enemy, target: 99 },
    ];
    let defeated = store.resolve_attacks(&events);
    assert_eq!(store.health_of(bar), None);
    assert_eq!(defeated, vec![]);
}

#[test]
fn defeat_is_detected_on_the_unclamped_value() {
    let mut store = Store::new();
    let player = store.spawn_player(5, 100);
    let enemy = store.spawn_enemy(50, 50, 10, 50);
    let defeated = store.combat_step(&vec![(player, enemy)], BAR_WIDTH);
    // Health goes negative before any clamp; the threshold crossing is reported.
    assert_eq!(store.player_health(), Some(Health { current: -5, max: 100 }));
    assert_eq!(defeated, vec![player]);
}

#[test]
fn every_defeating_event_is_reported() {
    let mut store = Store::new();
    let player = store.spawn_player(10, 100);
    let enemy_a = store.spawn_enemy(50, 50, 10, 50);
    let enemy_b = store.spawn_enemy(50, 50, 10, 50);
    let defeated = store.combat_step(&vec![(player, enemy_a), (player, enemy_b)], BAR_WIDTH);
    assert_eq!(store.player_health(), Some(Health { current: -10, max: 100 }));
    assert_eq!(defeated, vec![player, player]);
}

#[test]
fn health_never_exceeds_max_after_resolution() {
    let mut store = Store::new();
    let player = store.spawn_player(100, 100);
    let enemy = store.spawn_enemy(50, 50, 0, 50);
    store.combat_step(&vec![(player, enemy)], BAR_WIDTH);
    let health = store.player_health().unwrap();
    assert!(health.current <= health.max);
    assert_eq!(health, Health { current: 100, max: 100 });
}

#[test]
fn half_health_yields_left_anchored_bar_geometry() {
    let geometry = Store::lifebar_geometry(50, 100, BAR_WIDTH);
    let fill_width = geometry.width_num as f32 / geometry.denom as f32;
    let fill_x_offset = geometry.offset_num as f32 / geometry.denom as f32;
    assert_eq!(fill_width, 15.0);
    assert_eq!(fill_x_offset, -7.5);
}

#[test]
fn full_health_fills_the_whole_bar_at_offset_zero() {
    let geometry = Store::lifebar_geometry(100, 100, BAR_WIDTH);
    assert_eq!(geometry.width_num as f32 / geometry.denom as f32, 30.0);
    assert_eq!(geometry.offset_num as f32 / geometry.denom as f32, 0.0);
}

#[test]
fn changed_health_propagates_to_the_owned_bar() {
    let mut store = Store::new();
    let player = store.spawn_player(100, 100);
    let enemy = store.spawn_enemy(50, 50, 50, 50);
    let bar = store.spawn_lifebar(player);
    store.combat_step(&vec![(player, enemy)], BAR_WIDTH);
    assert_eq!(store.player_health(), Some(Health { current: 50, max: 100 }));
    let geometry = store.lifebar_fill_of(bar).expect("bar must be recomputed");
    assert_eq!(geometry.width_num as f32 / geometry.denom as f32, 15.0);
    assert_eq!(geometry.offset_num as f32 / geometry.denom as f32, -7.5);
}

#[test]
fn unchanged_health_leaves_the_bar_untouched() {
    let mut store = Store::new();
    let player = store.spawn_player(100, 100);
    let enemy = store.spawn_enemy(50, 50, 10, 50);
    let player_bar = store.spawn_lifebar(player);
    let enemy_bar = store.spawn_lifebar(enemy);
    store.combat_step(&vec![(player, enemy)], BAR_WIDTH);
    let after_hit = store.lifebar_fill_of(player_bar);
    assert!(after_hit.is_some());
    // The enemy's health never changed, so its bar was never written.
    assert_eq!(store.lifebar_fill_of(enemy_bar), None);
    // A step without combat changes no health, so no bar is rewritten.
    store.combat_step(&vec![], BAR_WIDTH);
    assert_eq!(store.lifebar_fill_of(player_bar), after_hit);
    assert_eq!(store.lifebar_fill_of(enemy_bar), None);
}

#[test]
fn input_axes_combine_and_cancel() {
    assert_eq!(input_direction(false, false, false, false), (0, 0));
    assert_eq!(input_direction(true, false, false, false), (0, 1));
    assert_eq!(input_direction(false, true, false, false), (0, -1));
    assert_eq!(input_direction(false, false, true, false), (-1, 0));
    assert_eq!(input_direction(false, false, false, true), (1, 0));
    assert_eq!(input_direction(true, false, true, false), (-1, 1));
    assert_eq!(input_direction(true, true, true, true), (0, 0));
}

#[test]
fn coincident_positions_give_no_seek_direction() {
    assert_eq!(seek_delta(100, 0, 100, 0), None);
    assert_eq!(seek_delta(0, 0, 0, 0), None);
}

#[test]
fn separated_positions_give_the_offset_toward_the_player() {
    assert_eq!(seek_delta(100, 0, 0, 0), Some((-100, 0)));
    assert_eq!(seek_delta(-3, 7, 4, -2), Some((7, -9)));
}

#[test]
fn player_faction_is_tracked_for_the_unique_player() {
    let (store, player, enemy) = arena();
    assert_eq!(store.entities[player].faction, Some(Faction::Player));
    assert_eq!(store.entities[enemy].faction, Some(Faction::Enemy));
    assert_eq!(store.player, Some(player));
}
