//! Players and the battle orchestrator.

use game_core::battle::{gc_execute_play_card, gc_validate_play_card, GcBattleState};
use game_core::boss::{gc_create_abyssal_titan, gc_create_shadow_lurker};
use game_core::card::GcCard;
use game_core::equipment_templates::GcEquipmentTemplates;
use game_core::error::GcError;
use game_core::player::{GcPlayer, GcPlayerStats};
use game_core::profession::GcProfessionType;
use game_core::types::GcConfig;

fn create_test_battle() -> GcBattleState {
    let mut p1 = GcPlayer::gc_new("p1", "玩家1");
    let p2 = GcPlayer::gc_new("p2", "玩家2");

    let card = GcCard::gc_new_attack("c1", "重击", 1, 20);
    p1.hand.push(card);

    GcBattleState::gc_new("battle1", vec![p1, p2])
}

#[test]
fn test_gc_battle_state_new() {
    let battle = create_test_battle();
    assert_eq!(battle.turn, 1);
    assert_eq!(battle.current_player_index, 0);
    assert_eq!(battle.players.len(), 2);
}

#[test]
fn test_gc_validate_play_card() {
    let battle = create_test_battle();

    let result = gc_validate_play_card(&battle, "p1", "c1", "p2");
    assert!(result.is_ok());

    let result = gc_validate_play_card(&battle, "p2", "c1", "p1");
    assert!(matches!(result, Err(GcError::GcNotYourTurn)));
}

#[test]
fn test_gc_execute_play_card() {
    let mut battle = create_test_battle();

    let result = gc_execute_play_card(&mut battle, "p1", "c1", "p2");
    assert!(result.success);
    assert!(result.damage_dealt > 0);

    let target = battle.gc_find_player("p2").unwrap();
    assert!(target.stats.hp < GcConfig::DEFAULT_HP);
}

#[test]
fn test_play_card_damage_formula() {
    // raw = card damage + attacker attack; reduction = three tenths of the
    // target's defense, truncated; the rest lands.
    let mut battle = create_test_battle();
    let result = gc_execute_play_card(&mut battle, "p1", "c1", "p2");
    // 20 + 10 = 30 raw; 5 * 3 / 10 = 1 reduced; 29 land.
    assert_eq!(result.damage_dealt, 29);
    let target = battle.gc_find_player("p2").unwrap();
    assert_eq!(target.stats.hp, 71);
}

#[test]
fn test_gc_player_new() {
    let player = GcPlayer::gc_new("p1", "测试玩家");
    assert_eq!(player.id, "p1");
    assert_eq!(player.name, "测试玩家");
    assert_eq!(player.stats.hp, GcConfig::DEFAULT_HP);
    assert!(player.gc_can_act());
}

#[test]
fn test_gc_player_stats_damage() {
    let mut stats = GcPlayerStats::default();
    let damage = stats.gc_take_damage(30);
    assert_eq!(damage, 30);
    assert_eq!(stats.hp, 70);
    assert!(stats.gc_is_alive());
}

#[test]
fn test_gc_player_stats_heal() {
    let mut stats = GcPlayerStats::default();
    stats.hp = 50;
    let healed = stats.gc_heal(30);
    assert_eq!(healed, 30);
    assert_eq!(stats.hp, 80);

    let healed2 = stats.gc_heal(50);
    assert_eq!(healed2, 20);
    assert_eq!(stats.hp, 100);
}

#[test]
fn test_gc_player_rpg_stats() {
    let mut player = GcPlayer::gc_new("p1", "RPG Player");
    player.gc_init_rpg(GcProfessionType::Swordsman);

    // Swordsman level 1: vitality 10, strength 11, intelligence 3.
    assert_eq!(player.stats.max_hp, 100);
    assert_eq!(player.stats.attack, 22);
    assert_eq!(player.stats.defense, 11);

    player.level = 5;
    player.gc_update_rpg_stats();

    // Swordsman level 5: vitality 18, strength 23.
    assert_eq!(player.stats.max_hp, 180);
    assert_eq!(player.stats.attack, 46);

    let mut sword = GcEquipmentTemplates::iron_sword();
    sword.id = "sword_1".to_string();

    player.inventory.as_mut().unwrap().gc_add_item(sword.clone()).unwrap();
    player
        .inventory
        .as_mut()
        .unwrap()
        .gc_equip_item(&sword.id, 5, GcProfessionType::Swordsman)
        .unwrap();

    player.gc_update_rpg_stats();

    // Strength 28 gives 56 physical attack, plus the sword's flat 12.
    assert_eq!(player.stats.attack, 68);
}

#[test]
fn test_gc_player_draw_cards() {
    let mut player = GcPlayer::gc_new("p1", "抽牌手");
    for i in 0..3 {
        player.deck.push(GcCard::gc_new_attack(&format!("d{}", i), "打击", 1, 5));
    }
    player.discard.push(GcCard::gc_new_attack("x", "打击", 1, 5));
    let drawn = player.gc_draw_cards(5);
    assert_eq!(drawn, 4);
    assert_eq!(player.hand.len(), 4);
    assert!(player.deck.is_empty());
    assert!(player.discard.is_empty());
}

#[test]
fn test_rejected_play_reports_nothing() {
    // A play out of turn fails with the verdict's message and records no
    // card, damage, effects or kill.
    let mut battle = create_test_battle();
    let result = gc_execute_play_card(&mut battle, "p2", "c1", "p1");
    assert!(!result.success);
    assert_eq!(result.error.as_deref(), Some("不是你的回合"));
    assert!(result.card_used.is_none());
    assert_eq!(result.damage_dealt, 0);
    assert!(result.effects_triggered.is_empty());
    assert!(!result.target_killed);
    let target = battle.gc_find_player("p1").unwrap();
    assert_eq!(target.stats.hp, GcConfig::DEFAULT_HP);
}

#[test]
fn test_refresh_pool_spends_and_conserves() {
    let mut battle = create_test_battle();
    let total_before = battle.card_pool.display.len()
        + battle.card_pool.draw_pile.len()
        + battle.card_pool.discard_pile.len();
    assert!(battle.gc_refresh_pool("p1").is_ok());
    let p1 = battle.gc_find_player("p1").unwrap();
    assert_eq!(p1.stats.action_points, 4);
    let total_after = battle.card_pool.display.len()
        + battle.card_pool.draw_pile.len()
        + battle.card_pool.discard_pile.len();
    assert_eq!(total_before, total_after);
    // Out of turn, the refresh is refused and nothing is spent.
    assert!(battle.gc_refresh_pool("p2").is_err());
    let p2 = battle.gc_find_player("p2").unwrap();
    assert_eq!(p2.stats.action_points, 5);
}

#[test]
fn test_fresh_bosses_start_without_rage() {
    assert_eq!(gc_create_shadow_lurker().current_rage, 0);
    assert_eq!(gc_create_abyssal_titan().current_rage, 0);
}

#[test]
fn test_battle_victory_evaluation() {
    let mut battle = create_test_battle();
    {
        let idx = 1;
        battle.players[idx].stats.hp = 0;
    }
    battle.gc_check_battle_end();
    assert!(battle.gc_is_finished());
    assert_eq!(battle.winner_id.as_deref(), Some("p1"));
}

#[test]
fn test_acquire_card_from_pool_flow() {
    let mut battle = create_test_battle();
    let first_id = battle.card_pool.display[0].id.clone();
    let got = battle.gc_acquire_card_from_pool("p1", &first_id);
    assert!(got.is_ok());
    assert_eq!(got.unwrap().id, first_id);
    let p1 = battle.gc_find_player("p1").unwrap();
    assert_eq!(p1.stats.action_points, 4);
    assert_eq!(p1.hand.len(), 2);
    // A player out of turn is refused.
    let other = battle.gc_acquire_card_from_pool("p2", "whatever");
    assert!(matches!(other, Err(GcError::GcNotYourTurn)));
}

#[test]
fn test_turn_combat_exchange() {
    let mut battle = create_test_battle();
    battle.players[0]
        .battlefield
        .gc_deploy_to_slot(0, GcCard::gc_new_attack("fa", "打击", 1, 12))
        .unwrap();
    let result = battle.gc_execute_turn_combat("p1").unwrap();
    // The empty opposing lane passes the full damage to the other player.
    assert_eq!(result.opponent_damage_taken, 12);
    assert_eq!(result.player_damage_taken, 0);
    let p2 = battle.gc_find_player("p2").unwrap();
    assert_eq!(p2.stats.hp, 88);
}
