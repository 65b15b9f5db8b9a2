//! The battlefield slot engine: deployment, turn gating, damage and the
//! lane-mirrored sweep.

use game_core::battlefield::GcBattlefield;
use game_core::card::GcCard;

#[test]
fn test_gc_battlefield_new() {
    let bf = GcBattlefield::gc_default();
    assert_eq!(bf.slots.len(), 5);
    assert!(bf.gc_get_empty_slots().len() == 5);
}

#[test]
fn test_gc_deploy_card() {
    let mut bf = GcBattlefield::gc_default();
    let card = GcCard::gc_new_attack("card1", "打击", 1, 10);

    assert!(bf.gc_deploy_to_slot(0, card).is_ok());
    assert!(!bf.slots[0].gc_is_empty());
    assert_eq!(bf.gc_get_empty_slots().len(), 4);
}

#[test]
fn test_gc_slot_cannot_double_deploy() {
    let mut bf = GcBattlefield::gc_default();
    let card1 = GcCard::gc_new_attack("card1", "打击", 1, 10);
    let card2 = GcCard::gc_new_attack("card2", "重击", 1, 15);

    assert!(bf.gc_deploy_to_slot(0, card1).is_ok());
    assert!(bf.gc_deploy_to_slot(0, card2).is_err());
}

#[test]
fn test_gc_attack_after_turn() {
    let mut bf = GcBattlefield::gc_default();
    let card = GcCard::gc_new_attack("card1", "打击", 1, 10);

    bf.gc_deploy_to_slot(0, card).unwrap();
    assert!(!bf.slots[0].can_attack);

    bf.gc_on_turn_start();
    assert!(bf.slots[0].can_attack);
}

#[test]
fn test_gc_slot_take_damage() {
    let mut bf = GcBattlefield::gc_default();
    let card = GcCard::gc_new_attack("card1", "打击", 1, 10);

    bf.gc_deploy_to_slot(0, card).unwrap();
    assert_eq!(bf.slots[0].remaining_hp, 10);

    let destroyed = bf.slots[0].gc_take_damage(5);
    assert!(!destroyed);
    assert_eq!(bf.slots[0].remaining_hp, 5);

    let destroyed = bf.slots[0].gc_take_damage(10);
    assert!(destroyed);
    assert!(bf.slots[0].gc_is_empty());
}

#[test]
fn test_sweep_empty_lane_hits_player() {
    // An attacker in slot 2 facing an empty opposing slot 2 deals its full
    // damage to the opposing player, whatever stands in the other lanes.
    let mut attacker = GcBattlefield::gc_default();
    attacker.gc_deploy_to_slot(2, GcCard::gc_new_attack("a2", "打击", 1, 9)).unwrap();
    attacker.gc_on_turn_start();

    let mut defender = GcBattlefield::gc_default();
    defender.gc_deploy_to_slot(0, GcCard::gc_new_defense("d0", "格挡", 1, 30)).unwrap();
    defender.gc_deploy_to_slot(4, GcCard::gc_new_defense("d4", "格挡", 1, 30)).unwrap();

    let result = attacker.gc_attack_battlefield(&mut defender);
    assert_eq!(result.player_damage, 9);
    assert_eq!(result.attacks.len(), 1);
    assert!(result.attacks[0].hit_player);
    assert_eq!(result.attacks[0].damage, 9);
    assert_eq!(result.attacks[0].attacker_slot, 2);
    assert_eq!(result.attacks[0].target_slot, 2);
    // The other defending lanes are untouched.
    assert_eq!(defender.slots[0].remaining_hp, 30);
    assert_eq!(defender.slots[4].remaining_hp, 30);
    // Every attacker is spent afterwards.
    assert!(!attacker.slots[2].can_attack);
}

#[test]
fn test_sweep_occupied_lane_hits_card() {
    let mut attacker = GcBattlefield::gc_default();
    attacker.gc_deploy_to_slot(1, GcCard::gc_new_attack("a1", "重击", 1, 15)).unwrap();
    attacker.gc_on_turn_start();

    let mut defender = GcBattlefield::gc_default();
    defender.gc_deploy_to_slot(1, GcCard::gc_new_defense("d1", "铁壁", 1, 12)).unwrap();

    let result = attacker.gc_attack_battlefield(&mut defender);
    assert_eq!(result.player_damage, 0);
    assert_eq!(result.cards_destroyed, 1);
    assert!(defender.slots[1].gc_is_empty());
    assert!(result.attacks[0].target_destroyed);
    assert!(!result.attacks[0].hit_player);
}

#[test]
fn test_on_turn_start_idempotent() {
    let mut bf = GcBattlefield::gc_default();
    bf.gc_deploy_to_slot(0, GcCard::gc_new_attack("c0", "打击", 1, 5)).unwrap();
    bf.gc_deploy_to_slot(3, GcCard::gc_new_defense("c3", "格挡", 1, 5)).unwrap();

    let mut once = bf.clone();
    once.gc_on_turn_start();
    let mut twice = bf;
    twice.gc_on_turn_start();
    twice.gc_on_turn_start();

    for i in 0..5 {
        assert_eq!(once.slots[i].can_attack, twice.slots[i].can_attack);
    }
}
