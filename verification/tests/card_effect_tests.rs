//! Cards, effects and errors.

use game_core::card::{GcCard, GcCardType};
use game_core::effect::{GcActiveEffect, GcEffect, GcEffectType};
use game_core::error::GcError;

#[test]
fn test_gc_card_attack() {
    let card = GcCard::gc_new_attack("c1", "重击", 2, 15);
    assert_eq!(card.id, "c1");
    assert_eq!(card.name, "重击");
    assert_eq!(card.cost, 2);
    assert_eq!(card.base_damage, 15);
    assert_eq!(card.card_type, GcCardType::Attack);
    assert!(card.gc_needs_target());
}

#[test]
fn test_gc_card_defense() {
    let card = GcCard::gc_new_defense("c2", "格挡", 1, 10);
    assert_eq!(card.card_type, GcCardType::Defense);
    assert_eq!(card.base_defense, 10);
    assert!(!card.gc_needs_target());
}

#[test]
fn test_gc_effect_damage() {
    let effect = GcEffect::gc_damage(20);
    assert_eq!(effect.effect_type, GcEffectType::Damage);
    assert_eq!(effect.value, 20);
    assert_eq!(effect.duration, 0);
}

#[test]
fn test_gc_effect_poison() {
    let effect = GcEffect::gc_poison(5, 3);
    assert_eq!(effect.effect_type, GcEffectType::Poison);
    assert_eq!(effect.value, 5);
    assert_eq!(effect.duration, 3);
}

#[test]
fn test_gc_active_effect_tick() {
    let effect = GcEffect::gc_poison(5, 3);
    let mut active = GcActiveEffect::new(effect, "p1");

    assert_eq!(active.remaining_turns, 3);
    assert!(!active.gc_tick());
    assert!(!active.gc_tick());
    assert!(active.gc_tick());
}

#[test]
fn test_gc_error_display() {
    let error = GcError::GcNotYourTurn;
    assert_eq!(error.gc_message(), "不是你的回合");
    assert_eq!(error.gc_code(), 1002);
}

#[test]
fn test_gc_error_codes_and_messages() {
    assert_eq!(GcError::GcBattleEnded.gc_code(), 1001);
    assert_eq!(GcError::GcPlayerNotFound.gc_code(), 2001);
    assert_eq!(GcError::GcCardNotInHand.gc_code(), 3001);
    assert_eq!(GcError::GcNotEnoughEnergy.gc_code(), 3003);
    assert_eq!(GcError::GcInvalidTarget.gc_code(), 4001);
    assert_eq!(GcError::GcInternalError("x".to_string()).gc_code(), 9999);
    let action = GcError::GcInvalidAction("槽位已被占用".to_string());
    assert_eq!(action.gc_code(), 9001);
    assert_eq!(action.gc_message(), "无效操作: 槽位已被占用");
}

#[test]
fn test_template_instance_copies_fields() {
    let template = game_core::card::GcCardTemplate {
        id: "tpl_x".to_string(),
        name: "烈焰".to_string(),
        description: "火".to_string(),
        card_type: GcCardType::Skill,
        rarity: game_core::card::GcCardRarity::Epic,
        cost: 3,
        base_damage: 7,
        base_defense: 2,
        target_type: game_core::card::GcTargetType::AllEnemies,
        effects: vec![GcEffect::gc_damage(7)],
    };
    let card = template.gc_create_instance("inst_1");
    assert_eq!(card.id, "inst_1");
    assert_eq!(card.template_id, "tpl_x");
    assert_eq!(card.name, "烈焰");
    assert_eq!(card.cost, 3);
    assert_eq!(card.base_damage, 7);
    assert_eq!(card.effects.len(), 1);
}

#[test]
fn test_card_template_table() {
    let knight = game_core::card_templates::gc_get_card_template("card_knight_attack").unwrap();
    assert_eq!(knight.template_id, "card_knight_attack");
    assert_eq!(knight.name, "盾击");
    assert_eq!(knight.cost, 1);
    assert_eq!(knight.base_damage, 8);
    assert_eq!(knight.base_defense, 5);
    assert_eq!(knight.effects.len(), 2);
    let ult = game_core::card_templates::gc_get_card_template("card_assassin_ult").unwrap();
    assert_eq!(ult.template_id, "card_assassin_ult");
    assert!(game_core::card_templates::gc_get_card_template("card_unknown").is_none());
}
