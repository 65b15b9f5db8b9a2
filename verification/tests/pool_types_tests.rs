//! The shared card pool, acquisition contexts and the core types.

use game_core::card::GcCardType;
use game_core::talent::{GcPlayerTalents, GcTalentTree};
use game_core::talent_templates::gc_create_knight_talent_tree;
use game_core::types::GcSaveVersion;
use game_core::card_acquisition::{GcAcquisitionContext, GcAcquisitionResult, GcAcquisitionSlot};
use game_core::card_pool::{gc_generate_card_pool, GcCardPool};
use game_core::types::{GcConfig, GcDamageResult};

#[test]
fn test_gc_config() {
    assert_eq!(GcConfig::MAX_HAND_SIZE, 10);
    assert_eq!(GcConfig::DEFAULT_HP, 100);
}

#[test]
fn test_gc_damage_result() {
    let result = GcDamageResult::new(100, 30, 70);
    assert_eq!(result.raw_damage, 100);
    assert_eq!(result.reduced_damage, 30);
    assert_eq!(result.final_damage, 70);
    assert!(!result.is_critical);
}

#[test]
fn test_gc_card_pool_new() {
    let pool = GcCardPool::gc_default();
    assert_eq!(pool.config.display_size, 5);
    assert_eq!(pool.config.acquire_cost, 1);
}

#[test]
fn test_gc_card_pool_initialize() {
    let mut pool = GcCardPool::gc_default();
    pool.gc_initialize();

    assert_eq!(pool.display.len(), 5);
    assert!(pool.draw_pile.len() > 0);
}

#[test]
fn test_gc_acquire_card() {
    let mut pool = GcCardPool::gc_default();
    pool.gc_initialize();

    let first_card_id = pool.display[0].id.clone();
    let acquired = pool.gc_acquire_card(&first_card_id);

    assert!(acquired.is_some());
    assert_eq!(acquired.unwrap().id, first_card_id);
    assert_eq!(pool.display.len(), 5);
}

#[test]
fn test_gc_generate_card_pool() {
    let pool = gc_generate_card_pool(50);
    assert_eq!(pool.len(), 50);

    let attack_count = pool.iter().filter(|c| matches!(c.card_type, GcCardType::Attack)).count();
    let defense_count = pool.iter().filter(|c| matches!(c.card_type, GcCardType::Defense)).count();

    assert!(attack_count >= 15);
    assert!(defense_count >= 10);
}

#[test]
fn test_generated_pool_values() {
    let pool = gc_generate_card_pool(50);
    // Attack region: ids carry a running number, damage cycles 5, 10, 15.
    assert_eq!(pool[0].id, "pool_atk_0");
    assert_eq!(pool[0].base_damage, 5);
    assert_eq!(pool[1].base_damage, 10);
    assert_eq!(pool[2].base_damage, 15);
    assert_eq!(pool[3].base_damage, 5);
    // Defense region starts at index 20.
    assert_eq!(pool[20].id, "pool_def_20");
    assert_eq!(pool[20].base_defense, 5);
    assert_eq!(pool[20].card_type, GcCardType::Defense);
    // Heal region starts at index 32; special region fills the rest.
    assert_eq!(pool[32].id, "pool_heal_32");
    assert_eq!(pool[42].id, "pool_special_42");
    assert_eq!(pool[42].card_type, GcCardType::Special);
    assert_eq!(pool[42].cost, 2);
}

#[test]
fn test_shuffle_preserves_cards() {
    // The shuffle behind the pool only reorders: after initializing, the
    // pool holds exactly the generated fifty cards' ids.
    let mut pool = GcCardPool::gc_default();
    pool.gc_initialize();
    let mut ids: Vec<String> = Vec::new();
    for c in pool.display.iter().chain(pool.draw_pile.iter()) {
        ids.push(c.id.clone());
    }
    ids.sort();
    let mut expected: Vec<String> = gc_generate_card_pool(50).iter().map(|c| c.id.clone()).collect();
    expected.sort();
    assert_eq!(ids, expected);
}

#[test]
fn test_acquisition_context() {
    let mut ctx = GcAcquisitionContext::with_gold(10);

    assert!(ctx.can_afford(5));
    assert!(ctx.can_afford(10));
    assert!(!ctx.can_afford(11));

    assert!(ctx.spend(3));
    assert_eq!(ctx.gold, 7);
    assert_eq!(ctx.gold_spent, 3);

    assert!(!ctx.spend(10));
    assert_eq!(ctx.gold, 7);
}

#[test]
fn test_acquisition_slot() {
    let slot = GcAcquisitionSlot::new(0, "monster_1", "火龙", 3, 2)
        .with_frozen(true)
        .with_description("强力火属性怪兽");

    assert_eq!(slot.index, 0);
    assert_eq!(slot.cost, 3);
    assert!(slot.frozen);
    assert!(slot.description.is_some());
}

#[test]
fn test_acquisition_result() {
    let success: GcAcquisitionResult<String> = GcAcquisitionResult::success("物品".to_string(), 2);
    assert!(success.success);
    assert_eq!(success.cost, 2);

    let failure: GcAcquisitionResult<String> = GcAcquisitionResult::failure("金币不足");
    assert!(!failure.success);
    assert!(failure.error.is_some());
}

#[test]
fn test_save_version_rules() {
    let current = GcSaveVersion::new(2, 0, 0);
    let older_minor = GcSaveVersion::new(2, 1, 0);
    let other_major = GcSaveVersion::new(1, 9, 9);
    assert!(current.is_compatible_with(&older_minor));
    assert!(current.needs_migration(&older_minor));
    assert!(!current.needs_reset(&older_minor));
    assert!(current.needs_reset(&other_major));
    assert_eq!(GcSaveVersion::default(), current);
}

#[test]
fn test_talent_tree_flow() {
    let mut talents = GcPlayerTalents::gc_new("p1");
    talents.gc_add_points(10);
    talents.gc_add_tree(gc_create_knight_talent_tree());
    talents.gc_upgrade_talent("tree_knight_guardian", "knight_t1_vit", 1).unwrap();
    assert_eq!(talents.available_points, 9);
    assert_eq!(talents.spent_points, 1);
    // The dependent node opens only once its prerequisite is bought.
    talents.gc_upgrade_talent("tree_knight_guardian", "knight_t2_toughness", 1).unwrap();
    assert_eq!(talents.available_points, 7);
    let refund = talents.gc_reset_all();
    assert_eq!(refund, 3);
    assert_eq!(talents.available_points, 10);
    assert_eq!(talents.spent_points, 0);
    let _ = GcTalentTree::gc_new("t", "空", None);
}
