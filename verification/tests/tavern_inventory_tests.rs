//! The tavern shop, equipment and the bag.

use game_core::economy::GcEconomy;
use game_core::equipment::{GcEquipment, GcEquipmentSlot, GcRarity};
use game_core::inventory::GcInventory;
use game_core::monster::GcMonster;
use game_core::profession::GcProfessionType;
use game_core::tavern_shop::{gc_sell_monster, GcMonsterPool, GcTavernShop};
use game_core::terrain::GcMonsterAttribute;

#[test]
fn test_shop_basics() {
    let shop = GcTavernShop::new();
    assert_eq!(shop.shop_level, 1);
    assert!(!shop.has_available());
}

#[test]
fn test_refresh_and_buy() {
    let mut shop = GcTavernShop::with_level(3);
    let mut economy = GcEconomy::with_gold(10);
    let pool = GcMonsterPool::with_defaults();
    let rolls: Vec<u8> = (0..10).collect();

    assert!(shop.refresh(&mut economy, &pool, &rolls));
    assert_eq!(economy.gold, 8);
    assert!(shop.has_available());

    let monster = shop.buy(0, &mut economy);
    assert!(monster.is_some());
}

#[test]
fn test_freeze() {
    let mut shop = GcTavernShop::new();
    let pool = GcMonsterPool::with_defaults();
    let rolls: Vec<u8> = (0..10).collect();

    shop.free_refresh(&pool, &rolls);

    shop.toggle_freeze(0);
    assert!(shop.is_frozen(0));

    shop.free_refresh(&pool, &[50, 50, 50, 50, 50, 50, 50, 50, 50, 50]);

    assert!(!shop.is_frozen(0));
}

#[test]
fn test_sell_monster() {
    let mut economy = GcEconomy::new();
    let monster = GcMonster::new_with_star(
        "test",
        "test",
        "Test",
        4,
        GcMonsterAttribute::Fire,
        100,
        100,
        100,
        2,
        0,
    );

    let earned = gc_sell_monster(&monster, &mut economy);
    assert_eq!(earned, 2);
}

#[test]
fn test_frozen_slot_survives_refresh() {
    let mut shop = GcTavernShop::new();
    let pool = GcMonsterPool::with_defaults();
    shop.free_refresh(&pool, &[0, 0, 0, 0, 0, 0, 1, 2, 0, 1]);
    let kept_id = shop.get_slot(0).unwrap().id.clone();
    shop.toggle_freeze(0);
    shop.free_refresh(&pool, &[9, 9, 9, 9, 9, 3, 3, 3, 3, 3]);
    assert_eq!(shop.get_slot(0).unwrap().id, kept_id);
}

#[test]
fn test_buy_refused_without_gold() {
    let mut shop = GcTavernShop::new();
    let pool = GcMonsterPool::with_defaults();
    shop.free_refresh(&pool, &[0, 0, 0, 0, 0, 0, 0, 0, 0, 0]);
    let mut economy = GcEconomy::with_gold(0);
    assert!(shop.buy(0, &mut economy).is_none());
    assert_eq!(economy.gold, 0);
    assert!(shop.get_slot(0).is_some());
}

fn create_test_sword(id: &str) -> GcEquipment {
    let mut sword = GcEquipment::gc_new(id, "tpl_sword", "铁剑", GcEquipmentSlot::Weapon, GcRarity::Common);
    sword.base_stats.strength = 5;
    sword.combat_stats.physical_attack = 10;
    sword
}

#[test]
fn test_gc_equipment_creation() {
    let sword = GcEquipment::gc_new(
        "sword_1",
        "tpl_sword_1",
        "新手铁剑",
        GcEquipmentSlot::Weapon,
        GcRarity::Common,
    );

    assert_eq!(sword.name, "新手铁剑");
    assert_eq!(sword.slot, GcEquipmentSlot::Weapon);
    assert_eq!(sword.rarity, GcRarity::Common);
}

#[test]
fn test_gc_equipment_requirements() {
    let sword = GcEquipment::gc_new(
        "sword_1",
        "tpl_sword_1",
        "骑士长剑",
        GcEquipmentSlot::Weapon,
        GcRarity::Rare,
    );

    let sword = sword.gc_with_level(10).gc_with_profession(GcProfessionType::Knight);

    assert!(sword.gc_can_equip(10, GcProfessionType::Knight).is_ok());
    assert!(sword.gc_can_equip(15, GcProfessionType::Knight).is_ok());

    assert!(sword.gc_can_equip(5, GcProfessionType::Knight).is_err());

    assert!(sword.gc_can_equip(10, GcProfessionType::Warlock).is_err());
}

#[test]
fn test_gc_inventory_add_remove() {
    let mut inv = GcInventory::gc_new("p1", 10);
    let sword = create_test_sword("s1");

    assert!(inv.gc_add_item(sword.clone()).is_ok());
    assert_eq!(inv.items.len(), 1);

    let removed = inv.gc_remove_item("s1");
    assert!(removed.is_some());
    assert_eq!(inv.items.len(), 0);
}

#[test]
fn test_gc_inventory_equip() {
    let mut inv = GcInventory::gc_new("p1", 10);
    let sword = create_test_sword("s1");
    inv.gc_add_item(sword).unwrap();

    assert!(inv.gc_equip_item("s1", 1, GcProfessionType::Knight).is_ok());
    assert_eq!(inv.items.len(), 0);
    assert!(inv.equipped.weapon.is_some());

    let (base, combat) = inv.gc_get_total_stats();
    assert_eq!(base.strength, 5);
    assert_eq!(combat.physical_attack, 10);

    assert!(inv.gc_unequip_item(GcEquipmentSlot::Weapon).is_ok());
    assert_eq!(inv.items.len(), 1);
    assert!(inv.equipped.weapon.is_none());
}

#[test]
fn test_gc_inventory_swap() {
    let mut inv = GcInventory::gc_new("p1", 10);
    let s1 = create_test_sword("s1");
    let s2 = create_test_sword("s2");

    inv.gc_add_item(s1).unwrap();
    inv.gc_add_item(s2).unwrap();

    inv.gc_equip_item("s1", 1, GcProfessionType::Knight).unwrap();
    assert_eq!(inv.equipped.weapon.as_ref().unwrap().id, "s1");

    inv.gc_equip_item("s2", 1, GcProfessionType::Knight).unwrap();
    assert_eq!(inv.equipped.weapon.as_ref().unwrap().id, "s2");

    assert!(inv.gc_get_item("s1").is_some());
}
