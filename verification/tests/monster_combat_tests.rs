//! Monsters, effective stats and the duel resolver.

use game_core::combat::{gc_auto_select_target, gc_calculate_attack};
use game_core::monster::{gc_calculate_battle_damage, GcMonster};
use game_core::terrain::{GcMonsterAttribute, GcTerrainType};

#[test]
fn test_attack_calculation() {
    let attacker = GcMonster::new("1", "火龙", 4, GcMonsterAttribute::Fire, 2000, 1000, 2000);
    let defender = GcMonster::new("2", "水精灵", 3, GcMonsterAttribute::Water, 1000, 1500, 1000);

    let result = gc_calculate_attack(
        &attacker,
        Some(&defender),
        0,
        Some(1),
        GcTerrainType::Plain,
        GcTerrainType::Plain,
    );

    assert_eq!(result.damage, 500);
    // Destruction follows from the damage reaching the hit points: 500
    // against 1000 health leaves the defender standing.
    assert!(!result.target_destroyed);
    assert!(!result.attacker_destroyed);
    assert_eq!(result.player_damage, 0);
}

#[test]
fn test_attack_resolution_by_health() {
    // The same stats against a defender at 500 health destroy it, and the
    // pierced damage passes to the player.
    let attacker = GcMonster::new("1", "火龙", 4, GcMonsterAttribute::Fire, 2000, 1000, 2000);
    let frail = GcMonster::new("2", "水精灵", 3, GcMonsterAttribute::Water, 1000, 1500, 500);
    let result = gc_calculate_attack(
        &attacker,
        Some(&frail),
        0,
        Some(1),
        GcTerrainType::Plain,
        GcTerrainType::Plain,
    );
    assert_eq!(result.damage, 500);
    assert!(result.target_destroyed);
    assert_eq!(result.player_damage, 500);

    // Equal attack and defense bounce with no damage and no destruction.
    let even_a = GcMonster::new("a", "石人", 4, GcMonsterAttribute::Earth, 700, 0, 100);
    let even_b = GcMonster::new("b", "石人", 4, GcMonsterAttribute::Earth, 0, 700, 700);
    let tie = gc_calculate_attack(
        &even_a,
        Some(&even_b),
        0,
        Some(0),
        GcTerrainType::Plain,
        GcTerrainType::Plain,
    );
    assert_eq!(tie.damage, 0);
    assert!(!tie.target_destroyed);
    assert!(!tie.attacker_destroyed);
    assert_eq!(tie.player_damage, 0);
}

#[test]
fn test_direct_attack() {
    let attacker = GcMonster::new("1", "战士", 4, GcMonsterAttribute::Earth, 1800, 1200, 1800);

    let result = gc_calculate_attack(
        &attacker,
        None,
        0,
        None,
        GcTerrainType::Plain,
        GcTerrainType::Plain,
    );

    assert_eq!(result.player_damage, 1800);
    assert!(!result.target_destroyed);
}

#[test]
fn test_battle_damage_three_ways() {
    // atk 2000 against def 1500: 500 damage to the defender, who is destroyed
    // when its health is at most 500, and the attacker takes nothing.
    let strong = GcMonster::new("a", "火龙", 4, GcMonsterAttribute::Fire, 2000, 0, 2000);
    let weak = GcMonster::new("b", "水精灵", 3, GcMonsterAttribute::Water, 100, 1500, 400);
    let r = gc_calculate_battle_damage(&strong, &weak, GcTerrainType::Plain, GcTerrainType::Plain);
    assert_eq!(r.damage, 500);
    assert_eq!(r.counter_damage, 0);
    assert!(r.defender_destroyed);
    assert!(!r.attacker_destroyed);

    // The counter direction: a low attack bounces the difference back.
    let r2 = gc_calculate_battle_damage(&weak, &weak, GcTerrainType::Plain, GcTerrainType::Plain);
    assert_eq!(r2.damage, 0);
    assert_eq!(r2.counter_damage, 1400);
    assert!(!r2.defender_destroyed);
    assert!(r2.attacker_destroyed);

    // Equal values bounce with no damage either side.
    let even_a = GcMonster::new("c", "石人", 4, GcMonsterAttribute::Earth, 700, 0, 100);
    let even_b = GcMonster::new("d", "石人", 4, GcMonsterAttribute::Earth, 0, 700, 100);
    let r3 =
        gc_calculate_battle_damage(&even_a, &even_b, GcTerrainType::Plain, GcTerrainType::Plain);
    assert_eq!(r3.damage, 0);
    assert_eq!(r3.counter_damage, 0);
}

#[test]
fn test_effective_stats_monotonic_in_tier() {
    // Raising the star and then the golden level never lowers the effective
    // stats; defense comes out of an unsigned range, never negative.
    let mut last_atk = 0;
    let mut last_def = 0;
    for (star, golden) in [(1u8, 0u8), (2, 0), (3, 0), (3, 1), (3, 2)] {
        let m = GcMonster::new_with_star(
            "m",
            "tpl",
            "怪",
            4,
            GcMonsterAttribute::Fire,
            100,
            80,
            120,
            star,
            golden,
        );
        let atk = m.effective_atk(GcTerrainType::Volcano);
        let def = m.effective_def(GcTerrainType::Glacier);
        assert!(atk >= last_atk);
        assert!(def >= last_def);
        last_atk = atk;
        last_def = def;
    }
}

#[test]
fn test_take_damage_saturates() {
    let mut m = GcMonster::new("1", "史莱姆", 1, GcMonsterAttribute::Water, 50, 30, 60);
    assert!(!m.take_damage(59));
    assert_eq!(m.current_hp, 1);
    assert!(m.is_alive());
    assert!(m.take_damage(1000));
    assert_eq!(m.current_hp, 0);
    assert!(!m.is_alive());
}

#[test]
fn test_auto_select_lowest_attack() {
    let weak = GcMonster::new("w", "弱", 1, GcMonsterAttribute::Neutral, 10, 0, 10);
    let mid = GcMonster::new("m", "中", 1, GcMonsterAttribute::Neutral, 10, 0, 10);
    let strong = GcMonster::new("s", "强", 1, GcMonsterAttribute::Neutral, 90, 0, 10);
    let enemies = [Some(strong), None, Some(weak), Some(mid), None];
    // Ties break toward the lowest index: slot 2 wins over slot 3.
    assert_eq!(gc_auto_select_target(&enemies, GcTerrainType::Plain), Some(2));
    let empty: [Option<GcMonster>; 5] = [None, None, None, None, None];
    assert_eq!(gc_auto_select_target(&empty, GcTerrainType::Plain), None);
}

#[test]
fn test_star_display_strings() {
    let plain = GcMonster::new_with_star(
        "a", "t", "n", 1, GcMonsterAttribute::Fire, 1, 1, 1, 2, 0,
    );
    assert_eq!(plain.star_display(), "★★");
    let golden = GcMonster::new_with_star(
        "a", "t", "n", 1, GcMonsterAttribute::Fire, 1, 1, 1, 3, 2,
    );
    assert_eq!(golden.star_display(), "⭐3Lv2");
    assert_eq!(golden.sell_price(), 9);
    assert_eq!(golden.buy_price(), 3);
}
