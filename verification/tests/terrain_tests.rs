//! Terrain modifiers, weighted selection and battle-terrain generation.

use game_core::terrain::{
    gc_apply_enemy_modifier, gc_generate_battle_terrain, gc_get_base_terrain_weights,
    gc_get_terrain_modifier, gc_select_terrain, GcEnemyType, GcMonsterAttribute, GcTerrainType,
    GcTerrainWeight, GcWorldTerrainType,
};

#[test]
fn test_terrain_modifier_fire_in_volcano() {
    let modifier = gc_get_terrain_modifier(GcTerrainType::Volcano, GcMonsterAttribute::Fire);
    assert_eq!(modifier.atk_percent, 20);

    let base_atk = 100;
    let modified_atk = modifier.apply_atk(base_atk);
    assert_eq!(modified_atk, 120);
}

#[test]
fn test_terrain_modifier_water_in_volcano() {
    let modifier = gc_get_terrain_modifier(GcTerrainType::Volcano, GcMonsterAttribute::Water);
    assert_eq!(modifier.atk_percent, -10);

    let base_atk = 100;
    let modified_atk = modifier.apply_atk(base_atk);
    assert_eq!(modified_atk, 90);
}

#[test]
fn test_swamp_damage() {
    let modifier = gc_get_terrain_modifier(GcTerrainType::Swamp, GcMonsterAttribute::Fire);
    let hp_change = modifier.calc_hp_change(100);
    assert_eq!(hp_change, -5);
}

#[test]
fn test_terrain_generation() {
    let (player, enemy) =
        gc_generate_battle_terrain(GcWorldTerrainType::Grassland, GcEnemyType::Normal, 42);
    assert!(matches!(
        player,
        GcTerrainType::Plain | GcTerrainType::Forest | GcTerrainType::Mountain
    ));
    assert!(matches!(
        enemy,
        GcTerrainType::Plain | GcTerrainType::Forest | GcTerrainType::Mountain
    ));
}

#[test]
fn test_fire_enemy_boosts_volcano() {
    let mut weights = gc_get_base_terrain_weights(GcWorldTerrainType::Grassland);
    gc_apply_enemy_modifier(&mut weights, GcEnemyType::FireType);

    let volcano_weight = weights.iter().find(|w| w.terrain == GcTerrainType::Volcano);
    assert!(volcano_weight.is_some());
    assert_eq!(volcano_weight.unwrap().weight, 30);
}

#[test]
fn test_select_terrain_thresholds() {
    let weights = vec![
        GcTerrainWeight { terrain: GcTerrainType::Plain, weight: 60 },
        GcTerrainWeight { terrain: GcTerrainType::Forest, weight: 30 },
        GcTerrainWeight { terrain: GcTerrainType::Mountain, weight: 10 },
    ];
    assert_eq!(gc_select_terrain(&weights, 59), GcTerrainType::Plain);
    assert_eq!(gc_select_terrain(&weights, 60), GcTerrainType::Forest);
    assert_eq!(gc_select_terrain(&weights, 89), GcTerrainType::Forest);
    assert_eq!(gc_select_terrain(&weights, 90), GcTerrainType::Mountain);
}

#[test]
fn test_select_terrain_zero_total() {
    let weights = vec![GcTerrainWeight { terrain: GcTerrainType::Holy, weight: 0 }];
    assert_eq!(gc_select_terrain(&weights, 7), GcTerrainType::Plain);
}

#[test]
fn test_modifier_lookup_defaults_and_repeats() {
    // A pair that is not special-cased resolves to the zero modifier.
    let m = gc_get_terrain_modifier(GcTerrainType::Plain, GcMonsterAttribute::Dark);
    assert_eq!(m.atk_percent, 0);
    assert_eq!(m.def_percent, 0);
    assert_eq!(m.hp_per_turn_percent, 0);
    assert_eq!(m.dodge_bonus, 0);
    assert_eq!(m.damage_taken_percent, 0);
    assert_eq!(m.healing_bonus_percent, 0);
    // Looking up twice yields identical results.
    let again = gc_get_terrain_modifier(GcTerrainType::Plain, GcMonsterAttribute::Dark);
    assert_eq!(m, again);
    let special = gc_get_terrain_modifier(GcTerrainType::Mountain, GcMonsterAttribute::Wind);
    assert_eq!(special.dodge_bonus, 1000);
    assert_eq!(
        special,
        gc_get_terrain_modifier(GcTerrainType::Mountain, GcMonsterAttribute::Wind)
    );
}

#[test]
fn test_same_seed_same_terrain_pair() {
    let a = gc_generate_battle_terrain(GcWorldTerrainType::Cave, GcEnemyType::DarkType, 4217);
    let b = gc_generate_battle_terrain(GcWorldTerrainType::Cave, GcEnemyType::DarkType, 4217);
    assert_eq!(a, b);
}
