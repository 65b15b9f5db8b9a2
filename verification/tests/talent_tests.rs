//! Talent nodes, trees and the player's point budget.

use game_core::talent::{
    GcPlayerTalents, GcTalentEffect, GcTalentNode, GcTalentNodeType, GcTalentTree,
};
use game_core::profession::GcProfessionType;
use game_core::types::{GcBaseStats, GcStatType};

fn create_test_talent() -> GcTalentNode {
    GcTalentNode::gc_new(
        "talent_str_1",
        "力量强化",
        "增加力量属性",
        GcTalentNodeType::Minor,
        3,
        (0, 0),
    )
    .gc_with_effects(vec![
        vec![GcTalentEffect::AddBaseStat { stat_type: GcStatType::Strength, value: 2 }],
        vec![GcTalentEffect::AddBaseStat { stat_type: GcStatType::Strength, value: 4 }],
        vec![GcTalentEffect::AddBaseStat { stat_type: GcStatType::Strength, value: 6 }],
    ])
}

#[test]
fn test_gc_talent_node() {
    let mut node = create_test_talent();

    assert_eq!(node.max_level, 3);
    assert_eq!(node.current_level, 0);
    assert!(!node.gc_is_maxed());

    node.gc_level_up().unwrap();
    assert_eq!(node.current_level, 1);

    let effects = node.gc_get_current_effects();
    assert_eq!(effects.len(), 1);
}

#[test]
fn test_gc_talent_tree() {
    let mut tree = GcTalentTree::gc_new("tree_warrior", "战士天赋", Some(GcProfessionType::Knight));

    tree.gc_add_node(create_test_talent());

    let cost = tree.gc_upgrade_talent("talent_str_1", 1, 10).unwrap();
    assert_eq!(cost, 1);

    assert_eq!(tree.gc_get_total_invested_points(), 1);
}

#[test]
fn test_gc_player_talents() {
    let mut talents = GcPlayerTalents::gc_new("player_1");
    talents.gc_add_points(10);

    let mut tree = GcTalentTree::gc_new("tree_warrior", "战士天赋", Some(GcProfessionType::Knight));
    tree.gc_add_node(create_test_talent());
    talents.gc_add_tree(tree);

    talents.gc_upgrade_talent("tree_warrior", "talent_str_1", 1).unwrap();

    assert_eq!(talents.available_points, 9);
    assert_eq!(talents.spent_points, 1);

    let mut stats = GcBaseStats::gc_new();
    talents.gc_apply_to_base_stats(&mut stats);
    assert_eq!(stats.strength, 2);
}

#[test]
fn test_gc_talent_reset() {
    let mut talents = GcPlayerTalents::gc_new("player_1");
    talents.gc_add_points(10);

    let mut tree = GcTalentTree::gc_new("tree_warrior", "战士天赋", Some(GcProfessionType::Knight));
    tree.gc_add_node(create_test_talent());
    talents.gc_add_tree(tree);

    for _ in 0..3 {
        talents.gc_upgrade_talent("tree_warrior", "talent_str_1", 1).unwrap();
    }
    assert_eq!(talents.available_points, 7);

    let refund = talents.gc_reset_all();
    assert_eq!(refund, 3);
    assert_eq!(talents.available_points, 10);
}

#[test]
fn test_collect_all_effects() {
    let mut talents = GcPlayerTalents::gc_new("p1");
    talents.gc_add_points(10);
    let mut tree = GcTalentTree::gc_new("t", "树", None);
    tree.gc_add_node(create_test_talent());
    talents.gc_add_tree(tree);
    assert_eq!(talents.gc_collect_all_effects().len(), 0);
    talents.gc_upgrade_talent("t", "talent_str_1", 1).unwrap();
    assert_eq!(talents.gc_collect_all_effects().len(), 1);
}

#[test]
fn test_talent_gating() {
    let mut tree = GcTalentTree::gc_new("tree_x", "测试", None);
    let node = create_test_talent().gc_with_required_level(5);
    tree.gc_add_node(node);
    // A character below the level requirement cannot buy the node.
    assert!(tree.gc_upgrade_talent("talent_str_1", 1, 10).is_err());
    assert!(tree.gc_upgrade_talent("talent_str_1", 5, 10).is_ok());
    // Short points refuse the purchase too.
    assert!(tree.gc_upgrade_talent("talent_str_1", 5, 0).is_err());
}
