//! The stock talent trees, one per profession, each opening with its
//! attribute-growth node.

use vstd::prelude::*;

use crate::profession::GcProfessionType;
use crate::talent::{GcTalentEffect, GcTalentNode, GcTalentNodeType, GcTalentTree};
use crate::types::GcStatType;

verus! {

/// Five rising levels of one base attribute: +2, +4, +6, +8, +10.
fn stat_growth_effects(stat_type: GcStatType) -> (r: Vec<Vec<GcTalentEffect>>)
    ensures
        r@.len() == 5,
{
    let mut rows: Vec<Vec<GcTalentEffect>> = Vec::new();
    let mut step: i32 = 2;
    while rows.len() < 5
        invariant
            rows@.len() <= 5,
            2 <= step <= 12,
            step == 2 + 2 * rows@.len(),
        decreases 5 - rows@.len(),
    {
        let mut row: Vec<GcTalentEffect> = Vec::new();
        row.push(GcTalentEffect::AddBaseStat { stat_type, value: step });
        rows.push(row);
        step = step + 2;
    }
    rows
}

/// The knight's guardian tree: vitality growth, then a damage-reduction node
/// behind it.
pub fn gc_create_knight_talent_tree() -> (r: GcTalentTree)
    ensures
        r.id@ == "tree_knight_guardian"@,
        r.name@ == "守护者"@,
        r.profession == Some(GcProfessionType::Knight),
        r.nodes@.len() == 2,
        r.nodes@[0].id@ == "knight_t1_vit"@,
        r.nodes@[0].max_level == 5,
        r.nodes@[1].id@ == "knight_t2_toughness"@,
        r.nodes@[1].max_level == 3,
        r.nodes@[1].prerequisites@.len() == 1,
{
    let tree0 = GcTalentTree::gc_new("tree_knight_guardian", "守护者", Some(GcProfessionType::Knight));
    let mut tree = tree0.gc_with_description("专注于防御和保护队友的天赋路线");
    let node1 = GcTalentNode::gc_new("knight_t1_vit", "体质强化", "增加基础体质属性", GcTalentNodeType::Minor, 5, (0, 0))
        .gc_with_effects(stat_growth_effects(GcStatType::Vitality))
        .gc_with_icon("");
    tree.gc_add_node(node1);
    let mut prereqs: Vec<&str> = Vec::new();
    prereqs.push("knight_t1_vit");
    let mut reduction: Vec<Vec<GcTalentEffect>> = Vec::new();
    let mut row1: Vec<GcTalentEffect> = Vec::new();
    row1.push(GcTalentEffect::AddCombatStatPercent { stat_name: "damage_reduction".to_owned(), percent: 3 });
    reduction.push(row1);
    let mut row2: Vec<GcTalentEffect> = Vec::new();
    row2.push(GcTalentEffect::AddCombatStatPercent { stat_name: "damage_reduction".to_owned(), percent: 6 });
    reduction.push(row2);
    let mut row3: Vec<GcTalentEffect> = Vec::new();
    row3.push(GcTalentEffect::AddCombatStatPercent { stat_name: "damage_reduction".to_owned(), percent: 10 });
    reduction.push(row3);
    let node2 = GcTalentNode::gc_new("knight_t2_toughness", "坚韧", "受到伤害减少", GcTalentNodeType::Major, 3, (0, 1))
        .gc_with_prerequisites(prereqs)
        .gc_with_effects(reduction)
        .gc_with_icon("");
    tree.gc_add_node(node2);
    tree
}

/// The swordsman's berserker tree: strength growth.
pub fn gc_create_swordsman_talent_tree() -> (r: GcTalentTree)
    ensures
        r.id@ == "tree_swordsman_berserker"@,
        r.name@ == "狂战士"@,
        r.profession == Some(GcProfessionType::Swordsman),
        r.nodes@.len() == 1,
        r.nodes@[0].id@ == "swordsman_t1_str"@,
        r.nodes@[0].max_level == 5,
{
    let tree0 = GcTalentTree::gc_new("tree_swordsman_berserker", "狂战士", Some(GcProfessionType::Swordsman));
    let mut tree = tree0.gc_with_description("牺牲防御换取极致输出的天赋路线");
    let node = GcTalentNode::gc_new("swordsman_t1_str", "力量强化", "增加基础力量属性", GcTalentNodeType::Minor, 5, (0, 0))
        .gc_with_effects(stat_growth_effects(GcStatType::Strength))
        .gc_with_icon("");
    tree.gc_add_node(node);
    tree
}

/// The warlock's destruction tree: intelligence growth.
pub fn gc_create_warlock_talent_tree() -> (r: GcTalentTree)
    ensures
        r.id@ == "tree_warlock_destruction"@,
        r.name@ == "毁灭"@,
        r.profession == Some(GcProfessionType::Warlock),
        r.nodes@.len() == 1,
        r.nodes@[0].id@ == "warlock_t1_int"@,
        r.nodes@[0].max_level == 5,
{
    let tree0 = GcTalentTree::gc_new("tree_warlock_destruction", "毁灭", Some(GcProfessionType::Warlock));
    let mut tree = tree0.gc_with_description("专注于毁灭性魔法的天赋路线");
    let node = GcTalentNode::gc_new("warlock_t1_int", "智力强化", "增加基础智力属性", GcTalentNodeType::Minor, 5, (0, 0))
        .gc_with_effects(stat_growth_effects(GcStatType::Intelligence))
        .gc_with_icon("");
    tree.gc_add_node(node);
    tree
}

/// The gunner's marksman tree: agility growth.
pub fn gc_create_gunner_talent_tree() -> (r: GcTalentTree)
    ensures
        r.id@ == "tree_gunner_marksman"@,
        r.name@ == "神射手"@,
        r.profession == Some(GcProfessionType::Gunner),
        r.nodes@.len() == 1,
        r.nodes@[0].id@ == "gunner_t1_agi"@,
        r.nodes@[0].max_level == 5,
{
    let tree0 = GcTalentTree::gc_new("tree_gunner_marksman", "神射手", Some(GcProfessionType::Gunner));
    let mut tree = tree0.gc_with_description("专注于远程精准打击的天赋路线");
    let node = GcTalentNode::gc_new("gunner_t1_agi", "敏捷强化", "增加基础敏捷属性", GcTalentNodeType::Minor, 5, (0, 0))
        .gc_with_effects(stat_growth_effects(GcStatType::Agility))
        .gc_with_icon("");
    tree.gc_add_node(node);
    tree
}

/// The assassin's shadow tree: agility growth.
pub fn gc_create_assassin_talent_tree() -> (r: GcTalentTree)
    ensures
        r.id@ == "tree_assassin_shadow"@,
        r.name@ == "暗影"@,
        r.profession == Some(GcProfessionType::Assassin),
        r.nodes@.len() == 1,
        r.nodes@[0].id@ == "assassin_t1_agi"@,
        r.nodes@[0].max_level == 5,
{
    let tree0 = GcTalentTree::gc_new("tree_assassin_shadow", "暗影", Some(GcProfessionType::Assassin));
    let mut tree = tree0.gc_with_description("专注于潜行和爆发的天赋路线");
    let node = GcTalentNode::gc_new("assassin_t1_agi", "敏捷强化", "增加基础敏捷属性", GcTalentNodeType::Minor, 5, (0, 0))
        .gc_with_effects(stat_growth_effects(GcStatType::Agility))
        .gc_with_icon("");
    tree.gc_add_node(node);
    tree
}

} // verus!
