//! Merging and the graveyard.

use game_core::graveyard::{gc_process_deaths, GcGraveyard};
use game_core::merge::{
    gc_can_merge_pair, gc_can_merge_triple, gc_find_mergeable_groups, gc_merge_monsters,
};
use game_core::monster::GcMonster;
use game_core::terrain::GcMonsterAttribute;

fn make_monster(template: &str, star: u8, golden: u8) -> GcMonster {
    GcMonster::new_with_star(
        &format!("{}_{}", template, star),
        template,
        "Test Monster",
        4,
        GcMonsterAttribute::Fire,
        100,
        100,
        100,
        star,
        golden,
    )
}

#[test]
fn test_can_merge() {
    let m1 = make_monster("dragon", 1, 0);
    let m2 = make_monster("dragon", 1, 0);
    let m3 = make_monster("dragon", 1, 0);

    assert!(gc_can_merge_triple(&m1, &m2, &m3));

    let m4 = make_monster("dragon", 2, 0);
    assert!(!gc_can_merge_pair(&m1, &m4));

    let m5 = make_monster("slime", 1, 0);
    assert!(!gc_can_merge_pair(&m1, &m5));
}

#[test]
fn test_merge_result() {
    let monsters = [
        make_monster("dragon", 1, 0),
        make_monster("dragon", 1, 0),
        make_monster("dragon", 1, 0),
    ];

    let result = gc_merge_monsters(monsters);

    assert!(result.success);
    assert_eq!(result.from_star, 1);
    assert_eq!(result.to_star, 2);

    let merged = result.merged_monster.unwrap();
    assert_eq!(merged.star, 2);
    assert_eq!(merged.starred_atk(), 200);
}

#[test]
fn test_golden_merge() {
    let monsters = [
        make_monster("dragon", 3, 0),
        make_monster("dragon", 3, 0),
        make_monster("dragon", 3, 0),
    ];

    let result = gc_merge_monsters(monsters);
    assert!(result.success);
    assert_eq!(result.to_star, 3);
    assert_eq!(result.to_golden, 1);

    let merged = result.merged_monster.unwrap();
    assert!(merged.is_golden());
    assert_eq!(merged.starred_atk(), 450);
}

#[test]
fn test_find_mergeable() {
    let board: [Option<GcMonster>; 5] = [
        Some(make_monster("dragon", 1, 0)),
        Some(make_monster("dragon", 1, 0)),
        None,
        None,
        None,
    ];

    let bench = vec![make_monster("dragon", 1, 0), make_monster("slime", 1, 0)];

    let groups = gc_find_mergeable_groups(&board, &bench);

    assert_eq!(groups.len(), 1);
    assert_eq!(groups[0].template_id, "dragon");
    assert_eq!(groups[0].monster_indices.len(), 3);
}

#[test]
fn test_merge_refuses_mixed_tiers() {
    let monsters = [
        make_monster("dragon", 1, 0),
        make_monster("dragon", 2, 0),
        make_monster("dragon", 1, 0),
    ];
    let result = gc_merge_monsters(monsters);
    assert!(!result.success);
    assert!(result.merged_monster.is_none());
}

#[test]
fn test_merged_id_is_fresh() {
    let monsters = [
        make_monster("dragon", 1, 0),
        make_monster("dragon", 1, 0),
        make_monster("dragon", 1, 0),
    ];
    let merged = gc_merge_monsters(monsters).merged_monster.unwrap();
    assert!(merged.id.starts_with("dragon_merged_"));
    assert!(merged.id.len() > "dragon_merged_".len());
}

#[test]
fn test_graveyard_basic() {
    let mut gy = GcGraveyard::new();
    assert!(gy.is_empty());

    gy.add(dead_monster("m1"));
    gy.add(dead_monster("m2"));

    assert_eq!(gy.count(), 2);
    assert!(!gy.is_empty());
}

fn dead_monster(id: &str) -> GcMonster {
    let mut m = GcMonster::new(id, "Test Monster", 4, GcMonsterAttribute::Fire, 100, 100, 100);
    m.current_hp = 0;
    m
}

fn live_monster(id: &str) -> GcMonster {
    GcMonster::new(id, "Test Monster", 4, GcMonsterAttribute::Fire, 100, 100, 100)
}

#[test]
fn test_revive() {
    let mut gy = GcGraveyard::new();
    gy.add(dead_monster("m1"));
    gy.add(dead_monster("m2"));

    let revived = gy.revive_last().unwrap();
    assert_eq!(revived.id, "m2");
    assert_eq!(gy.count(), 1);
}

#[test]
fn test_process_deaths() {
    let mut board: [Option<GcMonster>; 5] = [
        Some(live_monster("alive")),
        Some(dead_monster("dead1")),
        None,
        Some(dead_monster("dead2")),
        None,
    ];

    let mut gy = GcGraveyard::new();
    let events = gc_process_deaths(&mut board, &mut gy);

    assert_eq!(events.len(), 2);
    assert_eq!(gy.count(), 2);
    assert!(board[0].is_some());
    assert!(board[1].is_none());
    assert!(board[3].is_none());
}

#[test]
fn test_revive_by_template_restores_health() {
    let mut gy = GcGraveyard::new();
    gy.add(dead_monster("m1"));
    let revived = gy.revive_by_template("m1").unwrap();
    assert_eq!(revived.current_hp, 100);
    assert!(gy.is_empty());
    assert!(gy.revive_by_template("m1").is_none());
}
