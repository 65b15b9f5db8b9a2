//! The two-sided monster arena.

use game_core::arena::GcBattleArena;
use game_core::monster::GcMonster;
use game_core::terrain::{GcMonsterAttribute, GcTerrainType};

fn monster(id: &str, atk: u32) -> GcMonster {
    GcMonster::new(id, "怪", 3, GcMonsterAttribute::Earth, atk, 10, 50)
}

#[test]
fn test_arena_summon_and_occupancy() {
    let mut arena = GcBattleArena::new(GcTerrainType::Plain, GcTerrainType::Swamp);
    assert!(arena.summon_player_monster(2, monster("m1", 30)).is_ok());
    assert!(arena.summon_player_monster(2, monster("m2", 40)).is_err());
    assert!(arena.summon_player_monster(9, monster("m3", 40)).is_err());
    let occupied = arena.player_occupied_slots();
    assert_eq!(occupied, [false, false, true, false, false]);
    assert_eq!(arena.player_monster_count(), 1);
    assert_eq!(arena.first_empty_slot(), Some(0));
}

#[test]
fn test_arena_turn_start_idempotent() {
    let mut arena = GcBattleArena::new(GcTerrainType::Plain, GcTerrainType::Plain);
    arena.summon_player_monster(0, monster("m1", 30)).unwrap();
    arena.summon_player_monster(4, monster("m2", 40)).unwrap();
    let mut once = arena.clone();
    once.on_turn_start();
    let mut twice = arena;
    twice.on_turn_start();
    twice.on_turn_start();
    for i in 0..5 {
        let a = once.player_monsters[i].as_ref().map(|m| m.can_attack);
        let b = twice.player_monsters[i].as_ref().map(|m| m.can_attack);
        assert_eq!(a, b);
    }
    assert!(once.player_monsters[0].as_ref().unwrap().can_attack);
}

#[test]
fn test_arena_bench_deploy_and_recall() {
    let mut arena = GcBattleArena::new(GcTerrainType::Plain, GcTerrainType::Plain);
    let mut bench = vec![monster("b1", 20), monster("b2", 25)];
    assert!(arena.deploy_from_bench(&mut bench, "b2", 1).is_ok());
    assert_eq!(bench.len(), 1);
    assert_eq!(arena.player_monsters[1].as_ref().unwrap().id, "b2");
    assert_eq!(arena.player_monsters[1].as_ref().unwrap().slot, Some(1));
    assert!(arena.deploy_from_bench(&mut bench, "missing", 2).is_err());

    let recalled = arena.recall_to_bench(&mut bench, 1).unwrap();
    assert_eq!(recalled.id, "b2");
    assert_eq!(recalled.slot, None);
    assert_eq!(bench.len(), 2);
    assert!(arena.player_monsters[1].is_none());
}

#[test]
fn test_arena_swap_and_weakest_target() {
    let mut arena = GcBattleArena::new(GcTerrainType::Plain, GcTerrainType::Plain);
    arena.summon_player_monster(0, monster("a", 10)).unwrap();
    arena.summon_player_monster(3, monster("b", 20)).unwrap();
    arena.swap_positions(0, 3).unwrap();
    assert_eq!(arena.player_monsters[0].as_ref().unwrap().id, "b");
    assert_eq!(arena.player_monsters[0].as_ref().unwrap().slot, Some(0));
    assert_eq!(arena.player_monsters[3].as_ref().unwrap().id, "a");

    assert_eq!(arena.get_weakest_enemy_slot(), None);
    arena.enemy_monsters[1] = Some(monster("e1", 80));
    arena.enemy_monsters[4] = Some(monster("e2", 15));
    assert_eq!(arena.get_weakest_enemy_slot(), Some(4));
}
