//! Maps, entities, walking players and the stock world.

use game_core::map::{GcDirection, GcMap, GcPosition, GcTileType};
use game_core::map_entity::{GcChest, GcMonsterSpawn, GcNpc, GcNpcType, GcPortal};
use game_core::map_player::{GcInteraction, GcMapPlayer, GcWorld};
use game_core::map_templates::{
    gc_create_boss_arena_map, gc_create_default_world, gc_create_forest_map, gc_create_town_map,
};

#[test]
fn test_gc_position() {
    let pos1 = GcPosition::gc_new(0, 0);
    let pos2 = GcPosition::gc_new(3, 4);

    assert_eq!(pos1.gc_distance(&pos2), 7);

    let moved = pos1.gc_move(GcDirection::Right);
    assert_eq!(moved.x, 1);
    assert_eq!(moved.y, 0);
}

#[test]
fn test_gc_tile_type() {
    assert!(GcTileType::Grass.gc_is_walkable());
    assert!(!GcTileType::Water.gc_is_walkable());
    assert!(!GcTileType::Wall.gc_is_walkable());

    assert!(GcTileType::Portal.gc_is_interactable());
    assert!(GcTileType::Npc.gc_is_interactable());
    assert!(!GcTileType::Grass.gc_is_interactable());
}

#[test]
fn test_gc_map_new() {
    let map = GcMap::gc_new("test", "测试地图", 10, 10);

    assert_eq!(map.width, 10);
    assert_eq!(map.height, 10);
    assert_eq!(map.spawn_point, GcPosition::gc_new(5, 5));

    for row in &map.tiles {
        for tile in row {
            assert_eq!(tile.tile_type, GcTileType::Grass);
        }
    }
}

#[test]
fn test_gc_map_set_tile() {
    let mut map = GcMap::gc_new("test", "测试地图", 10, 10);

    let pos = GcPosition::gc_new(5, 5);
    map.gc_set_tile(&pos, GcTileType::Water);

    let tile = map.gc_get_tile(&pos).unwrap();
    assert_eq!(tile.tile_type, GcTileType::Water);
    assert!(!map.gc_can_walk(&pos));
}

#[test]
fn test_gc_map_place_entity() {
    let mut map = GcMap::gc_new("test", "测试地图", 10, 10);

    let pos = GcPosition::gc_new(3, 3);
    map.gc_place_entity(&pos, GcTileType::Npc, "npc_shop_1");

    let tile = map.gc_get_tile(&pos).unwrap();
    assert_eq!(tile.tile_type, GcTileType::Npc);
    assert_eq!(tile.entity_id, Some("npc_shop_1".to_string()));
}

#[test]
fn test_gc_map_fill_rect() {
    let mut map = GcMap::gc_new("test", "测试地图", 10, 10);

    map.gc_fill_rect(2, 2, 3, 3, GcTileType::Water);

    for y in 2..5 {
        for x in 2..5 {
            let pos = GcPosition::gc_new(x, y);
            assert_eq!(map.gc_get_tile(&pos).unwrap().tile_type, GcTileType::Water);
        }
    }

    let outside = GcPosition::gc_new(0, 0);
    assert_eq!(map.gc_get_tile(&outside).unwrap().tile_type, GcTileType::Grass);
}

#[test]
fn test_gc_portal() {
    let portal = GcPortal::gc_new(
        "portal_1",
        "通往森林",
        GcPosition::gc_new(10, 5),
        "map_forest",
        GcPosition::gc_new(2, 2),
    );

    assert_eq!(portal.id, "portal_1");
    assert_eq!(portal.target_map_id, "map_forest");
    assert!(!portal.locked);
}

#[test]
fn test_gc_npc() {
    let mut npc = GcNpc::gc_new("npc_1", "商人老王", GcNpcType::Shop, GcPosition::gc_new(5, 5));

    npc.gc_add_dialogue("欢迎光临!");
    npc.gc_add_dialogue("需要点什么?");

    assert_eq!(npc.gc_get_current_dialogue(), Some("欢迎光临!"));
    assert!(npc.gc_next_dialogue());
    assert_eq!(npc.gc_get_current_dialogue(), Some("需要点什么?"));
}

#[test]
fn test_gc_monster_spawn() {
    let mut monster = GcMonsterSpawn::gc_new("monster_1", "史莱姆", GcPosition::gc_new(3, 3), 5);

    assert_eq!(monster.level, 5);
    assert!(!monster.is_boss);
    assert!(!monster.defeated);

    monster.gc_defeat();
    assert!(monster.defeated);
}

#[test]
fn test_gc_chest() {
    let mut chest = GcChest::gc_new("chest_1", GcPosition::gc_new(7, 7));
    chest.gc_add_reward("gold", "金币", 100);
    chest.gc_add_reward("potion", "生命药水", 2);

    assert!(chest.gc_can_open(false));

    let rewards = chest.gc_open().unwrap();
    assert_eq!(rewards.len(), 2);
    assert!(chest.opened);
    assert!(chest.gc_open().is_none());
}

fn create_test_map() -> GcMap {
    let mut map = GcMap::gc_new("test_map", "测试地图", 10, 10);

    map.gc_set_tile(&GcPosition::gc_new(3, 3), GcTileType::Wall);
    map.gc_set_tile(&GcPosition::gc_new(4, 3), GcTileType::Wall);
    map.gc_set_tile(&GcPosition::gc_new(5, 3), GcTileType::Wall);

    map.gc_place_entity(&GcPosition::gc_new(7, 7), GcTileType::Npc, "npc_shop");

    map.gc_set_spawn(GcPosition::gc_new(1, 1));

    map
}

#[test]
fn test_gc_map_player_move() {
    let map = create_test_map();
    let mut player = GcMapPlayer::gc_new("player1", "test_map", GcPosition::gc_new(1, 1));

    let (success, _) = player.gc_try_move(GcDirection::Right, &map);
    assert!(success);
    assert_eq!(player.position, GcPosition::gc_new(2, 1));

    let (success, _) = player.gc_try_move(GcDirection::Down, &map);
    assert!(success);
    assert_eq!(player.position, GcPosition::gc_new(2, 2));
}

#[test]
fn test_gc_map_player_collision() {
    let map = create_test_map();
    let mut player = GcMapPlayer::gc_new("player1", "test_map", GcPosition::gc_new(3, 2));

    let (success, _) = player.gc_try_move(GcDirection::Down, &map);
    assert!(!success);
    assert_eq!(player.position, GcPosition::gc_new(3, 2));
}

#[test]
fn test_gc_world() {
    let mut world = GcWorld::gc_new();

    world.gc_add_map(create_test_map());

    let result = world.gc_add_player("player1", "test_map");
    assert!(result.is_ok());

    let player = world.gc_get_player("player1").unwrap();
    assert_eq!(player.position, GcPosition::gc_new(1, 1));

    let result = world.gc_move_player("player1", GcDirection::Right);
    assert!(result.is_ok());
    assert!(result.unwrap().success);
}

#[test]
fn test_gc_world_interaction() {
    let mut world = GcWorld::gc_new();
    world.gc_add_map(create_test_map());
    world.gc_add_player("player1", "test_map").unwrap();

    world.gc_teleport_player("player1", "test_map", GcPosition::gc_new(6, 7)).unwrap();

    let result = world.gc_move_player("player1", GcDirection::Right).unwrap();

    assert!(result.success);
    assert!(matches!(result.interaction, Some(GcInteraction::Npc { .. })));
}

#[test]
fn test_gc_town_map() {
    let map = gc_create_town_map();

    assert_eq!(map.id, "map_town");
    assert_eq!(map.width, 20);
    assert_eq!(map.height, 15);

    assert!(map.gc_can_walk(&map.spawn_point));

    let shop_pos = GcPosition::gc_new(3, 3);
    let tile = map.gc_get_tile(&shop_pos).unwrap();
    assert_eq!(tile.tile_type, GcTileType::Npc);
    assert_eq!(tile.entity_id, Some("npc_shop".to_string()));
}

#[test]
fn test_gc_forest_map() {
    let map = gc_create_forest_map();

    assert_eq!(map.id, "map_forest");

    let monster_pos = GcPosition::gc_new(5, 5);
    let tile = map.gc_get_tile(&monster_pos).unwrap();
    assert_eq!(tile.tile_type, GcTileType::Monster);
}

#[test]
fn test_gc_boss_arena_map() {
    let map = gc_create_boss_arena_map();

    assert_eq!(map.id, "map_boss_arena");

    let boss_pos = GcPosition::gc_new(7, 7);
    let tile = map.gc_get_tile(&boss_pos).unwrap();
    assert_eq!(tile.tile_type, GcTileType::Monster);
    assert_eq!(tile.entity_id, Some("boss_shadow_lurker".to_string()));
}

#[test]
fn test_gc_default_world() {
    let world = gc_create_default_world();

    assert_eq!(world.maps.len(), 3);

    assert!(world.gc_get_map("map_town").is_some());
    assert!(world.gc_get_map("map_forest").is_some());
    assert!(world.gc_get_map("map_boss_arena").is_some());
}

#[test]
fn test_gc_map_ascii() {
    let map = gc_create_town_map();
    let ascii = map.gc_to_ascii();

    assert!(!ascii.is_empty());

    println!("主城地图:\n{}", ascii);
}
