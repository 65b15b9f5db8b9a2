//! The stock maps: the survivors' town, the misty forest and the boss arena,
//! plus the world holding all three.

use vstd::prelude::*;

use crate::map::{spec_map_wf, GcMap, GcPosition, GcTileType};
use crate::map_player::GcWorld;

verus! {

/// The town: walled, with a shop and a quest house, three portals and some
/// decoration; the spawn stands on the central road.
pub fn gc_create_town_map() -> (r: GcMap)
    ensures
        r.id@ == "map_town"@,
        r.name@ == "幸存者营地"@,
        r.width == 20,
        r.height == 15,
        spec_map_wf(r),
        r.spawn_point == (GcPosition { x: 10i32, y: 7i32 }),
{
    let mut map = GcMap::gc_new("map_town", "幸存者营地", 20, 15);
    map.gc_draw_h_line(0, 0, 20, GcTileType::Wall);
    map.gc_draw_h_line(0, 14, 20, GcTileType::Wall);
    map.gc_draw_v_line(0, 0, 15, GcTileType::Wall);
    map.gc_draw_v_line(19, 0, 15, GcTileType::Wall);
    map.gc_fill_rect(8, 6, 4, 3, GcTileType::Stone);
    map.gc_draw_h_line(1, 7, 18, GcTileType::Stone);
    map.gc_draw_v_line(10, 1, 13, GcTileType::Stone);
    map.gc_fill_rect(2, 2, 4, 3, GcTileType::Building);
    map.gc_set_tile(&GcPosition::gc_new(3, 4), GcTileType::Stone);
    map.gc_place_entity(&GcPosition::gc_new(3, 3), GcTileType::Npc, "npc_shop");
    map.gc_fill_rect(14, 2, 4, 3, GcTileType::Building);
    map.gc_set_tile(&GcPosition::gc_new(16, 4), GcTileType::Stone);
    map.gc_place_entity(&GcPosition::gc_new(16, 3), GcTileType::Npc, "npc_quest");
    map.gc_place_entity(&GcPosition::gc_new(3, 12), GcTileType::Portal, "portal_forest");
    map.gc_place_entity(&GcPosition::gc_new(10, 12), GcTileType::Portal, "portal_dungeon");
    map.gc_place_entity(&GcPosition::gc_new(16, 12), GcTileType::Portal, "portal_boss");
    map.gc_set_tile(&GcPosition::gc_new(6, 3), GcTileType::Tree);
    map.gc_set_tile(&GcPosition::gc_new(6, 11), GcTileType::Tree);
    map.gc_set_tile(&GcPosition::gc_new(13, 3), GcTileType::Tree);
    map.gc_set_tile(&GcPosition::gc_new(13, 11), GcTileType::Tree);
    map.gc_fill_rect(7, 9, 2, 2, GcTileType::Water);
    map.gc_set_spawn(GcPosition::gc_new(10, 7));
    map
}

/// The forest: trees, a brook with one bridge, a dirt road, five monster
/// spawns, two chests and the portal home; the spawn stands at the entrance.
pub fn gc_create_forest_map() -> (r: GcMap)
    ensures
        r.id@ == "map_forest"@,
        r.name@ == "迷雾森林"@,
        r.width == 25,
        r.height == 20,
        spec_map_wf(r),
        r.spawn_point == (GcPosition { x: 1i32, y: 10i32 }),
{
    let mut map = GcMap::gc_new("map_forest", "迷雾森林", 25, 20);
    map.gc_set_tile(&GcPosition::gc_new(3, 3), GcTileType::Tree);
    map.gc_set_tile(&GcPosition::gc_new(7, 2), GcTileType::Tree);
    map.gc_set_tile(&GcPosition::gc_new(12, 4), GcTileType::Tree);
    map.gc_set_tile(&GcPosition::gc_new(18, 3), GcTileType::Tree);
    map.gc_set_tile(&GcPosition::gc_new(22, 5), GcTileType::Tree);
    map.gc_set_tile(&GcPosition::gc_new(2, 8), GcTileType::Tree);
    map.gc_set_tile(&GcPosition::gc_new(6, 10), GcTileType::Tree);
    map.gc_set_tile(&GcPosition::gc_new(11, 9), GcTileType::Tree);
    map.gc_set_tile(&GcPosition::gc_new(17, 11), GcTileType::Tree);
    map.gc_set_tile(&GcPosition::gc_new(21, 8), GcTileType::Tree);
    map.gc_set_tile(&GcPosition::gc_new(4, 15), GcTileType::Tree);
    map.gc_set_tile(&GcPosition::gc_new(9, 17), GcTileType::Tree);
    map.gc_set_tile(&GcPosition::gc_new(15, 16), GcTileType::Tree);
    map.gc_set_tile(&GcPosition::gc_new(20, 18), GcTileType::Tree);
    map.gc_set_tile(&GcPosition::gc_new(23, 14), GcTileType::Tree);
    map.gc_set_tile(&GcPosition::gc_new(1, 12), GcTileType::Tree);
    map.gc_set_tile(&GcPosition::gc_new(8, 6), GcTileType::Tree);
    map.gc_set_tile(&GcPosition::gc_new(14, 7), GcTileType::Tree);
    map.gc_set_tile(&GcPosition::gc_new(19, 15), GcTileType::Tree);
    map.gc_set_tile(&GcPosition::gc_new(5, 18), GcTileType::Tree);
    map.gc_draw_v_line(12, 0, 20, GcTileType::Water);
    map.gc_set_tile(&GcPosition::gc_new(12, 10), GcTileType::Stone);
    map.gc_draw_h_line(0, 10, 25, GcTileType::Dirt);
    map.gc_place_entity(&GcPosition::gc_new(5, 5), GcTileType::Monster, "monster_slime_1");
    map.gc_place_entity(&GcPosition::gc_new(8, 12), GcTileType::Monster, "monster_slime_2");
    map.gc_place_entity(&GcPosition::gc_new(16, 6), GcTileType::Monster, "monster_wolf_1");
    map.gc_place_entity(&GcPosition::gc_new(20, 13), GcTileType::Monster, "monster_wolf_2");
    map.gc_place_entity(&GcPosition::gc_new(3, 17), GcTileType::Monster, "monster_goblin_1");
    map.gc_place_entity(&GcPosition::gc_new(22, 2), GcTileType::Chest, "chest_forest_1");
    map.gc_place_entity(&GcPosition::gc_new(2, 18), GcTileType::Chest, "chest_forest_2");
    map.gc_place_entity(&GcPosition::gc_new(0, 10), GcTileType::Portal, "portal_town");
    map.gc_set_spawn(GcPosition::gc_new(1, 10));
    map
}

/// The boss arena: a walled square of stone with a dirt ring, the boss at the
/// centre, corner pillars and the portal home; the spawn stands before the
/// portal.
pub fn gc_create_boss_arena_map() -> (r: GcMap)
    ensures
        r.id@ == "map_boss_arena"@,
        r.name@ == "深渊竞技场"@,
        r.width == 15,
        r.height == 15,
        spec_map_wf(r),
        r.spawn_point == (GcPosition { x: 7i32, y: 12i32 }),
{
    let mut map = GcMap::gc_new("map_boss_arena", "深渊竞技场", 15, 15);
    map.gc_draw_h_line(0, 0, 15, GcTileType::Wall);
    map.gc_draw_h_line(0, 14, 15, GcTileType::Wall);
    map.gc_draw_v_line(0, 0, 15, GcTileType::Wall);
    map.gc_draw_v_line(14, 0, 15, GcTileType::Wall);
    map.gc_fill_rect(1, 1, 13, 13, GcTileType::Stone);
    map.gc_fill_rect(5, 5, 5, 5, GcTileType::Dirt);
    map.gc_place_entity(&GcPosition::gc_new(7, 7), GcTileType::Monster, "boss_shadow_lurker");
    map.gc_set_tile(&GcPosition::gc_new(2, 2), GcTileType::Building);
    map.gc_set_tile(&GcPosition::gc_new(12, 2), GcTileType::Building);
    map.gc_set_tile(&GcPosition::gc_new(2, 12), GcTileType::Building);
    map.gc_set_tile(&GcPosition::gc_new(12, 12), GcTileType::Building);
    map.gc_set_tile(&GcPosition::gc_new(7, 14), GcTileType::Stone);
    map.gc_place_entity(&GcPosition::gc_new(7, 13), GcTileType::Portal, "portal_town");
    map.gc_set_spawn(GcPosition::gc_new(7, 12));
    map
}

/// The stock world: the town, the forest and the arena.
pub fn gc_create_default_world() -> (r: GcWorld)
    ensures
        r.maps@.len() == 3,
        r.maps@[0].id@ == "map_town"@,
        r.maps@[1].id@ == "map_forest"@,
        r.maps@[2].id@ == "map_boss_arena"@,
{
    let mut world = GcWorld::gc_new();
    world.gc_add_map(gc_create_town_map());
    world.gc_add_map(gc_create_forest_map());
    world.gc_add_map(gc_create_boss_arena_map());
    world
}

} // verus!
