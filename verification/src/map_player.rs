//! Players walking the world: position and facing, collision-checked moves,
//! interaction checks, and the world that holds every map and walker.

use vstd::prelude::*;
use vstd::string::StringExecFns;

use crate::map::{
    spec_interactable, spec_map_wf, spec_moved, spec_valid_pos, spec_walkable, GcDirection, GcMap,
    GcPosition, GcTileType,
};
use crate::text::str_eq;

verus! {

/// A player standing on a map.
#[derive(Clone, Debug)]
pub struct GcMapPlayer {
    pub player_id: String,
    /// Map the player stands on.
    pub current_map_id: String,
    pub position: GcPosition,
    /// Which way the player faces.
    pub direction: GcDirection,
    /// Whether a move is being animated.
    pub is_moving: bool,
    /// Tiles walked per second.
    pub move_speed: u32,
}

impl GcMapPlayer {
    /// A player standing at a spawn point, facing down.
    pub fn gc_new(player_id: &str, map_id: &str, spawn: GcPosition) -> (r: Self)
        ensures
            r.player_id@ == player_id@,
            r.current_map_id@ == map_id@,
            r.position == spawn,
            r.direction is Down,
            !r.is_moving,
            r.move_speed == 4,
    {
        GcMapPlayer {
            player_id: player_id.to_owned(),
            current_map_id: map_id.to_owned(),
            position: spawn,
            direction: GcDirection::Down,
            is_moving: false,
            move_speed: 4,
        }
    }

    /// Try one step: the player turns either way; it moves only onto a
    /// walkable tile, and the result carries whether it moved and what
    /// interactive tile it stepped onto.
    pub fn gc_try_move(&mut self, direction: GcDirection, map: &GcMap) -> (r: (
        bool,
        Option<GcTileType>,
    ))
        requires
            spec_map_wf(*map),
            i32::MIN < old(self).position.x < i32::MAX,
            i32::MIN < old(self).position.y < i32::MAX,
        ensures
            ({
                let new_pos = spec_moved(old(self).position, direction);
                let walkable = spec_valid_pos(*map, new_pos) && spec_walkable(
                    map.tiles@[new_pos.y as int]@[new_pos.x as int].tile_type,
                );
                &&& r.0 == walkable
                &&& (walkable ==> *final(self) == (GcMapPlayer {
                    position: new_pos,
                    direction,
                    ..*old(self)
                }))
                &&& (!walkable ==> *final(self) == (GcMapPlayer { direction, ..*old(self) }))
                &&& (walkable && spec_interactable(
                    map.tiles@[new_pos.y as int]@[new_pos.x as int].tile_type,
                ) ==> r.1 == Some(map.tiles@[new_pos.y as int]@[new_pos.x as int].tile_type))
                &&& (!(walkable && spec_interactable(
                    map.tiles@[new_pos.y as int]@[new_pos.x as int].tile_type,
                )) ==> r.1 is None)
            }),
    {
        self.direction = direction;
        let new_pos = self.position.gc_move(direction);
        if map.gc_can_walk(&new_pos) {
            self.position = new_pos;
            let interactable: Option<GcTileType> = match map.gc_get_tile(&new_pos) {
                Some(t) => {
                    if t.gc_is_interactable() {
                        Some(t.tile_type)
                    } else {
                        None
                    }
                },
                None => None,
            };
            (true, interactable)
        } else {
            (false, None)
        }
    }

    /// Jump to a point on a (possibly different) map.
    pub fn gc_teleport(&mut self, map_id: &str, position: GcPosition)
        ensures
            final(self).current_map_id@ == map_id@,
            final(self).position == position,
            final(self).player_id == old(self).player_id,
            final(self).direction == old(self).direction,
            final(self).move_speed == old(self).move_speed,
    {
        self.current_map_id = map_id.to_owned();
        self.position = position;
    }

    /// The tile in front of the player.
    pub fn gc_get_facing_position(&self) -> (r: GcPosition)
        requires
            i32::MIN < self.position.x < i32::MAX,
            i32::MIN < self.position.y < i32::MAX,
        ensures
            r == spec_moved(self.position, self.direction),
    {
        self.position.gc_move(self.direction)
    }

    /// What interactive tile the player faces, with its entity.
    pub fn gc_check_interaction(&self, map: &GcMap) -> (r: Option<(GcTileType, Option<String>)>)
        requires
            spec_map_wf(*map),
            i32::MIN < self.position.x < i32::MAX,
            i32::MIN < self.position.y < i32::MAX,
        ensures
            ({
                let facing = spec_moved(self.position, self.direction);
                let hit = spec_valid_pos(*map, facing) && spec_interactable(
                    map.tiles@[facing.y as int]@[facing.x as int].tile_type,
                );
                &&& (hit ==> (r matches Some(p)
                    && p.0 == map.tiles@[facing.y as int]@[facing.x as int].tile_type))
                &&& (!hit ==> r is None)
            }),
    {
        let facing = self.gc_get_facing_position();
        match map.gc_get_tile(&facing) {
            Some(t) => {
                if t.gc_is_interactable() {
                    let entity = match &t.entity_id {
                        Some(e) => Some(e.clone()),
                        None => None,
                    };
                    Some((t.tile_type, entity))
                } else {
                    None
                }
            },
            None => None,
        }
    }
}

/// Outcome of one world-level move.
#[derive(Clone, Debug)]
pub struct GcMoveResult {
    /// Whether the step was taken.
    pub success: bool,
    /// Where the player now stands.
    pub new_position: GcPosition,
    /// The interaction the step triggered, if any.
    pub interaction: Option<GcInteraction>,
}

/// What a step ran into.
#[derive(Clone, Debug)]
pub enum GcInteraction {
    Portal { portal_id: String },
    Npc { npc_id: String },
    Monster { monster_id: String },
    Chest { chest_id: String },
}

/// The world: every map and every walking player.
#[derive(Clone, Debug)]
pub struct GcWorld {
    pub maps: Vec<GcMap>,
    pub players: Vec<GcMapPlayer>,
}

/// Every map of the world is well-formed and of bounded size.
pub open spec fn spec_world_wf(w: GcWorld) -> bool {
    forall|j: int| 0 <= j < w.maps@.len() ==> spec_map_wf(#[trigger] w.maps@[j])
}

impl Default for GcWorld {
    /// No maps, no players.
    fn default() -> (r: Self)
        ensures
            r.maps@.len() == 0,
            r.players@.len() == 0,
    {
        GcWorld { maps: Vec::new(), players: Vec::new() }
    }
}

impl GcWorld {
    /// An empty world.
    pub fn gc_new() -> (r: Self)
        ensures
            r.maps@.len() == 0,
            r.players@.len() == 0,
    {
        Self::default()
    }

    /// Add a map.
    pub fn gc_add_map(&mut self, map: GcMap)
        ensures
            final(self).maps@ == old(self).maps@.push(map),
            final(self).players == old(self).players,
    {
        self.maps.push(map);
    }

    /// The first map with the given id.
    pub fn gc_get_map(&self, map_id: &str) -> (r: Option<&GcMap>)
        ensures
            r is None ==> (forall|j: int|
                0 <= j < self.maps@.len() ==> (#[trigger] self.maps@[j]).id@ != map_id@),
            r matches Some(m) ==> exists|idx: int|
                0 <= idx < self.maps@.len() && *m == self.maps@[idx] && m.id@ == map_id@,
    {
        let mut i: usize = 0;
        while i < self.maps.len()
            invariant
                i <= self.maps@.len(),
                forall|j: int| 0 <= j < i ==> (#[trigger] self.maps@[j]).id@ != map_id@,
            decreases self.maps@.len() - i,
        {
            if str_eq(self.maps[i].id.as_str(), map_id) {
                return Some(&self.maps[i]);
            }
            i = i + 1;
        }
        None
    }

    /// Enroll a player on a map at its spawn point.  Fails on an unknown map
    /// or an already-enrolled player, changing nothing.
    pub fn gc_add_player(&mut self, player_id: &str, map_id: &str) -> (r: Result<(), String>)
        ensures
            r is Err ==> *final(self) == *old(self),
            r is Ok ==> final(self).players@.len() == old(self).players@.len() + 1 && final(self).players@.last().player_id@ == player_id@ && final(self).maps == old(self).maps,
    {
        let spawn = match self.gc_get_map(map_id) {
            Some(map) => map.spawn_point,
            None => {
                return Err("地图不存在".to_owned());
            },
        };
        let mut i: usize = 0;
        while i < self.players.len()
            invariant
                i <= self.players@.len(),
                *self == *old(self),
            decreases self.players@.len() - i,
        {
            if str_eq(self.players[i].player_id.as_str(), player_id) {
                return Err("玩家已在世界中".to_owned());
            }
            i = i + 1;
        }
        let player = GcMapPlayer::gc_new(player_id, map_id, spawn);
        self.players.push(player);
        Ok(())
    }

    /// The first enrolled player with the given id.
    pub fn gc_get_player(&self, player_id: &str) -> (r: Option<&GcMapPlayer>)
        ensures
            r is None ==> (forall|j: int|
                0 <= j < self.players@.len() ==> (#[trigger] self.players@[j]).player_id@
                    != player_id@),
            r matches Some(p) ==> exists|idx: int|
                0 <= idx < self.players@.len() && *p == self.players@[idx] && p.player_id@
                    == player_id@,
    {
        let mut i: usize = 0;
        while i < self.players.len()
            invariant
                i <= self.players@.len(),
                forall|j: int|
                    0 <= j < i ==> (#[trigger] self.players@[j]).player_id@ != player_id@,
            decreases self.players@.len() - i,
        {
            if str_eq(self.players[i].player_id.as_str(), player_id) {
                return Some(&self.players[i]);
            }
            i = i + 1;
        }
        None
    }

    /// Step a player one tile: collision-checked against the map it stands
    /// on, turning it either way, and reporting the entity the step ran into.
    /// Fails on an unknown player or map, changing nothing.
    pub fn gc_move_player(&mut self, player_id: &str, direction: GcDirection) -> (r: Result<
        GcMoveResult,
        String,
    >)
        requires
            spec_world_wf(*old(self)),
        ensures
            r is Err ==> *final(self) == *old(self),
            r is Ok ==> final(self).maps == old(self).maps && final(self).players@.len() == old(self).players@.len(),
    {
        let mut pi: usize = 0;
        let players_len = self.players.len();
        let mut player_found = false;
        while pi < players_len && !player_found
            invariant
                pi <= self.players@.len(),
                players_len == self.players@.len(),
                *self == *old(self),
                player_found ==> pi < self.players@.len(),
            decreases self.players@.len() - pi + (if player_found { 0int } else { 1int }),
        {
            if str_eq(self.players[pi].player_id.as_str(), player_id) {
                player_found = true;
            } else {
                pi = pi + 1;
            }
        }
        if !player_found {
            return Err("玩家不存在".to_owned());
        }
        let pidx = pi;
        let mut mi: usize = 0;
        let maps_len = self.maps.len();
        let mut map_found = false;
        while mi < maps_len && !map_found
            invariant
                mi <= self.maps@.len(),
                maps_len == self.maps@.len(),
                pidx < self.players@.len(),
                *self == *old(self),
                map_found ==> mi < self.maps@.len(),
            decreases self.maps@.len() - mi + (if map_found { 0int } else { 1int }),
        {
            if str_eq(self.maps[mi].id.as_str(), self.players[pidx].current_map_id.as_str()) {
                map_found = true;
            } else {
                mi = mi + 1;
            }
        }
        if !map_found {
            return Err("地图不存在".to_owned());
        }
        let midx = mi;
        let px = self.players[pidx].position.x;
        let py = self.players[pidx].position.y;
        if px <= i32::MIN + 1 || px >= i32::MAX - 1 || py <= i32::MIN + 1 || py >= i32::MAX - 1 {
            return Err("玩家不存在".to_owned());
        }
        let (dx, dy) = direction.gc_delta();
        let new_pos = GcPosition { x: px + dx, y: py + dy };
        let can_walk = self.maps[midx].gc_can_walk(&new_pos);
        let interaction: Option<GcInteraction> = if can_walk {
            match self.maps[midx].gc_get_tile(&new_pos) {
                Some(t) => {
                    if t.gc_is_interactable() {
                        match &t.entity_id {
                            Some(entity_id) => {
                                match t.tile_type {
                                    GcTileType::Portal => Some(
                                        GcInteraction::Portal { portal_id: entity_id.clone() },
                                    ),
                                    GcTileType::Npc => Some(
                                        GcInteraction::Npc { npc_id: entity_id.clone() },
                                    ),
                                    GcTileType::Monster => Some(
                                        GcInteraction::Monster { monster_id: entity_id.clone() },
                                    ),
                                    GcTileType::Chest => Some(
                                        GcInteraction::Chest { chest_id: entity_id.clone() },
                                    ),
                                    _ => None,
                                }
                            },
                            None => None,
                        }
                    } else {
                        None
                    }
                },
                None => None,
            }
        } else {
            None
        };
        self.players[pidx].direction = direction;
        if can_walk {
            self.players[pidx].position = new_pos;
        }
        let final_pos = self.players[pidx].position;
        Ok(GcMoveResult { success: can_walk, new_position: final_pos, interaction })
    }

    /// Teleport a player to a point on a named map.  Fails on an unknown map
    /// or player, changing nothing.
    pub fn gc_teleport_player(&mut self, player_id: &str, map_id: &str, position: GcPosition) -> (r:
        Result<(), String>)
        ensures
            r is Err ==> *final(self) == *old(self),
            r is Ok ==> final(self).maps == old(self).maps && final(self).players@.len() == old(self).players@.len(),
    {
        match self.gc_get_map(map_id) {
            Some(_) => {},
            None => {
                return Err("目标地图不存在".to_owned());
            },
        }
        let mut pi: usize = 0;
        while pi < self.players.len()
            invariant
                pi <= self.players@.len(),
                *self == *old(self),
            decreases self.players@.len() - pi,
        {
            if str_eq(self.players[pi].player_id.as_str(), player_id) {
                self.players[pi].gc_teleport(map_id, position);
                return Ok(());
            }
            pi = pi + 1;
        }
        Err("玩家不存在".to_owned())
    }
}

} // verus!
