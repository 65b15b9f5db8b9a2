//! The world map: tile types, a two-dimensional tile grid, coordinates and
//! the drawing helpers the stock maps are built with.

use vstd::prelude::*;
use vstd::string::StringExecFns;

verus! {

/// A map coordinate.
#[derive(Clone, Copy, Debug, PartialEq, Eq, Hash, Structural)]
pub struct GcPosition {
    pub x: i32,
    pub y: i32,
}

impl GcPosition {
    /// The point (x, y).
    pub fn gc_new(x: i32, y: i32) -> (r: Self)
        ensures
            r == (GcPosition { x, y }),
    {
        GcPosition { x, y }
    }

    /// The origin.
    pub fn gc_zero() -> (r: Self)
        ensures
            r == (GcPosition { x: 0i32, y: 0i32 }),
    {
        GcPosition { x: 0, y: 0 }
    }

    /// Manhattan distance to another point.
    pub fn gc_distance(&self, other: &GcPosition) -> (r: u32)
        requires
            -1000000 <= self.x <= 1000000,
            -1000000 <= self.y <= 1000000,
            -1000000 <= other.x <= 1000000,
            -1000000 <= other.y <= 1000000,
        ensures
            r == (if self.x >= other.x {
                self.x - other.x
            } else {
                other.x - self.x
            }) + (if self.y >= other.y {
                self.y - other.y
            } else {
                other.y - self.y
            }),
    {
        let dx: i32 = if self.x >= other.x {
            self.x - other.x
        } else {
            other.x - self.x
        };
        let dy: i32 = if self.y >= other.y {
            self.y - other.y
        } else {
            other.y - self.y
        };
        (dx as u32) + (dy as u32)
    }

    /// The neighbouring point in a direction.
    pub fn gc_move(&self, direction: GcDirection) -> (r: GcPosition)
        requires
            i32::MIN < self.x < i32::MAX,
            i32::MIN < self.y < i32::MAX,
        ensures
            r == spec_moved(*self, direction),
    {
        let (dx, dy) = direction.gc_delta();
        GcPosition { x: self.x + dx, y: self.y + dy }
    }
}

/// The neighbouring point in a direction.
pub open spec fn spec_moved(p: GcPosition, d: GcDirection) -> GcPosition {
    match d {
        GcDirection::Up => GcPosition { x: p.x, y: (p.y - 1) as i32 },
        GcDirection::Down => GcPosition { x: p.x, y: (p.y + 1) as i32 },
        GcDirection::Left => GcPosition { x: (p.x - 1) as i32, y: p.y },
        GcDirection::Right => GcPosition { x: (p.x + 1) as i32, y: p.y },
    }
}

/// A walking direction.
#[derive(Clone, Copy, Debug, PartialEq, Eq, Structural)]
pub enum GcDirection {
    Up,
    Down,
    Left,
    Right,
}

impl GcDirection {
    /// The unit displacement of the direction; the vertical axis grows
    /// downward.
    pub fn gc_delta(&self) -> (r: (i32, i32))
        ensures
            self is Up ==> r == (0i32, -1i32),
            self is Down ==> r == (0i32, 1i32),
            self is Left ==> r == (-1i32, 0i32),
            self is Right ==> r == (1i32, 0i32),
    {
        match self {
            GcDirection::Up => (0, -1),
            GcDirection::Down => (0, 1),
            GcDirection::Left => (-1, 0),
            GcDirection::Right => (1, 0),
        }
    }

    /// The opposite direction.
    pub fn gc_opposite(&self) -> (r: GcDirection)
        ensures
            self is Up ==> r is Down,
            self is Down ==> r is Up,
            self is Left ==> r is Right,
            self is Right ==> r is Left,
    {
        match self {
            GcDirection::Up => GcDirection::Down,
            GcDirection::Down => GcDirection::Up,
            GcDirection::Left => GcDirection::Right,
            GcDirection::Right => GcDirection::Left,
        }
    }
}

/// What a map tile is made of.
#[derive(Clone, Copy, Debug, PartialEq, Eq, Structural)]
pub enum GcTileType {
    Grass,
    Dirt,
    Stone,
    Water,
    Wall,
    Tree,
    Building,
    /// Walkable and interactive: leads elsewhere.
    Portal,
    /// Walkable and interactive: someone to talk to.
    Npc,
    /// Walkable and interactive: something to open.
    Chest,
    /// Walkable and interactive: something to fight.
    Monster,
}

/// Whether a tile type can be walked on.
pub open spec fn spec_walkable(t: GcTileType) -> bool {
    match t {
        GcTileType::Grass => true,
        GcTileType::Dirt => true,
        GcTileType::Stone => true,
        GcTileType::Water => false,
        GcTileType::Wall => false,
        GcTileType::Tree => false,
        GcTileType::Building => false,
        GcTileType::Portal => true,
        GcTileType::Npc => true,
        GcTileType::Chest => true,
        GcTileType::Monster => true,
    }
}

/// Whether a tile type can be interacted with.
pub open spec fn spec_interactable(t: GcTileType) -> bool {
    match t {
        GcTileType::Portal => true,
        GcTileType::Npc => true,
        GcTileType::Chest => true,
        GcTileType::Monster => true,
        _ => false,
    }
}

impl GcTileType {
    /// Whether the tile can be walked on.
    pub fn gc_is_walkable(&self) -> (r: bool)
        ensures
            r == spec_walkable(*self),
    {
        match self {
            GcTileType::Grass => true,
            GcTileType::Dirt => true,
            GcTileType::Stone => true,
            GcTileType::Water => false,
            GcTileType::Wall => false,
            GcTileType::Tree => false,
            GcTileType::Building => false,
            GcTileType::Portal => true,
            GcTileType::Npc => true,
            GcTileType::Chest => true,
            GcTileType::Monster => true,
        }
    }

    /// Whether the tile can be interacted with.
    pub fn gc_is_interactable(&self) -> (r: bool)
        ensures
            r == spec_interactable(*self),
    {
        match self {
            GcTileType::Portal => true,
            GcTileType::Npc => true,
            GcTileType::Chest => true,
            GcTileType::Monster => true,
            _ => false,
        }
    }

    /// The tile's text-rendering glyph.
    pub fn gc_char(&self) -> (r: char)
        ensures
            self is Grass ==> r == '.',
            self is Dirt ==> r == ',',
            self is Stone ==> r == '#',
            self is Water ==> r == '~',
    {
        match self {
            GcTileType::Grass => '.',
            GcTileType::Dirt => ',',
            GcTileType::Stone => '#',
            GcTileType::Water => '~',
            GcTileType::Wall => '█',
            GcTileType::Tree => '♣',
            GcTileType::Building => '⌂',
            GcTileType::Portal => '◎',
            GcTileType::Npc => '☺',
            GcTileType::Chest => '■',
            GcTileType::Monster => '◆',
        }
    }

    /// The tile's render colour, as RGB.
    pub fn gc_color(&self) -> (r: (u8, u8, u8))
        ensures
            self is Grass ==> r == (74u8, 222u8, 128u8),
            self is Water ==> r == (56u8, 189u8, 248u8),
            self is Wall ==> r == (107u8, 114u8, 128u8),
    {
        match self {
            GcTileType::Grass => (74, 222, 128),
            GcTileType::Dirt => (168, 162, 158),
            GcTileType::Stone => (156, 163, 175),
            GcTileType::Water => (56, 189, 248),
            GcTileType::Wall => (107, 114, 128),
            GcTileType::Tree => (34, 197, 94),
            GcTileType::Building => (251, 191, 36),
            GcTileType::Portal => (168, 85, 247),
            GcTileType::Npc => (251, 191, 36),
            GcTileType::Chest => (251, 191, 36),
            GcTileType::Monster => (239, 68, 68),
        }
    }
}

/// One map tile: its type, an optional linked entity, and the exploration
/// flags.
#[derive(Clone, Debug)]
pub struct GcTile {
    pub tile_type: GcTileType,
    /// Entity standing here, if any.
    pub entity_id: Option<String>,
    /// Whether the player has seen it.
    pub explored: bool,
    /// Whether it is in view now.
    pub visible: bool,
}

impl GcTile {
    /// A bare tile of a type.
    pub fn gc_new(tile_type: GcTileType) -> (r: Self)
        ensures
            r.tile_type == tile_type,
            r.entity_id is None,
            !r.explored,
            !r.visible,
    {
        GcTile { tile_type, entity_id: None, explored: false, visible: false }
    }

    /// A tile of a type with an entity standing on it.
    pub fn gc_with_entity(tile_type: GcTileType, entity_id: &str) -> (r: Self)
        ensures
            r.tile_type == tile_type,
            r.entity_id matches Some(e) && e@ == entity_id@,
            !r.explored,
            !r.visible,
    {
        GcTile { tile_type, entity_id: Some(entity_id.to_owned()), explored: false, visible: false }
    }

    /// Whether the tile can be walked on.
    pub fn gc_is_walkable(&self) -> (r: bool)
        ensures
            r == spec_walkable(self.tile_type),
    {
        self.tile_type.gc_is_walkable()
    }

    /// Whether the tile can be interacted with.
    pub fn gc_is_interactable(&self) -> (r: bool)
        ensures
            r == spec_interactable(self.tile_type),
    {
        self.tile_type.gc_is_interactable()
    }
}

/// A map: a rectangular grid of tiles stored row by row, and a spawn point.
///
/// Invariant: the grid is `height` rows of `width` tiles each, fixed at
/// construction.
#[derive(Clone, Debug)]
pub struct GcMap {
    pub id: String,
    pub name: String,
    pub width: usize,
    pub height: usize,
    /// Rows of tiles: `tiles[y][x]`.
    pub tiles: Vec<Vec<GcTile>>,
    /// Where players appear.
    pub spawn_point: GcPosition,
}

/// The grid shape invariant: `height` rows of `width` tiles.
pub open spec fn spec_map_wf(m: GcMap) -> bool {
    &&& m.tiles@.len() == m.height
    &&& forall|y: int| 0 <= y < m.height ==> (#[trigger] m.tiles@[y])@.len() == m.width
}

/// Whether a position lies on the map.
pub open spec fn spec_valid_pos(m: GcMap, p: GcPosition) -> bool {
    p.x >= 0 && p.y >= 0 && (p.x as int) < m.width && (p.y as int) < m.height
}

impl GcMap {
    /// An all-grass map with the spawn at its centre.
    pub fn gc_new(id: &str, name: &str, width: usize, height: usize) -> (r: Self)
        requires
            width <= 1000,
            height <= 1000,
        ensures
            r.id@ == id@,
            r.name@ == name@,
            r.width == width,
            r.height == height,
            spec_map_wf(r),
            forall|y: int, x: int|
                0 <= y < height && 0 <= x < width ==> (#[trigger] r.tiles@[y]@[x]).tile_type
                    is Grass,
            r.spawn_point == (GcPosition { x: (width / 2) as i32, y: (height / 2) as i32 }),
    {
        let mut tiles: Vec<Vec<GcTile>> = Vec::new();
        let mut y: usize = 0;
        while y < height
            invariant
                y <= height,
                width <= 1000,
                tiles@.len() == y,
                forall|r0: int| 0 <= r0 < y ==> (#[trigger] tiles@[r0])@.len() == width,
                forall|r0: int, c: int|
                    0 <= r0 < y && 0 <= c < width ==> (#[trigger] tiles@[r0]@[c]).tile_type
                        is Grass,
            decreases height - y,
        {
            let mut row: Vec<GcTile> = Vec::new();
            let mut x: usize = 0;
            while x < width
                invariant
                    x <= width,
                    row@.len() == x,
                    forall|c: int| 0 <= c < x ==> (#[trigger] row@[c]).tile_type is Grass,
                decreases width - x,
            {
                row.push(GcTile::gc_new(GcTileType::Grass));
                x = x + 1;
            }
            tiles.push(row);
            y = y + 1;
        }
        GcMap {
            id: id.to_owned(),
            name: name.to_owned(),
            width,
            height,
            tiles,
            spawn_point: GcPosition { x: (width / 2) as i32, y: (height / 2) as i32 },
        }
    }

    /// Whether a position lies on the map.
    pub fn gc_is_valid(&self, pos: &GcPosition) -> (r: bool)
        ensures
            r == spec_valid_pos(*self, *pos),
    {
        pos.x >= 0 && pos.y >= 0 && (pos.x as usize) < self.width && (pos.y as usize) < self.height
    }

    /// The tile at a position, if it lies on the map.
    pub fn gc_get_tile(&self, pos: &GcPosition) -> (r: Option<&GcTile>)
        requires
            spec_map_wf(*self),
        ensures
            spec_valid_pos(*self, *pos) ==> (r matches Some(t)
                && *t == self.tiles@[pos.y as int]@[pos.x as int]),
            !spec_valid_pos(*self, *pos) ==> r is None,
    {
        if self.gc_is_valid(pos) {
            Some(&self.tiles[pos.y as usize][pos.x as usize])
        } else {
            None
        }
    }

    /// Replace the type of the tile at a position; the result says whether
    /// the position was on the map.
    pub fn gc_set_tile(&mut self, pos: &GcPosition, tile_type: GcTileType) -> (r: bool)
        requires
            spec_map_wf(*old(self)),
        ensures
            spec_map_wf(*final(self)),
            r == spec_valid_pos(*old(self), *pos),
            final(self).width == old(self).width,
            final(self).height == old(self).height,
            final(self).id == old(self).id,
            final(self).name == old(self).name,
            final(self).spawn_point == old(self).spawn_point,
            !r ==> final(self).tiles == old(self).tiles,
            r ==> {
                &&& final(self).tiles@[pos.y as int]@[pos.x as int] == (GcTile {
                    tile_type,
                    ..old(self).tiles@[pos.y as int]@[pos.x as int]
                })
                &&& forall|y: int, x: int|
                    0 <= y < old(self).height && 0 <= x < old(self).width && !(y == pos.y as int
                        && x == pos.x as int) ==> (#[trigger] final(self).tiles@[y]@[x]) == old(
                        self,
                    ).tiles@[y]@[x]
            },
    {
        if self.gc_is_valid(pos) {
            let y = pos.y as usize;
            let x = pos.x as usize;
            self.tiles[y][x].tile_type = tile_type;
            true
        } else {
            false
        }
    }

    /// Put an entity on a tile, setting its type as well; the result says
    /// whether the position was on the map.
    pub fn gc_place_entity(&mut self, pos: &GcPosition, tile_type: GcTileType, entity_id: &str) -> (r:
        bool)
        requires
            spec_map_wf(*old(self)),
        ensures
            spec_map_wf(*final(self)),
            r == spec_valid_pos(*old(self), *pos),
            final(self).width == old(self).width,
            final(self).height == old(self).height,
            final(self).id == old(self).id,
            final(self).name == old(self).name,
            final(self).spawn_point == old(self).spawn_point,
            !r ==> final(self).tiles == old(self).tiles,
            r ==> {
                &&& final(self).tiles@[pos.y as int]@[pos.x as int].tile_type == tile_type
                &&& final(self).tiles@[pos.y as int]@[pos.x as int].entity_id matches Some(e)
                    && e@ == entity_id@
                &&& forall|y: int, x: int|
                    0 <= y < old(self).height && 0 <= x < old(self).width && !(y == pos.y as int
                        && x == pos.x as int) ==> (#[trigger] final(self).tiles@[y]@[x]) == old(
                        self,
                    ).tiles@[y]@[x]
            },
    {
        if self.gc_is_valid(pos) {
            let y = pos.y as usize;
            let x = pos.x as usize;
            self.tiles[y][x].tile_type = tile_type;
            self.tiles[y][x].entity_id = Some(entity_id.to_owned());
            true
        } else {
            false
        }
    }

    /// Whether the tile at a position can be walked on; off-map positions
    /// cannot.
    pub fn gc_can_walk(&self, pos: &GcPosition) -> (r: bool)
        requires
            spec_map_wf(*self),
        ensures
            r == (spec_valid_pos(*self, *pos) && spec_walkable(
                self.tiles@[pos.y as int]@[pos.x as int].tile_type,
            )),
    {
        match self.gc_get_tile(pos) {
            Some(t) => t.gc_is_walkable(),
            None => false,
        }
    }

    /// Move the spawn point.
    pub fn gc_set_spawn(&mut self, pos: GcPosition)
        ensures
            *final(self) == (GcMap { spawn_point: pos, ..*old(self) }),
    {
        self.spawn_point = pos;
    }

    /// Fill a rectangle with a tile type; off-map parts are skipped.
    pub fn gc_fill_rect(&mut self, x: i32, y: i32, w: usize, h: usize, tile_type: GcTileType)
        requires
            spec_map_wf(*old(self)),
            -1000 <= x <= 1000,
            -1000 <= y <= 1000,
            w <= 1000,
            h <= 1000,
        ensures
            spec_map_wf(*final(self)),
            final(self).width == old(self).width,
            final(self).height == old(self).height,
            final(self).id == old(self).id,
            final(self).name == old(self).name,
            final(self).spawn_point == old(self).spawn_point,
    {
        let mut dy: usize = 0;
        while dy < h
            invariant
                spec_map_wf(*self),
                -1000 <= x <= 1000,
                -1000 <= y <= 1000,
                w <= 1000,
                h <= 1000,
                dy <= 1000,
                self.width == old(self).width,
                self.height == old(self).height,
                self.id == old(self).id,
                self.name == old(self).name,
                self.spawn_point == old(self).spawn_point,
            decreases h - dy,
        {
            let mut dx: usize = 0;
            while dx < w
                invariant
                    spec_map_wf(*self),
                    -1000 <= x <= 1000,
                    -1000 <= y <= 1000,
                    w <= 1000,
                    dx <= 1000,
                    dy <= 1000,
                    self.width == old(self).width,
                    self.height == old(self).height,
                    self.id == old(self).id,
                    self.name == old(self).name,
                    self.spawn_point == old(self).spawn_point,
                decreases w - dx,
            {
                let pos = GcPosition { x: x + dx as i32, y: y + dy as i32 };
                self.gc_set_tile(&pos, tile_type);
                dx = dx + 1;
            }
            dy = dy + 1;
        }
    }

    /// Draw a horizontal line of a tile type; off-map parts are skipped.
    pub fn gc_draw_h_line(&mut self, x: i32, y: i32, length: usize, tile_type: GcTileType)
        requires
            spec_map_wf(*old(self)),
            -1000 <= x <= 1000,
            -1000 <= y <= 1000,
            length <= 1000,
        ensures
            spec_map_wf(*final(self)),
            final(self).width == old(self).width,
            final(self).height == old(self).height,
            final(self).id == old(self).id,
            final(self).name == old(self).name,
            final(self).spawn_point == old(self).spawn_point,
    {
        let mut dx: usize = 0;
        while dx < length
            invariant
                spec_map_wf(*self),
                -1000 <= x <= 1000,
                -1000 <= y <= 1000,
                length <= 1000,
                dx <= 1000,
                self.width == old(self).width,
                self.height == old(self).height,
                self.id == old(self).id,
                self.name == old(self).name,
                self.spawn_point == old(self).spawn_point,
            decreases length - dx,
        {
            let pos = GcPosition { x: x + dx as i32, y };
            self.gc_set_tile(&pos, tile_type);
            dx = dx + 1;
        }
    }

    /// Draw a vertical line of a tile type; off-map parts are skipped.
    pub fn gc_draw_v_line(&mut self, x: i32, y: i32, length: usize, tile_type: GcTileType)
        requires
            spec_map_wf(*old(self)),
            -1000 <= x <= 1000,
            -1000 <= y <= 1000,
            length <= 1000,
        ensures
            spec_map_wf(*final(self)),
            final(self).width == old(self).width,
            final(self).height == old(self).height,
            final(self).id == old(self).id,
            final(self).name == old(self).name,
            final(self).spawn_point == old(self).spawn_point,
    {
        let mut dy: usize = 0;
        while dy < length
            invariant
                spec_map_wf(*self),
                -1000 <= x <= 1000,
                -1000 <= y <= 1000,
                length <= 1000,
                dy <= 1000,
                self.width == old(self).width,
                self.height == old(self).height,
                self.id == old(self).id,
                self.name == old(self).name,
                self.spawn_point == old(self).spawn_point,
            decreases length - dy,
        {
            let pos = GcPosition { x, y: y + dy as i32 };
            self.gc_set_tile(&pos, tile_type);
            dy = dy + 1;
        }
    }

    /// The map as text: one glyph per tile, one line per row.
    pub fn gc_to_ascii(&self) -> (r: String)
        requires
            spec_map_wf(*self),
        ensures
            self.height > 0 && self.width > 0 ==> r@.len() > 0,
    {
        let mut result = String::new();
        let mut y: usize = 0;
        while y < self.height
            invariant
                spec_map_wf(*self),
                y <= self.height,
                y > 0 ==> result@.len() > 0,
            decreases self.height - y,
        {
            let mut x: usize = 0;
            while x < self.width
                invariant
                    spec_map_wf(*self),
                    y < self.height,
                    x <= self.width,
                    x > 0 || y > 0 ==> result@.len() > 0,
                decreases self.width - x,
            {
                result.append(tile_glyph(self.tiles[y][x].tile_type));
                proof {
                    reveal_strlit(".");
                    reveal_strlit(",");
                    reveal_strlit("#");
                    reveal_strlit("~");
                    reveal_strlit("█");
                    reveal_strlit("♣");
                    reveal_strlit("⌂");
                    reveal_strlit("◎");
                    reveal_strlit("☺");
                    reveal_strlit("■");
                    reveal_strlit("◆");
                }
                x = x + 1;
            }
            result.append("\n");
            proof {
                reveal_strlit("\n");
            }
            y = y + 1;
        }
        result
    }
}

/// The one-character string of a tile glyph.
fn tile_glyph(t: GcTileType) -> (r: &'static str)
    ensures
        t is Grass ==> r@ == "."@,
        t is Water ==> r@ == "~"@,
        r@.len() >= 1,
{
    proof {
        reveal_strlit(".");
        reveal_strlit(",");
        reveal_strlit("#");
        reveal_strlit("~");
        reveal_strlit("█");
        reveal_strlit("♣");
        reveal_strlit("⌂");
        reveal_strlit("◎");
        reveal_strlit("☺");
        reveal_strlit("■");
        reveal_strlit("◆");
    }
    match t {
        GcTileType::Grass => ".",
        GcTileType::Dirt => ",",
        GcTileType::Stone => "#",
        GcTileType::Water => "~",
        GcTileType::Wall => "█",
        GcTileType::Tree => "♣",
        GcTileType::Building => "⌂",
        GcTileType::Portal => "◎",
        GcTileType::Npc => "☺",
        GcTileType::Chest => "■",
        GcTileType::Monster => "◆",
    }
}

} // verus!
