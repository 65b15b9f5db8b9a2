//! Map entities: portals between maps, talking NPCs, monster spawn points and
//! chests.

use vstd::prelude::*;
use vstd::string::StringExecFns;

use crate::map::GcPosition;

verus! {

/// A portal: steps a player from one map to a point on another.
#[derive(Clone, Debug)]
pub struct GcPortal {
    pub id: String,
    pub name: String,
    /// Where it stands on its map.
    pub position: GcPosition,
    /// Map it leads to.
    pub target_map_id: String,
    /// Arrival point on that map.
    pub target_position: GcPosition,
    /// Whether it is still locked.
    pub locked: bool,
    /// How to unlock it, when locked.
    pub unlock_hint: Option<String>,
}

impl GcPortal {
    /// An unlocked portal.
    pub fn gc_new(
        id: &str,
        name: &str,
        position: GcPosition,
        target_map_id: &str,
        target_position: GcPosition,
    ) -> (r: Self)
        ensures
            r.id@ == id@,
            r.name@ == name@,
            r.position == position,
            r.target_map_id@ == target_map_id@,
            r.target_position == target_position,
            !r.locked,
            r.unlock_hint is None,
    {
        GcPortal {
            id: id.to_owned(),
            name: name.to_owned(),
            position,
            target_map_id: target_map_id.to_owned(),
            target_position,
            locked: false,
            unlock_hint: None,
        }
    }

    /// The same portal locked behind a hint.
    pub fn gc_with_lock(self, hint: &str) -> (r: Self)
        ensures
            r.locked,
            r.unlock_hint matches Some(h) && h@ == hint@,
            r.id == self.id,
            r.position == self.position,
            r.target_map_id == self.target_map_id,
            r.target_position == self.target_position,
    {
        let mut p = self;
        p.locked = true;
        p.unlock_hint = Some(hint.to_owned());
        p
    }

    /// Unlock the portal.
    pub fn gc_unlock(&mut self)
        ensures
            *final(self) == (GcPortal { locked: false, ..*old(self) }),
    {
        self.locked = false;
    }
}

/// What an NPC is for.
#[derive(Clone, Copy, Debug, PartialEq, Eq, Structural)]
pub enum GcNpcType {
    /// Buys and sells.
    Shop,
    /// Gives and takes quests.
    Quest,
    /// Gives hints.
    Info,
    /// Can be challenged.
    Battle,
}

/// An NPC with a dialogue loop.
#[derive(Clone, Debug)]
pub struct GcNpc {
    pub id: String,
    pub name: String,
    pub npc_type: GcNpcType,
    pub position: GcPosition,
    /// Display sprite.
    pub sprite: String,
    /// Lines spoken, in order.
    pub dialogues: Vec<String>,
    /// Which line comes next.
    pub current_dialogue: usize,
}

impl GcNpc {
    /// An NPC with no dialogue yet.
    pub fn gc_new(id: &str, name: &str, npc_type: GcNpcType, position: GcPosition) -> (r: Self)
        ensures
            r.id@ == id@,
            r.name@ == name@,
            r.npc_type == npc_type,
            r.position == position,
            r.dialogues@.len() == 0,
            r.current_dialogue == 0,
    {
        GcNpc {
            id: id.to_owned(),
            name: name.to_owned(),
            npc_type,
            position,
            sprite: "☺".to_owned(),
            dialogues: Vec::new(),
            current_dialogue: 0,
        }
    }

    /// The same NPC with another sprite.
    pub fn gc_with_sprite(self, sprite: &str) -> (r: Self)
        ensures
            r.sprite@ == sprite@,
            r.id == self.id,
            r.dialogues == self.dialogues,
    {
        let mut n = self;
        n.sprite = sprite.to_owned();
        n
    }

    /// Append one dialogue line.
    pub fn gc_add_dialogue(&mut self, text: &str)
        ensures
            final(self).dialogues@.len() == old(self).dialogues@.len() + 1,
            final(self).dialogues@.last()@ == text@,
            forall|j: int|
                0 <= j < old(self).dialogues@.len() ==> final(self).dialogues@[j] == old(
                    self,
                ).dialogues@[j],
            *final(self) == (GcNpc { dialogues: final(self).dialogues, ..*old(self) }),
    {
        self.dialogues.push(text.to_owned());
    }

    /// The same NPC with a whole dialogue.
    pub fn gc_with_dialogues(self, dialogues: Vec<&str>) -> (r: Self)
        ensures
            r.dialogues@.len() == dialogues@.len(),
            forall|j: int| 0 <= j < dialogues@.len() ==> (#[trigger] r.dialogues@[j])@ == dialogues@[j]@,
            r.id == self.id,
    {
        let mut n = self;
        let mut v: Vec<String> = Vec::new();
        let mut i: usize = 0;
        while i < dialogues.len()
            invariant
                i <= dialogues@.len(),
                v@.len() == i,
                forall|j: int| 0 <= j < i ==> (#[trigger] v@[j])@ == dialogues@[j]@,
            decreases dialogues@.len() - i,
        {
            v.push(dialogues[i].to_owned());
            i = i + 1;
        }
        n.dialogues = v;
        n
    }

    /// The line to speak now, if the cursor is in range.
    pub fn gc_get_current_dialogue(&self) -> (r: Option<&str>)
        ensures
            self.current_dialogue < self.dialogues@.len() ==> (r matches Some(s) && s@
                == self.dialogues@[self.current_dialogue as int]@),
            self.current_dialogue >= self.dialogues@.len() ==> r is None,
    {
        if self.current_dialogue < self.dialogues.len() {
            Some(self.dialogues[self.current_dialogue].as_str())
        } else {
            None
        }
    }

    /// Step to the next line; at the end the loop rewinds and the result says
    /// so.
    pub fn gc_next_dialogue(&mut self) -> (r: bool)
        requires
            old(self).current_dialogue < usize::MAX,
        ensures
            r == (old(self).current_dialogue + 1 < old(self).dialogues@.len()),
            r ==> *final(self) == (GcNpc {
                current_dialogue: (old(self).current_dialogue + 1) as usize,
                ..*old(self)
            }),
            !r ==> *final(self) == (GcNpc { current_dialogue: 0usize, ..*old(self) }),
    {
        if self.current_dialogue + 1 < self.dialogues.len() {
            self.current_dialogue = self.current_dialogue + 1;
            true
        } else {
            self.current_dialogue = 0;
            false
        }
    }
}

/// A monster spawn point; boss entries do not respawn.
#[derive(Clone, Debug)]
pub struct GcMonsterSpawn {
    pub id: String,
    pub name: String,
    pub position: GcPosition,
    pub sprite: String,
    /// Monster level; zero for boss entries.
    pub level: u32,
    /// Whether this is a boss entrance.
    pub is_boss: bool,
    /// The boss behind it, when it is.
    pub boss_id: Option<String>,
    /// Whether the spawn was cleared.
    pub defeated: bool,
    /// Seconds until it returns; zero means never.
    pub respawn_time: u32,
}

impl GcMonsterSpawn {
    /// An ordinary spawn point that returns once a minute.
    pub fn gc_new(id: &str, name: &str, position: GcPosition, level: u32) -> (r: Self)
        ensures
            r.id@ == id@,
            r.name@ == name@,
            r.position == position,
            r.level == level,
            !r.is_boss,
            r.boss_id is None,
            !r.defeated,
            r.respawn_time == 60,
    {
        GcMonsterSpawn {
            id: id.to_owned(),
            name: name.to_owned(),
            position,
            sprite: "◆".to_owned(),
            level,
            is_boss: false,
            boss_id: None,
            defeated: false,
            respawn_time: 60,
        }
    }

    /// A boss entrance; it never respawns on its own.
    pub fn gc_new_boss(id: &str, name: &str, position: GcPosition, boss_id: &str) -> (r: Self)
        ensures
            r.id@ == id@,
            r.name@ == name@,
            r.position == position,
            r.level == 0,
            r.is_boss,
            r.boss_id matches Some(b) && b@ == boss_id@,
            !r.defeated,
            r.respawn_time == 0,
    {
        GcMonsterSpawn {
            id: id.to_owned(),
            name: name.to_owned(),
            position,
            sprite: "👹".to_owned(),
            level: 0,
            is_boss: true,
            boss_id: Some(boss_id.to_owned()),
            defeated: false,
            respawn_time: 0,
        }
    }

    /// Mark the spawn cleared.
    pub fn gc_defeat(&mut self)
        ensures
            *final(self) == (GcMonsterSpawn { defeated: true, ..*old(self) }),
    {
        self.defeated = true;
    }

    /// Bring the spawn back.
    pub fn gc_respawn(&mut self)
        ensures
            *final(self) == (GcMonsterSpawn { defeated: false, ..*old(self) }),
    {
        self.defeated = false;
    }
}

/// One reward inside a chest.
#[derive(Clone, Debug)]
pub struct GcChestReward {
    pub item_id: String,
    pub item_name: String,
    pub quantity: u32,
}

/// A chest, possibly behind a key.
#[derive(Clone, Debug)]
pub struct GcChest {
    pub id: String,
    pub position: GcPosition,
    /// What it holds.
    pub rewards: Vec<GcChestReward>,
    /// Whether it was opened.
    pub opened: bool,
    /// Key it demands, if any.
    pub key_required: Option<String>,
}

impl GcChest {
    /// An empty, unopened, keyless chest.
    pub fn gc_new(id: &str, position: GcPosition) -> (r: Self)
        ensures
            r.id@ == id@,
            r.position == position,
            r.rewards@.len() == 0,
            !r.opened,
            r.key_required is None,
    {
        GcChest {
            id: id.to_owned(),
            position,
            rewards: Vec::new(),
            opened: false,
            key_required: None,
        }
    }

    /// Add one reward.
    pub fn gc_add_reward(&mut self, item_id: &str, item_name: &str, quantity: u32)
        ensures
            final(self).rewards@.len() == old(self).rewards@.len() + 1,
            final(self).rewards@.last().item_id@ == item_id@,
            final(self).rewards@.last().item_name@ == item_name@,
            final(self).rewards@.last().quantity == quantity,
            *final(self) == (GcChest { rewards: final(self).rewards, ..*old(self) }),
    {
        self.rewards.push(
            GcChestReward {
                item_id: item_id.to_owned(),
                item_name: item_name.to_owned(),
                quantity,
            },
        );
    }

    /// The same chest behind a key.
    pub fn gc_with_key(self, key_id: &str) -> (r: Self)
        ensures
            r.key_required matches Some(k) && k@ == key_id@,
            r.id == self.id,
            r.rewards == self.rewards,
            r.opened == self.opened,
    {
        let mut c = self;
        c.key_required = Some(key_id.to_owned());
        c
    }

    /// Whether the chest can be opened: never twice, and a keyed chest needs
    /// the key in hand.
    pub fn gc_can_open(&self, has_key: bool) -> (r: bool)
        ensures
            r == (!self.opened && (self.key_required is None || has_key)),
    {
        !self.opened && (self.key_required.is_none() || has_key)
    }

    /// Open the chest, yielding its rewards; a second opening yields nothing.
    pub fn gc_open(&mut self) -> (r: Option<&Vec<GcChestReward>>)
        ensures
            old(self).opened ==> r is None && *final(self) == *old(self),
            !old(self).opened ==> {
                &&& *final(self) == (GcChest { opened: true, ..*old(self) })
                &&& r matches Some(v) && v@ == old(self).rewards@
            },
    {
        if !self.opened {
            self.opened = true;
            Some(&self.rewards)
        } else {
            None
        }
    }
}

} // verus!
