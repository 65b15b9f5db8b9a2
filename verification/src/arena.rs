//! The two-sided monster arena: five lanes per side, each side on its own
//! terrain, with deployment from a bench, recall, lane swaps and the default
//! weakest-enemy target choice.

use vstd::prelude::*;

use crate::combat::gc_auto_select_target;
use crate::monster::{spec_effective_atk, spec_effective_max_hp, GcMonster};
use crate::terrain::GcTerrainType;
use crate::text::str_eq;

verus! {

/// Field-for-field likeness of two monsters: every plain field equal and the
/// three id strings equal as character sequences.
pub open spec fn spec_monster_like(a: GcMonster, b: GcMonster) -> bool {
    &&& a.id@ == b.id@
    &&& a.template_id@ == b.template_id@
    &&& a.name@ == b.name@
    &&& a.level == b.level
    &&& a.attribute == b.attribute
    &&& a.base_atk == b.base_atk
    &&& a.base_def == b.base_def
    &&& a.current_hp == b.current_hp
    &&& a.max_hp == b.max_hp
    &&& a.slot == b.slot
    &&& a.can_attack == b.can_attack
    &&& a.star == b.star
    &&& a.golden_level == b.golden_level
}

/// A field-for-field copy of a monster.
pub(crate) fn clone_monster(m: &GcMonster) -> (r: GcMonster)
    ensures
        spec_monster_like(*m, r),
{
    GcMonster {
        id: m.id.clone(),
        template_id: m.template_id.clone(),
        name: m.name.clone(),
        level: m.level,
        attribute: m.attribute,
        base_atk: m.base_atk,
        base_def: m.base_def,
        current_hp: m.current_hp,
        max_hp: m.max_hp,
        slot: m.slot,
        can_attack: m.can_attack,
        star: m.star,
        golden_level: m.golden_level,
    }
}

/// A monster lane after the start-of-turn wake-up.
pub open spec fn spec_lane_awake(o: Option<GcMonster>) -> Option<GcMonster> {
    match o {
        Option::Some(m) => Some(GcMonster { can_attack: true, ..m }),
        Option::None => None,
    }
}

/// Monsters standing in the lanes below `i`.
pub open spec fn spec_monster_count_upto(s: Seq<Option<GcMonster>>, i: int) -> int
    decreases i,
{
    if i <= 0 {
        0
    } else if s[i - 1] is Some {
        spec_monster_count_upto(s, i - 1) + 1
    } else {
        spec_monster_count_upto(s, i - 1)
    }
}

/// The two-sided arena.
#[derive(Clone, Debug)]
pub struct GcBattleArena {
    /// Terrain under the player's lanes.
    pub player_terrain: GcTerrainType,
    /// Terrain under the enemy's lanes.
    pub enemy_terrain: GcTerrainType,
    /// The player's five lanes.
    pub player_monsters: [Option<GcMonster>; 5],
    /// The enemy's five lanes.
    pub enemy_monsters: [Option<GcMonster>; 5],
    /// Whether this turn's normal summon was used.
    pub normal_summon_used: bool,
}

impl Default for GcBattleArena {
    /// Empty lanes on plain terrain.
    fn default() -> (r: Self)
        ensures
            r.player_terrain is Plain,
            r.enemy_terrain is Plain,
            forall|j: int| 0 <= j < 5 ==> r.player_monsters@[j] is None,
            forall|j: int| 0 <= j < 5 ==> r.enemy_monsters@[j] is None,
            !r.normal_summon_used,
    {
        GcBattleArena {
            player_terrain: GcTerrainType::Plain,
            enemy_terrain: GcTerrainType::Plain,
            player_monsters: [None, None, None, None, None],
            enemy_monsters: [None, None, None, None, None],
            normal_summon_used: false,
        }
    }
}

impl GcBattleArena {
    /// Empty lanes on the two given terrains.
    pub fn new(player_terrain: GcTerrainType, enemy_terrain: GcTerrainType) -> (r: Self)
        ensures
            r.player_terrain == player_terrain,
            r.enemy_terrain == enemy_terrain,
            forall|j: int| 0 <= j < 5 ==> r.player_monsters@[j] is None,
            forall|j: int| 0 <= j < 5 ==> r.enemy_monsters@[j] is None,
            !r.normal_summon_used,
    {
        GcBattleArena {
            player_terrain,
            enemy_terrain,
            player_monsters: [None, None, None, None, None],
            enemy_monsters: [None, None, None, None, None],
            normal_summon_used: false,
        }
    }

    /// Occupancy of the player's lanes.
    pub fn player_occupied_slots(&self) -> (r: [bool; 5])
        ensures
            forall|j: int| 0 <= j < 5 ==> r@[j] == (self.player_monsters@[j] is Some),
    {
        let mut result: [bool; 5] = [false, false, false, false, false];
        let mut i: usize = 0;
        while i < 5
            invariant
                i <= 5,
                r_matches_upto(result@, self.player_monsters@, i as int),
            decreases 5 - i,
        {
            result[i] = self.player_monsters[i].is_some();
            i = i + 1;
        }
        result
    }

    /// Occupancy of the enemy's lanes.
    pub fn enemy_occupied_slots(&self) -> (r: [bool; 5])
        ensures
            forall|j: int| 0 <= j < 5 ==> r@[j] == (self.enemy_monsters@[j] is Some),
    {
        let mut result: [bool; 5] = [false, false, false, false, false];
        let mut i: usize = 0;
        while i < 5
            invariant
                i <= 5,
                r_matches_upto(result@, self.enemy_monsters@, i as int),
            decreases 5 - i,
        {
            result[i] = self.enemy_monsters[i].is_some();
            i = i + 1;
        }
        result
    }

    /// Summon a monster into an empty player lane: it takes the slot and may
    /// not attack yet.  Fails on a bad or occupied slot, mutating nothing.
    pub fn summon_player_monster(&mut self, slot: u8, monster: GcMonster) -> (r: Result<
        (),
        String,
    >)
        ensures
            r is Ok <==> (slot < 5 && old(self).player_monsters@[slot as int] is None),
            r is Err ==> *final(self) == *old(self),
            r is Ok ==> {
                &&& final(self).player_monsters@[slot as int] == Some(
                    GcMonster { slot: Some(slot), can_attack: false, ..monster },
                )
                &&& forall|j: int|
                    0 <= j < 5 && j != slot ==> final(self).player_monsters@[j] == old(self).player_monsters@[j]
                &&& final(self).enemy_monsters == old(self).enemy_monsters
                &&& final(self).player_terrain == old(self).player_terrain
                &&& final(self).enemy_terrain == old(self).enemy_terrain
                &&& final(self).normal_summon_used == old(self).normal_summon_used
            },
    {
        if slot >= 5 {
            return Err("无效槽位".to_owned());
        }
        if self.player_monsters[slot as usize].is_some() {
            return Err("槽位已占用".to_owned());
        }
        let mut monster = monster;
        monster.slot = Some(slot);
        monster.can_attack = false;
        self.player_monsters[slot as usize] = Some(monster);
        Ok(())
    }

    /// Start of turn: the normal summon is available again and every player
    /// monster wakes up.  Running this twice leaves the same state as once.
    pub fn on_turn_start(&mut self)
        ensures
            !final(self).normal_summon_used,
            forall|j: int|
                0 <= j < 5 ==> final(self).player_monsters@[j] == spec_lane_awake(
                    old(self).player_monsters@[j],
                ),
            final(self).enemy_monsters == old(self).enemy_monsters,
            final(self).player_terrain == old(self).player_terrain,
            final(self).enemy_terrain == old(self).enemy_terrain,
    {
        self.normal_summon_used = false;
        let mut i: usize = 0;
        while i < 5
            invariant
                i <= 5,
                forall|j: int|
                    0 <= j < i ==> self.player_monsters@[j] == spec_lane_awake(
                        old(self).player_monsters@[j],
                    ),
                forall|j: int|
                    i <= j < 5 ==> self.player_monsters@[j] == old(self).player_monsters@[j],
                self.enemy_monsters == old(self).enemy_monsters,
                self.player_terrain == old(self).player_terrain,
                self.enemy_terrain == old(self).enemy_terrain,
                !self.normal_summon_used,
            decreases 5 - i,
        {
            match self.player_monsters[i].take() {
                Some(mut m) => {
                    m.can_attack = true;
                    self.player_monsters[i] = Some(m);
                },
                None => {},
            }
            i = i + 1;
        }
    }

    /// The default enemy target: the occupied enemy lane with the lowest
    /// effective attack, the lowest index breaking ties; `None` when the
    /// enemy side is empty.
    pub fn get_weakest_enemy_slot(&self) -> (r: Option<u8>)
        ensures
            r is None <==> (forall|j: int| 0 <= j < 5 ==> self.enemy_monsters@[j] is None),
            r matches Some(i) ==> {
                &&& 0 <= i < 5
                &&& self.enemy_monsters@[i as int] is Some
                &&& forall|j: int|
                    0 <= j < 5 && self.enemy_monsters@[j] is Some ==> spec_effective_atk(
                        self.enemy_monsters@[i as int]->0,
                        self.enemy_terrain,
                    ) <= spec_effective_atk(self.enemy_monsters@[j]->0, self.enemy_terrain)
                &&& forall|j: int|
                    0 <= j < i && self.enemy_monsters@[j] is Some ==> spec_effective_atk(
                        self.enemy_monsters@[i as int]->0,
                        self.enemy_terrain,
                    ) < spec_effective_atk(self.enemy_monsters@[j]->0, self.enemy_terrain)
            },
    {
        gc_auto_select_target(&self.enemy_monsters, self.enemy_terrain)
    }

    /// Deploy a bench monster into an empty player lane.  Fails on a bad or
    /// occupied slot or an unknown id, mutating nothing.
    pub fn deploy_from_bench(
        &mut self,
        bench: &mut Vec<GcMonster>,
        monster_id: &str,
        slot: u8,
    ) -> (r: Result<(), String>)
        ensures
            r is Err ==> *final(self) == *old(self) && final(bench)@ == old(bench)@,
            r is Ok ==> slot < 5 && old(self).player_monsters@[slot as int] is None,
            r is Ok ==> exists|idx: int|
                {
                    &&& 0 <= idx < old(bench)@.len()
                    &&& old(bench)@[idx].id@ == monster_id@
                    &&& forall|j: int| 0 <= j < idx ==> old(bench)@[j].id@ != monster_id@
                    &&& final(bench)@ == old(bench)@.remove(idx)
                    &&& final(self).player_monsters@[slot as int] == Some(
                        GcMonster { slot: Some(slot), can_attack: false, ..old(bench)@[idx] },
                    )
                    &&& forall|j: int|
                        0 <= j < 5 && j != slot ==> final(self).player_monsters@[j] == old(self).player_monsters@[j]
                    &&& final(self).enemy_monsters == old(self).enemy_monsters
                    &&& final(self).player_terrain == old(self).player_terrain
                    &&& final(self).enemy_terrain == old(self).enemy_terrain
                    &&& final(self).normal_summon_used == old(self).normal_summon_used
                },
    {
        if slot >= 5 {
            return Err("无效槽位".to_owned());
        }
        if self.player_monsters[slot as usize].is_some() {
            return Err("槽位已占用".to_owned());
        }
        let mut idx: usize = 0;
        while idx < bench.len()
            invariant
                idx <= bench@.len(),
                bench@ == old(bench)@,
                *self == *old(self),
                slot < 5,
                old(self).player_monsters@[slot as int] is None,
                forall|j: int| 0 <= j < idx ==> bench@[j].id@ != monster_id@,
            decreases bench@.len() - idx,
        {
            if str_eq(bench[idx].id.as_str(), monster_id) {
                let ghost widx = idx as int;
                let mut monster = bench.remove(idx);
                monster.slot = Some(slot);
                monster.can_attack = false;
                self.player_monsters[slot as usize] = Some(monster);
                proof {
                    assert(0 <= widx < old(bench)@.len() && old(bench)@[widx].id@ == monster_id@
                        && (forall|j: int| 0 <= j < widx ==> old(bench)@[j].id@ != monster_id@)
                        && final(bench)@ == old(bench)@.remove(widx));
                }
                return Ok(());
            }
            idx = idx + 1;
        }
        Err("手牌区没有该怪兽".to_owned())
    }

    /// Recall a lane to the bench: the monster leaves its slot, loses its
    /// attack flag, returns to full tier-scaled health, and a copy joins the
    /// bench.
    pub fn recall_to_bench(&mut self, bench: &mut Vec<GcMonster>, slot: u8) -> (r: Option<
        GcMonster,
    >)
        ensures
            (slot >= 5 || old(self).player_monsters@[slot as int] is None) ==> {
                &&& r is None
                &&& *final(self) == *old(self)
                &&& final(bench)@ == old(bench)@
            },
            (slot < 5 && old(self).player_monsters@[slot as int] is Some) ==> {
                let m0 = old(self).player_monsters@[slot as int]->0;
                let out = GcMonster {
                    slot: None,
                    can_attack: false,
                    current_hp: spec_effective_max_hp(m0),
                    ..m0
                };
                &&& r matches Some(m) && spec_monster_like(out, m)
                &&& final(bench)@.len() == old(bench)@.len() + 1
                &&& (forall|j: int|
                    0 <= j < old(bench)@.len() ==> final(bench)@[j] == old(bench)@[j])
                &&& spec_monster_like(out, final(bench)@.last())
                &&& final(self).player_monsters@[slot as int] is None
                &&& forall|j: int|
                    0 <= j < 5 && j != slot ==> final(self).player_monsters@[j] == old(self).player_monsters@[j]
                &&& final(self).enemy_monsters == old(self).enemy_monsters
                &&& final(self).player_terrain == old(self).player_terrain
                &&& final(self).enemy_terrain == old(self).enemy_terrain
                &&& final(self).normal_summon_used == old(self).normal_summon_used
            },
    {
        if slot >= 5 {
            return None;
        }
        if self.player_monsters[slot as usize].is_none() {
            return None;
        }
        match self.player_monsters[slot as usize].take() {
            Some(mut monster) => {
                monster.slot = None;
                monster.can_attack = false;
                monster.current_hp = monster.effective_max_hp();
                bench.push(clone_monster(&monster));
                Some(monster)
            },
            None => None,
        }
    }

    /// Swap two player lanes, keeping each monster's slot field in step.
    /// Fails on a bad index, mutating nothing.
    pub fn swap_positions(&mut self, slot_a: u8, slot_b: u8) -> (r: Result<(), String>)
        ensures
            r is Ok <==> (slot_a < 5 && slot_b < 5),
            r is Err ==> *final(self) == *old(self),
            r is Ok ==> {
                &&& final(self).player_monsters@[slot_a as int] == spec_reslotted(
                    old(self).player_monsters@[slot_b as int],
                    slot_a,
                )
                &&& final(self).player_monsters@[slot_b as int] == spec_reslotted(
                    old(self).player_monsters@[slot_a as int],
                    slot_b,
                )
                &&& forall|j: int|
                    0 <= j < 5 && j != slot_a && j != slot_b ==> final(self).player_monsters@[j]
                        == old(self).player_monsters@[j]
                &&& final(self).enemy_monsters == old(self).enemy_monsters
                &&& final(self).player_terrain == old(self).player_terrain
                &&& final(self).enemy_terrain == old(self).enemy_terrain
                &&& final(self).normal_summon_used == old(self).normal_summon_used
            },
    {
        if slot_a >= 5 || slot_b >= 5 {
            return Err("无效槽位".to_owned());
        }
        if slot_a == slot_b {
            match self.player_monsters[slot_a as usize].take() {
                Some(mut m) => {
                    m.slot = Some(slot_a);
                    self.player_monsters[slot_a as usize] = Some(m);
                },
                None => {},
            }
            return Ok(());
        }
        let a = self.player_monsters[slot_a as usize].take();
        let b = self.player_monsters[slot_b as usize].take();
        self.player_monsters[slot_a as usize] = match b {
            Some(mut m) => {
                m.slot = Some(slot_a);
                Some(m)
            },
            None => None,
        };
        self.player_monsters[slot_b as usize] = match a {
            Some(mut m) => {
                m.slot = Some(slot_b);
                Some(m)
            },
            None => None,
        };
        Ok(())
    }

    /// The first empty player lane, if any.
    pub fn first_empty_slot(&self) -> (r: Option<u8>)
        ensures
            r is None <==> (forall|j: int| 0 <= j < 5 ==> self.player_monsters@[j] is Some),
            r matches Some(i) ==> 0 <= i < 5 && self.player_monsters@[i as int] is None
                && (forall|j: int| 0 <= j < i ==> self.player_monsters@[j] is Some),
    {
        let mut i: usize = 0;
        while i < 5
            invariant
                i <= 5,
                forall|j: int| 0 <= j < i ==> self.player_monsters@[j] is Some,
            decreases 5 - i,
        {
            if self.player_monsters[i].is_none() {
                return Some(i as u8);
            }
            i = i + 1;
        }
        None
    }

    /// Monsters standing on the player's side.
    pub fn player_monster_count(&self) -> (r: usize)
        ensures
            r == spec_monster_count_upto(self.player_monsters@, 5),
    {
        let mut count: usize = 0;
        let mut i: usize = 0;
        while i < 5
            invariant
                i <= 5,
                count == spec_monster_count_upto(self.player_monsters@, i as int),
                count <= i,
            decreases 5 - i,
        {
            if self.player_monsters[i].is_some() {
                count = count + 1;
            }
            i = i + 1;
        }
        count
    }

    /// Monsters standing on the enemy's side.
    pub fn enemy_monster_count(&self) -> (r: usize)
        ensures
            r == spec_monster_count_upto(self.enemy_monsters@, 5),
    {
        let mut count: usize = 0;
        let mut i: usize = 0;
        while i < 5
            invariant
                i <= 5,
                count == spec_monster_count_upto(self.enemy_monsters@, i as int),
                count <= i,
            decreases 5 - i,
        {
            if self.enemy_monsters[i].is_some() {
                count = count + 1;
            }
            i = i + 1;
        }
        count
    }

    /// Whether every usable player lane (capped at `max_slots`) is occupied.
    pub fn is_player_side_full(&self, max_slots: u8) -> (r: bool)
        ensures
            r == (forall|j: int|
                0 <= j < (if max_slots < 5 {
                    max_slots as int
                } else {
                    5
                }) ==> self.player_monsters@[j] is Some),
    {
        let max: usize = if (max_slots as usize) < 5 {
            max_slots as usize
        } else {
            5
        };
        let mut i: usize = 0;
        while i < max
            invariant
                i <= max,
                max == (if max_slots < 5 {
                    max_slots as int
                } else {
                    5
                }),
                forall|j: int| 0 <= j < i ==> self.player_monsters@[j] is Some,
            decreases max - i,
        {
            if self.player_monsters[i].is_none() {
                return false;
            }
            i = i + 1;
        }
        true
    }

    /// The player lane holding the monster with the given id, searching in
    /// lane order.
    pub fn find_player_monster(&self, monster_id: &str) -> (r: Option<(u8, &GcMonster)>)
        ensures
            r is None ==> (forall|j: int|
                0 <= j < 5 ==> !spec_lane_has_id(#[trigger] self.player_monsters@[j], monster_id@)),
            r matches Some(p) ==> {
                &&& 0 <= p.0 < 5
                &&& spec_lane_has_id(self.player_monsters@[p.0 as int], monster_id@)
                &&& *p.1 == self.player_monsters@[p.0 as int]->0
                &&& forall|j: int|
                    0 <= j < p.0 ==> !spec_lane_has_id(
                        #[trigger] self.player_monsters@[j],
                        monster_id@,
                    )
            },
    {
        let mut i: usize = 0;
        while i < 5
            invariant
                i <= 5,
                forall|j: int|
                    0 <= j < i ==> !spec_lane_has_id(
                        #[trigger] self.player_monsters@[j],
                        monster_id@,
                    ),
            decreases 5 - i,
        {
            match &self.player_monsters[i] {
                Some(m) => {
                    if str_eq(m.id.as_str(), monster_id) {
                        return Some((i as u8, m));
                    }
                },
                None => {},
            }
            i = i + 1;
        }
        None
    }
}

/// Whether a lane holds a monster with the given id.
pub open spec fn spec_lane_has_id(o: Option<GcMonster>, id: Seq<char>) -> bool {
    o is Some && o->0.id@ == id
}

/// A lane content moved to a new slot index.
pub open spec fn spec_reslotted(o: Option<GcMonster>, slot: u8) -> Option<GcMonster> {
    match o {
        Option::Some(m) => Some(GcMonster { slot: Some(slot), ..m }),
        Option::None => None,
    }
}

/// Whether the first `i` occupancy flags match the first `i` lanes.
pub open spec fn r_matches_upto(flags: Seq<bool>, lanes: Seq<Option<GcMonster>>, i: int) -> bool {
    forall|j: int| 0 <= j < i ==> flags[j] == (lanes[j] is Some)
}

/// Law of the arena wake-up: waking a lane twice gives the same lane as
/// waking it once.
pub proof fn lemma_arena_wake_idempotent(o: Option<GcMonster>)
    ensures
        spec_lane_awake(spec_lane_awake(o)) == spec_lane_awake(o),
{
}

} // verus!
