//! The bag and the five equipment slots: capacity-limited storage, wearing
//! and removing items, and the total bonus of everything worn.

use vstd::prelude::*;
use vstd::string::StringExecFns;

use crate::equipment::{spec_profession_allowed, GcEquipment, GcEquipmentSlot};
use crate::profession::GcProfessionType;
use crate::text::str_eq;
use crate::types::{GcBaseStats, GcCombatStats};

verus! {

/// What is worn in each of the five slots.
#[derive(Clone, Debug)]
pub struct GcEquippedItems {
    pub weapon: Option<GcEquipment>,
    pub helmet: Option<GcEquipment>,
    pub armor: Option<GcEquipment>,
    pub boots: Option<GcEquipment>,
    pub accessory: Option<GcEquipment>,
}

impl Default for GcEquippedItems {
    /// Nothing worn.
    fn default() -> (r: Self)
        ensures
            r.weapon is None,
            r.helmet is None,
            r.armor is None,
            r.boots is None,
            r.accessory is None,
    {
        GcEquippedItems { weapon: None, helmet: None, armor: None, boots: None, accessory: None }
    }
}

/// The item worn in a slot.
pub open spec fn spec_worn(e: GcEquippedItems, slot: GcEquipmentSlot) -> Option<GcEquipment> {
    match slot {
        GcEquipmentSlot::Weapon => e.weapon,
        GcEquipmentSlot::Helmet => e.helmet,
        GcEquipmentSlot::Armor => e.armor,
        GcEquipmentSlot::Boots => e.boots,
        GcEquipmentSlot::Accessory => e.accessory,
    }
}

/// The worn set with one slot replaced.
pub open spec fn spec_worn_set(
    e: GcEquippedItems,
    slot: GcEquipmentSlot,
    item: Option<GcEquipment>,
) -> GcEquippedItems {
    match slot {
        GcEquipmentSlot::Weapon => GcEquippedItems { weapon: item, ..e },
        GcEquipmentSlot::Helmet => GcEquippedItems { helmet: item, ..e },
        GcEquipmentSlot::Armor => GcEquippedItems { armor: item, ..e },
        GcEquipmentSlot::Boots => GcEquippedItems { boots: item, ..e },
        GcEquipmentSlot::Accessory => GcEquippedItems { accessory: item, ..e },
    }
}

impl GcEquippedItems {
    /// The item worn in `slot`, if any.
    pub fn gc_get(&self, slot: GcEquipmentSlot) -> (r: Option<&GcEquipment>)
        ensures
            match r {
                Option::Some(e) => spec_worn(*self, slot) == Some(*e),
                Option::None => spec_worn(*self, slot) is None,
            },
    {
        match slot {
            GcEquipmentSlot::Weapon => self.weapon.as_ref(),
            GcEquipmentSlot::Helmet => self.helmet.as_ref(),
            GcEquipmentSlot::Armor => self.armor.as_ref(),
            GcEquipmentSlot::Boots => self.boots.as_ref(),
            GcEquipmentSlot::Accessory => self.accessory.as_ref(),
        }
    }

    /// Put `item` into `slot`, returning what was worn there.
    pub fn gc_set(&mut self, slot: GcEquipmentSlot, item: Option<GcEquipment>) -> (r: Option<
        GcEquipment,
    >)
        ensures
            r == spec_worn(*old(self), slot),
            *final(self) == spec_worn_set(*old(self), slot, item),
    {
        match slot {
            GcEquipmentSlot::Weapon => {
                let out = self.weapon.take();
                self.weapon = item;
                out
            },
            GcEquipmentSlot::Helmet => {
                let out = self.helmet.take();
                self.helmet = item;
                out
            },
            GcEquipmentSlot::Armor => {
                let out = self.armor.take();
                self.armor = item;
                out
            },
            GcEquipmentSlot::Boots => {
                let out = self.boots.take();
                self.boots = item;
                out
            },
            GcEquipmentSlot::Accessory => {
                let out = self.accessory.take();
                self.accessory = item;
                out
            },
        }
    }

    /// Sum of the base attribute bonuses of everything worn, slot by slot in
    /// a fixed order, saturating.
    pub fn gc_total_base_stats(&self) -> (r: GcBaseStats)
        ensures
            r == spec_total_base(*self),
    {
        let mut total = GcBaseStats::gc_new();
        match &self.weapon {
            Some(e) => total.gc_merge(&e.base_stats),
            None => {},
        }
        match &self.helmet {
            Some(e) => total.gc_merge(&e.base_stats),
            None => {},
        }
        match &self.armor {
            Some(e) => total.gc_merge(&e.base_stats),
            None => {},
        }
        match &self.boots {
            Some(e) => total.gc_merge(&e.base_stats),
            None => {},
        }
        match &self.accessory {
            Some(e) => total.gc_merge(&e.base_stats),
            None => {},
        }
        total
    }

    /// Sum of the combat attribute bonuses of everything worn, slot by slot
    /// in a fixed order, saturating.
    pub fn gc_total_combat_stats(&self) -> (r: GcCombatStats)
        ensures
            r == spec_total_combat(*self),
    {
        let mut total = GcCombatStats::gc_new();
        match &self.weapon {
            Some(e) => total.gc_merge(&e.combat_stats),
            None => {},
        }
        match &self.helmet {
            Some(e) => total.gc_merge(&e.combat_stats),
            None => {},
        }
        match &self.armor {
            Some(e) => total.gc_merge(&e.combat_stats),
            None => {},
        }
        match &self.boots {
            Some(e) => total.gc_merge(&e.combat_stats),
            None => {},
        }
        match &self.accessory {
            Some(e) => total.gc_merge(&e.combat_stats),
            None => {},
        }
        total
    }
}

/// Base attributes added by a possibly-worn item.
pub open spec fn spec_add_base(acc: GcBaseStats, o: Option<GcEquipment>) -> GcBaseStats {
    match o {
        Option::Some(e) => GcBaseStats {
            strength: acc.strength.saturating_add(e.base_stats.strength),
            agility: acc.agility.saturating_add(e.base_stats.agility),
            intelligence: acc.intelligence.saturating_add(e.base_stats.intelligence),
            vitality: acc.vitality.saturating_add(e.base_stats.vitality),
        },
        Option::None => acc,
    }
}

/// Total base bonus of a worn set.
pub open spec fn spec_total_base(e: GcEquippedItems) -> GcBaseStats {
    spec_add_base(
        spec_add_base(
            spec_add_base(
                spec_add_base(
                    spec_add_base(
                        GcBaseStats { strength: 0u32, agility: 0u32, intelligence: 0u32, vitality: 0u32 },
                        e.weapon,
                    ),
                    e.helmet,
                ),
                e.armor,
            ),
            e.boots,
        ),
        e.accessory,
    )
}

/// Combat attributes added by a possibly-worn item.
pub open spec fn spec_add_combat(acc: GcCombatStats, o: Option<GcEquipment>) -> GcCombatStats {
    match o {
        Option::Some(e) => GcCombatStats {
            attack: acc.attack.saturating_add(e.combat_stats.attack),
            defense: acc.defense.saturating_add(e.combat_stats.defense),
            max_hp: acc.max_hp.saturating_add(e.combat_stats.max_hp),
            max_energy: acc.max_energy.saturating_add(e.combat_stats.max_energy),
            crit_rate: acc.crit_rate.saturating_add(e.combat_stats.crit_rate),
            crit_damage: acc.crit_damage.saturating_add(e.combat_stats.crit_damage),
            dodge_rate: acc.dodge_rate.saturating_add(e.combat_stats.dodge_rate),
            hit_rate: acc.hit_rate.saturating_add(e.combat_stats.hit_rate),
            physical_attack: acc.physical_attack.saturating_add(e.combat_stats.physical_attack),
            magic_attack: acc.magic_attack.saturating_add(e.combat_stats.magic_attack),
            physical_defense: acc.physical_defense.saturating_add(
                e.combat_stats.physical_defense,
            ),
            magic_defense: acc.magic_defense.saturating_add(e.combat_stats.magic_defense),
            healing_bonus: acc.healing_bonus.saturating_add(e.combat_stats.healing_bonus),
            cooldown_reduction: acc.cooldown_reduction.saturating_add(
                e.combat_stats.cooldown_reduction,
            ),
        },
        Option::None => acc,
    }
}

/// Total combat bonus of a worn set.
pub open spec fn spec_total_combat(e: GcEquippedItems) -> GcCombatStats {
    spec_add_combat(
        spec_add_combat(
            spec_add_combat(
                spec_add_combat(
                    spec_add_combat(crate::types::spec_zero_combat_stats(), e.weapon),
                    e.helmet,
                ),
                e.armor,
            ),
            e.boots,
        ),
        e.accessory,
    )
}

/// A player's bag and worn equipment.
///
/// Invariant: the bag never holds more than `capacity` items.
#[derive(Clone, Debug)]
pub struct GcInventory {
    /// Owner.
    pub player_id: String,
    /// Items in the bag.
    pub items: Vec<GcEquipment>,
    /// Items worn.
    pub equipped: GcEquippedItems,
    /// Bag capacity.
    pub capacity: usize,
}

impl GcInventory {
    /// An empty bag of the given capacity.
    pub fn gc_new(player_id: &str, capacity: usize) -> (r: Self)
        ensures
            r.player_id@ == player_id@,
            r.items@.len() == 0,
            r.capacity == capacity,
            r.equipped.weapon is None,
            r.equipped.helmet is None,
            r.equipped.armor is None,
            r.equipped.boots is None,
            r.equipped.accessory is None,
    {
        GcInventory {
            player_id: player_id.to_owned(),
            items: Vec::new(),
            equipped: GcEquippedItems::default(),
            capacity,
        }
    }

    /// Put an item into the bag; fails when the bag is full, changing
    /// nothing.
    pub fn gc_add_item(&mut self, item: GcEquipment) -> (r: Result<(), String>)
        ensures
            r is Ok <==> old(self).items@.len() < old(self).capacity,
            r is Ok ==> *final(self) == (GcInventory {
                items: final(self).items,
                ..*old(self)
            }) && final(self).items@ == old(self).items@.push(item),
            r is Err ==> *final(self) == *old(self),
    {
        if self.items.len() >= self.capacity {
            return Err("背包已满".to_owned());
        }
        self.items.push(item);
        Ok(())
    }

    /// Take the first item with the given id out of the bag.
    pub fn gc_remove_item(&mut self, item_id: &str) -> (r: Option<GcEquipment>)
        ensures
            r is None ==> *final(self) == *old(self) && (forall|j: int|
                0 <= j < old(self).items@.len() ==> old(self).items@[j].id@ != item_id@),
            r matches Some(it) ==> exists|idx: int|
                {
                    &&& 0 <= idx < old(self).items@.len()
                    &&& old(self).items@[idx].id@ == item_id@
                    &&& forall|j: int| 0 <= j < idx ==> old(self).items@[j].id@ != item_id@
                    &&& it == old(self).items@[idx]
                    &&& final(self).items@ == old(self).items@.remove(idx)
                    &&& *final(self) == (GcInventory { items: final(self).items, ..*old(self) })
                },
    {
        let mut i: usize = 0;
        while i < self.items.len()
            invariant
                i <= self.items@.len(),
                *self == *old(self),
                forall|j: int| 0 <= j < i ==> self.items@[j].id@ != item_id@,
            decreases self.items@.len() - i,
        {
            if str_eq(self.items[i].id.as_str(), item_id) {
                let ghost widx = i as int;
                let item = self.items.remove(i);
                proof {
                    assert(0 <= widx < old(self).items@.len() && old(self).items@[widx].id@
                        == item_id@ && final(self).items@ == old(self).items@.remove(widx));
                }
                return Some(item);
            }
            i = i + 1;
        }
        None
    }

    /// The first item with the given id, still in the bag.
    pub fn gc_get_item(&self, item_id: &str) -> (r: Option<&GcEquipment>)
        ensures
            r is None ==> (forall|j: int|
                0 <= j < self.items@.len() ==> self.items@[j].id@ != item_id@),
            r matches Some(it) ==> exists|idx: int|
                0 <= idx < self.items@.len() && self.items@[idx].id@ == item_id@ && *it
                    == self.items@[idx],
    {
        let mut i: usize = 0;
        while i < self.items.len()
            invariant
                i <= self.items@.len(),
                forall|j: int| 0 <= j < i ==> self.items@[j].id@ != item_id@,
            decreases self.items@.len() - i,
        {
            if str_eq(self.items[i].id.as_str(), item_id) {
                return Some(&self.items[i]);
            }
            i = i + 1;
        }
        None
    }

    /// Wear the bag item with the given id: the item leaves the bag, takes
    /// its slot, and whatever was worn there returns to the bag.  Fails on an
    /// unknown id or an unmet requirement, changing nothing.
    pub fn gc_equip_item(
        &mut self,
        item_id: &str,
        player_level: u32,
        profession: GcProfessionType,
    ) -> (r: Result<(), String>)
        ensures
            r is Err ==> *final(self) == *old(self),
            r is Ok ==> exists|idx: int|
                {
                    &&& 0 <= idx < old(self).items@.len()
                    &&& old(self).items@[idx].id@ == item_id@
                    &&& forall|j: int| 0 <= j < idx ==> old(self).items@[j].id@ != item_id@
                    &&& player_level >= old(self).items@[idx].required_level
                    &&& spec_profession_allowed(
                        old(self).items@[idx].required_professions,
                        profession,
                    )
                    &&& final(self).equipped == spec_worn_set(
                        old(self).equipped,
                        old(self).items@[idx].slot,
                        Some(old(self).items@[idx]),
                    )
                    &&& ({
                        let removed = old(self).items@.remove(idx);
                        match spec_worn(old(self).equipped, old(self).items@[idx].slot) {
                            Option::Some(prev) => final(self).items@ == removed.push(prev),
                            Option::None => final(self).items@ == removed,
                        }
                    })
                    &&& final(self).player_id == old(self).player_id
                    &&& final(self).capacity == old(self).capacity
                },
    {
        let mut i: usize = 0;
        while i < self.items.len()
            invariant
                i <= self.items@.len(),
                *self == *old(self),
                forall|j: int| 0 <= j < i ==> self.items@[j].id@ != item_id@,
            decreases self.items@.len() - i,
        {
            if str_eq(self.items[i].id.as_str(), item_id) {
                let ghost widx = i as int;
                match self.items[i].gc_can_equip(player_level, profession) {
                    Ok(()) => {},
                    Err(e) => {
                        return Err(e);
                    },
                }
                let item = self.items.remove(i);
                let slot = item.slot;
                match self.equipped.gc_set(slot, Some(item)) {
                    Some(old_item) => {
                        self.items.push(old_item);
                    },
                    None => {},
                }
                return Ok(());
            }
            i = i + 1;
        }
        Err("物品不存在".to_owned())
    }

    /// Take off what is worn in `slot` and put it back into the bag.  Fails
    /// when the bag is full or the slot is empty, changing nothing.
    pub fn gc_unequip_item(&mut self, slot: GcEquipmentSlot) -> (r: Result<(), String>)
        ensures
            r is Err ==> *final(self) == *old(self),
            r is Ok <==> (old(self).items@.len() < old(self).capacity && spec_worn(
                old(self).equipped,
                slot,
            ) is Some),
            r is Ok ==> {
                &&& final(self).items@ == old(self).items@.push(
                    spec_worn(old(self).equipped, slot)->0,
                )
                &&& final(self).equipped == spec_worn_set(old(self).equipped, slot, None)
                &&& final(self).player_id == old(self).player_id
                &&& final(self).capacity == old(self).capacity
            },
    {
        if self.items.len() >= self.capacity {
            return Err("背包已满，无法卸下装备".to_owned());
        }
        match self.equipped.gc_set(slot, None) {
            Some(item) => {
                self.items.push(item);
                Ok(())
            },
            None => Err("该部位没有装备".to_owned()),
        }
    }

    /// Total bonus of everything worn, base and combat.
    pub fn gc_get_total_stats(&self) -> (r: (GcBaseStats, GcCombatStats))
        ensures
            r.0 == spec_total_base(self.equipped),
            r.1 == spec_total_combat(self.equipped),
    {
        (self.equipped.gc_total_base_stats(), self.equipped.gc_total_combat_stats())
    }
}

} // verus!
