//! Equipment: slotted, rarity-graded items with stat bonuses, level
//! requirements and profession locks.

use vstd::prelude::*;
use vstd::string::StringExecFns;

use crate::profession::GcProfessionType;
use crate::text::{decimal_string, spec_decimal};
use crate::types::{GcBaseStats, GcCombatStats};

verus! {

/// Where an item is worn.
#[derive(Clone, Copy, Debug, PartialEq, Eq, Hash, Structural)]
pub enum GcEquipmentSlot {
    /// Raises attack.
    Weapon,
    /// Raises health and defense.
    Helmet,
    /// Raises defense strongly.
    Armor,
    /// Raises agility and dodge.
    Boots,
    /// Raises special attributes.
    Accessory,
}

impl GcEquipmentSlot {
    /// Display name of the slot.
    pub fn gc_name(&self) -> (r: &'static str)
        ensures
            self is Weapon ==> r@ == "武器"@,
            self is Helmet ==> r@ == "头盔"@,
            self is Armor ==> r@ == "护甲"@,
            self is Boots ==> r@ == "鞋子"@,
            self is Accessory ==> r@ == "饰品"@,
    {
        match self {
            GcEquipmentSlot::Weapon => "武器",
            GcEquipmentSlot::Helmet => "头盔",
            GcEquipmentSlot::Armor => "护甲",
            GcEquipmentSlot::Boots => "鞋子",
            GcEquipmentSlot::Accessory => "饰品",
        }
    }
}

/// Item rarity, lowest to highest.
#[derive(Clone, Copy, Debug, PartialEq, Eq, PartialOrd, Ord, Structural)]
pub enum GcRarity {
    Common,
    Uncommon,
    Rare,
    Epic,
    Legendary,
}

impl GcRarity {
    /// Display name of the rarity.
    pub fn gc_name(&self) -> (r: &'static str)
        ensures
            self is Common ==> r@ == "普通"@,
            self is Uncommon ==> r@ == "优秀"@,
            self is Rare ==> r@ == "稀有"@,
            self is Epic ==> r@ == "史诗"@,
            self is Legendary ==> r@ == "传说"@,
    {
        match self {
            GcRarity::Common => "普通",
            GcRarity::Uncommon => "优秀",
            GcRarity::Rare => "稀有",
            GcRarity::Epic => "史诗",
            GcRarity::Legendary => "传说",
        }
    }

    /// Display colour of the rarity.
    pub fn gc_color(&self) -> (r: &'static str)
        ensures
            self is Common ==> r@ == "#ffffff"@,
            self is Uncommon ==> r@ == "#22c55e"@,
            self is Rare ==> r@ == "#3b82f6"@,
            self is Epic ==> r@ == "#a855f7"@,
            self is Legendary ==> r@ == "#f59e0b"@,
    {
        match self {
            GcRarity::Common => "#ffffff",
            GcRarity::Uncommon => "#22c55e",
            GcRarity::Rare => "#3b82f6",
            GcRarity::Epic => "#a855f7",
            GcRarity::Legendary => "#f59e0b",
        }
    }
}

/// One piece of equipment.
#[derive(Clone, Debug)]
pub struct GcEquipment {
    /// Unique instance id.
    pub id: String,
    /// Template the item was stamped from.
    pub template_id: String,
    pub name: String,
    pub description: String,
    /// Where it is worn.
    pub slot: GcEquipmentSlot,
    pub rarity: GcRarity,
    /// Level needed to wear it.
    pub required_level: u32,
    /// Professions allowed to wear it; `None` means anyone.
    pub required_professions: Option<Vec<GcProfessionType>>,
    /// Base attribute bonus.
    pub base_stats: GcBaseStats,
    /// Combat attribute bonus.
    pub combat_stats: GcCombatStats,
    /// Sale price.
    pub price: u32,
    /// Display icon.
    pub icon: String,
}

/// Whether the wearer passes the item's profession lock.
pub open spec fn spec_profession_allowed(
    required: Option<Vec<GcProfessionType>>,
    profession: GcProfessionType,
) -> bool {
    match required {
        Option::None => true,
        Option::Some(v) => v@.contains(profession),
    }
}

impl GcEquipment {
    /// A fresh item of the given slot and rarity: level one, no profession
    /// lock, empty bonuses, price ten, with a slot-typical icon.
    pub fn gc_new(
        id: &str,
        template_id: &str,
        name: &str,
        slot: GcEquipmentSlot,
        rarity: GcRarity,
    ) -> (r: Self)
        ensures
            r.id@ == id@,
            r.template_id@ == template_id@,
            r.name@ == name@,
            r.description@ == Seq::<char>::empty(),
            r.slot == slot,
            r.rarity == rarity,
            r.required_level == 1,
            r.required_professions is None,
            r.base_stats == (GcBaseStats {
                strength: 0u32,
                agility: 0u32,
                intelligence: 0u32,
                vitality: 0u32,
            }),
            r.price == 10,
    {
        GcEquipment {
            id: id.to_owned(),
            template_id: template_id.to_owned(),
            name: name.to_owned(),
            description: String::new(),
            slot,
            rarity,
            required_level: 1,
            required_professions: None,
            base_stats: GcBaseStats::gc_new(),
            combat_stats: GcCombatStats::gc_new(),
            price: 10,
            icon: match slot {
                GcEquipmentSlot::Weapon => "⚔️".to_owned(),
                GcEquipmentSlot::Helmet => "🪖".to_owned(),
                GcEquipmentSlot::Armor => "👕".to_owned(),
                GcEquipmentSlot::Boots => "👢".to_owned(),
                GcEquipmentSlot::Accessory => "💍".to_owned(),
            },
        }
    }

    /// The same item with a description.
    pub fn gc_with_description(self, desc: &str) -> (r: Self)
        ensures
            r == (GcEquipment { description: r.description, ..self }),
            r.description@ == desc@,
    {
        let mut e = self;
        e.description = desc.to_owned();
        e
    }

    /// The same item with a level requirement.
    pub fn gc_with_level(self, level: u32) -> (r: Self)
        ensures
            r == (GcEquipment { required_level: level, ..self }),
    {
        let mut e = self;
        e.required_level = level;
        e
    }

    /// The same item locked to one profession.
    pub fn gc_with_profession(self, profession: GcProfessionType) -> (r: Self)
        ensures
            r == (GcEquipment { required_professions: r.required_professions, ..self }),
            r.required_professions matches Some(v) && v@ == seq![profession],
    {
        let mut e = self;
        let mut v: Vec<GcProfessionType> = Vec::new();
        v.push(profession);
        proof {
            assert(v@ =~= seq![profession]);
        }
        e.required_professions = Some(v);
        e
    }

    /// The same item locked to a list of professions.
    pub fn gc_with_professions(self, professions: Vec<GcProfessionType>) -> (r: Self)
        ensures
            r == (GcEquipment { required_professions: Some(professions), ..self }),
    {
        let mut e = self;
        e.required_professions = Some(professions);
        e
    }

    /// The same item with a base attribute bonus.
    pub fn gc_with_base_stats(self, stats: GcBaseStats) -> (r: Self)
        ensures
            r == (GcEquipment { base_stats: stats, ..self }),
    {
        let mut e = self;
        e.base_stats = stats;
        e
    }

    /// The same item with a combat attribute bonus.
    pub fn gc_with_combat_stats(self, stats: GcCombatStats) -> (r: Self)
        ensures
            r == (GcEquipment { combat_stats: stats, ..self }),
    {
        let mut e = self;
        e.combat_stats = stats;
        e
    }

    /// Whether a character may wear the item: the level requirement is
    /// checked first, then the profession lock.
    pub fn gc_can_equip(&self, level: u32, profession: GcProfessionType) -> (r: Result<
        (),
        String,
    >)
        ensures
            r is Ok <==> (level >= self.required_level && spec_profession_allowed(
                self.required_professions,
                profession,
            )),
            level < self.required_level ==> (r matches Err(m) && m@ == "等级不足 (需要 Lv."@
                + spec_decimal(self.required_level as nat) + ")"@),
            level >= self.required_level && !spec_profession_allowed(
                self.required_professions,
                profession,
            ) ==> (r matches Err(m) && m@.len() > 0),
    {
        if level < self.required_level {
            let mut msg = "等级不足 (需要 Lv.".to_owned();
            msg.append(decimal_string(self.required_level).as_str());
            msg.append(")");
            return Err(msg);
        }
        match &self.required_professions {
            Some(req_profs) => {
                let mut i: usize = 0;
                while i < req_profs.len()
                    invariant
                        i <= req_profs@.len(),
                        level >= self.required_level,
                        self.required_professions == Some(*req_profs),
                        forall|j: int| 0 <= j < i ==> req_profs@[j] != profession,
                    decreases req_profs@.len() - i,
                {
                    if req_profs[i] == profession {
                        assert(req_profs@.contains(profession));
                        return Ok(());
                    }
                    i = i + 1;
                }
                let mut msg = "职业不符 (需要 ".to_owned();
                proof {
                    reveal_strlit("职业不符 (需要 ");
                }
                let mut k: usize = 0;
                while k < req_profs.len()
                    invariant
                        k <= req_profs@.len(),
                        msg@.len() > 0,
                    decreases req_profs@.len() - k,
                {
                    if k > 0 {
                        msg.append(" 或 ");
                    }
                    msg.append(req_profs[k].gc_name());
                    k = k + 1;
                }
                msg.append(")");
                Err(msg)
            },
            None => Ok(()),
        }
    }
}

} // verus!
