//! The stock equipment templates.  Instance ids are left empty for the caller
//! to fill in.

use vstd::prelude::*;
use vstd::string::StringExecFns;

use crate::equipment::{GcEquipment, GcEquipmentSlot, GcRarity};
use crate::profession::GcProfessionType;

verus! {

/// Factory for the stock items.
pub struct GcEquipmentTemplates;

impl GcEquipmentTemplates {
    /// The beginners' wooden sword: a touch of strength and attack.
    pub fn wooden_sword() -> (r: GcEquipment)
        ensures
            r.template_id@ == "tpl_w_wooden_sword"@,
            r.name@ == "新手木剑"@,
            r.slot is Weapon,
            r.rarity is Common,
            r.base_stats.strength == 2,
            r.combat_stats.physical_attack == 5,
            r.required_level == 1,
            r.required_professions is None,
    {
        let mut item = GcEquipment::gc_new("", "tpl_w_wooden_sword", "新手木剑", GcEquipmentSlot::Weapon, GcRarity::Common);
        let item2 = item.gc_with_description("一把简单的木剑，适合新手练习。");
        let mut item = item2;
        item.base_stats.strength = 2;
        item.combat_stats.physical_attack = 5;
        item.required_level = 1;
        item
    }

    /// The soldiers' iron sword, for swordsmen of level five.
    pub fn iron_sword() -> (r: GcEquipment)
        ensures
            r.template_id@ == "tpl_w_iron_sword"@,
            r.name@ == "铁剑"@,
            r.slot is Weapon,
            r.rarity is Uncommon,
            r.base_stats.strength == 5,
            r.combat_stats.physical_attack == 12,
            r.required_level == 5,
            r.required_professions matches Some(v) && v@.len() == 1 && v@[0]
                == GcProfessionType::Swordsman,
    {
        let mut item = GcEquipment::gc_new("", "tpl_w_iron_sword", "铁剑", GcEquipmentSlot::Weapon, GcRarity::Uncommon);
        let item2 = item.gc_with_description("标准的士兵用剑，锋利耐用。");
        let mut item = item2;
        item.base_stats.strength = 5;
        item.combat_stats.physical_attack = 12;
        item.required_level = 5;
        let mut profs: Vec<GcProfessionType> = Vec::new();
        profs.push(GcProfessionType::Swordsman);
        item.required_professions = Some(profs);
        item
    }

    /// The apprentice staff, for warlocks and knights.
    pub fn apprentice_staff() -> (r: GcEquipment)
        ensures
            r.template_id@ == "tpl_w_apprentice_staff"@,
            r.name@ == "学徒法杖"@,
            r.slot is Weapon,
            r.rarity is Common,
            r.base_stats.intelligence == 3,
            r.combat_stats.magic_attack == 6,
            r.required_level == 1,
            r.required_professions matches Some(v) && v@.len() == 2 && v@[0]
                == GcProfessionType::Warlock && v@[1] == GcProfessionType::Knight,
    {
        let mut item = GcEquipment::gc_new("", "tpl_w_apprentice_staff", "学徒法杖", GcEquipmentSlot::Weapon, GcRarity::Common);
        let item2 = item.gc_with_description("刻有基础符文的木杖。");
        let mut item = item2;
        item.base_stats.intelligence = 3;
        item.combat_stats.magic_attack = 6;
        item.required_level = 1;
        let mut profs: Vec<GcProfessionType> = Vec::new();
        profs.push(GcProfessionType::Warlock);
        profs.push(GcProfessionType::Knight);
        item.required_professions = Some(profs);
        item
    }

    /// The plain cloth armor.
    pub fn cloth_armor() -> (r: GcEquipment)
        ensures
            r.template_id@ == "tpl_a_cloth_armor"@,
            r.name@ == "粗布衣"@,
            r.slot is Armor,
            r.rarity is Common,
            r.base_stats.vitality == 2,
            r.combat_stats.physical_defense == 3,
            r.required_level == 1,
            r.required_professions is None,
    {
        let mut item = GcEquipment::gc_new("", "tpl_a_cloth_armor", "粗布衣", GcEquipmentSlot::Armor, GcRarity::Common);
        let item2 = item.gc_with_description("普通的布衣，防御力很低。");
        let mut item = item2;
        item.base_stats.vitality = 2;
        item.combat_stats.physical_defense = 3;
        item.required_level = 1;
        item
    }

    /// The hardened leather armor of level five.
    pub fn leather_armor() -> (r: GcEquipment)
        ensures
            r.template_id@ == "tpl_a_leather_armor"@,
            r.name@ == "硬皮甲"@,
            r.slot is Armor,
            r.rarity is Uncommon,
            r.base_stats.vitality == 4,
            r.base_stats.agility == 2,
            r.combat_stats.physical_defense == 8,
            r.required_level == 5,
            r.required_professions is None,
    {
        let mut item = GcEquipment::gc_new("", "tpl_a_leather_armor", "硬皮甲", GcEquipmentSlot::Armor, GcRarity::Uncommon);
        let item2 = item.gc_with_description("经过硬化处理的皮甲，轻便且有一定防御力。");
        let mut item = item2;
        item.base_stats.vitality = 4;
        item.base_stats.agility = 2;
        item.combat_stats.physical_defense = 8;
        item.required_level = 5;
        item
    }

    /// The heavy iron breastplate, for swordsmen of level ten.
    pub fn iron_armor() -> (r: GcEquipment)
        ensures
            r.template_id@ == "tpl_a_iron_armor"@,
            r.name@ == "铁制胸甲"@,
            r.slot is Armor,
            r.rarity is Rare,
            r.base_stats.vitality == 8,
            r.base_stats.strength == 2,
            r.combat_stats.physical_defense == 15,
            r.required_level == 10,
            r.required_professions matches Some(v) && v@.len() == 1 && v@[0]
                == GcProfessionType::Swordsman,
    {
        let mut item = GcEquipment::gc_new("", "tpl_a_iron_armor", "铁制胸甲", GcEquipmentSlot::Armor, GcRarity::Rare);
        let item2 = item.gc_with_description("厚重的铁甲，提供优秀的物理防御。");
        let mut item = item2;
        item.base_stats.vitality = 8;
        item.base_stats.strength = 2;
        item.combat_stats.physical_defense = 15;
        item.required_level = 10;
        let mut profs: Vec<GcProfessionType> = Vec::new();
        profs.push(GcProfessionType::Swordsman);
        item.required_professions = Some(profs);
        item
    }
}

} // verus!
