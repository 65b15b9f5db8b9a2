//! The five professions: names, roles, starter decks and per-level base
//! attribute growth.

use vstd::prelude::*;
use vstd::string::StringExecFns;

use crate::num::{sat_mul_u32, spec_sat_mul_u32};
use crate::types::{GcBaseStats, GcStatType};

verus! {

/// The five playable professions.
#[derive(Clone, Copy, Debug, PartialEq, Eq, Hash, Structural)]
pub enum GcProfessionType {
    /// Tank and guardian.
    Knight,
    /// Melee damage.
    Swordsman,
    /// Magic damage.
    Warlock,
    /// Ranged damage.
    Gunner,
    /// Burst damage.
    Assassin,
}

impl GcProfessionType {
    /// Every profession, in declaration order.
    pub fn gc_all() -> (r: Vec<GcProfessionType>)
        ensures
            r@ == seq![
                GcProfessionType::Knight,
                GcProfessionType::Swordsman,
                GcProfessionType::Warlock,
                GcProfessionType::Gunner,
                GcProfessionType::Assassin,
            ],
    {
        let mut v: Vec<GcProfessionType> = Vec::new();
        v.push(GcProfessionType::Knight);
        v.push(GcProfessionType::Swordsman);
        v.push(GcProfessionType::Warlock);
        v.push(GcProfessionType::Gunner);
        v.push(GcProfessionType::Assassin);
        proof {
            assert(v@ =~= seq![
                GcProfessionType::Knight,
                GcProfessionType::Swordsman,
                GcProfessionType::Warlock,
                GcProfessionType::Gunner,
                GcProfessionType::Assassin,
            ]);
        }
        v
    }

    /// Display name.
    pub fn gc_name(&self) -> (r: &'static str)
        ensures
            self is Knight ==> r@ == "骑士"@,
            self is Swordsman ==> r@ == "剑士"@,
            self is Warlock ==> r@ == "术士"@,
            self is Gunner ==> r@ == "枪手"@,
            self is Assassin ==> r@ == "刺客"@,
    {
        match self {
            GcProfessionType::Knight => "骑士",
            GcProfessionType::Swordsman => "剑士",
            GcProfessionType::Warlock => "术士",
            GcProfessionType::Gunner => "枪手",
            GcProfessionType::Assassin => "刺客",
        }
    }

    /// Stable identifier.
    pub fn gc_id(&self) -> (r: &'static str)
        ensures
            self is Knight ==> r@ == "knight"@,
            self is Swordsman ==> r@ == "swordsman"@,
            self is Warlock ==> r@ == "warlock"@,
            self is Gunner ==> r@ == "gunner"@,
            self is Assassin ==> r@ == "assassin"@,
    {
        match self {
            GcProfessionType::Knight => "knight",
            GcProfessionType::Swordsman => "swordsman",
            GcProfessionType::Warlock => "warlock",
            GcProfessionType::Gunner => "gunner",
            GcProfessionType::Assassin => "assassin",
        }
    }

    /// One-line description.
    pub fn gc_description(&self) -> (r: &'static str)
        ensures
            self is Knight ==> r@ == "高防御，擅长保护队友"@,
            self is Swordsman ==> r@ == "平衡的攻防能力"@,
            self is Warlock ==> r@ == "强大的魔法伤害和控制"@,
            self is Gunner ==> r@ == "远程物理输出"@,
            self is Assassin ==> r@ == "高爆发，脆弱"@,
    {
        match self {
            GcProfessionType::Knight => "高防御，擅长保护队友",
            GcProfessionType::Swordsman => "平衡的攻防能力",
            GcProfessionType::Warlock => "强大的魔法伤害和控制",
            GcProfessionType::Gunner => "远程物理输出",
            GcProfessionType::Assassin => "高爆发，脆弱",
        }
    }

    /// The attribute the profession grows fastest.
    pub fn gc_primary_stat(&self) -> (r: GcStatType)
        ensures
            self is Knight ==> r is Vitality,
            self is Swordsman ==> r is Strength,
            self is Warlock ==> r is Intelligence,
            self is Gunner ==> r is Agility,
            self is Assassin ==> r is Agility,
    {
        match self {
            GcProfessionType::Knight => GcStatType::Vitality,
            GcProfessionType::Swordsman => GcStatType::Strength,
            GcProfessionType::Warlock => GcStatType::Intelligence,
            GcProfessionType::Gunner => GcStatType::Agility,
            GcProfessionType::Assassin => GcStatType::Agility,
        }
    }

    /// Display icon; unset for every profession.
    pub fn gc_icon(&self) -> (r: &'static str)
        ensures
            r@ == Seq::<char>::empty(),
    {
        proof {
            reveal_strlit("");
            assert(""@ =~= Seq::<char>::empty());
        }
        ""
    }

    /// Battlefield role.
    pub fn gc_role(&self) -> (r: &'static str)
        ensures
            self is Knight ==> r@ == "坦克/守护"@,
            self is Swordsman ==> r@ == "近战输出"@,
            self is Warlock ==> r@ == "魔法输出"@,
            self is Gunner ==> r@ == "远程输出"@,
            self is Assassin ==> r@ == "爆发输出"@,
    {
        match self {
            GcProfessionType::Knight => "坦克/守护",
            GcProfessionType::Swordsman => "近战输出",
            GcProfessionType::Warlock => "魔法输出",
            GcProfessionType::Gunner => "远程输出",
            GcProfessionType::Assassin => "爆发输出",
        }
    }

    /// Name of the profession's signature talent.
    pub fn gc_talent_name(&self) -> (r: &'static str)
        ensures
            self is Knight ==> r@ == "钢铁意志"@,
            self is Swordsman ==> r@ == "剑意纵横"@,
            self is Warlock ==> r@ == "暗影契约"@,
            self is Gunner ==> r@ == "精准校准"@,
            self is Assassin ==> r@ == "暗影步"@,
    {
        match self {
            GcProfessionType::Knight => "钢铁意志",
            GcProfessionType::Swordsman => "剑意纵横",
            GcProfessionType::Warlock => "暗影契约",
            GcProfessionType::Gunner => "精准校准",
            GcProfessionType::Assassin => "暗影步",
        }
    }

    /// Description of the profession's signature talent.
    pub fn gc_talent_desc(&self) -> (r: &'static str)
        ensures
            self is Knight ==> r@ == "生命<30%时减伤50%，持续3回合"@,
            self is Swordsman ==> r@ == "连续攻击同一目标，每次伤害+15%，最多3层"@,
            self is Warlock ==> r@ == "施放魔法卡后下一次魔法伤害+25%，并回复10魔力"@,
            self is Gunner ==> r@ == "30%概率触发精准，造成150%伤害并无视30%护甲"@,
            self is Assassin ==> r@ == "首次攻击必定暴击，且暴击伤害+50%"@,
    {
        match self {
            GcProfessionType::Knight => "生命<30%时减伤50%，持续3回合",
            GcProfessionType::Swordsman => "连续攻击同一目标，每次伤害+15%，最多3层",
            GcProfessionType::Warlock => "施放魔法卡后下一次魔法伤害+25%，并回复10魔力",
            GcProfessionType::Gunner => "30%概率触发精准，造成150%伤害并无视30%护甲",
            GcProfessionType::Assassin => "首次攻击必定暴击，且暴击伤害+50%",
        }
    }

    /// Template ids of the starter deck: a basic attack, a small skill and an
    /// ultimate.
    pub fn gc_starter_deck(&self) -> (r: Vec<&'static str>)
        ensures
            r@.len() == 3,
            self is Knight ==> r@[0]@ == "card_strike"@ && r@[1]@ == "card_defend"@ && r@[2]@
                == "card_shield_bash"@,
            self is Swordsman ==> r@[0]@ == "card_strike"@ && r@[1]@ == "card_slash"@ && r@[2]@
                == "card_blade_dance"@,
            self is Warlock ==> r@[0]@ == "card_magic_missile"@ && r@[1]@ == "card_fireball"@
                && r@[2]@ == "card_shadow_bolt"@,
            self is Gunner ==> r@[0]@ == "card_shoot"@ && r@[1]@ == "card_aim"@ && r@[2]@
                == "card_rapid_fire"@,
            self is Assassin ==> r@[0]@ == "card_stab"@ && r@[1]@ == "card_poison"@ && r@[2]@
                == "card_assassinate"@,
    {
        let mut v: Vec<&'static str> = Vec::new();
        match self {
            GcProfessionType::Knight => {
                v.push("card_strike");
                v.push("card_defend");
                v.push("card_shield_bash");
            },
            GcProfessionType::Swordsman => {
                v.push("card_strike");
                v.push("card_slash");
                v.push("card_blade_dance");
            },
            GcProfessionType::Warlock => {
                v.push("card_magic_missile");
                v.push("card_fireball");
                v.push("card_shadow_bolt");
            },
            GcProfessionType::Gunner => {
                v.push("card_shoot");
                v.push("card_aim");
                v.push("card_rapid_fire");
            },
            GcProfessionType::Assassin => {
                v.push("card_stab");
                v.push("card_poison");
                v.push("card_assassinate");
            },
        }
        v
    }
}

/// The base attributes a profession grants at a level: a flat floor plus a
/// per-level growth, each profession with its own curve.
pub open spec fn spec_profession_stats(p: GcProfessionType, level: u32) -> GcBaseStats {
    match p {
        GcProfessionType::Knight => GcBaseStats {
            vitality: (10u32).saturating_add(spec_sat_mul_u32(level, 3)),
            strength: (5u32).saturating_add(spec_sat_mul_u32(level, 2)),
            agility: (3u32).saturating_add(level),
            intelligence: (2u32).saturating_add(level),
        },
        GcProfessionType::Swordsman => GcBaseStats {
            vitality: (8u32).saturating_add(spec_sat_mul_u32(level, 2)),
            strength: (8u32).saturating_add(spec_sat_mul_u32(level, 3)),
            agility: (5u32).saturating_add(spec_sat_mul_u32(level, 2)),
            intelligence: (2u32).saturating_add(level),
        },
        GcProfessionType::Warlock => GcBaseStats {
            vitality: (5u32).saturating_add(level),
            strength: (2u32).saturating_add(level),
            agility: (3u32).saturating_add(level),
            intelligence: (10u32).saturating_add(spec_sat_mul_u32(level, 3)),
        },
        GcProfessionType::Gunner => GcBaseStats {
            vitality: (6u32).saturating_add(level),
            strength: (4u32).saturating_add(spec_sat_mul_u32(level, 2)),
            agility: (8u32).saturating_add(spec_sat_mul_u32(level, 3)),
            intelligence: (4u32).saturating_add(level),
        },
        GcProfessionType::Assassin => GcBaseStats {
            vitality: (5u32).saturating_add(level),
            strength: (6u32).saturating_add(spec_sat_mul_u32(level, 2)),
            agility: (10u32).saturating_add(spec_sat_mul_u32(level, 3)),
            intelligence: (3u32).saturating_add(level),
        },
    }
}

/// A profession with its display strings.
#[derive(Clone, Debug)]
pub struct GcProfession {
    pub profession_type: GcProfessionType,
    pub name: String,
    pub description: String,
    pub icon: String,
}

impl GcProfession {
    /// A profession value with its display strings filled in.
    pub fn gc_new(prof_type: GcProfessionType) -> (r: Self)
        ensures
            r.profession_type == prof_type,
    {
        GcProfession {
            profession_type: prof_type,
            name: prof_type.gc_name().to_owned(),
            description: prof_type.gc_role().to_owned(),
            icon: prof_type.gc_icon().to_owned(),
        }
    }

    /// Base attributes granted at a level.
    pub fn gc_calculate_stats(&self, level: u32) -> (r: GcBaseStats)
        ensures
            r == spec_profession_stats(self.profession_type, level),
    {
        match self.profession_type {
            GcProfessionType::Knight => GcBaseStats {
                vitality: (10u32).saturating_add(sat_mul_u32(level, 3)),
                strength: (5u32).saturating_add(sat_mul_u32(level, 2)),
                agility: (3u32).saturating_add(level),
                intelligence: (2u32).saturating_add(level),
            },
            GcProfessionType::Swordsman => GcBaseStats {
                vitality: (8u32).saturating_add(sat_mul_u32(level, 2)),
                strength: (8u32).saturating_add(sat_mul_u32(level, 3)),
                agility: (5u32).saturating_add(sat_mul_u32(level, 2)),
                intelligence: (2u32).saturating_add(level),
            },
            GcProfessionType::Warlock => GcBaseStats {
                vitality: (5u32).saturating_add(level),
                strength: (2u32).saturating_add(level),
                agility: (3u32).saturating_add(level),
                intelligence: (10u32).saturating_add(sat_mul_u32(level, 3)),
            },
            GcProfessionType::Gunner => GcBaseStats {
                vitality: (6u32).saturating_add(level),
                strength: (4u32).saturating_add(sat_mul_u32(level, 2)),
                agility: (8u32).saturating_add(sat_mul_u32(level, 3)),
                intelligence: (4u32).saturating_add(level),
            },
            GcProfessionType::Assassin => GcBaseStats {
                vitality: (5u32).saturating_add(level),
                strength: (6u32).saturating_add(sat_mul_u32(level, 2)),
                agility: (10u32).saturating_add(sat_mul_u32(level, 3)),
                intelligence: (3u32).saturating_add(level),
            },
        }
    }
}

} // verus!
