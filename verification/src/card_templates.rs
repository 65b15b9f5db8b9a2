//! The card template table: the fifteen profession cards — a basic attack, a
//! skill and an ultimate for each of the five professions — looked up by
//! template id.

use vstd::prelude::*;
use vstd::string::StringExecFns;

use crate::card::{GcCard, GcCardRarity, GcCardType, GcTargetType};
use crate::effect::{GcEffect, GcEffectType};
use crate::text::str_eq;

verus! {

/// Whether a template id names one of the stock cards.
pub open spec fn spec_known_card_template(id: Seq<char>) -> bool {

    ||| id == "card_knight_attack"@
    ||| id == "card_knight_skill"@
    ||| id == "card_knight_ult"@
    ||| id == "card_swordsman_attack"@
    ||| id == "card_swordsman_skill"@
    ||| id == "card_swordsman_ult"@
    ||| id == "card_warlock_attack"@
    ||| id == "card_warlock_skill"@
    ||| id == "card_warlock_ult"@
    ||| id == "card_gunner_attack"@
    ||| id == "card_gunner_skill"@
    ||| id == "card_gunner_ult"@
    ||| id == "card_assassin_attack"@
    ||| id == "card_assassin_skill"@
    ||| id == "card_assassin_ult"@
}

/// The stock card of a template id: `Some` exactly for the known ids, with
/// the instance id left as a placeholder, the template id echoed back, and
/// every field of the card fixed by the table below — so repeated lookups of
/// one id agree field for field.
pub fn gc_get_card_template(template_id: &str) -> (r: Option<GcCard>)
    ensures
        r is Some <==> spec_known_card_template(template_id@),
        r matches Some(c) ==> c.template_id@ == template_id@ && c.id@ == "temp_id"@,
        template_id@ == "card_knight_attack"@ ==> (r matches Some(c) && {
            &&& c.name@ == "盾击"@
            &&& c.description@ == "造成 8 点物理伤害，获得 5 点格挡"@
            &&& c.card_type is Attack
            &&& c.rarity is Common
            &&& c.cost == 1
            &&& c.base_damage == 8
            &&& c.base_defense == 5
            &&& c.target_type is SingleEnemy
            &&& c.effects@.len() == 2
            &&& c.effects@[0].effect_type is PhysicalDamage
            &&& c.effects@[0].value == 8
            &&& c.effects@[0].duration == 0
            &&& c.effects@[0].target is SingleEnemy
            &&& c.effects@[0].name@ == "Effect"@
            &&& c.effects@[1].effect_type is GainBlock
            &&& c.effects@[1].value == 5
            &&& c.effects@[1].duration == 0
            &&& c.effects@[1].target is SelfTarget
            &&& c.effects@[1].name@ == "Effect"@
        }),
        template_id@ == "card_knight_skill"@ ==> (r matches Some(c) && {
            &&& c.name@ == "嘲讽怒吼"@
            &&& c.description@ == "嘲讽所有敌人，获得 15 点格挡"@
            &&& c.card_type is Skill
            &&& c.rarity is Rare
            &&& c.cost == 2
            &&& c.base_damage == 0
            &&& c.base_defense == 15
            &&& c.target_type is AllEnemies
            &&& c.effects@.len() == 2
            &&& c.effects@[0].effect_type is Taunt
            &&& c.effects@[0].value == 1
            &&& c.effects@[0].duration == 1
            &&& c.effects@[0].target is AllEnemies
            &&& c.effects@[0].name@ == "Effect"@
            &&& c.effects@[1].effect_type is GainBlock
            &&& c.effects@[1].value == 15
            &&& c.effects@[1].duration == 0
            &&& c.effects@[1].target is SelfTarget
            &&& c.effects@[1].name@ == "Effect"@
        }),
        template_id@ == "card_knight_ult"@ ==> (r matches Some(c) && {
            &&& c.name@ == "圣光守护"@
            &&& c.description@ == "获得 30 点格挡，所有队友获得 15 点格挡"@
            &&& c.card_type is Skill
            &&& c.rarity is Legendary
            &&& c.cost == 3
            &&& c.base_damage == 0
            &&& c.base_defense == 30
            &&& c.target_type is AllAllies
            &&& c.effects@.len() == 2
            &&& c.effects@[0].effect_type is GainBlock
            &&& c.effects@[0].value == 30
            &&& c.effects@[0].duration == 0
            &&& c.effects@[0].target is SelfTarget
            &&& c.effects@[0].name@ == "Effect"@
            &&& c.effects@[1].effect_type is GainBlock
            &&& c.effects@[1].value == 15
            &&& c.effects@[1].duration == 0
            &&& c.effects@[1].target is AllAllies
            &&& c.effects@[1].name@ == "Effect"@
        }),
        template_id@ == "card_swordsman_attack"@ ==> (r matches Some(c) && {
            &&& c.name@ == "斩击"@
            &&& c.description@ == "造成 12 点物理伤害"@
            &&& c.card_type is Attack
            &&& c.rarity is Common
            &&& c.cost == 1
            &&& c.base_damage == 12
            &&& c.base_defense == 0
            &&& c.target_type is SingleEnemy
            &&& c.effects@.len() == 1
            &&& c.effects@[0].effect_type is PhysicalDamage
            &&& c.effects@[0].value == 12
            &&& c.effects@[0].duration == 0
            &&& c.effects@[0].target is SingleEnemy
            &&& c.effects@[0].name@ == "Effect"@
        }),
        template_id@ == "card_swordsman_skill"@ ==> (r matches Some(c) && {
            &&& c.name@ == "旋风斩"@
            &&& c.description@ == "对所有敌人造成 8 点物理伤害"@
            &&& c.card_type is Attack
            &&& c.rarity is Rare
            &&& c.cost == 2
            &&& c.base_damage == 8
            &&& c.base_defense == 0
            &&& c.target_type is AllEnemies
            &&& c.effects@.len() == 1
            &&& c.effects@[0].effect_type is PhysicalDamage
            &&& c.effects@[0].value == 8
            &&& c.effects@[0].duration == 0
            &&& c.effects@[0].target is AllEnemies
            &&& c.effects@[0].name@ == "Effect"@
        }),
        template_id@ == "card_swordsman_ult"@ ==> (r matches Some(c) && {
            &&& c.name@ == "破空斩"@
            &&& c.description@ == "造成 30 点物理伤害，无视防御"@
            &&& c.card_type is Attack
            &&& c.rarity is Legendary
            &&& c.cost == 3
            &&& c.base_damage == 30
            &&& c.base_defense == 0
            &&& c.target_type is SingleEnemy
            &&& c.effects@.len() == 1
            &&& c.effects@[0].effect_type is PhysicalDamage
            &&& c.effects@[0].value == 30
            &&& c.effects@[0].duration == 0
            &&& c.effects@[0].target is SingleEnemy
            &&& c.effects@[0].name@ == "Effect"@
        }),
        template_id@ == "card_warlock_attack"@ ==> (r matches Some(c) && {
            &&& c.name@ == "暗影箭"@
            &&& c.description@ == "造成 10 点魔法伤害"@
            &&& c.card_type is Attack
            &&& c.rarity is Common
            &&& c.cost == 1
            &&& c.base_damage == 10
            &&& c.base_defense == 0
            &&& c.target_type is SingleEnemy
            &&& c.effects@.len() == 1
            &&& c.effects@[0].effect_type is MagicDamage
            &&& c.effects@[0].value == 10
            &&& c.effects@[0].duration == 0
            &&& c.effects@[0].target is SingleEnemy
            &&& c.effects@[0].name@ == "Effect"@
        }),
        template_id@ == "card_warlock_skill"@ ==> (r matches Some(c) && {
            &&& c.name@ == "腐蚀术"@
            &&& c.description@ == "造成 5 点伤害，施加 3 层中毒"@
            &&& c.card_type is Skill
            &&& c.rarity is Rare
            &&& c.cost == 1
            &&& c.base_damage == 5
            &&& c.base_defense == 0
            &&& c.target_type is SingleEnemy
            &&& c.effects@.len() == 2
            &&& c.effects@[0].effect_type is MagicDamage
            &&& c.effects@[0].value == 5
            &&& c.effects@[0].duration == 0
            &&& c.effects@[0].target is SingleEnemy
            &&& c.effects@[0].name@ == "Effect"@
            &&& c.effects@[1].effect_type is ApplyPoison
            &&& c.effects@[1].value == 3
            &&& c.effects@[1].duration == 3
            &&& c.effects@[1].target is SingleEnemy
            &&& c.effects@[1].name@ == "Effect"@
        }),
        template_id@ == "card_warlock_ult"@ ==> (r matches Some(c) && {
            &&& c.name@ == "混乱之雨"@
            &&& c.description@ == "对所有敌人造成 20 点魔法伤害，施加 2 层虚弱"@
            &&& c.card_type is Skill
            &&& c.rarity is Legendary
            &&& c.cost == 3
            &&& c.base_damage == 20
            &&& c.base_defense == 0
            &&& c.target_type is AllEnemies
            &&& c.effects@.len() == 2
            &&& c.effects@[0].effect_type is MagicDamage
            &&& c.effects@[0].value == 20
            &&& c.effects@[0].duration == 0
            &&& c.effects@[0].target is AllEnemies
            &&& c.effects@[0].name@ == "Effect"@
            &&& c.effects@[1].effect_type is ApplyWeak
            &&& c.effects@[1].value == 2
            &&& c.effects@[1].duration == 2
            &&& c.effects@[1].target is AllEnemies
            &&& c.effects@[1].name@ == "Effect"@
        }),
        template_id@ == "card_gunner_attack"@ ==> (r matches Some(c) && {
            &&& c.name@ == "射击"@
            &&& c.description@ == "造成 10 点物理伤害"@
            &&& c.card_type is Attack
            &&& c.rarity is Common
            &&& c.cost == 1
            &&& c.base_damage == 10
            &&& c.base_defense == 0
            &&& c.target_type is SingleEnemy
            &&& c.effects@.len() == 1
            &&& c.effects@[0].effect_type is PhysicalDamage
            &&& c.effects@[0].value == 10
            &&& c.effects@[0].duration == 0
            &&& c.effects@[0].target is SingleEnemy
            &&& c.effects@[0].name@ == "Effect"@
        }),
        template_id@ == "card_gunner_skill"@ ==> (r matches Some(c) && {
            &&& c.name@ == "快速射击"@
            &&& c.description@ == "造成 3 次 5 点物理伤害"@
            &&& c.card_type is Attack
            &&& c.rarity is Rare
            &&& c.cost == 2
            &&& c.base_damage == 5
            &&& c.base_defense == 0
            &&& c.target_type is SingleEnemy
            &&& c.effects@.len() == 3
            &&& c.effects@[0].effect_type is PhysicalDamage
            &&& c.effects@[0].value == 5
            &&& c.effects@[0].duration == 0
            &&& c.effects@[0].target is SingleEnemy
            &&& c.effects@[0].name@ == "Effect"@
            &&& c.effects@[1].effect_type is PhysicalDamage
            &&& c.effects@[1].value == 5
            &&& c.effects@[1].duration == 0
            &&& c.effects@[1].target is SingleEnemy
            &&& c.effects@[1].name@ == "Effect"@
            &&& c.effects@[2].effect_type is PhysicalDamage
            &&& c.effects@[2].value == 5
            &&& c.effects@[2].duration == 0
            &&& c.effects@[2].target is SingleEnemy
            &&& c.effects@[2].name@ == "Effect"@
        }),
        template_id@ == "card_gunner_ult"@ ==> (r matches Some(c) && {
            &&& c.name@ == "爆头"@
            &&& c.description@ == "造成 40 点物理伤害，必定暴击"@
            &&& c.card_type is Attack
            &&& c.rarity is Legendary
            &&& c.cost == 3
            &&& c.base_damage == 40
            &&& c.base_defense == 0
            &&& c.target_type is SingleEnemy
            &&& c.effects@.len() == 1
            &&& c.effects@[0].effect_type is PhysicalDamage
            &&& c.effects@[0].value == 40
            &&& c.effects@[0].duration == 0
            &&& c.effects@[0].target is SingleEnemy
            &&& c.effects@[0].name@ == "Effect"@
        }),
        template_id@ == "card_assassin_attack"@ ==> (r matches Some(c) && {
            &&& c.name@ == "刺击"@
            &&& c.description@ == "造成 12 点物理伤害"@
            &&& c.card_type is Attack
            &&& c.rarity is Common
            &&& c.cost == 1
            &&& c.base_damage == 12
            &&& c.base_defense == 0
            &&& c.target_type is SingleEnemy
            &&& c.effects@.len() == 1
            &&& c.effects@[0].effect_type is PhysicalDamage
            &&& c.effects@[0].value == 12
            &&& c.effects@[0].duration == 0
            &&& c.effects@[0].target is SingleEnemy
            &&& c.effects@[0].name@ == "Effect"@
        }),
        template_id@ == "card_assassin_skill"@ ==> (r matches Some(c) && {
            &&& c.name@ == "毒刃"@
            &&& c.description@ == "造成 8 点伤害，施加 5 层中毒"@
            &&& c.card_type is Skill
            &&& c.rarity is Rare
            &&& c.cost == 1
            &&& c.base_damage == 8
            &&& c.base_defense == 0
            &&& c.target_type is SingleEnemy
            &&& c.effects@.len() == 2
            &&& c.effects@[0].effect_type is PhysicalDamage
            &&& c.effects@[0].value == 8
            &&& c.effects@[0].duration == 0
            &&& c.effects@[0].target is SingleEnemy
            &&& c.effects@[0].name@ == "Effect"@
            &&& c.effects@[1].effect_type is ApplyPoison
            &&& c.effects@[1].value == 5
            &&& c.effects@[1].duration == 5
            &&& c.effects@[1].target is SingleEnemy
            &&& c.effects@[1].name@ == "Effect"@
        }),
        template_id@ == "card_assassin_ult"@ ==> (r matches Some(c) && {
            &&& c.name@ == "瞬狱影杀阵"@
            &&& c.description@ == "对随机敌人造成 5 次 8 点伤害"@
            &&& c.card_type is Attack
            &&& c.rarity is Legendary
            &&& c.cost == 3
            &&& c.base_damage == 8
            &&& c.base_defense == 0
            &&& c.target_type is AllEnemies
            &&& c.effects@.len() == 5
            &&& c.effects@[0].effect_type is PhysicalDamage
            &&& c.effects@[0].value == 8
            &&& c.effects@[0].duration == 0
            &&& c.effects@[0].target is SingleEnemy
            &&& c.effects@[0].name@ == "Effect"@
            &&& c.effects@[1].effect_type is PhysicalDamage
            &&& c.effects@[1].value == 8
            &&& c.effects@[1].duration == 0
            &&& c.effects@[1].target is SingleEnemy
            &&& c.effects@[1].name@ == "Effect"@
            &&& c.effects@[2].effect_type is PhysicalDamage
            &&& c.effects@[2].value == 8
            &&& c.effects@[2].duration == 0
            &&& c.effects@[2].target is SingleEnemy
            &&& c.effects@[2].name@ == "Effect"@
            &&& c.effects@[3].effect_type is PhysicalDamage
            &&& c.effects@[3].value == 8
            &&& c.effects@[3].duration == 0
            &&& c.effects@[3].target is SingleEnemy
            &&& c.effects@[3].name@ == "Effect"@
            &&& c.effects@[4].effect_type is PhysicalDamage
            &&& c.effects@[4].value == 8
            &&& c.effects@[4].duration == 0
            &&& c.effects@[4].target is SingleEnemy
            &&& c.effects@[4].name@ == "Effect"@
        }),
{
    if str_eq(template_id, "card_knight_attack") {
        proof {
            reveal_strlit("card_knight_attack");
                reveal_strlit("card_knight_skill");
                assert(template_id@ != "card_knight_skill"@) by {
                    assert("card_knight_attack"@.len() == 18);
                    assert("card_knight_skill"@.len() == 17);
                };
                reveal_strlit("card_knight_ult");
                assert(template_id@ != "card_knight_ult"@) by {
                    assert("card_knight_attack"@.len() == 18);
                    assert("card_knight_ult"@.len() == 15);
                };
                reveal_strlit("card_swordsman_attack");
                assert(template_id@ != "card_swordsman_attack"@) by {
                    assert("card_knight_attack"@.len() == 18);
                    assert("card_swordsman_attack"@.len() == 21);
                };
                reveal_strlit("card_swordsman_skill");
                assert(template_id@ != "card_swordsman_skill"@) by {
                    assert("card_knight_attack"@.len() == 18);
                    assert("card_swordsman_skill"@.len() == 20);
                };
                reveal_strlit("card_swordsman_ult");
                assert(template_id@ != "card_swordsman_ult"@) by {
                    assert("card_knight_attack"@[5] == 'k');
                    assert("card_swordsman_ult"@[5] == 's');
                };
                reveal_strlit("card_warlock_attack");
                assert(template_id@ != "card_warlock_attack"@) by {
                    assert("card_knight_attack"@.len() == 18);
                    assert("card_warlock_attack"@.len() == 19);
                };
                reveal_strlit("card_warlock_skill");
                assert(template_id@ != "card_warlock_skill"@) by {
                    assert("card_knight_attack"@[5] == 'k');
                    assert("card_warlock_skill"@[5] == 'w');
                };
                reveal_strlit("card_warlock_ult");
                assert(template_id@ != "card_warlock_ult"@) by {
                    assert("card_knight_attack"@.len() == 18);
                    assert("card_warlock_ult"@.len() == 16);
                };
                reveal_strlit("card_gunner_attack");
                assert(template_id@ != "card_gunner_attack"@) by {
                    assert("card_knight_attack"@[5] == 'k');
                    assert("card_gunner_attack"@[5] == 'g');
                };
                reveal_strlit("card_gunner_skill");
                assert(template_id@ != "card_gunner_skill"@) by {
                    assert("card_knight_attack"@.len() == 18);
                    assert("card_gunner_skill"@.len() == 17);
                };
                reveal_strlit("card_gunner_ult");
                assert(template_id@ != "card_gunner_ult"@) by {
                    assert("card_knight_attack"@.len() == 18);
                    assert("card_gunner_ult"@.len() == 15);
                };
                reveal_strlit("card_assassin_attack");
                assert(template_id@ != "card_assassin_attack"@) by {
                    assert("card_knight_attack"@.len() == 18);
                    assert("card_assassin_attack"@.len() == 20);
                };
                reveal_strlit("card_assassin_skill");
                assert(template_id@ != "card_assassin_skill"@) by {
                    assert("card_knight_attack"@.len() == 18);
                    assert("card_assassin_skill"@.len() == 19);
                };
                reveal_strlit("card_assassin_ult");
                assert(template_id@ != "card_assassin_ult"@) by {
                    assert("card_knight_attack"@.len() == 18);
                    assert("card_assassin_ult"@.len() == 17);
                };
        }
        let mut effects: Vec<GcEffect> = Vec::new();
        effects.push(GcEffect {
            effect_type: GcEffectType::PhysicalDamage,
            value: 8,
            duration: 0,
            target: GcTargetType::SingleEnemy,
            name: "Effect".to_owned(),
        });
        effects.push(GcEffect {
            effect_type: GcEffectType::GainBlock,
            value: 5,
            duration: 0,
            target: GcTargetType::SelfTarget,
            name: "Effect".to_owned(),
        });
        return Some(GcCard {
            id: "temp_id".to_owned(),
            template_id: template_id.to_owned(),
            name: "盾击".to_owned(),
            description: "造成 8 点物理伤害，获得 5 点格挡".to_owned(),
            card_type: GcCardType::Attack,
            rarity: GcCardRarity::Common,
            cost: 1,
            base_damage: 8,
            base_defense: 5,
            target_type: GcTargetType::SingleEnemy,
            effects,
        });
    }
    if str_eq(template_id, "card_knight_skill") {
        proof {
            reveal_strlit("card_knight_skill");
                reveal_strlit("card_knight_ult");
                assert(template_id@ != "card_knight_ult"@) by {
                    assert("card_knight_skill"@.len() == 17);
                    assert("card_knight_ult"@.len() == 15);
                };
                reveal_strlit("card_swordsman_attack");
                assert(template_id@ != "card_swordsman_attack"@) by {
                    assert("card_knight_skill"@.len() == 17);
                    assert("card_swordsman_attack"@.len() == 21);
                };
                reveal_strlit("card_swordsman_skill");
                assert(template_id@ != "card_swordsman_skill"@) by {
                    assert("card_knight_skill"@.len() == 17);
                    assert("card_swordsman_skill"@.len() == 20);
                };
                reveal_strlit("card_swordsman_ult");
                assert(template_id@ != "card_swordsman_ult"@) by {
                    assert("card_knight_skill"@.len() == 17);
                    assert("card_swordsman_ult"@.len() == 18);
                };
                reveal_strlit("card_warlock_attack");
                assert(template_id@ != "card_warlock_attack"@) by {
                    assert("card_knight_skill"@.len() == 17);
                    assert("card_warlock_attack"@.len() == 19);
                };
                reveal_strlit("card_warlock_skill");
                assert(template_id@ != "card_warlock_skill"@) by {
                    assert("card_knight_skill"@.len() == 17);
                    assert("card_warlock_skill"@.len() == 18);
                };
                reveal_strlit("card_warlock_ult");
                assert(template_id@ != "card_warlock_ult"@) by {
                    assert("card_knight_skill"@.len() == 17);
                    assert("card_warlock_ult"@.len() == 16);
                };
                reveal_strlit("card_gunner_attack");
                assert(template_id@ != "card_gunner_attack"@) by {
                    assert("card_knight_skill"@.len() == 17);
                    assert("card_gunner_attack"@.len() == 18);
                };
                reveal_strlit("card_gunner_skill");
                assert(template_id@ != "card_gunner_skill"@) by {
                    assert("card_knight_skill"@[5] == 'k');
                    assert("card_gunner_skill"@[5] == 'g');
                };
                reveal_strlit("card_gunner_ult");
                assert(template_id@ != "card_gunner_ult"@) by {
                    assert("card_knight_skill"@.len() == 17);
                    assert("card_gunner_ult"@.len() == 15);
                };
                reveal_strlit("card_assassin_attack");
                assert(template_id@ != "card_assassin_attack"@) by {
                    assert("card_knight_skill"@.len() == 17);
                    assert("card_assassin_attack"@.len() == 20);
                };
                reveal_strlit("card_assassin_skill");
                assert(template_id@ != "card_assassin_skill"@) by {
                    assert("card_knight_skill"@.len() == 17);
                    assert("card_assassin_skill"@.len() == 19);
                };
                reveal_strlit("card_assassin_ult");
                assert(template_id@ != "card_assassin_ult"@) by {
                    assert("card_knight_skill"@[5] == 'k');
                    assert("card_assassin_ult"@[5] == 'a');
                };
        }
        let mut effects: Vec<GcEffect> = Vec::new();
        effects.push(GcEffect {
            effect_type: GcEffectType::Taunt,
            value: 1,
            duration: 1,
            target: GcTargetType::AllEnemies,
            name: "Effect".to_owned(),
        });
        effects.push(GcEffect {
            effect_type: GcEffectType::GainBlock,
            value: 15,
            duration: 0,
            target: GcTargetType::SelfTarget,
            name: "Effect".to_owned(),
        });
        return Some(GcCard {
            id: "temp_id".to_owned(),
            template_id: template_id.to_owned(),
            name: "嘲讽怒吼".to_owned(),
            description: "嘲讽所有敌人，获得 15 点格挡".to_owned(),
            card_type: GcCardType::Skill,
            rarity: GcCardRarity::Rare,
            cost: 2,
            base_damage: 0,
            base_defense: 15,
            target_type: GcTargetType::AllEnemies,
            effects,
        });
    }
    if str_eq(template_id, "card_knight_ult") {
        proof {
            reveal_strlit("card_knight_ult");
                reveal_strlit("card_swordsman_attack");
                assert(template_id@ != "card_swordsman_attack"@) by {
                    assert("card_knight_ult"@.len() == 15);
                    assert("card_swordsman_attack"@.len() == 21);
                };
                reveal_strlit("card_swordsman_skill");
                assert(template_id@ != "card_swordsman_skill"@) by {
                    assert("card_knight_ult"@.len() == 15);
                    assert("card_swordsman_skill"@.len() == 20);
                };
                reveal_strlit("card_swordsman_ult");
                assert(template_id@ != "card_swordsman_ult"@) by {
                    assert("card_knight_ult"@.len() == 15);
                    assert("card_swordsman_ult"@.len() == 18);
                };
                reveal_strlit("card_warlock_attack");
                assert(template_id@ != "card_warlock_attack"@) by {
                    assert("card_knight_ult"@.len() == 15);
                    assert("card_warlock_attack"@.len() == 19);
                };
                reveal_strlit("card_warlock_skill");
                assert(template_id@ != "card_warlock_skill"@) by {
                    assert("card_knight_ult"@.len() == 15);
                    assert("card_warlock_skill"@.len() == 18);
                };
                reveal_strlit("card_warlock_ult");
                assert(template_id@ != "card_warlock_ult"@) by {
                    assert("card_knight_ult"@.len() == 15);
                    assert("card_warlock_ult"@.len() == 16);
                };
                reveal_strlit("card_gunner_attack");
                assert(template_id@ != "card_gunner_attack"@) by {
                    assert("card_knight_ult"@.len() == 15);
                    assert("card_gunner_attack"@.len() == 18);
                };
                reveal_strlit("card_gunner_skill");
                assert(template_id@ != "card_gunner_skill"@) by {
                    assert("card_knight_ult"@.len() == 15);
                    assert("card_gunner_skill"@.len() == 17);
                };
                reveal_strlit("card_gunner_ult");
                assert(template_id@ != "card_gunner_ult"@) by {
                    assert("card_knight_ult"@[5] == 'k');
                    assert("card_gunner_ult"@[5] == 'g');
                };
                reveal_strlit("card_assassin_attack");
                assert(template_id@ != "card_assassin_attack"@) by {
                    assert("card_knight_ult"@.len() == 15);
                    assert("card_assassin_attack"@.len() == 20);
                };
                reveal_strlit("card_assassin_skill");
                assert(template_id@ != "card_assassin_skill"@) by {
                    assert("card_knight_ult"@.len() == 15);
                    assert("card_assassin_skill"@.len() == 19);
                };
                reveal_strlit("card_assassin_ult");
                assert(template_id@ != "card_assassin_ult"@) by {
                    assert("card_knight_ult"@.len() == 15);
                    assert("card_assassin_ult"@.len() == 17);
                };
        }
        let mut effects: Vec<GcEffect> = Vec::new();
        effects.push(GcEffect {
            effect_type: GcEffectType::GainBlock,
            value: 30,
            duration: 0,
            target: GcTargetType::SelfTarget,
            name: "Effect".to_owned(),
        });
        effects.push(GcEffect {
            effect_type: GcEffectType::GainBlock,
            value: 15,
            duration: 0,
            target: GcTargetType::AllAllies,
            name: "Effect".to_owned(),
        });
        return Some(GcCard {
            id: "temp_id".to_owned(),
            template_id: template_id.to_owned(),
            name: "圣光守护".to_owned(),
            description: "获得 30 点格挡，所有队友获得 15 点格挡".to_owned(),
            card_type: GcCardType::Skill,
            rarity: GcCardRarity::Legendary,
            cost: 3,
            base_damage: 0,
            base_defense: 30,
            target_type: GcTargetType::AllAllies,
            effects,
        });
    }
    if str_eq(template_id, "card_swordsman_attack") {
        proof {
            reveal_strlit("card_swordsman_attack");
                reveal_strlit("card_swordsman_skill");
                assert(template_id@ != "card_swordsman_skill"@) by {
                    assert("card_swordsman_attack"@.len() == 21);
                    assert("card_swordsman_skill"@.len() == 20);
                };
                reveal_strlit("card_swordsman_ult");
                assert(template_id@ != "card_swordsman_ult"@) by {
                    assert("card_swordsman_attack"@.len() == 21);
                    assert("card_swordsman_ult"@.len() == 18);
                };
                reveal_strlit("card_warlock_attack");
                assert(template_id@ != "card_warlock_attack"@) by {
                    assert("card_swordsman_attack"@.len() == 21);
                    assert("card_warlock_attack"@.len() == 19);
                };
                reveal_strlit("card_warlock_skill");
                assert(template_id@ != "card_warlock_skill"@) by {
                    assert("card_swordsman_attack"@.len() == 21);
                    assert("card_warlock_skill"@.len() == 18);
                };
                reveal_strlit("card_warlock_ult");
                assert(template_id@ != "card_warlock_ult"@) by {
                    assert("card_swordsman_attack"@.len() == 21);
                    assert("card_warlock_ult"@.len() == 16);
                };
                reveal_strlit("card_gunner_attack");
                assert(template_id@ != "card_gunner_attack"@) by {
                    assert("card_swordsman_attack"@.len() == 21);
                    assert("card_gunner_attack"@.len() == 18);
                };
                reveal_strlit("card_gunner_skill");
                assert(template_id@ != "card_gunner_skill"@) by {
                    assert("card_swordsman_attack"@.len() == 21);
                    assert("card_gunner_skill"@.len() == 17);
                };
                reveal_strlit("card_gunner_ult");
                assert(template_id@ != "card_gunner_ult"@) by {
                    assert("card_swordsman_attack"@.len() == 21);
                    assert("card_gunner_ult"@.len() == 15);
                };
                reveal_strlit("card_assassin_attack");
                assert(template_id@ != "card_assassin_attack"@) by {
                    assert("card_swordsman_attack"@.len() == 21);
                    assert("card_assassin_attack"@.len() == 20);
                };
                reveal_strlit("card_assassin_skill");
                assert(template_id@ != "card_assassin_skill"@) by {
                    assert("card_swordsman_attack"@.len() == 21);
                    assert("card_assassin_skill"@.len() == 19);
                };
                reveal_strlit("card_assassin_ult");
                assert(template_id@ != "card_assassin_ult"@) by {
                    assert("card_swordsman_attack"@.len() == 21);
                    assert("card_assassin_ult"@.len() == 17);
                };
        }
        let mut effects: Vec<GcEffect> = Vec::new();
        effects.push(GcEffect {
            effect_type: GcEffectType::PhysicalDamage,
            value: 12,
            duration: 0,
            target: GcTargetType::SingleEnemy,
            name: "Effect".to_owned(),
        });
        return Some(GcCard {
            id: "temp_id".to_owned(),
            template_id: template_id.to_owned(),
            name: "斩击".to_owned(),
            description: "造成 12 点物理伤害".to_owned(),
            card_type: GcCardType::Attack,
            rarity: GcCardRarity::Common,
            cost: 1,
            base_damage: 12,
            base_defense: 0,
            target_type: GcTargetType::SingleEnemy,
            effects,
        });
    }
    if str_eq(template_id, "card_swordsman_skill") {
        proof {
            reveal_strlit("card_swordsman_skill");
                reveal_strlit("card_swordsman_ult");
                assert(template_id@ != "card_swordsman_ult"@) by {
                    assert("card_swordsman_skill"@.len() == 20);
                    assert("card_swordsman_ult"@.len() == 18);
                };
                reveal_strlit("card_warlock_attack");
                assert(template_id@ != "card_warlock_attack"@) by {
                    assert("card_swordsman_skill"@.len() == 20);
                    assert("card_warlock_attack"@.len() == 19);
                };
                reveal_strlit("card_warlock_skill");
                assert(template_id@ != "card_warlock_skill"@) by {
                    assert("card_swordsman_skill"@.len() == 20);
                    assert("card_warlock_skill"@.len() == 18);
                };
                reveal_strlit("card_warlock_ult");
                assert(template_id@ != "card_warlock_ult"@) by {
                    assert("card_swordsman_skill"@.len() == 20);
                    assert("card_warlock_ult"@.len() == 16);
                };
                reveal_strlit("card_gunner_attack");
                assert(template_id@ != "card_gunner_attack"@) by {
                    assert("card_swordsman_skill"@.len() == 20);
                    assert("card_gunner_attack"@.len() == 18);
                };
                reveal_strlit("card_gunner_skill");
                assert(template_id@ != "card_gunner_skill"@) by {
                    assert("card_swordsman_skill"@.len() == 20);
                    assert("card_gunner_skill"@.len() == 17);
                };
                reveal_strlit("card_gunner_ult");
                assert(template_id@ != "card_gunner_ult"@) by {
                    assert("card_swordsman_skill"@.len() == 20);
                    assert("card_gunner_ult"@.len() == 15);
                };
                reveal_strlit("card_assassin_attack");
                assert(template_id@ != "card_assassin_attack"@) by {
                    assert("card_swordsman_skill"@[5] == 's');
                    assert("card_assassin_attack"@[5] == 'a');
                };
                reveal_strlit("card_assassin_skill");
                assert(template_id@ != "card_assassin_skill"@) by {
                    assert("card_swordsman_skill"@.len() == 20);
                    assert("card_assassin_skill"@.len() == 19);
                };
                reveal_strlit("card_assassin_ult");
                assert(template_id@ != "card_assassin_ult"@) by {
                    assert("card_swordsman_skill"@.len() == 20);
                    assert("card_assassin_ult"@.len() == 17);
                };
        }
        let mut effects: Vec<GcEffect> = Vec::new();
        effects.push(GcEffect {
            effect_type: GcEffectType::PhysicalDamage,
            value: 8,
            duration: 0,
            target: GcTargetType::AllEnemies,
            name: "Effect".to_owned(),
        });
        return Some(GcCard {
            id: "temp_id".to_owned(),
            template_id: template_id.to_owned(),
            name: "旋风斩".to_owned(),
            description: "对所有敌人造成 8 点物理伤害".to_owned(),
            card_type: GcCardType::Attack,
            rarity: GcCardRarity::Rare,
            cost: 2,
            base_damage: 8,
            base_defense: 0,
            target_type: GcTargetType::AllEnemies,
            effects,
        });
    }
    if str_eq(template_id, "card_swordsman_ult") {
        proof {
            reveal_strlit("card_swordsman_ult");
                reveal_strlit("card_warlock_attack");
                assert(template_id@ != "card_warlock_attack"@) by {
                    assert("card_swordsman_ult"@.len() == 18);
                    assert("card_warlock_attack"@.len() == 19);
                };
                reveal_strlit("card_warlock_skill");
                assert(template_id@ != "card_warlock_skill"@) by {
                    assert("card_swordsman_ult"@[5] == 's');
                    assert("card_warlock_skill"@[5] == 'w');
                };
                reveal_strlit("card_warlock_ult");
                assert(template_id@ != "card_warlock_ult"@) by {
                    assert("card_swordsman_ult"@.len() == 18);
                    assert("card_warlock_ult"@.len() == 16);
                };
                reveal_strlit("card_gunner_attack");
                assert(template_id@ != "card_gunner_attack"@) by {
                    assert("card_swordsman_ult"@[5] == 's');
                    assert("card_gunner_attack"@[5] == 'g');
                };
                reveal_strlit("card_gunner_skill");
                assert(template_id@ != "card_gunner_skill"@) by {
                    assert("card_swordsman_ult"@.len() == 18);
                    assert("card_gunner_skill"@.len() == 17);
                };
                reveal_strlit("card_gunner_ult");
                assert(template_id@ != "card_gunner_ult"@) by {
                    assert("card_swordsman_ult"@.len() == 18);
                    assert("card_gunner_ult"@.len() == 15);
                };
                reveal_strlit("card_assassin_attack");
                assert(template_id@ != "card_assassin_attack"@) by {
                    assert("card_swordsman_ult"@.len() == 18);
                    assert("card_assassin_attack"@.len() == 20);
                };
                reveal_strlit("card_assassin_skill");
                assert(template_id@ != "card_assassin_skill"@) by {
                    assert("card_swordsman_ult"@.len() == 18);
                    assert("card_assassin_skill"@.len() == 19);
                };
                reveal_strlit("card_assassin_ult");
                assert(template_id@ != "card_assassin_ult"@) by {
                    assert("card_swordsman_ult"@.len() == 18);
                    assert("card_assassin_ult"@.len() == 17);
                };
        }
        let mut effects: Vec<GcEffect> = Vec::new();
        effects.push(GcEffect {
            effect_type: GcEffectType::PhysicalDamage,
            value: 30,
            duration: 0,
            target: GcTargetType::SingleEnemy,
            name: "Effect".to_owned(),
        });
        return Some(GcCard {
            id: "temp_id".to_owned(),
            template_id: template_id.to_owned(),
            name: "破空斩".to_owned(),
            description: "造成 30 点物理伤害，无视防御".to_owned(),
            card_type: GcCardType::Attack,
            rarity: GcCardRarity::Legendary,
            cost: 3,
            base_damage: 30,
            base_defense: 0,
            target_type: GcTargetType::SingleEnemy,
            effects,
        });
    }
    if str_eq(template_id, "card_warlock_attack") {
        proof {
            reveal_strlit("card_warlock_attack");
                reveal_strlit("card_warlock_skill");
                assert(template_id@ != "card_warlock_skill"@) by {
                    assert("card_warlock_attack"@.len() == 19);
                    assert("card_warlock_skill"@.len() == 18);
                };
                reveal_strlit("card_warlock_ult");
                assert(template_id@ != "card_warlock_ult"@) by {
                    assert("card_warlock_attack"@.len() == 19);
                    assert("card_warlock_ult"@.len() == 16);
                };
                reveal_strlit("card_gunner_attack");
                assert(template_id@ != "card_gunner_attack"@) by {
                    assert("card_warlock_attack"@.len() == 19);
                    assert("card_gunner_attack"@.len() == 18);
                };
                reveal_strlit("card_gunner_skill");
                assert(template_id@ != "card_gunner_skill"@) by {
                    assert("card_warlock_attack"@.len() == 19);
                    assert("card_gunner_skill"@.len() == 17);
                };
                reveal_strlit("card_gunner_ult");
                assert(template_id@ != "card_gunner_ult"@) by {
                    assert("card_warlock_attack"@.len() == 19);
                    assert("card_gunner_ult"@.len() == 15);
                };
                reveal_strlit("card_assassin_attack");
                assert(template_id@ != "card_assassin_attack"@) by {
                    assert("card_warlock_attack"@.len() == 19);
                    assert("card_assassin_attack"@.len() == 20);
                };
                reveal_strlit("card_assassin_skill");
                assert(template_id@ != "card_assassin_skill"@) by {
                    assert("card_warlock_attack"@[5] == 'w');
                    assert("card_assassin_skill"@[5] == 'a');
                };
                reveal_strlit("card_assassin_ult");
                assert(template_id@ != "card_assassin_ult"@) by {
                    assert("card_warlock_attack"@.len() == 19);
                    assert("card_assassin_ult"@.len() == 17);
                };
        }
        let mut effects: Vec<GcEffect> = Vec::new();
        effects.push(GcEffect {
            effect_type: GcEffectType::MagicDamage,
            value: 10,
            duration: 0,
            target: GcTargetType::SingleEnemy,
            name: "Effect".to_owned(),
        });
        return Some(GcCard {
            id: "temp_id".to_owned(),
            template_id: template_id.to_owned(),
            name: "暗影箭".to_owned(),
            description: "造成 10 点魔法伤害".to_owned(),
            card_type: GcCardType::Attack,
            rarity: GcCardRarity::Common,
            cost: 1,
            base_damage: 10,
            base_defense: 0,
            target_type: GcTargetType::SingleEnemy,
            effects,
        });
    }
    if str_eq(template_id, "card_warlock_skill") {
        proof {
            reveal_strlit("card_warlock_skill");
                reveal_strlit("card_warlock_ult");
                assert(template_id@ != "card_warlock_ult"@) by {
                    assert("card_warlock_skill"@.len() == 18);
                    assert("card_warlock_ult"@.len() == 16);
                };
                reveal_strlit("card_gunner_attack");
                assert(template_id@ != "card_gunner_attack"@) by {
                    assert("card_warlock_skill"@[5] == 'w');
                    assert("card_gunner_attack"@[5] == 'g');
                };
                reveal_strlit("card_gunner_skill");
                assert(template_id@ != "card_gunner_skill"@) by {
                    assert("card_warlock_skill"@.len() == 18);
                    assert("card_gunner_skill"@.len() == 17);
                };
                reveal_strlit("card_gunner_ult");
                assert(template_id@ != "card_gunner_ult"@) by {
                    assert("card_warlock_skill"@.len() == 18);
                    assert("card_gunner_ult"@.len() == 15);
                };
                reveal_strlit("card_assassin_attack");
                assert(template_id@ != "card_assassin_attack"@) by {
                    assert("card_warlock_skill"@.len() == 18);
                    assert("card_assassin_attack"@.len() == 20);
                };
                reveal_strlit("card_assassin_skill");
                assert(template_id@ != "card_assassin_skill"@) by {
                    assert("card_warlock_skill"@.len() == 18);
                    assert("card_assassin_skill"@.len() == 19);
                };
                reveal_strlit("card_assassin_ult");
                assert(template_id@ != "card_assassin_ult"@) by {
                    assert("card_warlock_skill"@.len() == 18);
                    assert("card_assassin_ult"@.len() == 17);
                };
        }
        let mut effects: Vec<GcEffect> = Vec::new();
        effects.push(GcEffect {
            effect_type: GcEffectType::MagicDamage,
            value: 5,
            duration: 0,
            target: GcTargetType::SingleEnemy,
            name: "Effect".to_owned(),
        });
        effects.push(GcEffect {
            effect_type: GcEffectType::ApplyPoison,
            value: 3,
            duration: 3,
            target: GcTargetType::SingleEnemy,
            name: "Effect".to_owned(),
        });
        return Some(GcCard {
            id: "temp_id".to_owned(),
            template_id: template_id.to_owned(),
            name: "腐蚀术".to_owned(),
            description: "造成 5 点伤害，施加 3 层中毒".to_owned(),
            card_type: GcCardType::Skill,
            rarity: GcCardRarity::Rare,
            cost: 1,
            base_damage: 5,
            base_defense: 0,
            target_type: GcTargetType::SingleEnemy,
            effects,
        });
    }
    if str_eq(template_id, "card_warlock_ult") {
        proof {
            reveal_strlit("card_warlock_ult");
                reveal_strlit("card_gunner_attack");
                assert(template_id@ != "card_gunner_attack"@) by {
                    assert("card_warlock_ult"@.len() == 16);
                    assert("card_gunner_attack"@.len() == 18);
                };
                reveal_strlit("card_gunner_skill");
                assert(template_id@ != "card_gunner_skill"@) by {
                    assert("card_warlock_ult"@.len() == 16);
                    assert("card_gunner_skill"@.len() == 17);
                };
                reveal_strlit("card_gunner_ult");
                assert(template_id@ != "card_gunner_ult"@) by {
                    assert("card_warlock_ult"@.len() == 16);
                    assert("card_gunner_ult"@.len() == 15);
                };
                reveal_strlit("card_assassin_attack");
                assert(template_id@ != "card_assassin_attack"@) by {
                    assert("card_warlock_ult"@.len() == 16);
                    assert("card_assassin_attack"@.len() == 20);
                };
                reveal_strlit("card_assassin_skill");
                assert(template_id@ != "card_assassin_skill"@) by {
                    assert("card_warlock_ult"@.len() == 16);
                    assert("card_assassin_skill"@.len() == 19);
                };
                reveal_strlit("card_assassin_ult");
                assert(template_id@ != "card_assassin_ult"@) by {
                    assert("card_warlock_ult"@.len() == 16);
                    assert("card_assassin_ult"@.len() == 17);
                };
        }
        let mut effects: Vec<GcEffect> = Vec::new();
        effects.push(GcEffect {
            effect_type: GcEffectType::MagicDamage,
            value: 20,
            duration: 0,
            target: GcTargetType::AllEnemies,
            name: "Effect".to_owned(),
        });
        effects.push(GcEffect {
            effect_type: GcEffectType::ApplyWeak,
            value: 2,
            duration: 2,
            target: GcTargetType::AllEnemies,
            name: "Effect".to_owned(),
        });
        return Some(GcCard {
            id: "temp_id".to_owned(),
            template_id: template_id.to_owned(),
            name: "混乱之雨".to_owned(),
            description: "对所有敌人造成 20 点魔法伤害，施加 2 层虚弱".to_owned(),
            card_type: GcCardType::Skill,
            rarity: GcCardRarity::Legendary,
            cost: 3,
            base_damage: 20,
            base_defense: 0,
            target_type: GcTargetType::AllEnemies,
            effects,
        });
    }
    if str_eq(template_id, "card_gunner_attack") {
        proof {
            reveal_strlit("card_gunner_attack");
                reveal_strlit("card_gunner_skill");
                assert(template_id@ != "card_gunner_skill"@) by {
                    assert("card_gunner_attack"@.len() == 18);
                    assert("card_gunner_skill"@.len() == 17);
                };
                reveal_strlit("card_gunner_ult");
                assert(template_id@ != "card_gunner_ult"@) by {
                    assert("card_gunner_attack"@.len() == 18);
                    assert("card_gunner_ult"@.len() == 15);
                };
                reveal_strlit("card_assassin_attack");
                assert(template_id@ != "card_assassin_attack"@) by {
                    assert("card_gunner_attack"@.len() == 18);
                    assert("card_assassin_attack"@.len() == 20);
                };
                reveal_strlit("card_assassin_skill");
                assert(template_id@ != "card_assassin_skill"@) by {
                    assert("card_gunner_attack"@.len() == 18);
                    assert("card_assassin_skill"@.len() == 19);
                };
                reveal_strlit("card_assassin_ult");
                assert(template_id@ != "card_assassin_ult"@) by {
                    assert("card_gunner_attack"@.len() == 18);
                    assert("card_assassin_ult"@.len() == 17);
                };
        }
        let mut effects: Vec<GcEffect> = Vec::new();
        effects.push(GcEffect {
            effect_type: GcEffectType::PhysicalDamage,
            value: 10,
            duration: 0,
            target: GcTargetType::SingleEnemy,
            name: "Effect".to_owned(),
        });
        return Some(GcCard {
            id: "temp_id".to_owned(),
            template_id: template_id.to_owned(),
            name: "射击".to_owned(),
            description: "造成 10 点物理伤害".to_owned(),
            card_type: GcCardType::Attack,
            rarity: GcCardRarity::Common,
            cost: 1,
            base_damage: 10,
            base_defense: 0,
            target_type: GcTargetType::SingleEnemy,
            effects,
        });
    }
    if str_eq(template_id, "card_gunner_skill") {
        proof {
            reveal_strlit("card_gunner_skill");
                reveal_strlit("card_gunner_ult");
                assert(template_id@ != "card_gunner_ult"@) by {
                    assert("card_gunner_skill"@.len() == 17);
                    assert("card_gunner_ult"@.len() == 15);
                };
                reveal_strlit("card_assassin_attack");
                assert(template_id@ != "card_assassin_attack"@) by {
                    assert("card_gunner_skill"@.len() == 17);
                    assert("card_assassin_attack"@.len() == 20);
                };
                reveal_strlit("card_assassin_skill");
                assert(template_id@ != "card_assassin_skill"@) by {
                    assert("card_gunner_skill"@.len() == 17);
                    assert("card_assassin_skill"@.len() == 19);
                };
                reveal_strlit("card_assassin_ult");
                assert(template_id@ != "card_assassin_ult"@) by {
                    assert("card_gunner_skill"@[5] == 'g');
                    assert("card_assassin_ult"@[5] == 'a');
                };
        }
        let mut effects: Vec<GcEffect> = Vec::new();
        effects.push(GcEffect {
            effect_type: GcEffectType::PhysicalDamage,
            value: 5,
            duration: 0,
            target: GcTargetType::SingleEnemy,
            name: "Effect".to_owned(),
        });
        effects.push(GcEffect {
            effect_type: GcEffectType::PhysicalDamage,
            value: 5,
            duration: 0,
            target: GcTargetType::SingleEnemy,
            name: "Effect".to_owned(),
        });
        effects.push(GcEffect {
            effect_type: GcEffectType::PhysicalDamage,
            value: 5,
            duration: 0,
            target: GcTargetType::SingleEnemy,
            name: "Effect".to_owned(),
        });
        return Some(GcCard {
            id: "temp_id".to_owned(),
            template_id: template_id.to_owned(),
            name: "快速射击".to_owned(),
            description: "造成 3 次 5 点物理伤害".to_owned(),
            card_type: GcCardType::Attack,
            rarity: GcCardRarity::Rare,
            cost: 2,
            base_damage: 5,
            base_defense: 0,
            target_type: GcTargetType::SingleEnemy,
            effects,
        });
    }
    if str_eq(template_id, "card_gunner_ult") {
        proof {
            reveal_strlit("card_gunner_ult");
                reveal_strlit("card_assassin_attack");
                assert(template_id@ != "card_assassin_attack"@) by {
                    assert("card_gunner_ult"@.len() == 15);
                    assert("card_assassin_attack"@.len() == 20);
                };
                reveal_strlit("card_assassin_skill");
                assert(template_id@ != "card_assassin_skill"@) by {
                    assert("card_gunner_ult"@.len() == 15);
                    assert("card_assassin_skill"@.len() == 19);
                };
                reveal_strlit("card_assassin_ult");
                assert(template_id@ != "card_assassin_ult"@) by {
                    assert("card_gunner_ult"@.len() == 15);
                    assert("card_assassin_ult"@.len() == 17);
                };
        }
        let mut effects: Vec<GcEffect> = Vec::new();
        effects.push(GcEffect {
            effect_type: GcEffectType::PhysicalDamage,
            value: 40,
            duration: 0,
            target: GcTargetType::SingleEnemy,
            name: "Effect".to_owned(),
        });
        return Some(GcCard {
            id: "temp_id".to_owned(),
            template_id: template_id.to_owned(),
            name: "爆头".to_owned(),
            description: "造成 40 点物理伤害，必定暴击".to_owned(),
            card_type: GcCardType::Attack,
            rarity: GcCardRarity::Legendary,
            cost: 3,
            base_damage: 40,
            base_defense: 0,
            target_type: GcTargetType::SingleEnemy,
            effects,
        });
    }
    if str_eq(template_id, "card_assassin_attack") {
        proof {
            reveal_strlit("card_assassin_attack");
                reveal_strlit("card_assassin_skill");
                assert(template_id@ != "card_assassin_skill"@) by {
                    assert("card_assassin_attack"@.len() == 20);
                    assert("card_assassin_skill"@.len() == 19);
                };
                reveal_strlit("card_assassin_ult");
                assert(template_id@ != "card_assassin_ult"@) by {
                    assert("card_assassin_attack"@.len() == 20);
                    assert("card_assassin_ult"@.len() == 17);
                };
        }
        let mut effects: Vec<GcEffect> = Vec::new();
        effects.push(GcEffect {
            effect_type: GcEffectType::PhysicalDamage,
            value: 12,
            duration: 0,
            target: GcTargetType::SingleEnemy,
            name: "Effect".to_owned(),
        });
        return Some(GcCard {
            id: "temp_id".to_owned(),
            template_id: template_id.to_owned(),
            name: "刺击".to_owned(),
            description: "造成 12 点物理伤害".to_owned(),
            card_type: GcCardType::Attack,
            rarity: GcCardRarity::Common,
            cost: 1,
            base_damage: 12,
            base_defense: 0,
            target_type: GcTargetType::SingleEnemy,
            effects,
        });
    }
    if str_eq(template_id, "card_assassin_skill") {
        proof {
            reveal_strlit("card_assassin_skill");
                reveal_strlit("card_assassin_ult");
                assert(template_id@ != "card_assassin_ult"@) by {
                    assert("card_assassin_skill"@.len() == 19);
                    assert("card_assassin_ult"@.len() == 17);
                };
        }
        let mut effects: Vec<GcEffect> = Vec::new();
        effects.push(GcEffect {
            effect_type: GcEffectType::PhysicalDamage,
            value: 8,
            duration: 0,
            target: GcTargetType::SingleEnemy,
            name: "Effect".to_owned(),
        });
        effects.push(GcEffect {
            effect_type: GcEffectType::ApplyPoison,
            value: 5,
            duration: 5,
            target: GcTargetType::SingleEnemy,
            name: "Effect".to_owned(),
        });
        return Some(GcCard {
            id: "temp_id".to_owned(),
            template_id: template_id.to_owned(),
            name: "毒刃".to_owned(),
            description: "造成 8 点伤害，施加 5 层中毒".to_owned(),
            card_type: GcCardType::Skill,
            rarity: GcCardRarity::Rare,
            cost: 1,
            base_damage: 8,
            base_defense: 0,
            target_type: GcTargetType::SingleEnemy,
            effects,
        });
    }
    if str_eq(template_id, "card_assassin_ult") {
        proof {
            reveal_strlit("card_assassin_ult");
        }
        let mut effects: Vec<GcEffect> = Vec::new();
        effects.push(GcEffect {
            effect_type: GcEffectType::PhysicalDamage,
            value: 8,
            duration: 0,
            target: GcTargetType::SingleEnemy,
            name: "Effect".to_owned(),
        });
        effects.push(GcEffect {
            effect_type: GcEffectType::PhysicalDamage,
            value: 8,
            duration: 0,
            target: GcTargetType::SingleEnemy,
            name: "Effect".to_owned(),
        });
        effects.push(GcEffect {
            effect_type: GcEffectType::PhysicalDamage,
            value: 8,
            duration: 0,
            target: GcTargetType::SingleEnemy,
            name: "Effect".to_owned(),
        });
        effects.push(GcEffect {
            effect_type: GcEffectType::PhysicalDamage,
            value: 8,
            duration: 0,
            target: GcTargetType::SingleEnemy,
            name: "Effect".to_owned(),
        });
        effects.push(GcEffect {
            effect_type: GcEffectType::PhysicalDamage,
            value: 8,
            duration: 0,
            target: GcTargetType::SingleEnemy,
            name: "Effect".to_owned(),
        });
        return Some(GcCard {
            id: "temp_id".to_owned(),
            template_id: template_id.to_owned(),
            name: "瞬狱影杀阵".to_owned(),
            description: "对随机敌人造成 5 次 8 点伤害".to_owned(),
            card_type: GcCardType::Attack,
            rarity: GcCardRarity::Legendary,
            cost: 3,
            base_damage: 8,
            base_defense: 0,
            target_type: GcTargetType::AllEnemies,
            effects,
        });
    }
    None
}

} // verus!