//! Card effects: the closed set of effect kinds, effect values, execution
//! results and lingering per-turn effects.

use vstd::prelude::*;
use vstd::string::StringExecFns;

use crate::card::GcTargetType;
use crate::types::GcPlayerId;

verus! {

/// Every kind of effect a card can carry.
#[derive(Clone, Copy, Debug, PartialEq, Eq, Structural)]
pub enum GcEffectType {
    /// Plain damage.
    Damage,
    PhysicalDamage,
    MagicDamage,
    Heal,
    /// Gain armor / defense.
    Armor,
    /// Gain block (same family as Armor).
    GainBlock,
    DrawCard,
    DiscardCard,
    Buff,
    Debuff,
    Stun,
    Poison,
    /// Inflict poison (same family as Poison).
    ApplyPoison,
    Weak,
    /// Inflict weakness (same family as Weak).
    ApplyWeak,
    Taunt,
}

/// One effect carried by a card: its kind, magnitude, duration in turns
/// (zero means immediate) and target override.
#[derive(Clone, Debug)]
pub struct GcEffect {
    pub effect_type: GcEffectType,
    pub value: i32,
    pub duration: u32,
    /// Display name.
    pub name: String,
    /// Target this effect applies to, overriding the card's target.
    pub target: GcTargetType,
}

impl GcEffect {
    /// An immediate damage effect on a single enemy.
    pub fn gc_damage(value: i32) -> (r: Self)
        ensures
            r.effect_type is Damage,
            r.value == value,
            r.duration == 0,
            r.name@ == "伤害"@,
            r.target is SingleEnemy,
    {
        GcEffect {
            effect_type: GcEffectType::Damage,
            value,
            duration: 0,
            name: "伤害".to_owned(),
            target: GcTargetType::SingleEnemy,
        }
    }

    /// An immediate self-heal.
    pub fn gc_heal(value: i32) -> (r: Self)
        ensures
            r.effect_type is Heal,
            r.value == value,
            r.duration == 0,
            r.name@ == "治疗"@,
            r.target is SelfTarget,
    {
        GcEffect {
            effect_type: GcEffectType::Heal,
            value,
            duration: 0,
            name: "治疗".to_owned(),
            target: GcTargetType::SelfTarget,
        }
    }

    /// An immediate self armor gain.
    pub fn gc_armor(value: i32) -> (r: Self)
        ensures
            r.effect_type is Armor,
            r.value == value,
            r.duration == 0,
            r.name@ == "护甲"@,
            r.target is SelfTarget,
    {
        GcEffect {
            effect_type: GcEffectType::Armor,
            value,
            duration: 0,
            name: "护甲".to_owned(),
            target: GcTargetType::SelfTarget,
        }
    }

    /// An immediate card draw.
    pub fn gc_draw(count: i32) -> (r: Self)
        ensures
            r.effect_type is DrawCard,
            r.value == count,
            r.duration == 0,
            r.name@ == "抽牌"@,
            r.target is SelfTarget,
    {
        GcEffect {
            effect_type: GcEffectType::DrawCard,
            value: count,
            duration: 0,
            name: "抽牌".to_owned(),
            target: GcTargetType::SelfTarget,
        }
    }

    /// A lingering poison on a single enemy.
    pub fn gc_poison(damage: i32, duration: u32) -> (r: Self)
        ensures
            r.effect_type is Poison,
            r.value == damage,
            r.duration == duration,
            r.name@ == "中毒"@,
            r.target is SingleEnemy,
    {
        GcEffect {
            effect_type: GcEffectType::Poison,
            value: damage,
            duration,
            name: "中毒".to_owned(),
            target: GcTargetType::SingleEnemy,
        }
    }

    /// A lingering stun on a single enemy.
    pub fn gc_stun(duration: u32) -> (r: Self)
        ensures
            r.effect_type is Stun,
            r.value == 0,
            r.duration == duration,
            r.name@ == "眩晕"@,
            r.target is SingleEnemy,
    {
        GcEffect {
            effect_type: GcEffectType::Stun,
            value: 0,
            duration,
            name: "眩晕".to_owned(),
            target: GcTargetType::SingleEnemy,
        }
    }
}

/// The record of one effect having been applied.
#[derive(Clone, Debug)]
pub struct GcEffectResult {
    /// Display name of the effect.
    pub effect_name: String,
    /// Who it hit.
    pub target_id: GcPlayerId,
    /// The magnitude that actually applied.
    pub actual_value: i32,
    /// Human-readable description.
    pub message: String,
}

impl GcEffectResult {
    /// Bundle the fields of an applied effect.
    pub fn new(effect_name: &str, target_id: &str, actual_value: i32, message: String) -> (r: Self)
        ensures
            r.effect_name@ == effect_name@,
            r.target_id@ == target_id@,
            r.actual_value == actual_value,
            r.message == message,
    {
        GcEffectResult {
            effect_name: effect_name.to_owned(),
            target_id: target_id.to_owned(),
            actual_value,
            message,
        }
    }
}

/// An effect that lingers on a player across turns.
#[derive(Clone, Debug)]
pub struct GcActiveEffect {
    /// The effect itself.
    pub effect: GcEffect,
    /// Turns left before it wears off.
    pub remaining_turns: u32,
    /// Who applied it.
    pub source_id: GcPlayerId,
}

impl GcActiveEffect {
    /// Start a lingering effect; it runs for the effect's duration.
    pub fn new(effect: GcEffect, source_id: &str) -> (r: Self)
        ensures
            r.effect == effect,
            r.remaining_turns == effect.duration,
            r.source_id@ == source_id@,
    {
        let remaining = effect.duration;
        GcActiveEffect { effect, remaining_turns: remaining, source_id: source_id.to_owned() }
    }

    /// Count one turn down; the result says whether the effect has worn off.
    pub fn gc_tick(&mut self) -> (expired: bool)
        ensures
            final(self).remaining_turns == (if old(self).remaining_turns > 0 {
                (old(self).remaining_turns - 1) as u32
            } else {
                0u32
            }),
            expired == (final(self).remaining_turns == 0),
            final(self).effect == old(self).effect,
            final(self).source_id == old(self).source_id,
    {
        if self.remaining_turns > 0 {
            self.remaining_turns = self.remaining_turns - 1;
        }
        self.remaining_turns == 0
    }
}

} // verus!
