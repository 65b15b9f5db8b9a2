//! Cards and card templates: typed, costed cards with a damage or shield
//! figure, a target kind and a list of effects.

use vstd::prelude::*;
use vstd::string::StringExecFns;

use crate::effect::{GcEffect, GcEffectType};
use crate::types::{GcCardId, GcCardTemplateId};

verus! {

/// The four card families.
#[derive(Clone, Copy, Debug, PartialEq, Eq, Structural)]
pub enum GcCardType {
    /// Deals damage.
    Attack,
    /// Grants a shield.
    Defense,
    /// Carries effects.
    Skill,
    /// Anything else.
    Special,
}

impl Default for GcCardType {
    /// Attack, the most common family.
    fn default() -> (r: Self)
        ensures
            r is Attack,
    {
        GcCardType::Attack
    }
}

/// Card rarity.
#[derive(Clone, Copy, Debug, PartialEq, Eq, Structural)]
pub enum GcCardRarity {
    Common,
    Rare,
    Epic,
    Legendary,
}

impl Default for GcCardRarity {
    /// Common, the baseline rarity.
    fn default() -> (r: Self)
        ensures
            r is Common,
    {
        GcCardRarity::Common
    }
}

/// What a card aims at.
#[derive(Clone, Copy, Debug, PartialEq, Eq, Structural)]
pub enum GcTargetType {
    /// A single chosen enemy.
    SingleEnemy,
    /// Every enemy.
    AllEnemies,
    /// The player of the card.
    SelfTarget,
    /// A single chosen ally.
    SingleAlly,
    /// Every ally.
    AllAllies,
    /// Nothing needs to be chosen.
    NoTarget,
}

impl Default for GcTargetType {
    /// A single enemy, the most common target.
    fn default() -> (r: Self)
        ensures
            r is SingleEnemy,
    {
        GcTargetType::SingleEnemy
    }
}

/// One concrete card in someone's hand, deck or field.
#[derive(Clone, Debug)]
pub struct GcCard {
    /// Unique instance id.
    pub id: GcCardId,
    /// Template this card was stamped from.
    pub template_id: GcCardTemplateId,
    /// Display name.
    pub name: String,
    /// Display description.
    pub description: String,
    /// Card family.
    pub card_type: GcCardType,
    /// Rarity.
    pub rarity: GcCardRarity,
    /// Energy cost to play.
    pub cost: u32,
    /// Damage figure of attack cards.
    pub base_damage: u32,
    /// Shield figure of defense cards.
    pub base_defense: u32,
    /// What the card aims at.
    pub target_type: GcTargetType,
    /// Effects applied when played.
    pub effects: Vec<GcEffect>,
}

impl GcCard {
    /// A plain attack card: the given damage on a single enemy.
    pub fn gc_new_attack(id: &str, name: &str, cost: u32, damage: u32) -> (r: Self)
        ensures
            r.id@ == id@,
            r.template_id@ == Seq::<char>::empty(),
            r.name@ == name@,
            r.description@ == Seq::<char>::empty(),
            r.card_type is Attack,
            r.rarity is Common,
            r.cost == cost,
            r.base_damage == damage,
            r.base_defense == 0,
            r.target_type is SingleEnemy,
            r.effects@ == Seq::<GcEffect>::empty(),
    {
        let r = GcCard {
            id: id.to_owned(),
            template_id: String::new(),
            name: name.to_owned(),
            description: String::new(),
            card_type: GcCardType::Attack,
            rarity: GcCardRarity::Common,
            cost,
            base_damage: damage,
            base_defense: 0,
            target_type: GcTargetType::SingleEnemy,
            effects: Vec::new(),
        };
        proof {
            assert(r.effects@ =~= Seq::<GcEffect>::empty());
        }
        r
    }

    /// A plain defense card: the given shield on the player.
    pub fn gc_new_defense(id: &str, name: &str, cost: u32, defense: u32) -> (r: Self)
        ensures
            r.id@ == id@,
            r.template_id@ == Seq::<char>::empty(),
            r.name@ == name@,
            r.description@ == Seq::<char>::empty(),
            r.card_type is Defense,
            r.rarity is Common,
            r.cost == cost,
            r.base_damage == 0,
            r.base_defense == defense,
            r.target_type is SelfTarget,
            r.effects@ == Seq::<GcEffect>::empty(),
    {
        let r = GcCard {
            id: id.to_owned(),
            template_id: String::new(),
            name: name.to_owned(),
            description: String::new(),
            card_type: GcCardType::Defense,
            rarity: GcCardRarity::Common,
            cost,
            base_damage: 0,
            base_defense: 0,
            target_type: GcTargetType::SelfTarget,
            effects: Vec::new(),
        };
        let mut r = r;
        r.base_defense = defense;
        proof {
            assert(r.effects@ =~= Seq::<GcEffect>::empty());
        }
        r
    }

    /// A healing skill card: a self-heal of the given size.
    pub fn gc_new_heal(id: &str, name: &str, cost: u32, heal: u32) -> (r: Self)
        ensures
            r.id@ == id@,
            r.name@ == name@,
            r.card_type is Skill,
            r.rarity is Common,
            r.cost == cost,
            r.base_damage == 0,
            r.base_defense == 0,
            r.target_type is SelfTarget,
            r.effects@.len() == 1,
            r.effects@[0].effect_type is Heal,
            heal <= i32::MAX ==> r.effects@[0].value == heal as i32,
    {
        let value: i32 = if heal > i32::MAX as u32 {
            i32::MAX
        } else {
            heal as i32
        };
        let mut effects: Vec<GcEffect> = Vec::new();
        effects.push(GcEffect::gc_heal(value));
        GcCard {
            id: id.to_owned(),
            template_id: String::new(),
            name: name.to_owned(),
            description: String::new(),
            card_type: GcCardType::Skill,
            rarity: GcCardRarity::Common,
            cost,
            base_damage: 0,
            base_defense: 0,
            target_type: GcTargetType::SelfTarget,
            effects,
        }
    }

    /// A special card with no built-in figure or effect.
    pub fn gc_new_special(id: &str, name: &str, cost: u32) -> (r: Self)
        ensures
            r.id@ == id@,
            r.name@ == name@,
            r.card_type is Special,
            r.rarity is Common,
            r.cost == cost,
            r.base_damage == 0,
            r.base_defense == 0,
            r.target_type is NoTarget,
            r.effects@ == Seq::<GcEffect>::empty(),
    {
        let r = GcCard {
            id: id.to_owned(),
            template_id: String::new(),
            name: name.to_owned(),
            description: String::new(),
            card_type: GcCardType::Special,
            rarity: GcCardRarity::Common,
            cost,
            base_damage: 0,
            base_defense: 0,
            target_type: GcTargetType::NoTarget,
            effects: Vec::new(),
        };
        proof {
            assert(r.effects@ =~= Seq::<GcEffect>::empty());
        }
        r
    }

    /// A card needs a chosen target exactly when it aims at one enemy or one
    /// ally.
    pub fn gc_needs_target(&self) -> (r: bool)
        ensures
            r == (self.target_type is SingleEnemy || self.target_type is SingleAlly),
    {
        matches!(self.target_type, GcTargetType::SingleEnemy | GcTargetType::SingleAlly)
    }
}

/// Field-for-field likeness of two effects: plain fields equal and the name
/// equal as a character sequence.
pub open spec fn spec_effect_like(a: GcEffect, b: GcEffect) -> bool {
    &&& a.effect_type == b.effect_type
    &&& a.value == b.value
    &&& a.duration == b.duration
    &&& a.name@ == b.name@
    &&& a.target == b.target
}

/// Field-for-field likeness of two cards: every plain field equal, the
/// strings equal as character sequences, and the effects pairwise alike.
pub open spec fn spec_card_like(a: GcCard, b: GcCard) -> bool {
    &&& a.id@ == b.id@
    &&& a.template_id@ == b.template_id@
    &&& a.name@ == b.name@
    &&& a.description@ == b.description@
    &&& a.card_type == b.card_type
    &&& a.rarity == b.rarity
    &&& a.cost == b.cost
    &&& a.base_damage == b.base_damage
    &&& a.base_defense == b.base_defense
    &&& a.target_type == b.target_type
    &&& a.effects@.len() == b.effects@.len()
    &&& forall|k: int|
        0 <= k < a.effects@.len() ==> spec_effect_like(
            #[trigger] a.effects@[k],
            b.effects@[k],
        )
}

/// A field-for-field copy of an effect.
pub(crate) fn clone_effect(e: &GcEffect) -> (r: GcEffect)
    ensures
        spec_effect_like(*e, r),
{
    GcEffect {
        effect_type: e.effect_type,
        value: e.value,
        duration: e.duration,
        name: e.name.clone(),
        target: e.target,
    }
}

/// A field-for-field copy of a card.
pub(crate) fn clone_card(c: &GcCard) -> (r: GcCard)
    ensures
        spec_card_like(*c, r),
        spec_card_like(r, *c),
{
    let mut effects: Vec<GcEffect> = Vec::new();
    let mut i: usize = 0;
    while i < c.effects.len()
        invariant
            i <= c.effects@.len(),
            effects@.len() == i,
            forall|k: int|
                0 <= k < i ==> spec_effect_like(#[trigger] c.effects@[k], effects@[k])
                    && spec_effect_like(effects@[k], c.effects@[k]),
        decreases c.effects@.len() - i,
    {
        effects.push(clone_effect(&c.effects[i]));
        i = i + 1;
    }
    GcCard {
        id: c.id.clone(),
        template_id: c.template_id.clone(),
        name: c.name.clone(),
        description: c.description.clone(),
        card_type: c.card_type,
        rarity: c.rarity,
        cost: c.cost,
        base_damage: c.base_damage,
        base_defense: c.base_defense,
        target_type: c.target_type,
        effects,
    }
}

/// A card template; instances are stamped from it.
#[derive(Clone, Debug)]
pub struct GcCardTemplate {
    pub id: GcCardTemplateId,
    pub name: String,
    pub description: String,
    pub card_type: GcCardType,
    pub rarity: GcCardRarity,
    pub cost: u32,
    pub base_damage: u32,
    pub base_defense: u32,
    pub target_type: GcTargetType,
    pub effects: Vec<GcEffect>,
}

impl GcCardTemplate {
    /// Stamp an instance: every field copied from the template, with the
    /// given fresh instance id.
    pub fn gc_create_instance(&self, instance_id: &str) -> (r: GcCard)
        ensures
            r.id@ == instance_id@,
            r.template_id@ == self.id@,
            r.name@ == self.name@,
            r.description@ == self.description@,
            r.card_type == self.card_type,
            r.rarity == self.rarity,
            r.cost == self.cost,
            r.base_damage == self.base_damage,
            r.base_defense == self.base_defense,
            r.target_type == self.target_type,
            r.effects@.len() == self.effects@.len(),
    {
        GcCard {
            id: instance_id.to_owned(),
            template_id: self.id.clone(),
            name: self.name.clone(),
            description: self.description.clone(),
            card_type: self.card_type,
            rarity: self.rarity,
            cost: self.cost,
            base_damage: self.base_damage,
            base_defense: self.base_defense,
            target_type: self.target_type,
            effects: self.effects.clone(),
        }
    }
}

} // verus!
