//! The tavern shop: five slots of purchasable monsters drawn from a template
//! pool by caller-supplied rolls, with freezing across refreshes, purchases
//! priced by star, and sales.

use vstd::prelude::*;
use vstd::string::StringExecFns;

use crate::card_acquisition::{
    GcAcquisitionContext, GcAcquisitionResult, GcAcquisitionSlot, GcCardAcquisition,
};
use crate::economy::{GcEconomy, GC_REFRESH_COST};
use crate::level_system::{gc_get_tier_weights, GcMonsterTier};
use crate::monster::{spec_buy_price, GcMonster};
use crate::terrain::GcMonsterAttribute;
use crate::text::{decimal_string, fresh_suffix, spec_decimal};

verus! {

/// Number of shop slots.
pub const GC_SHOP_SLOTS: usize = 5;

/// The shop: five optional monsters, their freeze flags, and a level that
/// weights the draws.
#[derive(Clone, Debug)]
pub struct GcTavernShop {
    /// The five offers.
    pub slots: [Option<GcMonster>; 5],
    /// Which offers survive the next refresh.
    pub frozen: [bool; 5],
    /// Shop level, following the player's.
    pub shop_level: u8,
}

impl Default for GcTavernShop {
    /// An empty level-one shop.
    fn default() -> (r: Self)
        ensures
            forall|j: int| 0 <= j < 5 ==> r.slots@[j] is None,
            forall|j: int| 0 <= j < 5 ==> !r.frozen@[j],
            r.shop_level == 1,
    {
        let r = GcTavernShop {
            slots: [None, None, None, None, None],
            frozen: [false, false, false, false, false],
            shop_level: 1,
        };
        r
    }
}

impl GcTavernShop {
    /// An empty level-one shop.
    pub fn new() -> (r: Self)
        ensures
            forall|j: int| 0 <= j < 5 ==> r.slots@[j] is None,
            forall|j: int| 0 <= j < 5 ==> !r.frozen@[j],
            r.shop_level == 1,
    {
        Self::default()
    }

    /// An empty shop of the given level.
    pub fn with_level(level: u8) -> (r: Self)
        ensures
            forall|j: int| 0 <= j < 5 ==> r.slots@[j] is None,
            forall|j: int| 0 <= j < 5 ==> !r.frozen@[j],
            r.shop_level == level,
    {
        let mut r = Self::default();
        r.shop_level = level;
        r
    }

    /// Paid refresh: the fee is taken and the unfrozen slots reroll; refused
    /// without the gold, changing nothing.
    pub fn refresh(
        &mut self,
        economy: &mut GcEconomy,
        pool: &GcMonsterPool,
        random_rolls: &[u8],
    ) -> (r: bool)
        ensures
            r == (old(economy).gold >= GC_REFRESH_COST),
            !r ==> *final(self) == *old(self) && *final(economy) == *old(economy),
            r ==> final(economy).gold == old(economy).gold - GC_REFRESH_COST && (forall|j: int|
                0 <= j < 5 ==> !final(self).frozen@[j]) && final(self).shop_level == old(self).shop_level,
    {
        if !economy.can_afford(GC_REFRESH_COST) {
            return false;
        }
        economy.spend(GC_REFRESH_COST);
        self.refresh_unfrozen(pool, random_rolls);
        true
    }

    /// Free refresh at the start of a turn: unfrozen slots reroll.
    pub fn free_refresh(&mut self, pool: &GcMonsterPool, random_rolls: &[u8])
        ensures
            forall|j: int| 0 <= j < 5 ==> !final(self).frozen@[j],
            final(self).shop_level == old(self).shop_level,
            forall|j: int|
                0 <= j < 5 && old(self).frozen@[j] ==> final(self).slots@[j] == old(self).slots@[j],
    {
        self.refresh_unfrozen(pool, random_rolls);
    }

    /// Reroll every unfrozen slot by the level's tier weights and the rolls,
    /// then thaw everything.
    fn refresh_unfrozen(&mut self, pool: &GcMonsterPool, random_rolls: &[u8])
        ensures
            forall|j: int| 0 <= j < 5 ==> !final(self).frozen@[j],
            final(self).shop_level == old(self).shop_level,
            forall|j: int|
                0 <= j < 5 && old(self).frozen@[j] ==> final(self).slots@[j] == old(self).slots@[j],
    {
        let weights = gc_get_tier_weights(self.shop_level);
        let mut i: usize = 0;
        while i < 5
            invariant
                i <= 5,
                weights.weights@[0] as int + weights.weights@[1] as int + weights.weights@[2] as int
                    + weights.weights@[3] as int + weights.weights@[4] as int == 100,
                self.shop_level == old(self).shop_level,
                self.frozen == old(self).frozen,
                forall|j: int|
                    0 <= j < 5 && old(self).frozen@[j] ==> self.slots@[j] == old(self).slots@[j],
            decreases 5 - i,
        {
            if !self.frozen[i] {
                let roll: u8 = if i < random_rolls.len() {
                    random_rolls[i]
                } else {
                    0
                };
                let tier = weights.select_tier(roll);
                let pick: u8 = if i + GC_SHOP_SLOTS < random_rolls.len() {
                    random_rolls[i + GC_SHOP_SLOTS]
                } else {
                    0
                };
                self.slots[i] = pool.get_random_monster(tier, pick);
            }
            i = i + 1;
        }
        self.frozen = [false, false, false, false, false];
    }

    /// Buy the offer in a slot: priced by its star, leaving the slot empty
    /// and thawed; refused on a bad or empty slot or short gold, changing
    /// nothing.
    pub fn buy(&mut self, slot_index: usize, economy: &mut GcEconomy) -> (r: Option<GcMonster>)
        ensures
            r is None ==> *final(self) == *old(self) && *final(economy) == *old(economy),
            r matches Some(m) ==> {
                &&& slot_index < 5
                &&& old(self).slots@[slot_index as int] == Some(m)
                &&& old(economy).gold >= spec_buy_price(m.star)
                &&& final(economy).gold == old(economy).gold - spec_buy_price(m.star)
                &&& final(self).slots@[slot_index as int] is None
                &&& !final(self).frozen@[slot_index as int]
                &&& forall|j: int|
                    0 <= j < 5 && j != slot_index ==> final(self).slots@[j] == old(self).slots@[j]
                        && final(self).frozen@[j] == old(self).frozen@[j]
                &&& final(self).shop_level == old(self).shop_level
            },
    {
        if slot_index >= GC_SHOP_SLOTS {
            return None;
        }
        let price = match &self.slots[slot_index] {
            Some(monster) => monster.buy_price(),
            None => {
                return None;
            },
        };
        if !economy.can_afford(price) {
            return None;
        }
        match self.slots[slot_index].take() {
            Some(purchased) => {
                economy.spend(price);
                self.frozen[slot_index] = false;
                Some(purchased)
            },
            None => None,
        }
    }

    /// Freeze or thaw an occupied slot; empty slots cannot be frozen.
    pub fn toggle_freeze(&mut self, slot_index: usize) -> (r: bool)
        ensures
            r == (slot_index < 5 && old(self).slots@[slot_index as int] is Some),
            !r ==> *final(self) == *old(self),
            r ==> final(self).frozen@[slot_index as int] == !old(self).frozen@[slot_index as int]
                && final(self).slots == old(self).slots && (forall|j: int|
                0 <= j < 5 && j != slot_index ==> final(self).frozen@[j] == old(self).frozen@[j])
                && final(self).shop_level == old(self).shop_level,
    {
        if slot_index >= GC_SHOP_SLOTS {
            return false;
        }
        if self.slots[slot_index].is_some() {
            let cur = self.frozen[slot_index];
            self.frozen[slot_index] = !cur;
            true
        } else {
            false
        }
    }

    /// Set the freeze flag of an occupied slot directly.
    pub fn set_freeze(&mut self, slot_index: usize, frozen: bool)
        ensures
            (slot_index < 5 && old(self).slots@[slot_index as int] is Some) ==> final(self).frozen@[slot_index as int] == frozen && final(self).slots == old(self).slots && (
            forall|j: int|
                0 <= j < 5 && j != slot_index ==> final(self).frozen@[j] == old(self).frozen@[j]),
            !(slot_index < 5 && old(self).slots@[slot_index as int] is Some) ==> *final(self)
                == *old(self),
    {
        if slot_index < GC_SHOP_SLOTS && self.slots[slot_index].is_some() {
            self.frozen[slot_index] = frozen;
        }
    }

    /// The offer in a slot.
    pub fn get_slot(&self, index: usize) -> (r: Option<&GcMonster>)
        ensures
            index < 5 ==> (match r {
                Option::Some(m) => self.slots@[index as int] == Some(*m),
                Option::None => self.slots@[index as int] is None,
            }),
            index >= 5 ==> r is None,
    {
        if index < GC_SHOP_SLOTS {
            self.slots[index].as_ref()
        } else {
            None
        }
    }

    /// Whether a slot is frozen; out-of-range slots are not.
    pub fn is_frozen(&self, index: usize) -> (r: bool)
        ensures
            index < 5 ==> r == self.frozen@[index as int],
            index >= 5 ==> !r,
    {
        if index < GC_SHOP_SLOTS {
            self.frozen[index]
        } else {
            false
        }
    }

    /// Follow the player's level.
    pub fn update_level(&mut self, player_level: u8)
        ensures
            *final(self) == (GcTavernShop { shop_level: player_level, ..*old(self) }),
    {
        self.shop_level = player_level;
    }

    /// The occupied slots, in order, with their offers.
    pub fn available_monsters(&self) -> (r: Vec<(usize, &GcMonster)>)
        ensures
            forall|k: int|
                0 <= k < r@.len() ==> (#[trigger] r@[k]).0 < 5 && self.slots@[r@[k].0 as int]
                    == Some(*r@[k].1),
    {
        let mut out: Vec<(usize, &GcMonster)> = Vec::new();
        let mut i: usize = 0;
        while i < GC_SHOP_SLOTS
            invariant
                i <= 5,
                forall|k: int|
                    0 <= k < out@.len() ==> (#[trigger] out@[k]).0 < 5
                        && self.slots@[out@[k].0 as int] == Some(*out@[k].1),
            decreases 5 - i,
        {
            match &self.slots[i] {
                Some(m) => {
                    out.push((i, m));
                },
                None => {},
            }
            i = i + 1;
        }
        out
    }

    /// Whether any offer stands.
    pub fn has_available(&self) -> (r: bool)
        ensures
            r == exists|j: int| 0 <= j < 5 && (#[trigger] self.slots@[j]) is Some,
    {
        let mut i: usize = 0;
        while i < GC_SHOP_SLOTS
            invariant
                i <= 5,
                forall|j: int| 0 <= j < i ==> (#[trigger] self.slots@[j]) is None,
            decreases 5 - i,
        {
            if self.slots[i].is_some() {
                return true;
            }
            i = i + 1;
        }
        false
    }

    /// One-line summary of the shop.
    pub fn summary(&self) -> (r: String)
        ensures
            r@.len() > 0,
    {
        let mut available: u32 = 0;
        let mut frozen_count: u32 = 0;
        let mut i: usize = 0;
        while i < GC_SHOP_SLOTS
            invariant
                i <= 5,
                available <= i,
                frozen_count <= i,
            decreases 5 - i,
        {
            if self.slots[i].is_some() {
                available = available + 1;
            }
            if self.frozen[i] {
                frozen_count = frozen_count + 1;
            }
            i = i + 1;
        }
        let mut out = "商店 Lv.".to_owned();
        proof {
            reveal_strlit("商店 Lv.");
        }
        out.append(decimal_string(self.shop_level as u32).as_str());
        out.append(" | 可购:");
        out.append(decimal_string(available).as_str());
        out.append(" | 冻结:");
        out.append(decimal_string(frozen_count).as_str());
        proof {
            assert(spec_decimal(frozen_count as nat).len() > 0);
        }
        out
    }
}

/// One monster template of the pool.
#[derive(Clone, Debug)]
pub struct GcMonsterTemplate {
    pub template_id: String,
    pub name: String,
    /// Cost tier the shop draws it at.
    pub tier: GcMonsterTier,
    pub level: u8,
    pub attribute: GcMonsterAttribute,
    pub base_atk: u32,
    pub base_def: u32,
    pub base_hp: u32,
}

/// The template pool shop draws come from.
#[derive(Clone, Debug)]
pub struct GcMonsterPool {
    templates: Vec<GcMonsterTemplate>,
}

impl Default for GcMonsterPool {
    /// Empty.
    fn default() -> (r: Self)
        ensures
            r.spec_templates().len() == 0,
    {
        GcMonsterPool { templates: Vec::new() }
    }
}

impl GcMonsterPool {
    /// The templates, in insertion order.
    pub closed spec fn spec_templates(&self) -> Seq<GcMonsterTemplate> {
        self.templates@
    }

    /// An empty pool.
    pub fn new() -> (r: Self)
        ensures
            r.spec_templates().len() == 0,
    {
        Self::default()
    }

    /// The pool stocked with the ten stock monsters.
    pub fn with_defaults() -> (r: Self)
        ensures
            r.spec_templates().len() == 10,
    {
        let mut pool = Self::new();
        pool.add_default_monsters();
        pool
    }

    /// Append a template.
    pub fn add_template(&mut self, template: GcMonsterTemplate)
        ensures
            final(self).spec_templates() == old(self).spec_templates().push(template),
    {
        self.templates.push(template);
    }

    /// Stock the ten stock monsters, three of the bottom tier up to two of
    /// the top.
    pub fn add_default_monsters(&mut self)
        ensures
            final(self).spec_templates().len() == old(self).spec_templates().len() + 10,
    {
        self.add_template(
            GcMonsterTemplate {
                template_id: "slime".to_owned(),
                name: "史莱姆".to_owned(),
                tier: GcMonsterTier::Tier1,
                level: 1,
                attribute: GcMonsterAttribute::Water,
                base_atk: 50,
                base_def: 30,
                base_hp: 60,
            },
        );
        self.add_template(
            GcMonsterTemplate {
                template_id: "goblin".to_owned(),
                name: "哥布林".to_owned(),
                tier: GcMonsterTier::Tier1,
                level: 1,
                attribute: GcMonsterAttribute::Earth,
                base_atk: 60,
                base_def: 20,
                base_hp: 50,
            },
        );
        self.add_template(
            GcMonsterTemplate {
                template_id: "fire_sprite".to_owned(),
                name: "火精灵".to_owned(),
                tier: GcMonsterTier::Tier1,
                level: 2,
                attribute: GcMonsterAttribute::Fire,
                base_atk: 70,
                base_def: 10,
                base_hp: 40,
            },
        );
        self.add_template(
            GcMonsterTemplate {
                template_id: "wolf".to_owned(),
                name: "灰狼".to_owned(),
                tier: GcMonsterTier::Tier2,
                level: 3,
                attribute: GcMonsterAttribute::Earth,
                base_atk: 90,
                base_def: 40,
                base_hp: 80,
            },
        );
        self.add_template(
            GcMonsterTemplate {
                template_id: "harpy".to_owned(),
                name: "鹰身女妖".to_owned(),
                tier: GcMonsterTier::Tier2,
                level: 3,
                attribute: GcMonsterAttribute::Wind,
                base_atk: 100,
                base_def: 30,
                base_hp: 70,
            },
        );
        self.add_template(
            GcMonsterTemplate {
                template_id: "golem".to_owned(),
                name: "石魔像".to_owned(),
                tier: GcMonsterTier::Tier3,
                level: 5,
                attribute: GcMonsterAttribute::Earth,
                base_atk: 80,
                base_def: 120,
                base_hp: 150,
            },
        );
        self.add_template(
            GcMonsterTemplate {
                template_id: "phoenix".to_owned(),
                name: "火凤凰".to_owned(),
                tier: GcMonsterTier::Tier3,
                level: 5,
                attribute: GcMonsterAttribute::Fire,
                base_atk: 140,
                base_def: 60,
                base_hp: 100,
            },
        );
        self.add_template(
            GcMonsterTemplate {
                template_id: "dragon".to_owned(),
                name: "幼龙".to_owned(),
                tier: GcMonsterTier::Tier4,
                level: 6,
                attribute: GcMonsterAttribute::Fire,
                base_atk: 180,
                base_def: 100,
                base_hp: 200,
            },
        );
        self.add_template(
            GcMonsterTemplate {
                template_id: "ancient_dragon".to_owned(),
                name: "远古巨龙".to_owned(),
                tier: GcMonsterTier::Tier5,
                level: 8,
                attribute: GcMonsterAttribute::Fire,
                base_atk: 250,
                base_def: 150,
                base_hp: 300,
            },
        );
        self.add_template(
            GcMonsterTemplate {
                template_id: "archangel".to_owned(),
                name: "大天使".to_owned(),
                tier: GcMonsterTier::Tier5,
                level: 8,
                attribute: GcMonsterAttribute::Light,
                base_atk: 200,
                base_def: 200,
                base_hp: 280,
            },
        );
    }

    /// The templates of one tier, in order.
    pub fn templates_by_tier(&self, tier: GcMonsterTier) -> (r: Vec<&GcMonsterTemplate>)
        ensures
            forall|k: int| 0 <= k < r@.len() ==> (#[trigger] r@[k]).tier == tier,
    {
        let mut out: Vec<&GcMonsterTemplate> = Vec::new();
        let mut i: usize = 0;
        while i < self.templates.len()
            invariant
                i <= self.templates@.len(),
                forall|k: int| 0 <= k < out@.len() ==> (#[trigger] out@[k]).tier == tier,
            decreases self.templates@.len() - i,
        {
            if self.templates[i].tier == tier {
                out.push(&self.templates[i]);
            }
            i = i + 1;
        }
        out
    }

    /// Draw a monster of the tier: the roll picks among the tier's templates
    /// by remainder; `None` when the tier is empty.  The instance is a fresh
    /// one-star monster of the template's figures.
    pub fn get_random_monster(&self, tier: GcMonsterTier, roll: u8) -> (r: Option<GcMonster>)
        ensures
            r matches Some(m) ==> m.star == 1 && m.golden_level == 0 && !m.can_attack && m.slot
                is None,
    {
        let candidates = self.templates_by_tier(tier);
        if candidates.len() == 0 {
            return None;
        }
        let idx = (roll as usize) % candidates.len();
        let template = candidates[idx];
        Some(self.create_monster_from_template(template))
    }

    /// Stamp a fresh instance of a template with a time-derived id suffix.
    fn create_monster_from_template(&self, template: &GcMonsterTemplate) -> (r: GcMonster)
        ensures
            r.template_id@ == template.template_id@,
            r.name@ == template.name@,
            r.level == template.level,
            r.attribute == template.attribute,
            r.base_atk == template.base_atk,
            r.base_def == template.base_def,
            r.max_hp == template.base_hp,
            r.current_hp == template.base_hp,
            r.star == 1,
            r.golden_level == 0,
            !r.can_attack,
            r.slot is None,
    {
        let mut id = template.template_id.clone();
        id.append("_");
        id.append(fresh_suffix().as_str());
        GcMonster::new_with_template(
            id.as_str(),
            template.template_id.as_str(),
            template.name.as_str(),
            template.level,
            template.attribute,
            template.base_atk,
            template.base_def,
            template.base_hp,
        )
    }
}

/// The shop and its pool, bundled behind the shared acquisition interface.
#[derive(Clone, Debug)]
pub struct GcTavernShopAdapter {
    /// The shop.
    pub shop: GcTavernShop,
    /// The pool its refreshes draw from.
    pub pool: GcMonsterPool,
}

impl GcTavernShopAdapter {
    /// A fresh adapter: an empty shop of the given level over the stock pool.
    pub fn new(shop_level: u8) -> (r: Self)
        ensures
            r.shop.shop_level == shop_level,
            forall|j: int| 0 <= j < 5 ==> r.shop.slots@[j] is None,
    {
        GcTavernShopAdapter {
            shop: GcTavernShop::with_level(shop_level),
            pool: GcMonsterPool::with_defaults(),
        }
    }

    /// An adapter over an existing shop and pool.
    pub fn from_parts(shop: GcTavernShop, pool: GcMonsterPool) -> (r: Self)
        ensures
            r.shop == shop,
            r.pool == pool,
    {
        GcTavernShopAdapter { shop, pool }
    }

    /// The rolls to refresh with: the context's when supplied, a fixed
    /// fallback sequence otherwise.
    fn generate_rolls(&self, ctx: &GcAcquisitionContext) -> (r: Vec<u8>)
        ensures
            ctx.random_rolls@.len() > 0 ==> r@ == ctx.random_rolls@,
    {
        if ctx.random_rolls.len() > 0 {
            let mut out: Vec<u8> = Vec::new();
            let mut i: usize = 0;
            while i < ctx.random_rolls.len()
                invariant
                    i <= ctx.random_rolls@.len(),
                    out@ == ctx.random_rolls@.take(i as int),
                decreases ctx.random_rolls@.len() - i,
            {
                proof {
                    assert(ctx.random_rolls@.take(i as int + 1).drop_last()
                        =~= ctx.random_rolls@.take(i as int));
                }
                out.push(ctx.random_rolls[i]);
                proof {
                    assert(out@ =~= ctx.random_rolls@.take(i as int + 1));
                }
                i = i + 1;
            }
            proof {
                assert(ctx.random_rolls@.take(ctx.random_rolls@.len() as int)
                    =~= ctx.random_rolls@);
            }
            out
        } else {
            let mut out: Vec<u8> = Vec::new();
            let mut i: u8 = 0;
            while i < 10
                invariant
                    i <= 10,
                decreases 10 - i,
            {
                out.push(((i as u32 * 37 + 13) % 256) as u8);
                i = i + 1;
            }
            out
        }
    }
}

impl GcCardAcquisition for GcTavernShopAdapter {
    type Item = GcMonster;

    /// Buy the offer in a slot through the shared interface.
    fn acquire(&mut self, slot_index: usize, ctx: &mut GcAcquisitionContext) -> (r:
        GcAcquisitionResult<GcMonster>)
    {
        if slot_index >= GC_SHOP_SLOTS {
            return GcAcquisitionResult::failure("无效槽位");
        }
        let price = match &self.shop.slots[slot_index] {
            Some(m) => m.buy_price(),
            None => {
                return GcAcquisitionResult::failure("该槽位没有怪兽");
            },
        };
        if !ctx.can_afford(price) {
            return GcAcquisitionResult::failure("金币不足");
        }
        ctx.spend(price);
        match self.shop.slots[slot_index].take() {
            Some(m) => {
                self.shop.frozen[slot_index] = false;
                GcAcquisitionResult::success(m, price)
            },
            None => GcAcquisitionResult::failure("购买失败"),
        }
    }

    /// Whether the offer in a slot could be bought now.
    fn can_acquire(&self, slot_index: usize, ctx: &GcAcquisitionContext) -> (r: bool) {
        if slot_index >= GC_SHOP_SLOTS {
            return false;
        }
        match &self.shop.slots[slot_index] {
            Some(monster) => ctx.can_afford(monster.buy_price()),
            None => false,
        }
    }

    /// The five slots as listings; empty slots show as empty.
    fn get_available_slots(&self) -> (r: Vec<GcAcquisitionSlot>) {
        let mut out: Vec<GcAcquisitionSlot> = Vec::new();
        let mut i: usize = 0;
        while i < GC_SHOP_SLOTS
            decreases 5 - i,
        {
            match &self.shop.slots[i] {
                Some(monster) => {
                    let mut star_str = String::new();
                    if monster.golden_level > 0 {
                        star_str.append(decimal_string(monster.star as u32).as_str());
                        star_str.append("★金Lv");
                        star_str.append(decimal_string(monster.golden_level as u32).as_str());
                    } else {
                        star_str.append(decimal_string(monster.star as u32).as_str());
                        star_str.append("★");
                    }
                    let slot = GcAcquisitionSlot::new(
                        i,
                        monster.id.as_str(),
                        monster.name.as_str(),
                        monster.buy_price(),
                        monster.star,
                    ).with_frozen(self.shop.frozen[i]).with_description(star_str.as_str());
                    out.push(slot);
                },
                None => {
                    out.push(GcAcquisitionSlot::new(i, "", "空", 0, 0));
                },
            }
            i = i + 1;
        }
        out
    }

    /// Refresh the shop through the shared interface, following the player's
    /// level from the context.
    fn refresh(&mut self, ctx: &mut GcAcquisitionContext, free: bool) -> (r: bool) {
        let cost: u32 = if free {
            0
        } else {
            GC_REFRESH_COST
        };
        if !free && !ctx.can_afford(cost) {
            return false;
        }
        if !free {
            ctx.spend(cost);
        }
        let rolls = self.generate_rolls(ctx);
        self.shop.free_refresh(&self.pool, rolls.as_slice());
        if ctx.player_level > 0 {
            self.shop.update_level(ctx.player_level);
        }
        true
    }

    /// Fee of a paid refresh.
    fn refresh_cost(&self) -> (r: u32) {
        GC_REFRESH_COST
    }

    /// Number of shop slots.
    fn slot_count(&self) -> (r: usize) {
        GC_SHOP_SLOTS
    }

    /// Freeze or thaw a slot.
    fn toggle_freeze(&mut self, slot_index: usize) -> (r: bool) {
        self.shop.toggle_freeze(slot_index)
    }

    /// Whether a slot is frozen.
    fn is_frozen(&self, slot_index: usize) -> (r: bool) {
        self.shop.is_frozen(slot_index)
    }

    /// Display name of the mode.
    fn mode_name(&self) -> (r: &'static str) {
        "酒馆战棋模式"
    }
}

/// Sell a monster: its sale price joins the gold; the result is that price.
pub fn gc_sell_monster(monster: &GcMonster, economy: &mut GcEconomy) -> (r: u32)
    ensures
        r == (if monster.golden_level > 0 {
            (3 + 3 * (monster.golden_level as int)) as u32
        } else {
            monster.star as u32
        }),
        final(economy).gold == old(economy).gold.saturating_add(r),
{
    let price = monster.sell_price();
    economy.earn(price);
    price
}

} // verus!
