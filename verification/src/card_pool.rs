//! The shared card pool: a draw pile, a five-card display players take cards
//! from, and a discard pile that is shuffled back in when the draw pile runs
//! dry.  Shuffling is the one place randomness enters, and it only reorders.

use vstd::prelude::*;
use vstd::string::StringExecFns;

use rand::seq::SliceRandom;
use rand::thread_rng;

use crate::card::{GcCard, GcCardType};
use crate::card_acquisition::{
    GcAcquisitionContext, GcAcquisitionResult, GcAcquisitionSlot, GcCardAcquisition,
};
use crate::text::{decimal_string, spec_decimal, str_eq};

verus! {

/// Shape of the pool: display size, costs, and how many cards it starts with.
#[derive(Clone, Debug)]
pub struct GcCardPoolConfig {
    /// Cards shown at once.
    pub display_size: usize,
    /// Action points one acquisition costs.
    pub acquire_cost: u32,
    /// Action points one refresh costs.
    pub refresh_cost: u32,
    /// Cards generated at the start.
    pub initial_pool_size: usize,
}

impl Default for GcCardPoolConfig {
    /// Five shown, one point each way, fifty cards.
    fn default() -> (r: Self)
        ensures
            r.display_size == 5,
            r.acquire_cost == 1,
            r.refresh_cost == 1,
            r.initial_pool_size == 50,
    {
        GcCardPoolConfig { display_size: 5, acquire_cost: 1, refresh_cost: 1, initial_pool_size: 50 }
    }
}

/// The shared pool.
///
/// Invariant kept by every operation: cards move between the three piles but
/// are never invented or lost (shuffling only reorders the draw pile).
#[derive(Clone, Debug)]
pub struct GcCardPool {
    /// Shape of the pool.
    pub config: GcCardPoolConfig,
    /// Face-down cards.
    pub draw_pile: Vec<GcCard>,
    /// Cards on offer.
    pub display: Vec<GcCard>,
    /// Cards set aside by refreshes.
    pub discard_pile: Vec<GcCard>,
}

/// Relies on `rand`'s `SliceRandom::shuffle` with `thread_rng`: a
/// Fisher-Yates pass that only swaps elements in place, so the multiset of
/// cards is unchanged; the order depends on the generator and is unspecified.
#[verifier::external_body]
fn shuffle_cards(v: &mut Vec<GcCard>)
    ensures
        final(v)@.to_multiset() == old(v)@.to_multiset(),
        final(v)@.len() == old(v)@.len(),
{
    let mut rng = thread_rng();
    v.shuffle(&mut rng);
}

impl GcCardPool {
    /// An empty pool of the given shape.
    pub fn gc_new(config: GcCardPoolConfig) -> (r: Self)
        ensures
            r.config == config,
            r.draw_pile@.len() == 0,
            r.display@.len() == 0,
            r.discard_pile@.len() == 0,
    {
        GcCardPool { config, draw_pile: Vec::new(), display: Vec::new(), discard_pile: Vec::new() }
    }

    /// An empty pool of the default shape.
    pub fn gc_default() -> (r: Self)
        ensures
            r.config.display_size == 5,
            r.config.acquire_cost == 1,
            r.config.refresh_cost == 1,
            r.config.initial_pool_size == 50,
            r.draw_pile@.len() == 0,
            r.display@.len() == 0,
            r.discard_pile@.len() == 0,
    {
        Self::gc_new(GcCardPoolConfig::default())
    }

    /// Fill the pool: generate the starting cards, shuffle them, and stock
    /// the display.
    pub fn gc_initialize(&mut self)
        requires
            old(self).config.initial_pool_size <= 100000,
        ensures
            final(self).config == old(self).config,
            final(self).display@.len() == (if old(self).config.initial_pool_size < old(self).config.display_size {
                old(self).config.initial_pool_size as int
            } else {
                old(self).config.display_size as int
            }),
            final(self).draw_pile@.len() + final(self).display@.len() == old(self).config.initial_pool_size,
            final(self).discard_pile@.len() == 0,
    {
        self.draw_pile = gc_generate_card_pool(self.config.initial_pool_size);
        self.discard_pile = Vec::new();
        self.display = Vec::new();
        self.gc_shuffle_draw_pile();
        self.gc_refill_display();
    }

    /// Shuffle the draw pile; the cards themselves are untouched.
    pub fn gc_shuffle_draw_pile(&mut self)
        ensures
            final(self).draw_pile@.to_multiset() == old(self).draw_pile@.to_multiset(),
            final(self).draw_pile@.len() == old(self).draw_pile@.len(),
            *final(self) == (GcCardPool { draw_pile: final(self).draw_pile, ..*old(self) }),
    {
        shuffle_cards(&mut self.draw_pile);
    }

    /// Top up the display from the draw pile, shuffling the discard pile back
    /// in when the draw pile runs dry; stops when the display is full or no
    /// cards are left anywhere.
    pub fn gc_refill_display(&mut self)
        ensures
            final(self).config == old(self).config,
            final(self).display@.len() == (if old(self).display@.len() >= old(self).config.display_size {
                old(self).display@.len() as int
            } else if old(self).display@.len() + old(self).draw_pile@.len() + old(self).discard_pile@.len() < old(self).config.display_size {
                old(self).display@.len() + old(self).draw_pile@.len() + old(self).discard_pile@.len() as int
            } else {
                old(self).config.display_size as int
            }),
            final(self).display@.len() + final(self).draw_pile@.len() + final(self).discard_pile@.len() == old(self).display@.len() + old(self).draw_pile@.len() + old(self).discard_pile@.len(),
            old(self).discard_pile@.len() == 0 ==> final(self).discard_pile@.len() == 0,
            forall|j: int|
                0 <= j < old(self).display@.len() ==> final(self).display@[j] == old(self).display@[j],
    {
        while self.display.len() < self.config.display_size
            invariant
                self.config == old(self).config,
                self.display@.len() + self.draw_pile@.len() + self.discard_pile@.len() == old(self).display@.len() + old(self).draw_pile@.len() + old(self).discard_pile@.len(),
                old(self).display@.len() >= old(self).config.display_size ==> self.display@.len()
                    == old(self).display@.len(),
                old(self).display@.len() < old(self).config.display_size ==> self.display@.len()
                    <= self.config.display_size,
                self.discard_pile@.len() <= old(self).discard_pile@.len(),
                self.display@.len() >= old(self).display@.len(),
                forall|j: int|
                    0 <= j < old(self).display@.len() ==> self.display@[j] == old(self).display@[j],
            decreases
                    self.config.display_size - self.display@.len(),
                    self.discard_pile@.len() + 1,
        {
            if self.draw_pile.len() > 0 {
                match self.draw_pile.pop() {
                    Some(card) => {
                        self.display.push(card);
                    },
                    None => {},
                }
            } else if self.discard_pile.len() > 0 {
                self.draw_pile.append(&mut self.discard_pile);
                self.gc_shuffle_draw_pile();
            } else {
                return ;
            }
        }
    }

    /// Take the first display card with the given id, topping the display
    /// back up; an unknown id changes nothing.
    pub fn gc_acquire_card(&mut self, card_id: &str) -> (r: Option<GcCard>)
        ensures
            r is None ==> *final(self) == *old(self) && (forall|j: int|
                0 <= j < old(self).display@.len() ==> old(self).display@[j].id@ != card_id@),
            r matches Some(c) ==> exists|idx: int|
                {
                    &&& 0 <= idx < old(self).display@.len()
                    &&& old(self).display@[idx].id@ == card_id@
                    &&& forall|j: int| 0 <= j < idx ==> old(self).display@[j].id@ != card_id@
                    &&& c == old(self).display@[idx]
                    &&& final(self).config == old(self).config
                    &&& final(self).display@.len() + final(self).draw_pile@.len() + final(self).discard_pile@.len() + 1 == old(self).display@.len() + old(self).draw_pile@.len() + old(self).discard_pile@.len()
                },
    {
        let mut i: usize = 0;
        while i < self.display.len()
            invariant
                i <= self.display@.len(),
                *self == *old(self),
                forall|j: int| 0 <= j < i ==> self.display@[j].id@ != card_id@,
            decreases self.display@.len() - i,
        {
            if str_eq(self.display[i].id.as_str(), card_id) {
                let ghost widx = i as int;
                let card = self.display.remove(i);
                self.gc_refill_display();
                proof {
                    assert(0 <= widx < old(self).display@.len() && old(self).display@[widx].id@
                        == card_id@);
                }
                return Some(card);
            }
            i = i + 1;
        }
        None
    }

    /// Sweep the display into the discard pile and deal a fresh display.
    pub fn gc_refresh_display(&mut self)
        ensures
            final(self).config == old(self).config,
            final(self).display@.len() + final(self).draw_pile@.len() + final(self).discard_pile@.len() == old(self).display@.len() + old(self).draw_pile@.len() + old(self).discard_pile@.len(),
    {
        self.discard_pile.append(&mut self.display);
        self.gc_refill_display();
    }

    /// Put a card onto the discard pile.
    pub fn gc_discard_card(&mut self, card: GcCard)
        ensures
            *final(self) == (GcCardPool {
                discard_pile: final(self).discard_pile,
                ..*old(self)
            }),
            final(self).discard_pile@ == old(self).discard_pile@.push(card),
    {
        self.discard_pile.push(card);
    }

    /// The display, in order.
    pub fn gc_get_display(&self) -> (r: &[GcCard])
        ensures
            r@ == self.display@,
    {
        self.display.as_slice()
    }

    /// Cards left in the draw pile.
    pub fn gc_draw_pile_count(&self) -> (r: usize)
        ensures
            r == self.draw_pile@.len(),
    {
        self.draw_pile.len()
    }

    /// Cards in the discard pile.
    pub fn gc_discard_pile_count(&self) -> (r: usize)
        ensures
            r == self.discard_pile@.len(),
    {
        self.discard_pile.len()
    }
}

impl GcCardAcquisition for GcCardPool {
    type Item = GcCard;

    /// Take the card in `slot_index` for the acquire cost.
    fn acquire(&mut self, slot_index: usize, ctx: &mut GcAcquisitionContext) -> (r:
        GcAcquisitionResult<GcCard>)
    {
        if slot_index >= self.display.len() {
            return GcAcquisitionResult::failure("无效槽位");
        }
        let cost = self.config.acquire_cost;
        if !ctx.can_afford(cost) {
            return GcAcquisitionResult::failure("行动力不足");
        }
        ctx.spend(cost);
        let card = self.display.remove(slot_index);
        self.gc_refill_display();
        GcAcquisitionResult::success(card, cost)
    }

    /// A slot can be taken when it exists and the cost is covered.
    fn can_acquire(&self, slot_index: usize, ctx: &GcAcquisitionContext) -> (r: bool) {
        slot_index < self.display.len() && ctx.can_afford(self.config.acquire_cost)
    }

    /// The display as slot listings.
    fn get_available_slots(&self) -> (r: Vec<GcAcquisitionSlot>) {
        let mut out: Vec<GcAcquisitionSlot> = Vec::new();
        let mut i: usize = 0;
        while i < self.display.len()
            decreases self.display@.len() - i,
        {
            let card = &self.display[i];
            let slot = GcAcquisitionSlot::new(i, card.id.as_str(), card.name.as_str(), self.config.acquire_cost, 1)
                .with_description(card_type_label(card.card_type));
            out.push(slot);
            i = i + 1;
        }
        out
    }

    /// Refresh the display, paying unless the refresh is free.
    fn refresh(&mut self, ctx: &mut GcAcquisitionContext, free: bool) -> (r: bool) {
        let cost: u32 = if free {
            0
        } else {
            self.config.refresh_cost
        };
        if !free && !ctx.can_afford(cost) {
            return false;
        }
        if !free {
            ctx.spend(cost);
        }
        self.gc_refresh_display();
        true
    }

    /// Fee of a paid refresh.
    fn refresh_cost(&self) -> (r: u32) {
        self.config.refresh_cost
    }

    /// Number of display slots.
    fn slot_count(&self) -> (r: usize) {
        self.config.display_size
    }

    /// The shared pool has no freezing.
    fn toggle_freeze(&mut self, _slot_index: usize) -> (r: bool) {
        false
    }

    /// The shared pool has no freezing.
    fn is_frozen(&self, _slot_index: usize) -> (r: bool) {
        false
    }

    /// Display name of the mode.
    fn mode_name(&self) -> (r: &'static str) {
        "决斗王模式"
    }
}

/// Display label of a card family.
fn card_type_label(t: GcCardType) -> (r: &'static str)
    ensures
        t is Attack ==> r@ == "Attack"@,
        t is Defense ==> r@ == "Defense"@,
        t is Skill ==> r@ == "Skill"@,
        t is Special ==> r@ == "Special"@,
{
    match t {
        GcCardType::Attack => "Attack",
        GcCardType::Defense => "Defense",
        GcCardType::Skill => "Skill",
        GcCardType::Special => "Special",
    }
}

/// The starting pool: two fifths attack cards cycling through damage 5, 10
/// and 15; a quarter defense cards cycling through the same shields; a fifth
/// healing cards cycling through 3, 6 and 9; the rest special cards.  Ids
/// carry a running number.
pub fn gc_generate_card_pool(size: usize) -> (r: Vec<GcCard>)
    requires
        size <= 100000,
    ensures
        r@.len() == size,
        ({
            let attack_count = (size * 40 / 100) as int;
            let defense_count = (size * 25 / 100) as int;
            let heal_count = (size * 20 / 100) as int;
            &&& (forall|k: int|
                0 <= k < attack_count ==> (#[trigger] r@[k]).card_type is Attack && r@[k].base_damage == 5 + (k % 3) * 5 && r@[k].cost == 1 && r@[k].id@ == "pool_atk_"@
                    + spec_decimal(k as nat))
            &&& (forall|k: int|
                attack_count <= k < attack_count + defense_count ==> (
                #[trigger] r@[k]).card_type is Defense && r@[k].base_defense == 5 + ((k
                    - attack_count) % 3) * 5 && r@[k].cost == 1 && r@[k].id@ == "pool_def_"@
                    + spec_decimal(k as nat))
            &&& (forall|k: int|
                attack_count + defense_count <= k < attack_count + defense_count + heal_count
                    ==> (#[trigger] r@[k]).card_type is Skill && r@[k].cost == 1 && r@[k].id@
                    == "pool_heal_"@ + spec_decimal(k as nat))
            &&& (forall|k: int|
                attack_count + defense_count + heal_count <= k < size ==> (
                #[trigger] r@[k]).card_type is Special && r@[k].cost == 2 && r@[k].id@
                    == "pool_special_"@ + spec_decimal(k as nat))
        }),
{
    let mut pool: Vec<GcCard> = Vec::new();
    let attack_count = size * 40 / 100;
    let defense_count = size * 25 / 100;
    let heal_count = size * 20 / 100;
    let mut card_id: u32 = 0;
    let mut i: usize = 0;
    while i < attack_count
        invariant
            i <= attack_count,
            attack_count == size * 40 / 100,
            size <= 100000,
            card_id == i,
            pool@.len() == i,
            forall|k: int|
                0 <= k < i ==> (#[trigger] pool@[k]).card_type is Attack && pool@[k].base_damage
                    == 5 + (k % 3) * 5 && pool@[k].cost == 1 && pool@[k].id@ == "pool_atk_"@
                    + spec_decimal(k as nat),
        decreases attack_count - i,
    {
        let damage: u32 = 5 + ((i as u32) % 3) * 5;
        let mut id = "pool_atk_".to_owned();
        id.append(decimal_string(card_id).as_str());
        pool.push(GcCard::gc_new_attack(id.as_str(), gc_attack_card_name(damage), 1, damage));
        card_id = card_id + 1;
        i = i + 1;
    }
    let mut d: usize = 0;
    while d < defense_count
        invariant
            d <= defense_count,
            attack_count == size * 40 / 100,
            defense_count == size * 25 / 100,
            size <= 100000,
            card_id == attack_count + d,
            pool@.len() == attack_count + d,
            forall|k: int|
                0 <= k < attack_count ==> (#[trigger] pool@[k]).card_type is Attack && pool@[k].base_damage == 5 + (k % 3) * 5 && pool@[k].cost == 1 && pool@[k].id@
                    == "pool_atk_"@ + spec_decimal(k as nat),
            forall|k: int|
                attack_count <= k < attack_count + d ==> (#[trigger] pool@[k]).card_type
                    is Defense && pool@[k].base_defense == 5 + ((k - attack_count) % 3) * 5
                    && pool@[k].cost == 1 && pool@[k].id@ == "pool_def_"@ + spec_decimal(k as nat),
        decreases defense_count - d,
    {
        let shield: u32 = 5 + ((d as u32) % 3) * 5;
        let mut id = "pool_def_".to_owned();
        id.append(decimal_string(card_id).as_str());
        pool.push(GcCard::gc_new_defense(id.as_str(), gc_defense_card_name(shield), 1, shield));
        card_id = card_id + 1;
        d = d + 1;
    }
    let mut h: usize = 0;
    while h < heal_count
        invariant
            h <= heal_count,
            attack_count == size * 40 / 100,
            defense_count == size * 25 / 100,
            heal_count == size * 20 / 100,
            size <= 100000,
            card_id == attack_count + defense_count + h,
            pool@.len() == attack_count + defense_count + h,
            forall|k: int|
                0 <= k < attack_count ==> (#[trigger] pool@[k]).card_type is Attack && pool@[k].base_damage == 5 + (k % 3) * 5 && pool@[k].cost == 1 && pool@[k].id@
                    == "pool_atk_"@ + spec_decimal(k as nat),
            forall|k: int|
                attack_count <= k < attack_count + defense_count ==> (
                #[trigger] pool@[k]).card_type is Defense && pool@[k].base_defense == 5 + ((k
                    - attack_count) % 3) * 5 && pool@[k].cost == 1 && pool@[k].id@ == "pool_def_"@
                    + spec_decimal(k as nat),
            forall|k: int|
                attack_count + defense_count <= k < attack_count + defense_count + h ==> (
                #[trigger] pool@[k]).card_type is Skill && pool@[k].cost == 1 && pool@[k].id@
                    == "pool_heal_"@ + spec_decimal(k as nat),
        decreases heal_count - h,
    {
        let heal: u32 = 3 + ((h as u32) % 3) * 3;
        let mut id = "pool_heal_".to_owned();
        id.append(decimal_string(card_id).as_str());
        pool.push(GcCard::gc_new_heal(id.as_str(), gc_heal_card_name(heal), 1, heal));
        card_id = card_id + 1;
        h = h + 1;
    }
    while pool.len() < size
        invariant
            attack_count == size * 40 / 100,
            defense_count == size * 25 / 100,
            heal_count == size * 20 / 100,
            size <= 100000,
            attack_count + defense_count + heal_count <= pool@.len() <= size,
            card_id == pool@.len(),
            forall|k: int|
                0 <= k < attack_count ==> (#[trigger] pool@[k]).card_type is Attack && pool@[k].base_damage == 5 + (k % 3) * 5 && pool@[k].cost == 1 && pool@[k].id@
                    == "pool_atk_"@ + spec_decimal(k as nat),
            forall|k: int|
                attack_count <= k < attack_count + defense_count ==> (
                #[trigger] pool@[k]).card_type is Defense && pool@[k].base_defense == 5 + ((k
                    - attack_count) % 3) * 5 && pool@[k].cost == 1 && pool@[k].id@ == "pool_def_"@
                    + spec_decimal(k as nat),
            forall|k: int|
                attack_count + defense_count <= k < attack_count + defense_count + heal_count
                    ==> (#[trigger] pool@[k]).card_type is Skill && pool@[k].cost == 1 && pool@[k].id@ == "pool_heal_"@ + spec_decimal(k as nat),
            forall|k: int|
                attack_count + defense_count + heal_count <= k < pool@.len() ==> (
                #[trigger] pool@[k]).card_type is Special && pool@[k].cost == 2 && pool@[k].id@
                    == "pool_special_"@ + spec_decimal(k as nat),
        decreases size - pool@.len(),
    {
        let mut id = "pool_special_".to_owned();
        id.append(decimal_string(card_id).as_str());
        pool.push(GcCard::gc_new_special(id.as_str(), "神秘卡牌", 2));
        card_id = card_id + 1;
    }
    pool
}

/// Attack card names by damage bracket.
fn gc_attack_card_name(damage: u32) -> (r: &'static str)
    ensures
        damage <= 5 ==> r@ == "轻击"@,
        6 <= damage <= 10 ==> r@ == "斩击"@,
        11 <= damage <= 15 ==> r@ == "重击"@,
        damage > 15 ==> r@ == "致命一击"@,
{
    if damage <= 5 {
        "轻击"
    } else if damage <= 10 {
        "斩击"
    } else if damage <= 15 {
        "重击"
    } else {
        "致命一击"
    }
}

/// Defense card names by shield bracket.
fn gc_defense_card_name(shield: u32) -> (r: &'static str)
    ensures
        shield <= 5 ==> r@ == "格挡"@,
        6 <= shield <= 10 ==> r@ == "防御姿态"@,
        11 <= shield <= 15 ==> r@ == "铁壁"@,
        shield > 15 ==> r@ == "无懈可击"@,
{
    if shield <= 5 {
        "格挡"
    } else if shield <= 10 {
        "防御姿态"
    } else if shield <= 15 {
        "铁壁"
    } else {
        "无懈可击"
    }
}

/// Healing card names by strength bracket.
fn gc_heal_card_name(heal: u32) -> (r: &'static str)
    ensures
        heal <= 3 ==> r@ == "小治疗"@,
        4 <= heal <= 6 ==> r@ == "治愈术"@,
        7 <= heal <= 10 ==> r@ == "生命涌动"@,
        heal > 10 ==> r@ == "神圣治愈"@,
{
    if heal <= 3 {
        "小治疗"
    } else if heal <= 6 {
        "治愈术"
    } else if heal <= 10 {
        "生命涌动"
    } else {
        "神圣治愈"
    }
}

} // verus!
