//! The shared card-acquisition interface: the context an acquisition runs in,
//! slot listings, results, and the trait both acquisition systems implement.

use vstd::prelude::*;
use vstd::string::StringExecFns;

verus! {

/// What an acquisition may spend and the randomness it may use.
#[derive(Clone, Debug)]
pub struct GcAcquisitionContext {
    /// Gold (or action points) available.
    pub gold: u32,
    /// Gold spent so far by operations on this context.
    pub gold_spent: u32,
    /// Caller-supplied random values for refreshes.
    pub random_rolls: Vec<u8>,
    /// Player level, which weights the pool.
    pub player_level: u8,
}

impl Default for GcAcquisitionContext {
    /// Nothing to spend, no rolls.
    fn default() -> (r: Self)
        ensures
            r.gold == 0,
            r.gold_spent == 0,
            r.random_rolls@.len() == 0,
            r.player_level == 0,
    {
        GcAcquisitionContext { gold: 0, gold_spent: 0, random_rolls: Vec::new(), player_level: 0 }
    }
}

impl GcAcquisitionContext {
    /// An empty context.
    pub fn new() -> (r: Self)
        ensures
            r.gold == 0,
            r.gold_spent == 0,
            r.random_rolls@.len() == 0,
            r.player_level == 0,
    {
        Self::default()
    }

    /// A context with gold to spend.
    pub fn with_gold(gold: u32) -> (r: Self)
        ensures
            r.gold == gold,
            r.gold_spent == 0,
            r.random_rolls@.len() == 0,
            r.player_level == 0,
    {
        let mut c = Self::default();
        c.gold = gold;
        c
    }

    /// A fully specified context.
    pub fn full(gold: u32, player_level: u8, random_rolls: Vec<u8>) -> (r: Self)
        ensures
            r.gold == gold,
            r.gold_spent == 0,
            r.random_rolls == random_rolls,
            r.player_level == player_level,
    {
        GcAcquisitionContext { gold, gold_spent: 0, random_rolls, player_level }
    }

    /// Whether `cost` can be paid.
    pub fn can_afford(&self, cost: u32) -> (r: bool)
        ensures
            r == (self.gold >= cost),
    {
        self.gold >= cost
    }

    /// Pay `cost` if possible, recording what was spent.
    pub fn spend(&mut self, cost: u32) -> (r: bool)
        ensures
            r == (old(self).gold >= cost),
            r ==> *final(self) == (GcAcquisitionContext {
                gold: (old(self).gold - cost) as u32,
                gold_spent: old(self).gold_spent.saturating_add(cost),
                ..*old(self)
            }),
            !r ==> *final(self) == *old(self),
    {
        if self.gold >= cost {
            self.gold = self.gold - cost;
            self.gold_spent = self.gold_spent.saturating_add(cost);
            true
        } else {
            false
        }
    }
}

/// One slot of an acquisition display.
#[derive(Clone, Debug)]
pub struct GcAcquisitionSlot {
    pub index: usize,
    pub item_id: String,
    pub name: String,
    /// Cost to take the item.
    pub cost: u32,
    /// Whether the slot is frozen across refreshes.
    pub frozen: bool,
    /// Rarity or star tier of the item.
    pub tier: u8,
    /// Extra display text.
    pub description: Option<String>,
}

impl GcAcquisitionSlot {
    /// A plain slot: not frozen, no description.
    pub fn new(index: usize, item_id: &str, name: &str, cost: u32, tier: u8) -> (r: Self)
        ensures
            r.index == index,
            r.item_id@ == item_id@,
            r.name@ == name@,
            r.cost == cost,
            !r.frozen,
            r.tier == tier,
            r.description is None,
    {
        GcAcquisitionSlot {
            index,
            item_id: item_id.to_owned(),
            name: name.to_owned(),
            cost,
            frozen: false,
            tier,
            description: None,
        }
    }

    /// The same slot with the frozen flag set.
    pub fn with_frozen(self, frozen: bool) -> (r: Self)
        ensures
            r == (GcAcquisitionSlot { frozen, ..self }),
    {
        let mut s = self;
        s.frozen = frozen;
        s
    }

    /// The same slot with a description.
    pub fn with_description(self, desc: &str) -> (r: Self)
        ensures
            r == (GcAcquisitionSlot { description: r.description, ..self }),
            r.description matches Some(d) && d@ == desc@,
    {
        let mut s = self;
        s.description = Some(desc.to_owned());
        s
    }
}

/// Outcome of one acquisition.
#[derive(Clone, Debug)]
pub struct GcAcquisitionResult<T> {
    /// Whether the item was taken.
    pub success: bool,
    /// The item, on success.
    pub item: Option<T>,
    /// Gold paid.
    pub cost: u32,
    /// Why it failed, on failure.
    pub error: Option<String>,
}

impl<T> GcAcquisitionResult<T> {
    /// A successful acquisition of `item` for `cost`.
    pub fn success(item: T, cost: u32) -> (r: Self)
        ensures
            r.success,
            r.item matches Some(i) && i == item,
            r.cost == cost,
            r.error is None,
    {
        GcAcquisitionResult { success: true, item: Some(item), cost, error: None }
    }

    /// A failed acquisition with a reason.
    pub fn failure(error: &str) -> (r: Self)
        ensures
            !r.success,
            r.item is None,
            r.cost == 0,
            r.error matches Some(e) && e@ == error@,
    {
        GcAcquisitionResult { success: false, item: None, cost: 0, error: Some(error.to_owned()) }
    }
}

/// The acquisition interface both the shared card pool and the tavern shop
/// implement: taking an item from a slot, inspecting the display, and
/// refreshing it.
pub trait GcCardAcquisition {
    /// What the system hands out.
    type Item: Clone;

    /// Take the item in `slot_index`, paying from the context.
    fn acquire(&mut self, slot_index: usize, ctx: &mut GcAcquisitionContext) -> GcAcquisitionResult<
        Self::Item,
    >;

    /// Whether the item in `slot_index` could be taken now.
    fn can_acquire(&self, slot_index: usize, ctx: &GcAcquisitionContext) -> bool;

    /// The display, slot by slot.
    fn get_available_slots(&self) -> Vec<GcAcquisitionSlot>;

    /// Refresh the display; free refreshes skip the fee.
    fn refresh(&mut self, ctx: &mut GcAcquisitionContext, free: bool) -> bool;

    /// Fee of a paid refresh.
    fn refresh_cost(&self) -> u32;

    /// Number of display slots.
    fn slot_count(&self) -> usize;

    /// Freeze or unfreeze a slot; systems without freezing return false.
    fn toggle_freeze(&mut self, slot_index: usize) -> bool;

    /// Whether a slot is frozen; systems without freezing return false.
    fn is_frozen(&self, slot_index: usize) -> bool;

    /// Display name of the acquisition mode.
    fn mode_name(&self) -> &'static str;
}

} // verus!
