//! Player level effects for the tavern mode: board slots unlocked per level
//! and the tier weights the shop draws monsters with.

use vstd::prelude::*;

verus! {

/// Fewest board slots a player ever has.
pub const GC_MIN_BOARD_SLOTS: u8 = 3;

/// Most board slots a player can unlock.
pub const GC_MAX_BOARD_SLOTS: u8 = 5;

/// The bench has no size limit.
pub const GC_BENCH_UNLIMITED: bool = true;

/// Cost tier of a shop monster.
#[derive(Clone, Copy, Debug, PartialEq, Eq, Hash, Structural)]
pub enum GcMonsterTier {
    Tier1,
    Tier2,
    Tier3,
    Tier4,
    Tier5,
}

impl GcMonsterTier {
    /// Purchase price of the tier: one, two, then three gold.
    pub fn cost(&self) -> (r: u32)
        ensures
            self is Tier1 ==> r == 1,
            self is Tier2 ==> r == 2,
            !(self is Tier1 || self is Tier2) ==> r == 3,
    {
        match self {
            GcMonsterTier::Tier1 => 1,
            GcMonsterTier::Tier2 => 2,
            _ => 3,
        }
    }

    /// The tier named by a number; anything above four is the top tier.
    pub fn from_u8(value: u8) -> (r: Self)
        ensures
            r == spec_tier_of(value),
    {
        match value {
            1 => GcMonsterTier::Tier1,
            2 => GcMonsterTier::Tier2,
            3 => GcMonsterTier::Tier3,
            4 => GcMonsterTier::Tier4,
            _ => GcMonsterTier::Tier5,
        }
    }
}

/// The tier named by a number; anything above four is the top tier.
pub open spec fn spec_tier_of(value: u8) -> GcMonsterTier {
    if value == 1 {
        GcMonsterTier::Tier1
    } else if value == 2 {
        GcMonsterTier::Tier2
    } else if value == 3 {
        GcMonsterTier::Tier3
    } else if value == 4 {
        GcMonsterTier::Tier4
    } else {
        GcMonsterTier::Tier5
    }
}

/// Board slots unlocked at a level: three up to level two, four up to level
/// four, five beyond.
pub open spec fn spec_board_slots(level: u8) -> u8 {
    if 1 <= level && level <= 2 {
        3u8
    } else if 3 <= level && level <= 4 {
        4u8
    } else {
        5u8
    }
}

/// Board slots unlocked at a level.
pub fn gc_get_board_slots(level: u8) -> (r: u8)
    ensures
        r == spec_board_slots(level),
{
    if 1 <= level && level <= 2 {
        3
    } else if 3 <= level && level <= 4 {
        4
    } else {
        5
    }
}

/// Shop slots at a level: always five.
pub fn gc_get_shop_slots(_level: u8) -> (r: u8)
    ensures
        r == 5,
{
    5
}

/// Tier weights of a shop roll, in percent; the five entries sum to 100.
#[derive(Clone, Copy, Debug, PartialEq, Eq)]
pub struct GcTierWeights {
    pub weights: [u8; 5],
}

impl GcTierWeights {
    /// Bundle five percentages.
    pub fn new(t1: u8, t2: u8, t3: u8, t4: u8, t5: u8) -> (r: Self)
        ensures
            r.weights@ == seq![t1, t2, t3, t4, t5],
    {
        let r = GcTierWeights { weights: [t1, t2, t3, t4, t5] };
        proof {
            assert(r.weights@ =~= seq![t1, t2, t3, t4, t5]);
        }
        r
    }

    /// Pick a tier by cumulative threshold: the roll is reduced modulo 100,
    /// and the first tier whose cumulative weight exceeds it wins; the bottom
    /// tier if the weights never catch up.
    pub fn select_tier(&self, roll: u8) -> (r: GcMonsterTier)
        requires
            self.weights@[0] as int + self.weights@[1] as int + self.weights@[2] as int
                + self.weights@[3] as int + self.weights@[4] as int <= 255,
        ensures
            r == spec_select_tier(self.weights@, roll),
    {
        let roll = roll % 100;
        let w = &self.weights;
        let mut cumulative: u8 = w[0];
        if roll < cumulative {
            return GcMonsterTier::Tier1;
        }
        cumulative = cumulative + w[1];
        if roll < cumulative {
            return GcMonsterTier::Tier2;
        }
        cumulative = cumulative + w[2];
        if roll < cumulative {
            return GcMonsterTier::Tier3;
        }
        cumulative = cumulative + w[3];
        if roll < cumulative {
            return GcMonsterTier::Tier4;
        }
        cumulative = cumulative + w[4];
        if roll < cumulative {
            return GcMonsterTier::Tier5;
        }
        GcMonsterTier::Tier1
    }
}

/// The tier a roll selects: cumulative-threshold matching over the five
/// weights on `roll % 100`, the bottom tier when nothing matches.
pub open spec fn spec_select_tier(w: Seq<u8>, roll: u8) -> GcMonsterTier {
    let t = (roll % 100) as int;
    let c1 = w[0] as int;
    let c2 = c1 + w[1];
    let c3 = c2 + w[2];
    let c4 = c3 + w[3];
    let c5 = c4 + w[4];
    if t < c1 {
        GcMonsterTier::Tier1
    } else if t < c2 {
        GcMonsterTier::Tier2
    } else if t < c3 {
        GcMonsterTier::Tier3
    } else if t < c4 {
        GcMonsterTier::Tier4
    } else if t < c5 {
        GcMonsterTier::Tier5
    } else {
        GcMonsterTier::Tier1
    }
}

/// The tier weights of each level, rising toward the top tiers.
pub open spec fn spec_tier_weights(level: u8) -> Seq<u8> {
    if level == 1 || level == 2 {
        seq![100u8, 0u8, 0u8, 0u8, 0u8]
    } else if level == 3 {
        seq![75u8, 25u8, 0u8, 0u8, 0u8]
    } else if level == 4 {
        seq![55u8, 30u8, 15u8, 0u8, 0u8]
    } else if level == 5 {
        seq![45u8, 33u8, 20u8, 2u8, 0u8]
    } else if level == 6 {
        seq![30u8, 40u8, 25u8, 5u8, 0u8]
    } else if level == 7 {
        seq![19u8, 35u8, 35u8, 10u8, 1u8]
    } else if level == 8 {
        seq![16u8, 20u8, 35u8, 25u8, 4u8]
    } else if level == 9 {
        seq![10u8, 15u8, 30u8, 30u8, 15u8]
    } else {
        seq![5u8, 10u8, 20u8, 40u8, 25u8]
    }
}

/// Tier weights of a level.
pub fn gc_get_tier_weights(level: u8) -> (r: GcTierWeights)
    ensures
        r.weights@ == spec_tier_weights(level),
        r.weights@[0] as int + r.weights@[1] as int + r.weights@[2] as int + r.weights@[3] as int
            + r.weights@[4] as int == 100,
{
    let r = match level {
        1 => GcTierWeights::new(100, 0, 0, 0, 0),
        2 => GcTierWeights::new(100, 0, 0, 0, 0),
        3 => GcTierWeights::new(75, 25, 0, 0, 0),
        4 => GcTierWeights::new(55, 30, 15, 0, 0),
        5 => GcTierWeights::new(45, 33, 20, 2, 0),
        6 => GcTierWeights::new(30, 40, 25, 5, 0),
        7 => GcTierWeights::new(19, 35, 35, 10, 1),
        8 => GcTierWeights::new(16, 20, 35, 25, 4),
        9 => GcTierWeights::new(10, 15, 30, 30, 15),
        _ => GcTierWeights::new(5, 10, 20, 40, 25),
    };
    r
}

/// Level summary: slots and weights at one glance.
#[derive(Clone, Copy, Debug)]
pub struct GcLevelInfo {
    /// The level itself.
    pub level: u8,
    /// Board slots unlocked.
    pub board_slots: u8,
    /// Shop slots shown.
    pub shop_slots: u8,
    /// Tier weights of shop rolls.
    pub tier_weights: GcTierWeights,
}

impl GcLevelInfo {
    /// The summary of a level.
    pub fn from_level(level: u8) -> (r: Self)
        ensures
            r.level == level,
            r.board_slots == spec_board_slots(level),
            r.shop_slots == 5,
            r.tier_weights.weights@ == spec_tier_weights(level),
    {
        GcLevelInfo {
            level,
            board_slots: gc_get_board_slots(level),
            shop_slots: gc_get_shop_slots(level),
            tier_weights: gc_get_tier_weights(level),
        }
    }
}

} // verus!
