//! The gold economy of the tavern mode: per-turn income with interest and
//! streak bonuses, experience bought with gold, and monster price rules.

use vstd::prelude::*;
use vstd::string::StringExecFns;

use crate::text::{decimal_string, spec_decimal};

verus! {

/// Base income per turn.
pub const GC_BASE_INCOME: u32 = 5;

/// Gold one shop refresh costs.
pub const GC_REFRESH_COST: u32 = 2;

/// Gold of savings per point of interest.
pub const GC_INTEREST_RATE: u32 = 10;

/// Cap on interest per turn.
pub const GC_INTEREST_CAP: u32 = 5;

/// Gold one experience purchase costs (and grants).
pub const GC_LEVEL_UP_COST: u32 = 4;

/// Gold at the start of a run.
pub const GC_STARTING_GOLD: u32 = 3;

/// Level at the start of a run.
pub const GC_STARTING_LEVEL: u8 = 1;

/// Highest reachable level.
pub const GC_MAX_LEVEL: u8 = 10;

/// Experience needed to leave each level: nothing at level one, then a curve
/// up to level ten, which never fills.
pub open spec fn spec_xp_to_next(level: u8) -> u32 {
    if level == 1 {
        0u32
    } else if level == 2 {
        2u32
    } else if level == 3 {
        6u32
    } else if level == 4 {
        10u32
    } else if level == 5 {
        20u32
    } else if level == 6 {
        36u32
    } else if level == 7 {
        56u32
    } else if level == 8 {
        80u32
    } else if level == 9 {
        100u32
    } else {
        999u32
    }
}

/// Streak bonus: nothing below two in a row, then one, two and finally three
/// gold from six in a row on.
pub open spec fn spec_streak_bonus(streak: u8) -> u32 {
    if streak <= 1 {
        0u32
    } else if streak <= 3 {
        1u32
    } else if streak <= 5 {
        2u32
    } else {
        3u32
    }
}

/// Level and leftover experience after cashing in what the experience bar
/// holds: levels rise while the bar covers the cost of the next one, up to
/// the level cap.
pub open spec fn spec_level_ups(level: u8, xp: u32) -> (u8, u32)
    decreases GC_MAX_LEVEL - level,
{
    if level < GC_MAX_LEVEL && xp >= spec_xp_to_next(level) {
        spec_level_ups((level + 1) as u8, (xp - spec_xp_to_next(level)) as u32)
    } else {
        (level, xp)
    }
}

/// One player's economy: gold, level, experience and streaks.
#[derive(Clone, Debug)]
pub struct GcEconomy {
    /// Gold in hand.
    pub gold: u32,
    /// Level, 1 to 10.
    pub level: u8,
    /// Experience toward the next level.
    pub xp: u32,
    /// Wins in a row; zero when the last battle was lost.
    pub win_streak: u8,
    /// Losses in a row; zero when the last battle was won.
    pub lose_streak: u8,
    /// Whether this turn's income was already collected.
    pub income_collected: bool,
}

impl Default for GcEconomy {
    /// Starting gold and level, no streaks, income not yet collected.
    fn default() -> (r: Self)
        ensures
            r == (GcEconomy {
                gold: GC_STARTING_GOLD,
                level: GC_STARTING_LEVEL,
                xp: 0u32,
                win_streak: 0u8,
                lose_streak: 0u8,
                income_collected: false,
            }),
    {
        GcEconomy {
            gold: GC_STARTING_GOLD,
            level: GC_STARTING_LEVEL,
            xp: 0,
            win_streak: 0,
            lose_streak: 0,
            income_collected: false,
        }
    }
}

/// Total income of a turn: the base plus interest plus the streak bonus.
pub open spec fn spec_total_income(e: GcEconomy) -> u32 {
    let interest = if e.gold / GC_INTEREST_RATE < GC_INTEREST_CAP {
        e.gold / GC_INTEREST_RATE
    } else {
        GC_INTEREST_CAP
    };
    let streak = if e.win_streak >= e.lose_streak {
        e.win_streak
    } else {
        e.lose_streak
    };
    (GC_BASE_INCOME + interest + spec_streak_bonus(streak)) as u32
}

impl GcEconomy {
    /// A fresh economy.
    pub fn new() -> (r: Self)
        ensures
            r == (GcEconomy {
                gold: GC_STARTING_GOLD,
                level: GC_STARTING_LEVEL,
                xp: 0u32,
                win_streak: 0u8,
                lose_streak: 0u8,
                income_collected: false,
            }),
    {
        Self::default()
    }

    /// A fresh economy with the given gold.
    pub fn with_gold(gold: u32) -> (r: Self)
        ensures
            r == (GcEconomy {
                gold,
                level: GC_STARTING_LEVEL,
                xp: 0u32,
                win_streak: 0u8,
                lose_streak: 0u8,
                income_collected: false,
            }),
    {
        let mut e = Self::default();
        e.gold = gold;
        e
    }

    /// Whether the player can pay `cost`.
    pub fn can_afford(&self, cost: u32) -> (r: bool)
        ensures
            r == (self.gold >= cost),
    {
        self.gold >= cost
    }

    /// Pay `cost` if possible; nothing changes otherwise.
    pub fn spend(&mut self, cost: u32) -> (r: bool)
        ensures
            r == (old(self).gold >= cost),
            r ==> *final(self) == (GcEconomy {
                gold: (old(self).gold - cost) as u32,
                ..*old(self)
            }),
            !r ==> *final(self) == *old(self),
    {
        if self.gold >= cost {
            self.gold = self.gold - cost;
            true
        } else {
            false
        }
    }

    /// Earn gold, saturating at the type limit.
    pub fn earn(&mut self, amount: u32)
        ensures
            *final(self) == (GcEconomy {
                gold: old(self).gold.saturating_add(amount),
                ..*old(self)
            }),
    {
        self.gold = self.gold.saturating_add(amount);
    }

    /// Set the gold directly.
    pub fn set_gold(&mut self, amount: u32)
        ensures
            *final(self) == (GcEconomy { gold: amount, ..*old(self) }),
    {
        self.gold = amount;
    }

    /// Interest this turn: one gold per ten held, capped.
    pub fn calculate_interest(&self) -> (r: u32)
        ensures
            r == (if self.gold / GC_INTEREST_RATE < GC_INTEREST_CAP {
                self.gold / GC_INTEREST_RATE
            } else {
                GC_INTEREST_CAP
            }),
    {
        let i = self.gold / GC_INTEREST_RATE;
        if i < GC_INTEREST_CAP {
            i
        } else {
            GC_INTEREST_CAP
        }
    }

    /// Streak bonus this turn, driven by the longer of the two streaks.
    pub fn calculate_streak_bonus(&self) -> (r: u32)
        ensures
            r == spec_streak_bonus(
                if self.win_streak >= self.lose_streak {
                    self.win_streak
                } else {
                    self.lose_streak
                },
            ),
    {
        let streak = if self.win_streak >= self.lose_streak {
            self.win_streak
        } else {
            self.lose_streak
        };
        if streak <= 1 {
            0
        } else if streak <= 3 {
            1
        } else if streak <= 5 {
            2
        } else {
            3
        }
    }

    /// Total income of this turn.
    pub fn calculate_total_income(&self) -> (r: u32)
        ensures
            r == spec_total_income(*self),
    {
        GC_BASE_INCOME + self.calculate_interest() + self.calculate_streak_bonus()
    }

    /// Collect this turn's income once; a second call returns nothing.
    pub fn collect_income(&mut self) -> (r: u32)
        ensures
            old(self).income_collected ==> r == 0 && *final(self) == *old(self),
            !old(self).income_collected ==> {
                &&& r == spec_total_income(*old(self))
                &&& *final(self) == (GcEconomy {
                    gold: old(self).gold.saturating_add(r),
                    income_collected: true,
                    ..*old(self)
                })
            },
    {
        if self.income_collected {
            return 0;
        }
        let income = self.calculate_total_income();
        self.gold = self.gold.saturating_add(income);
        self.income_collected = true;
        income
    }

    /// Start of turn: the income becomes collectable again.
    pub fn start_new_turn(&mut self)
        ensures
            *final(self) == (GcEconomy { income_collected: false, ..*old(self) }),
    {
        self.income_collected = false;
    }

    /// Experience needed to leave the current level.
    pub fn xp_to_next_level(&self) -> (r: u32)
        ensures
            r == spec_xp_to_next(self.level),
            self.level > GC_MAX_LEVEL ==> r == 999,
    {
        if self.level == 1 {
            0
        } else if self.level == 2 {
            2
        } else if self.level == 3 {
            6
        } else if self.level == 4 {
            10
        } else if self.level == 5 {
            20
        } else if self.level == 6 {
            36
        } else if self.level == 7 {
            56
        } else if self.level == 8 {
            80
        } else if self.level == 9 {
            100
        } else {
            999
        }
    }

    /// Whether an experience purchase is possible: below the level cap and
    /// with enough gold.
    pub fn can_level_up(&self) -> (r: bool)
        ensures
            r == (self.level < GC_MAX_LEVEL && self.gold >= GC_LEVEL_UP_COST),
    {
        self.level < GC_MAX_LEVEL && self.can_afford(GC_LEVEL_UP_COST)
    }

    /// Buy experience: four gold for four experience, cashing in level-ups.
    pub fn buy_xp(&mut self) -> (r: bool)
        requires
            old(self).xp + GC_LEVEL_UP_COST <= u32::MAX,
        ensures
            r == (old(self).gold >= GC_LEVEL_UP_COST),
            !r ==> *final(self) == *old(self),
            r ==> ({
                let after = spec_level_ups(
                    old(self).level,
                    (old(self).xp + GC_LEVEL_UP_COST) as u32,
                );
                *final(self) == (GcEconomy {
                    gold: (old(self).gold - GC_LEVEL_UP_COST) as u32,
                    level: after.0,
                    xp: after.1,
                    ..*old(self)
                })
            }),
    {
        if !self.can_afford(GC_LEVEL_UP_COST) {
            return false;
        }
        self.spend(GC_LEVEL_UP_COST);
        self.add_xp(GC_LEVEL_UP_COST);
        true
    }

    /// Gain experience and cash in every level-up it covers.
    pub fn add_xp(&mut self, amount: u32)
        requires
            old(self).xp + amount <= u32::MAX,
        ensures
            ({
                let after = spec_level_ups(old(self).level, (old(self).xp + amount) as u32);
                *final(self) == (GcEconomy { level: after.0, xp: after.1, ..*old(self) })
            }),
    {
        self.xp = self.xp + amount;
        while self.level < GC_MAX_LEVEL && self.xp >= self.xp_to_next_level()
            invariant
                spec_level_ups(self.level, self.xp) == spec_level_ups(
                    old(self).level,
                    (old(self).xp + amount) as u32,
                ),
                *self == (GcEconomy { level: self.level, xp: self.xp, ..*old(self) }),
            decreases GC_MAX_LEVEL - self.level,
        {
            let need = self.xp_to_next_level();
            self.xp = self.xp - need;
            self.level = self.level + 1;
        }
    }

    /// Record a win: the win streak grows (saturating) and the loss streak
    /// clears.
    pub fn record_win(&mut self)
        ensures
            *final(self) == (GcEconomy {
                win_streak: old(self).win_streak.saturating_add(1),
                lose_streak: 0u8,
                ..*old(self)
            }),
    {
        self.win_streak = self.win_streak.saturating_add(1);
        self.lose_streak = 0;
    }

    /// Record a loss: the loss streak grows (saturating) and the win streak
    /// clears.
    pub fn record_loss(&mut self)
        ensures
            *final(self) == (GcEconomy {
                lose_streak: old(self).lose_streak.saturating_add(1),
                win_streak: 0u8,
                ..*old(self)
            }),
    {
        self.lose_streak = self.lose_streak.saturating_add(1);
        self.win_streak = 0;
    }

    /// A draw touches neither streak.
    pub fn record_draw(&mut self)
        ensures
            *final(self) == *old(self),
    {
    }

    /// Whether a shop refresh can be paid for.
    pub fn can_refresh_shop(&self) -> (r: bool)
        ensures
            r == (self.gold >= GC_REFRESH_COST),
    {
        self.can_afford(GC_REFRESH_COST)
    }

    /// Pay for a shop refresh, if possible.
    pub fn pay_refresh(&mut self) -> (r: bool)
        ensures
            r == (old(self).gold >= GC_REFRESH_COST),
            r ==> *final(self) == (GcEconomy {
                gold: (old(self).gold - GC_REFRESH_COST) as u32,
                ..*old(self)
            }),
            !r ==> *final(self) == *old(self),
    {
        self.spend(GC_REFRESH_COST)
    }

    /// One-line summary of the economy.
    pub fn summary(&self) -> (r: String)
        ensures
            r@ == "💰"@ + spec_decimal(self.gold as nat) + " | Lv."@ + spec_decimal(
                self.level as nat,
            ) + " ("@ + spec_decimal(self.xp as nat) + "/"@ + spec_decimal(
                spec_xp_to_next(self.level) as nat,
            ) + ") | 连胜:"@ + spec_decimal(self.win_streak as nat) + " 连败:"@ + spec_decimal(
                self.lose_streak as nat,
            ),
    {
        let mut out = "💰".to_owned();
        out.append(decimal_string(self.gold).as_str());
        out.append(" | Lv.");
        out.append(decimal_string(self.level as u32).as_str());
        out.append(" (");
        out.append(decimal_string(self.xp).as_str());
        out.append("/");
        out.append(decimal_string(self.xp_to_next_level()).as_str());
        out.append(") | 连胜:");
        out.append(decimal_string(self.win_streak as u32).as_str());
        out.append(" 连败:");
        out.append(decimal_string(self.lose_streak as u32).as_str());
        out
    }
}

/// Purchase price of a monster by star: one, two, then three gold.
pub fn gc_monster_buy_price(star: u8) -> (r: u32)
    ensures
        star == 1 ==> r == 1,
        star == 2 ==> r == 2,
        !(star == 1 || star == 2) ==> r == 3,
{
    match star {
        1 => 1,
        2 => 2,
        _ => 3,
    }
}

/// Sale price of a monster: its star count, or three plus three per golden
/// level once golden.
pub fn gc_monster_sell_price(star: u8, golden_level: u8) -> (r: u32)
    ensures
        golden_level > 0 ==> r == 3 + 3 * (golden_level as u32),
        golden_level == 0 ==> r == star as u32,
{
    if golden_level > 0 {
        3 + (golden_level as u32) * 3
    } else {
        star as u32
    }
}

} // verus!
