//! Players: combat stats, hand, deck and discard piles, the battlefield they
//! own, and the derived attributes of the role-playing layer.

use vstd::prelude::*;
use vstd::string::StringExecFns;

use crate::battlefield::{spec_deploy_hp, GcBattlefield};
use crate::card::GcCard;
use crate::inventory::{spec_total_base, spec_total_combat, GcInventory};
use crate::profession::{spec_profession_stats, GcProfession, GcProfessionType};
use crate::talent::GcPlayerTalents;
use crate::text::str_eq;
use crate::types::{
    spec_combat_from_base, spec_merge_base_stats, spec_merge_combat_stats, GcBaseStats,
    GcCombatStats, GcConfig, GcPlayerId,
};

verus! {

/// Whether some hand card carries the id.
pub open spec fn spec_hand_has_card(hand: Seq<GcCard>, id: Seq<char>) -> bool {
    exists|j: int| 0 <= j < hand.len() && (#[trigger] hand[j]).id@ == id
}

/// A player's standing in the battle.
#[derive(Clone, Copy, Debug, PartialEq, Eq, Structural)]
pub enum GcPlayerState {
    Alive,
    Dead,
    Stunned,
    Disconnected,
}

impl Default for GcPlayerState {
    /// Alive.
    fn default() -> (r: Self)
        ensures
            r is Alive,
    {
        GcPlayerState::Alive
    }
}

/// A player's combat figures.
#[derive(Clone, Copy, Debug, PartialEq, Eq, Structural)]
pub struct GcPlayerStats {
    /// Current hit points.
    pub hp: u32,
    /// Hit point cap.
    pub max_hp: u32,
    pub attack: u32,
    pub defense: u32,
    /// Energy spent playing cards.
    pub energy: u32,
    pub max_energy: u32,
    /// Points spent acquiring and deploying cards.
    pub action_points: u32,
    pub max_action_points: u32,
}

impl Default for GcPlayerStats {
    /// The standard starting figures.
    fn default() -> (r: Self)
        ensures
            r == (GcPlayerStats {
                hp: GcConfig::DEFAULT_HP,
                max_hp: GcConfig::DEFAULT_HP,
                attack: GcConfig::DEFAULT_ATTACK,
                defense: GcConfig::DEFAULT_DEFENSE,
                energy: 3u32,
                max_energy: 10u32,
                action_points: 5u32,
                max_action_points: 5u32,
            }),
    {
        GcPlayerStats {
            hp: GcConfig::DEFAULT_HP,
            max_hp: GcConfig::DEFAULT_HP,
            attack: GcConfig::DEFAULT_ATTACK,
            defense: GcConfig::DEFAULT_DEFENSE,
            energy: 3,
            max_energy: 10,
            action_points: 5,
            max_action_points: 5,
        }
    }
}

impl GcPlayerStats {
    /// Take damage, saturating at zero; the result is the health actually
    /// lost.
    pub fn gc_take_damage(&mut self, damage: u32) -> (actual: u32)
        ensures
            actual == (if damage < old(self).hp {
                damage
            } else {
                old(self).hp
            }),
            *final(self) == (GcPlayerStats {
                hp: old(self).hp.saturating_sub(damage),
                ..*old(self)
            }),
    {
        let actual = if damage < self.hp {
            damage
        } else {
            self.hp
        };
        self.hp = self.hp.saturating_sub(damage);
        actual
    }

    /// Heal up to the cap; the result is the health actually regained.
    pub fn gc_heal(&mut self, amount: u32) -> (actual: u32)
        requires
            old(self).hp <= old(self).max_hp,
        ensures
            actual == (if amount < old(self).max_hp - old(self).hp {
                amount as int
            } else {
                old(self).max_hp - old(self).hp
            }),
            *final(self) == (GcPlayerStats {
                hp: (if old(self).hp + amount < old(self).max_hp {
                    (old(self).hp + amount) as u32
                } else {
                    old(self).max_hp
                }),
                ..*old(self)
            }),
    {
        let headroom = self.max_hp - self.hp;
        let actual = if amount < headroom {
            amount
        } else {
            headroom
        };
        self.hp = self.hp + actual;
        actual
    }

    /// A player lives while hit points remain.
    pub fn gc_is_alive(&self) -> (r: bool)
        ensures
            r == (self.hp > 0),
    {
        self.hp > 0
    }

    /// Spend action points if enough remain.
    pub fn gc_use_action_points(&mut self, cost: u32) -> (r: bool)
        ensures
            r == (old(self).action_points >= cost),
            r ==> *final(self) == (GcPlayerStats {
                action_points: (old(self).action_points - cost) as u32,
                ..*old(self)
            }),
            !r ==> *final(self) == *old(self),
    {
        if self.action_points >= cost {
            self.action_points = self.action_points - cost;
            true
        } else {
            false
        }
    }

    /// Whether `cost` action points remain.
    pub fn gc_has_action_points(&self, cost: u32) -> (r: bool)
        ensures
            r == (self.action_points >= cost),
    {
        self.action_points >= cost
    }

    /// Start of turn: action points return to the cap.
    pub fn gc_reset_action_points(&mut self)
        ensures
            *final(self) == (GcPlayerStats {
                action_points: old(self).max_action_points,
                ..*old(self)
            }),
    {
        self.action_points = self.max_action_points;
    }
}

/// A player: identity, stats, cards and battlefield, plus the optional
/// role-playing layer of profession, talents and inventory.
#[derive(Clone, Debug)]
pub struct GcPlayer {
    pub id: GcPlayerId,
    pub name: String,
    pub stats: GcPlayerStats,
    pub state: GcPlayerState,
    /// Cards in hand.
    pub hand: Vec<GcCard>,
    /// Cards left to draw.
    pub deck: Vec<GcCard>,
    /// Cards played or discarded.
    pub discard: Vec<GcCard>,
    /// The player's own battlefield.
    pub battlefield: GcBattlefield,
    /// Character level.
    pub level: u32,
    /// Chosen profession, once the role-playing layer is on.
    pub profession: Option<GcProfessionType>,
    /// Talent state, once initialized.
    pub talents: Option<GcPlayerTalents>,
    /// Bag and worn equipment, once initialized.
    pub inventory: Option<GcInventory>,
}

/// The base attributes a player's profession and equipment add up to.
pub open spec fn spec_player_base_stats(p: GcPlayer) -> GcBaseStats {
    let from_profession = match p.profession {
        Option::Some(pt) => spec_profession_stats(pt, p.level),
        Option::None => GcBaseStats {
            strength: 0u32,
            agility: 0u32,
            intelligence: 0u32,
            vitality: 0u32,
        },
    };
    match p.inventory {
        Option::Some(inv) => spec_merge_base_stats(from_profession, spec_total_base(inv.equipped)),
        Option::None => from_profession,
    }
}

/// The combat attributes those base attributes and the equipment bonus give.
pub open spec fn spec_player_combat_stats(p: GcPlayer) -> GcCombatStats {
    let combat = spec_combat_from_base(spec_player_base_stats(p));
    match p.inventory {
        Option::Some(inv) => spec_merge_combat_stats(combat, spec_total_combat(inv.equipped)),
        Option::None => combat,
    }
}

impl GcPlayer {
    /// A fresh player with default stats, empty piles and a default
    /// battlefield, before the role-playing layer.
    pub fn gc_new(id: &str, name: &str) -> (r: Self)
        ensures
            r.id@ == id@,
            r.name@ == name@,
            r.stats == (GcPlayerStats {
                hp: GcConfig::DEFAULT_HP,
                max_hp: GcConfig::DEFAULT_HP,
                attack: GcConfig::DEFAULT_ATTACK,
                defense: GcConfig::DEFAULT_DEFENSE,
                energy: 3u32,
                max_energy: 10u32,
                action_points: 5u32,
                max_action_points: 5u32,
            }),
            r.state is Alive,
            r.hand@.len() == 0,
            r.deck@.len() == 0,
            r.discard@.len() == 0,
            r.battlefield.slots@.len() == 5,
            forall|j: int| 0 <= j < 5 ==> r.battlefield.slots@[j].card is None,
            r.level == 1,
            r.profession is None,
            r.talents is None,
            r.inventory is None,
    {
        GcPlayer {
            id: id.to_owned(),
            name: name.to_owned(),
            stats: GcPlayerStats::default(),
            state: GcPlayerState::Alive,
            hand: Vec::new(),
            deck: Vec::new(),
            discard: Vec::new(),
            battlefield: GcBattlefield::gc_default(),
            level: 1,
            profession: None,
            talents: None,
            inventory: None,
        }
    }

    /// Turn the role-playing layer on: set the profession, hand out a bag of
    /// twenty slots, and derive the stats.
    pub fn gc_init_rpg(&mut self, profession: GcProfessionType)
        ensures
            final(self).profession == Some(profession),
            final(self).inventory is Some,
            final(self).stats.max_hp == spec_player_combat_stats(*final(self)).max_hp,
    {
        self.profession = Some(profession);
        self.inventory = Some(GcInventory::gc_new(self.id.as_str(), 20));
        self.gc_update_rpg_stats();
    }

    /// Recompute the combat figures from level, profession and equipment:
    /// the hit point cap, and attack and defense as the better of the
    /// physical and magical figures; health is clamped to the new cap, and a
    /// player still at the old default full health is topped up.
    pub fn gc_update_rpg_stats(&mut self)
        ensures
            ({
                let combat = spec_player_combat_stats(*old(self));
                let new_attack = if combat.physical_attack >= combat.magic_attack {
                    combat.physical_attack
                } else {
                    combat.magic_attack
                };
                let new_defense = if combat.physical_defense >= combat.magic_defense {
                    combat.physical_defense
                } else {
                    combat.magic_defense
                };
                let clamped = if old(self).stats.hp > combat.max_hp {
                    combat.max_hp
                } else {
                    old(self).stats.hp
                };
                let hp = if clamped == GcConfig::DEFAULT_HP && combat.max_hp
                    > GcConfig::DEFAULT_HP {
                    combat.max_hp
                } else {
                    clamped
                };
                *final(self) == (GcPlayer {
                    stats: GcPlayerStats {
                        max_hp: combat.max_hp,
                        attack: new_attack,
                        defense: new_defense,
                        hp,
                        ..old(self).stats
                    },
                    ..*old(self)
                })
            }),
    {
        let mut base_stats = match self.profession {
            Some(prof_type) => {
                let profession = GcProfession::gc_new(prof_type);
                profession.gc_calculate_stats(self.level)
            },
            None => GcBaseStats::gc_new(),
        };
        match &self.inventory {
            Some(inv) => {
                let (equip_base, _) = inv.gc_get_total_stats();
                base_stats.gc_merge(&equip_base);
            },
            None => {},
        }
        let mut combat_stats = GcCombatStats::gc_from_base_stats(&base_stats, self.level);
        match &self.inventory {
            Some(inv) => {
                let (_, equip_combat) = inv.gc_get_total_stats();
                combat_stats.gc_merge(&equip_combat);
            },
            None => {},
        }
        self.stats.max_hp = combat_stats.max_hp;
        self.stats.attack = if combat_stats.physical_attack >= combat_stats.magic_attack {
            combat_stats.physical_attack
        } else {
            combat_stats.magic_attack
        };
        self.stats.defense = if combat_stats.physical_defense >= combat_stats.magic_defense {
            combat_stats.physical_defense
        } else {
            combat_stats.magic_defense
        };
        if self.stats.hp > self.stats.max_hp {
            self.stats.hp = self.stats.max_hp;
        }
        if self.stats.hp == GcConfig::DEFAULT_HP && self.stats.max_hp > GcConfig::DEFAULT_HP {
            self.stats.hp = self.stats.max_hp;
        }
    }

    /// A player can act while alive in state and in health.
    pub fn gc_can_act(&self) -> (r: bool)
        ensures
            r == (self.state is Alive && self.stats.hp > 0),
    {
        matches!(self.state, GcPlayerState::Alive) && self.stats.gc_is_alive()
    }

    /// Whether the hand is at its size cap.
    pub fn gc_is_hand_full(&self) -> (r: bool)
        ensures
            r == (self.hand@.len() >= GcConfig::MAX_HAND_SIZE),
    {
        self.hand.len() >= GcConfig::MAX_HAND_SIZE
    }

    /// Take the first card with the given id out of the hand.
    pub fn gc_remove_card_from_hand(&mut self, card_id: &str) -> (r: Option<GcCard>)
        ensures
            r is None ==> *final(self) == *old(self) && (forall|j: int|
                0 <= j < old(self).hand@.len() ==> old(self).hand@[j].id@ != card_id@),
            r matches Some(c) ==> exists|idx: int|
                {
                    &&& 0 <= idx < old(self).hand@.len()
                    &&& old(self).hand@[idx].id@ == card_id@
                    &&& forall|j: int| 0 <= j < idx ==> old(self).hand@[j].id@ != card_id@
                    &&& c == old(self).hand@[idx]
                    &&& final(self).hand@ == old(self).hand@.remove(idx)
                    &&& *final(self) == (GcPlayer { hand: final(self).hand, ..*old(self) })
                },
    {
        let mut i: usize = 0;
        while i < self.hand.len()
            invariant
                i <= self.hand@.len(),
                *self == *old(self),
                forall|j: int| 0 <= j < i ==> self.hand@[j].id@ != card_id@,
            decreases self.hand@.len() - i,
        {
            if str_eq(self.hand[i].id.as_str(), card_id) {
                let ghost widx = i as int;
                let card = self.hand.remove(i);
                proof {
                    assert(0 <= widx < old(self).hand@.len() && old(self).hand@[widx].id@
                        == card_id@);
                }
                return Some(card);
            }
            i = i + 1;
        }
        None
    }

    /// The first hand card with the given id.
    pub fn gc_find_card_in_hand(&self, card_id: &str) -> (r: Option<&GcCard>)
        ensures
            r is None ==> (forall|j: int|
                0 <= j < self.hand@.len() ==> self.hand@[j].id@ != card_id@),
            r matches Some(c) ==> exists|idx: int|
                {
                    &&& 0 <= idx < self.hand@.len()
                    &&& self.hand@[idx].id@ == card_id@
                    &&& *c == self.hand@[idx]
                    &&& forall|j: int| 0 <= j < idx ==> self.hand@[j].id@ != card_id@
                },
    {
        let mut i: usize = 0;
        while i < self.hand.len()
            invariant
                i <= self.hand@.len(),
                forall|j: int| 0 <= j < i ==> self.hand@[j].id@ != card_id@,
            decreases self.hand@.len() - i,
        {
            if str_eq(self.hand[i].id.as_str(), card_id) {
                return Some(&self.hand[i]);
            }
            i = i + 1;
        }
        None
    }

    /// Draw up to `count` cards from the deck into the hand; when the deck
    /// runs out the discard pile is turned over (unshuffled — shuffling takes
    /// caller-supplied randomness) and drawing goes on.  Stops early at a
    /// full hand or when no cards remain anywhere, so the number drawn is
    /// exactly the least of the count asked for, the room left in the hand
    /// and the cards available in deck and discard together.
    pub fn gc_draw_cards(&mut self, count: usize) -> (drawn: usize)
        ensures
            ({
                let room = if old(self).hand@.len() >= GcConfig::MAX_HAND_SIZE {
                    0int
                } else {
                    GcConfig::MAX_HAND_SIZE - old(self).hand@.len()
                };
                let available = old(self).deck@.len() + old(self).discard@.len() as int;
                drawn == if count <= room && count <= available {
                    count as int
                } else if room <= available {
                    room
                } else {
                    available as int
                }
            }),
            final(self).hand@.len() == old(self).hand@.len() + drawn,
            final(self).hand@.len() + final(self).deck@.len() + final(self).discard@.len() == old(
                self,
            ).hand@.len() + old(self).deck@.len() + old(self).discard@.len(),
            final(self).stats == old(self).stats,
            final(self).id == old(self).id,
            final(self).battlefield == old(self).battlefield,
    {
        let mut drawn: usize = 0;
        while drawn < count
            invariant
                drawn <= count,
                old(self).hand@.len() >= GcConfig::MAX_HAND_SIZE ==> drawn == 0,
                old(self).hand@.len() + drawn <= GcConfig::MAX_HAND_SIZE || drawn == 0,
                self.hand@.len() == old(self).hand@.len() + drawn,
                self.hand@.len() + self.deck@.len() + self.discard@.len() == old(
                    self,
                ).hand@.len() + old(self).deck@.len() + old(self).discard@.len(),
                *self == (GcPlayer {
                    hand: self.hand,
                    deck: self.deck,
                    discard: self.discard,
                    ..*old(self)
                }),
            decreases count - drawn, self.discard@.len() + 1,
        {
            if self.hand.len() >= GcConfig::MAX_HAND_SIZE {
                return drawn;
            }
            if self.deck.len() > 0 {
                match self.deck.pop() {
                    Some(card) => {
                        self.hand.push(card);
                        drawn = drawn + 1;
                    },
                    None => {},
                }
            } else if self.discard.len() > 0 {
                self.deck.append(&mut self.discard);
            } else {
                return drawn;
            }
        }
        drawn
    }

    /// Move a hand card onto the battlefield slot.  Succeeds exactly when the
    /// slot is in range and empty and the hand holds the card; a refused
    /// deployment — bad slot first, occupied slot next, missing card last —
    /// leaves the player untouched.
    pub fn gc_deploy_to_battlefield(&mut self, card_id: &str, slot_index: usize) -> (r: Result<
        (),
        String,
    >)
        ensures
            r is Ok <==> (slot_index < old(self).battlefield.slots@.len() && old(
                self,
            ).battlefield.slots@[slot_index as int].card is None && spec_hand_has_card(
                old(self).hand@,
                card_id@,
            )),
            r is Err ==> *final(self) == *old(self),
            slot_index >= old(self).battlefield.slots@.len() ==> (r matches Err(m) && m@
                == "无效的槽位"@),
            slot_index < old(self).battlefield.slots@.len() && old(self).battlefield.slots@[
                slot_index as int
            ].card is Some ==> (r matches Err(m) && m@ == "槽位已被占用"@),
            slot_index < old(self).battlefield.slots@.len() && old(self).battlefield.slots@[
                slot_index as int
            ].card is None && !spec_hand_has_card(old(self).hand@, card_id@) ==> (r matches Err(m)
                && m@ == "卡牌不在手牌中"@),
            r is Ok ==> exists|idx: int|
                {
                    &&& 0 <= idx < old(self).hand@.len()
                    &&& old(self).hand@[idx].id@ == card_id@
                    &&& final(self).hand@ == old(self).hand@.remove(idx)
                    &&& slot_index < old(self).battlefield.slots@.len()
                    &&& final(self).battlefield.slots@[slot_index as int].card == Some(
                        old(self).hand@[idx],
                    )
                    &&& final(self).battlefield.slots@[slot_index as int].remaining_hp
                        == spec_deploy_hp(old(self).hand@[idx])
                    &&& !final(self).battlefield.slots@[slot_index as int].can_attack
                },
            r is Err ==> final(self).hand@.len() == old(self).hand@.len(),
    {
        if slot_index >= self.battlefield.slots.len() {
            return Err("无效的槽位".to_owned());
        }
        if self.battlefield.slots[slot_index].card.is_some() {
            return Err("槽位已被占用".to_owned());
        }
        let card = match self.gc_remove_card_from_hand(card_id) {
            Some(c) => c,
            None => {
                return Err("卡牌不在手牌中".to_owned());
            },
        };
        let out = self.battlefield.gc_deploy_to_slot(slot_index, card);
        match out {
            Ok(()) => Ok(()),
            Err(e) => Err(e),
        }
    }

    /// Indices of the empty battlefield slots.
    pub fn gc_get_empty_battlefield_slots(&self) -> (r: Vec<usize>)
        ensures
            r@ == Seq::new(self.battlefield.slots@.len(), |j: int| j as usize).filter(
                |j: usize| self.battlefield.slots@[j as int].card is None,
            ),
    {
        self.battlefield.gc_get_empty_slots()
    }

    /// Whether every battlefield slot is occupied.
    pub fn gc_is_battlefield_full(&self) -> (r: bool)
        ensures
            r == (forall|j: int|
                0 <= j < self.battlefield.slots@.len() ==> self.battlefield.slots@[j].card
                    is Some),
    {
        self.battlefield.gc_is_full()
    }

    /// Start of turn: every deployed card becomes ready to attack.
    pub fn gc_on_turn_start(&mut self)
        ensures
            final(self).battlefield.slots@.len() == old(self).battlefield.slots@.len(),
            forall|j: int|
                0 <= j < old(self).battlefield.slots@.len() ==> final(self).battlefield.slots@[j]
                    == crate::battlefield::spec_slot_enabled(old(self).battlefield.slots@[j]),
    {
        self.battlefield.gc_on_turn_start();
    }
}

} // verus!
