//! The battlefield slot engine: a fixed row of slots per side, deployment,
//! per-turn attack gating, and the lane-mirrored attack sweep where slot `i`
//! always strikes the opposing slot `i` — or the opposing player when that
//! lane is empty.

use vstd::prelude::*;

use crate::card::{GcCard, GcCardType};

verus! {

/// Shape of a battlefield: how many slots it has and what deploying costs.
#[derive(Clone, Debug)]
pub struct GcBattlefieldConfig {
    /// Number of slots; fixed for the battlefield's lifetime.
    pub slot_count: usize,
    /// Action points one deployment costs.
    pub deploy_cost: u32,
}

impl Default for GcBattlefieldConfig {
    /// Five slots, one action point per deployment.
    fn default() -> (r: Self)
        ensures
            r.slot_count == 5,
            r.deploy_cost == 1,
    {
        GcBattlefieldConfig { slot_count: 5, deploy_cost: 1 }
    }
}

/// One attack of a sweep.
#[derive(Clone, Debug)]
pub struct GcAttackResult {
    /// Attacking slot.
    pub attacker_slot: usize,
    /// Attacking card's name.
    pub attacker_name: String,
    /// Lane attacked: always the attacker's own index.
    pub target_slot: usize,
    /// Defender card's name, when a card was hit.
    pub target_name: Option<String>,
    /// Damage dealt.
    pub damage: u32,
    /// Whether the defending card was destroyed.
    pub target_destroyed: bool,
    /// Whether the lane was empty and the player took the hit.
    pub hit_player: bool,
}

/// The outcome of one whole sweep.
#[derive(Clone, Debug)]
pub struct GcBattlefieldCombatResult {
    /// Every attack, in slot order.
    pub attacks: Vec<GcAttackResult>,
    /// Total damage dealt to the opposing player.
    pub player_damage: u32,
    /// Number of opposing cards destroyed.
    pub cards_destroyed: u32,
}

/// One battlefield slot.
///
/// Invariant: the card and its remaining hit points are set and cleared
/// together; an empty slot has no attack flag and no hit points.
#[derive(Clone, Debug)]
pub struct GcBattlefieldSlot {
    /// Position of the slot.
    pub index: usize,
    /// Deployed card, if any.
    pub card: Option<GcCard>,
    /// Whether the card may attack; freshly deployed cards may not.
    pub can_attack: bool,
    /// Shield value of the deployed card.
    pub remaining_hp: u32,
}

/// Starting shield of a deployed card: defense cards use their shield figure,
/// all others their damage figure, floored at one.
pub open spec fn spec_deploy_hp(card: GcCard) -> u32 {
    if card.card_type is Defense {
        card.base_defense
    } else if card.base_damage >= 1 {
        card.base_damage
    } else {
        1u32
    }
}

/// Whether the slot holds a card that may attack.
pub open spec fn spec_slot_attacking(s: GcBattlefieldSlot) -> bool {
    s.can_attack && s.card is Some
}

/// A slot after taking damage: emptied when the damage reaches its shield,
/// otherwise the same card behind a reduced shield.
pub open spec fn spec_slot_after_damage(s: GcBattlefieldSlot, damage: u32) -> GcBattlefieldSlot {
    if s.remaining_hp <= damage {
        GcBattlefieldSlot { index: s.index, card: None, can_attack: false, remaining_hp: 0 }
    } else {
        GcBattlefieldSlot { remaining_hp: (s.remaining_hp - damage) as u32, ..s }
    }
}

impl GcBattlefieldSlot {
    /// A fresh, empty slot.
    pub fn gc_new(index: usize) -> (r: Self)
        ensures
            r.index == index,
            r.card is None,
            !r.can_attack,
            r.remaining_hp == 0,
    {
        GcBattlefieldSlot { index, card: None, can_attack: false, remaining_hp: 0 }
    }

    /// Whether the slot is empty.
    pub fn gc_is_empty(&self) -> (r: bool)
        ensures
            r == (self.card is None),
    {
        self.card.is_none()
    }

    /// Put a card into the slot: its shield is set, and it may not attack yet.
    pub fn gc_deploy(&mut self, card: GcCard)
        ensures
            final(self).index == old(self).index,
            final(self).card matches Some(c) && c == card,
            !final(self).can_attack,
            final(self).remaining_hp == spec_deploy_hp(card),
    {
        self.remaining_hp = match card.card_type {
            GcCardType::Defense => card.base_defense,
            _ => if card.base_damage >= 1 {
                card.base_damage
            } else {
                1
            },
        };
        self.card = Some(card);
        self.can_attack = false;
    }

    /// Take the card out, clearing the attack flag and the shield.
    pub fn gc_remove(&mut self) -> (r: Option<GcCard>)
        ensures
            r == old(self).card,
            final(self).index == old(self).index,
            final(self).card is None,
            !final(self).can_attack,
            final(self).remaining_hp == 0,
    {
        let card = self.card.take();
        self.can_attack = false;
        self.remaining_hp = 0;
        card
    }

    /// At the start of a turn an occupied slot becomes ready to attack; an
    /// empty slot stays as it is.
    pub fn gc_enable_attack(&mut self)
        ensures
            *final(self) == spec_slot_enabled(*old(self)),
    {
        if self.card.is_some() {
            self.can_attack = true;
        }
    }

    /// Damage the slot's shield; the result says whether the card fell and
    /// was removed.
    pub fn gc_take_damage(&mut self, damage: u32) -> (destroyed: bool)
        ensures
            destroyed == (old(self).remaining_hp <= damage),
            *final(self) == spec_slot_after_damage(*old(self), damage),
    {
        if self.remaining_hp <= damage {
            self.remaining_hp = 0;
            self.gc_remove();
            true
        } else {
            self.remaining_hp = self.remaining_hp - damage;
            false
        }
    }
}

/// A slot after the start-of-turn wake-up: occupied slots may attack, empty
/// slots are untouched.
pub open spec fn spec_slot_enabled(s: GcBattlefieldSlot) -> GcBattlefieldSlot {
    if s.card is Some {
        GcBattlefieldSlot { can_attack: true, ..s }
    } else {
        s
    }
}

/// Damage the card in an attacking slot deals: its damage figure.
pub open spec fn spec_lane_damage(att: Seq<GcBattlefieldSlot>, i: int) -> u32
    recommends
        0 <= i < att.len(),
        spec_slot_attacking(att[i]),
{
    att[i].card->0.base_damage
}

/// Whether lane `i` produces an attack: the attacker stands and may attack,
/// and the lane exists on the defending side.
pub open spec fn spec_lane_attacks(
    att: Seq<GcBattlefieldSlot>,
    def: Seq<GcBattlefieldSlot>,
    i: int,
) -> bool {
    0 <= i < att.len() && spec_slot_attacking(att[i]) && i < def.len()
}

/// Whether lane `i` hits the opposing player: it attacks into an empty slot.
pub open spec fn spec_lane_hits_player(
    att: Seq<GcBattlefieldSlot>,
    def: Seq<GcBattlefieldSlot>,
    i: int,
) -> bool {
    spec_lane_attacks(att, def, i) && def[i].card is None
}

/// Whether lane `i` destroys the defending card.
pub open spec fn spec_lane_destroys(
    att: Seq<GcBattlefieldSlot>,
    def: Seq<GcBattlefieldSlot>,
    i: int,
) -> bool {
    spec_lane_attacks(att, def, i) && def[i].card is Some && def[i].remaining_hp
        <= spec_lane_damage(att, i)
}

/// Player damage accumulated over the lanes below `i`, in slot order,
/// saturating as the sweep does.
pub open spec fn spec_player_damage_upto(
    att: Seq<GcBattlefieldSlot>,
    def: Seq<GcBattlefieldSlot>,
    i: int,
) -> u32
    decreases i,
{
    if i <= 0 {
        0u32
    } else if spec_lane_hits_player(att, def, i - 1) {
        spec_player_damage_upto(att, def, i - 1).saturating_add(spec_lane_damage(att, i - 1))
    } else {
        spec_player_damage_upto(att, def, i - 1)
    }
}

/// Cards destroyed over the lanes below `i`.
pub open spec fn spec_destroyed_upto(
    att: Seq<GcBattlefieldSlot>,
    def: Seq<GcBattlefieldSlot>,
    i: int,
) -> u32
    decreases i,
{
    if i <= 0 {
        0u32
    } else if spec_lane_destroys(att, def, i - 1) {
        spec_destroyed_upto(att, def, i - 1).saturating_add(1)
    } else {
        spec_destroyed_upto(att, def, i - 1)
    }
}

/// The lanes below `i` that produce an attack, in slot order.
pub open spec fn spec_attack_lanes(
    att: Seq<GcBattlefieldSlot>,
    def: Seq<GcBattlefieldSlot>,
    i: int,
) -> Seq<int>
    decreases i,
{
    if i <= 0 {
        Seq::<int>::empty()
    } else if spec_lane_attacks(att, def, i - 1) {
        spec_attack_lanes(att, def, i - 1).push(i - 1)
    } else {
        spec_attack_lanes(att, def, i - 1)
    }
}

/// What the record of lane `i`'s attack must say.
pub open spec fn spec_attack_record_ok(
    att: Seq<GcBattlefieldSlot>,
    def: Seq<GcBattlefieldSlot>,
    i: int,
    rec: GcAttackResult,
) -> bool
    recommends
        spec_lane_attacks(att, def, i),
{
    &&& rec.attacker_slot == i
    &&& rec.attacker_name@ == att[i].card->0.name@
    &&& rec.target_slot == i
    &&& rec.damage == spec_lane_damage(att, i)
    &&& if def[i].card is Some {
        &&& rec.target_name matches Some(n) && n@ == def[i].card->0.name@
        &&& rec.target_destroyed == spec_lane_destroys(att, def, i)
        &&& !rec.hit_player
    } else {
        &&& rec.target_name is None
        &&& !rec.target_destroyed
        &&& rec.hit_player
    }
}

/// The defending slot of lane `j` after the sweep: damaged where the lane
/// attacked an occupied slot, untouched everywhere else.
pub open spec fn spec_def_slot_after_sweep(
    att: Seq<GcBattlefieldSlot>,
    def: Seq<GcBattlefieldSlot>,
    j: int,
) -> GcBattlefieldSlot
    recommends
        0 <= j < def.len(),
{
    if spec_lane_attacks(att, def, j) && def[j].card is Some {
        spec_slot_after_damage(def[j], spec_lane_damage(att, j))
    } else {
        def[j]
    }
}

/// A slot row after the start-of-turn wake-up, slot by slot.
pub open spec fn spec_enabled_slots(s: Seq<GcBattlefieldSlot>) -> Seq<GcBattlefieldSlot> {
    Seq::new(s.len(), |j: int| spec_slot_enabled(s[j]))
}

/// A slot row with every attack flag cleared, as a sweep leaves its own side.
pub open spec fn spec_spent_slots(s: Seq<GcBattlefieldSlot>) -> Seq<GcBattlefieldSlot> {
    Seq::new(s.len(), |j: int| GcBattlefieldSlot { can_attack: false, ..s[j] })
}

/// A defending row after a sweep from `att`, slot by slot.
pub open spec fn spec_swept_def(
    att: Seq<GcBattlefieldSlot>,
    def: Seq<GcBattlefieldSlot>,
) -> Seq<GcBattlefieldSlot> {
    Seq::new(def.len(), |j: int| spec_def_slot_after_sweep(att, def, j))
}

/// A battlefield: one side's fixed row of slots.
///
/// Invariant: the slot count never changes after construction.
#[derive(Clone, Debug)]
pub struct GcBattlefield {
    /// The configuration the battlefield was built with.
    pub config: GcBattlefieldConfig,
    /// The slots, in lane order.
    pub slots: Vec<GcBattlefieldSlot>,
}

impl GcBattlefield {
    /// A battlefield of `config.slot_count` empty slots.
    pub fn gc_new(config: GcBattlefieldConfig) -> (r: Self)
        ensures
            r.config.slot_count == config.slot_count,
            r.config.deploy_cost == config.deploy_cost,
            r.slots@.len() == config.slot_count,
            forall|j: int|
                0 <= j < r.slots@.len() ==> r.slots@[j] == (GcBattlefieldSlot {
                    index: j as usize,
                    card: None,
                    can_attack: false,
                    remaining_hp: 0,
                }),
    {
        let n = config.slot_count;
        let mut slots: Vec<GcBattlefieldSlot> = Vec::new();
        let mut i: usize = 0;
        while i < n
            invariant
                i <= n,
                slots@.len() == i,
                forall|j: int|
                    0 <= j < i ==> slots@[j] == (GcBattlefieldSlot {
                        index: j as usize,
                        card: None,
                        can_attack: false,
                        remaining_hp: 0,
                    }),
            decreases n - i,
        {
            slots.push(GcBattlefieldSlot::gc_new(i));
            i = i + 1;
        }
        GcBattlefield { config, slots }
    }

    /// A battlefield with the default configuration.
    pub fn gc_default() -> (r: Self)
        ensures
            r.config.slot_count == 5,
            r.config.deploy_cost == 1,
            r.slots@.len() == 5,
            forall|j: int| 0 <= j < 5 ==> r.slots@[j].card is None,
    {
        Self::gc_new(GcBattlefieldConfig::default())
    }

    /// The slot at `index`, if it exists.
    pub fn gc_get_slot(&self, index: usize) -> (r: Option<&GcBattlefieldSlot>)
        ensures
            index < self.slots@.len() ==> (r matches Some(s) && *s == self.slots@[index as int]),
            index >= self.slots@.len() ==> r is None,
    {
        if index < self.slots.len() {
            Some(&self.slots[index])
        } else {
            None
        }
    }

    /// Deploy a card into an empty slot; fails on a bad index or an occupied
    /// slot, mutating nothing.
    pub fn gc_deploy_to_slot(&mut self, slot_index: usize, card: GcCard) -> (r: Result<
        (),
        String,
    >)
        ensures
            r is Ok <==> (slot_index < old(self).slots@.len()
                && old(self).slots@[slot_index as int].card is None),
            r is Ok ==> {
                &&& final(self).slots@.len() == old(self).slots@.len()
                &&& final(self).slots@[slot_index as int].card matches Some(c) && c == card
                &&& !final(self).slots@[slot_index as int].can_attack
                &&& final(self).slots@[slot_index as int].remaining_hp == spec_deploy_hp(card)
                &&& final(self).slots@[slot_index as int].index
                    == old(self).slots@[slot_index as int].index
                &&& forall|j: int|
                    0 <= j < old(self).slots@.len() && j != slot_index ==> final(self).slots@[j]
                        == old(self).slots@[j]
                &&& final(self).config == old(self).config
            },
            r is Err ==> *final(self) == *old(self),
    {
        if slot_index >= self.slots.len() {
            return Err("无效的槽位".to_owned());
        }
        if self.slots[slot_index].card.is_some() {
            return Err("槽位已被占用".to_owned());
        }
        self.slots[slot_index].gc_deploy(card);
        Ok(())
    }

    /// Take the card out of a slot, if the index is valid and the slot holds
    /// one.
    pub fn gc_remove_from_slot(&mut self, slot_index: usize) -> (r: Option<GcCard>)
        ensures
            slot_index >= old(self).slots@.len() ==> r is None && *final(self) == *old(self),
            slot_index < old(self).slots@.len() ==> {
                &&& r == old(self).slots@[slot_index as int].card
                &&& final(self).slots@.len() == old(self).slots@.len()
                &&& final(self).slots@[slot_index as int].card is None
                &&& !final(self).slots@[slot_index as int].can_attack
                &&& final(self).slots@[slot_index as int].remaining_hp == 0
                &&& final(self).slots@[slot_index as int].index
                    == old(self).slots@[slot_index as int].index
                &&& forall|j: int|
                    0 <= j < old(self).slots@.len() && j != slot_index ==> final(self).slots@[j]
                        == old(self).slots@[j]
                &&& final(self).config == old(self).config
            },
    {
        if slot_index >= self.slots.len() {
            return None;
        }
        self.slots[slot_index].gc_remove()
    }

    /// Indices of the empty slots, in order.
    pub fn gc_get_empty_slots(&self) -> (r: Vec<usize>)
        ensures
            r@ == Seq::new(self.slots@.len(), |j: int| j as usize).filter(
                |j: usize| self.slots@[j as int].card is None,
            ),
    {
        let mut out: Vec<usize> = Vec::new();
        let ghost idxs = Seq::new(self.slots@.len(), |j: int| j as usize);
        let mut i: usize = 0;
        proof {
            assert(idxs.take(0) =~= Seq::<usize>::empty());
            assert(idxs.take(0).filter(|j: usize| self.slots@[j as int].card is None)
                =~= Seq::<usize>::empty());
        }
        while i < self.slots.len()
            invariant
                i <= self.slots@.len(),
                idxs == Seq::new(self.slots@.len(), |j: int| j as usize),
                out@ == idxs.take(i as int).filter(|j: usize| self.slots@[j as int].card is None),
            decreases self.slots@.len() - i,
        {
            proof {
                assert(idxs.take(i as int + 1).drop_last() =~= idxs.take(i as int));
                assert(idxs.take(i as int + 1).last() == i as usize);
                reveal(Seq::filter);
            }
            if self.slots[i].card.is_some() {
            } else {
                out.push(i);
            }
            i = i + 1;
        }
        proof {
            assert(idxs.take(i as int) =~= idxs);
        }
        out
    }

    /// Indices of the occupied slots, in order.
    pub fn gc_get_occupied_slots(&self) -> (r: Vec<usize>)
        ensures
            r@ == Seq::new(self.slots@.len(), |j: int| j as usize).filter(
                |j: usize| self.slots@[j as int].card is Some,
            ),
    {
        let mut out: Vec<usize> = Vec::new();
        let ghost idxs = Seq::new(self.slots@.len(), |j: int| j as usize);
        let mut i: usize = 0;
        proof {
            assert(idxs.take(0) =~= Seq::<usize>::empty());
            assert(idxs.take(0).filter(|j: usize| self.slots@[j as int].card is Some)
                =~= Seq::<usize>::empty());
        }
        while i < self.slots.len()
            invariant
                i <= self.slots@.len(),
                idxs == Seq::new(self.slots@.len(), |j: int| j as usize),
                out@ == idxs.take(i as int).filter(|j: usize| self.slots@[j as int].card is Some),
            decreases self.slots@.len() - i,
        {
            proof {
                assert(idxs.take(i as int + 1).drop_last() =~= idxs.take(i as int));
                assert(idxs.take(i as int + 1).last() == i as usize);
                reveal(Seq::filter);
            }
            if self.slots[i].card.is_some() {
                out.push(i);
            }
            i = i + 1;
        }
        proof {
            assert(idxs.take(i as int) =~= idxs);
        }
        out
    }

    /// Indices of the slots that stand ready to attack, in order.
    pub fn gc_get_attackable_slots(&self) -> (r: Vec<usize>)
        ensures
            r@ == Seq::new(self.slots@.len(), |j: int| j as usize).filter(
                |j: usize| spec_slot_attacking(self.slots@[j as int]),
            ),
    {
        let mut out: Vec<usize> = Vec::new();
        let ghost idxs = Seq::new(self.slots@.len(), |j: int| j as usize);
        let mut i: usize = 0;
        proof {
            assert(idxs.take(0) =~= Seq::<usize>::empty());
            assert(idxs.take(0).filter(|j: usize| spec_slot_attacking(self.slots@[j as int]))
                =~= Seq::<usize>::empty());
        }
        while i < self.slots.len()
            invariant
                i <= self.slots@.len(),
                idxs == Seq::new(self.slots@.len(), |j: int| j as usize),
                out@ == idxs.take(i as int).filter(
                    |j: usize| spec_slot_attacking(self.slots@[j as int]),
                ),
            decreases self.slots@.len() - i,
        {
            proof {
                assert(idxs.take(i as int + 1).drop_last() =~= idxs.take(i as int));
                assert(idxs.take(i as int + 1).last() == i as usize);
                reveal(Seq::filter);
            }
            if self.slots[i].can_attack && self.slots[i].card.is_some() {
                out.push(i);
            }
            i = i + 1;
        }
        proof {
            assert(idxs.take(i as int) =~= idxs);
        }
        out
    }

    /// Start of turn: every occupied slot becomes ready to attack.  Running
    /// it twice leaves the same flags as running it once.
    pub fn gc_on_turn_start(&mut self)
        ensures
            final(self).config == old(self).config,
            final(self).slots@.len() == old(self).slots@.len(),
            forall|j: int|
                0 <= j < old(self).slots@.len() ==> final(self).slots@[j] == spec_slot_enabled(
                    old(self).slots@[j],
                ),
    {
        let mut i: usize = 0;
        while i < self.slots.len()
            invariant
                i <= self.slots@.len(),
                self.slots@.len() == old(self).slots@.len(),
                self.config == old(self).config,
                forall|j: int|
                    0 <= j < i ==> self.slots@[j] == spec_slot_enabled(old(self).slots@[j]),
                forall|j: int| i <= j < self.slots@.len() ==> self.slots@[j] == old(self).slots@[j],
            decreases self.slots@.len() - i,
        {
            self.slots[i].gc_enable_attack();
            i = i + 1;
        }
    }

    /// Sum of the damage figures of the deployed cards, saturating.
    pub fn gc_total_attack(&self) -> (r: u32)
        ensures
            r == spec_total_attack_upto(self.slots@, self.slots@.len() as int),
    {
        let mut total: u32 = 0;
        let mut i: usize = 0;
        while i < self.slots.len()
            invariant
                i <= self.slots@.len(),
                total == spec_total_attack_upto(self.slots@, i as int),
            decreases self.slots@.len() - i,
        {
            match &self.slots[i].card {
                Some(c) => {
                    total = total.saturating_add(c.base_damage);
                },
                None => {},
            }
            i = i + 1;
        }
        total
    }

    /// Sum of the remaining shields, saturating.
    pub fn gc_total_defense(&self) -> (r: u32)
        ensures
            r == spec_total_defense_upto(self.slots@, self.slots@.len() as int),
    {
        let mut total: u32 = 0;
        let mut i: usize = 0;
        while i < self.slots.len()
            invariant
                i <= self.slots@.len(),
                total == spec_total_defense_upto(self.slots@, i as int),
            decreases self.slots@.len() - i,
        {
            total = total.saturating_add(self.slots[i].remaining_hp);
            i = i + 1;
        }
        total
    }

    /// Whether every slot is occupied.
    pub fn gc_is_full(&self) -> (r: bool)
        ensures
            r == (forall|j: int| 0 <= j < self.slots@.len() ==> self.slots@[j].card is Some),
    {
        let mut i: usize = 0;
        while i < self.slots.len()
            invariant
                i <= self.slots@.len(),
                forall|j: int| 0 <= j < i ==> self.slots@[j].card is Some,
            decreases self.slots@.len() - i,
        {
            if self.slots[i].card.is_none() {
                return false;
            }
            i = i + 1;
        }
        true
    }

    /// Number of occupied slots.
    pub fn gc_deployed_count(&self) -> (r: usize)
        ensures
            r == spec_deployed_upto(self.slots@, self.slots@.len() as int),
    {
        let mut count: usize = 0;
        let mut i: usize = 0;
        while i < self.slots.len()
            invariant
                i <= self.slots@.len(),
                count == spec_deployed_upto(self.slots@, i as int),
                count <= i,
            decreases self.slots@.len() - i,
        {
            if self.slots[i].card.is_some() {
                count = count + 1;
            }
            i = i + 1;
        }
        count
    }

    /// The lane-mirrored attack sweep.  Every slot that stands ready strikes
    /// the opposing slot of the same index, in slot order: an occupied lane
    /// takes shield damage (a destroyed card leaves its slot), an empty lane
    /// passes the full damage to the opposing player.  Afterwards every
    /// attacker is spent: all attack flags of this side are cleared.
    pub fn gc_attack_battlefield(&mut self, enemy_battlefield: &mut GcBattlefield) -> (r:
        GcBattlefieldCombatResult)
        ensures
            final(self).config == old(self).config,
            final(self).slots@.len() == old(self).slots@.len(),
            forall|j: int|
                0 <= j < old(self).slots@.len() ==> final(self).slots@[j] == (GcBattlefieldSlot {
                    can_attack: false,
                    ..old(self).slots@[j]
                }),
            final(enemy_battlefield).config == old(enemy_battlefield).config,
            final(enemy_battlefield).slots@.len() == old(enemy_battlefield).slots@.len(),
            forall|j: int|
                0 <= j < old(enemy_battlefield).slots@.len()
                    ==> final(enemy_battlefield).slots@[j] == spec_def_slot_after_sweep(
                    old(self).slots@,
                    old(enemy_battlefield).slots@,
                    j,
                ),
            r.player_damage == spec_player_damage_upto(
                old(self).slots@,
                old(enemy_battlefield).slots@,
                old(self).slots@.len() as int,
            ),
            r.cards_destroyed == spec_destroyed_upto(
                old(self).slots@,
                old(enemy_battlefield).slots@,
                old(self).slots@.len() as int,
            ),
            r.attacks@.len() == spec_attack_lanes(
                old(self).slots@,
                old(enemy_battlefield).slots@,
                old(self).slots@.len() as int,
            ).len(),
            forall|k: int|
                0 <= k < r.attacks@.len() ==> spec_attack_record_ok(
                    old(self).slots@,
                    old(enemy_battlefield).slots@,
                    spec_attack_lanes(
                        old(self).slots@,
                        old(enemy_battlefield).slots@,
                        old(self).slots@.len() as int,
                    )[k],
                    r.attacks@[k],
                ),
    {
        let ghost att0 = old(self).slots@;
        let ghost def0 = old(enemy_battlefield).slots@;
        let mut attacks: Vec<GcAttackResult> = Vec::new();
        let mut player_damage: u32 = 0;
        let mut cards_destroyed: u32 = 0;
        let mut i: usize = 0;
        while i < self.slots.len()
            invariant
                i <= att0.len(),
                self.slots@ == att0,
                self.config == old(self).config,
                att0 == old(self).slots@,
                def0 == old(enemy_battlefield).slots@,
                enemy_battlefield.config == old(enemy_battlefield).config,
                enemy_battlefield.slots@.len() == def0.len(),
                forall|j: int|
                    0 <= j < i && j < def0.len() ==> enemy_battlefield.slots@[j]
                        == spec_def_slot_after_sweep(att0, def0, j),
                forall|j: int|
                    i <= j < def0.len() ==> enemy_battlefield.slots@[j] == def0[j],
                forall|j: int|
                    0 <= j < def0.len() && j >= att0.len() ==> enemy_battlefield.slots@[j]
                        == def0[j],
                player_damage == spec_player_damage_upto(att0, def0, i as int),
                cards_destroyed == spec_destroyed_upto(att0, def0, i as int),
                attacks@.len() == spec_attack_lanes(att0, def0, i as int).len(),
                forall|k: int|
                    0 <= k < attacks@.len() ==> spec_attack_record_ok(
                        att0,
                        def0,
                        spec_attack_lanes(att0, def0, i as int)[k],
                        attacks@[k],
                    ),
            decreases att0.len() - i,
        {
            proof {
                assert(spec_attack_lanes(att0, def0, i as int + 1).len()
                    >= spec_attack_lanes(att0, def0, i as int).len());
            }
            if self.slots[i].can_attack && self.slots[i].card.is_some() {
                let damage = match &self.slots[i].card {
                    Some(c) => c.base_damage,
                    None => 0,
                };
                let attacker_name = match &self.slots[i].card {
                    Some(c) => c.name.clone(),
                    None => String::new(),
                };
                if i < enemy_battlefield.slots.len() {
                    if enemy_battlefield.slots[i].card.is_some() {
                        let target_name = match &enemy_battlefield.slots[i].card {
                            Some(c) => Some(c.name.clone()),
                            None => None,
                        };
                        let destroyed = enemy_battlefield.slots[i].gc_take_damage(damage);
                        if destroyed {
                            cards_destroyed = cards_destroyed.saturating_add(1);
                        }
                        attacks.push(
                            GcAttackResult {
                                attacker_slot: i,
                                attacker_name,
                                target_slot: i,
                                target_name,
                                damage,
                                target_destroyed: destroyed,
                                hit_player: false,
                            },
                        );
                    } else {
                        player_damage = player_damage.saturating_add(damage);
                        attacks.push(
                            GcAttackResult {
                                attacker_slot: i,
                                attacker_name,
                                target_slot: i,
                                target_name: None,
                                damage,
                                target_destroyed: false,
                                hit_player: true,
                            },
                        );
                    }
                }
            }
            i = i + 1;
        }
        let mut k: usize = 0;
        while k < self.slots.len()
            invariant
                k <= att0.len(),
                self.slots@.len() == att0.len(),
                self.config == old(self).config,
                att0 == old(self).slots@,
                forall|j: int|
                    0 <= j < k ==> self.slots@[j] == (GcBattlefieldSlot {
                        can_attack: false,
                        ..att0[j]
                    }),
                forall|j: int| k <= j < att0.len() ==> self.slots@[j] == att0[j],
            decreases att0.len() - k,
        {
            self.slots[k].can_attack = false;
            k = k + 1;
        }
        GcBattlefieldCombatResult { attacks, player_damage, cards_destroyed }
    }
}

/// Sum of the damage figures of the cards in the slots below `i`, saturating.
pub open spec fn spec_total_attack_upto(slots: Seq<GcBattlefieldSlot>, i: int) -> u32
    decreases i,
{
    if i <= 0 {
        0u32
    } else if slots[i - 1].card is Some {
        spec_total_attack_upto(slots, i - 1).saturating_add(slots[i - 1].card->0.base_damage)
    } else {
        spec_total_attack_upto(slots, i - 1)
    }
}

/// Sum of the shields of the slots below `i`, saturating.
pub open spec fn spec_total_defense_upto(slots: Seq<GcBattlefieldSlot>, i: int) -> u32
    decreases i,
{
    if i <= 0 {
        0u32
    } else {
        spec_total_defense_upto(slots, i - 1).saturating_add(slots[i - 1].remaining_hp)
    }
}

/// Number of occupied slots below `i`.
pub open spec fn spec_deployed_upto(slots: Seq<GcBattlefieldSlot>, i: int) -> int
    decreases i,
{
    if i <= 0 {
        0
    } else if slots[i - 1].card is Some {
        spec_deployed_upto(slots, i - 1) + 1
    } else {
        spec_deployed_upto(slots, i - 1)
    }
}

/// Law of the lane rule: an attacker standing ready in lane `i` whose opposing
/// slot is empty sends its full damage figure to the opposing player — the
/// sweep's player damage can never fall below it, whatever stands in the
/// other lanes — and its attack record says so.
pub proof fn lemma_lane_hit_player(
    att: Seq<GcBattlefieldSlot>,
    def: Seq<GcBattlefieldSlot>,
    i: int,
)
    requires
        0 <= i < att.len(),
        i < def.len(),
        spec_slot_attacking(att[i]),
        def[i].card is None,
    ensures
        spec_player_damage_upto(att, def, att.len() as int) >= spec_lane_damage(att, i)
            || spec_player_damage_upto(att, def, att.len() as int) == u32::MAX,
        spec_attack_lanes(att, def, att.len() as int).contains(i),
{
    lemma_player_damage_from(att, def, att.len() as int, i);
    lemma_attack_lanes_contains(att, def, att.len() as int, i);
}

proof fn lemma_player_damage_from(att: Seq<GcBattlefieldSlot>, def: Seq<GcBattlefieldSlot>, m: int, i: int)
    requires
        0 <= i < m <= att.len(),
        spec_lane_hits_player(att, def, i),
    ensures
        spec_player_damage_upto(att, def, m) >= spec_lane_damage(att, i)
            || spec_player_damage_upto(att, def, m) == u32::MAX,
    decreases m,
{
    if m == i + 1 {
    } else {
        lemma_player_damage_from(att, def, m - 1, i);
    }
}

proof fn lemma_attack_lanes_contains(
    att: Seq<GcBattlefieldSlot>,
    def: Seq<GcBattlefieldSlot>,
    m: int,
    i: int,
)
    requires
        0 <= i < m <= att.len(),
        spec_lane_attacks(att, def, i),
    ensures
        spec_attack_lanes(att, def, m).contains(i),
    decreases m,
{
    if m == i + 1 {
        assert(spec_attack_lanes(att, def, m).last() == i);
    } else {
        lemma_attack_lanes_contains(att, def, m - 1, i);
        let s = spec_attack_lanes(att, def, m - 1);
        let k = choose|k: int| 0 <= k < s.len() && s[k] == i;
        if spec_lane_attacks(att, def, m - 1) {
            assert(spec_attack_lanes(att, def, m)[k] == i);
        }
    }
}

/// Law of the start-of-turn wake-up: running it twice gives the same slots as
/// running it once.
pub proof fn lemma_on_turn_start_idempotent(s: GcBattlefieldSlot)
    ensures
        spec_slot_enabled(spec_slot_enabled(s)) == spec_slot_enabled(s),
{
}

} // verus!
