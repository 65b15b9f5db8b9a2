//! The turn and phase state machine: a linear five-phase cycle whose wrap
//! from End back to Draw starts the next turn and hands the initiative to the
//! other side.

use vstd::prelude::*;

verus! {

/// The five phases of one turn.
#[derive(Clone, Copy, Debug, Default, PartialEq, Eq, Structural)]
pub enum GcTurnPhase {
    /// Draw a card.
    #[default]
    Draw,
    /// First main phase: summons and spells.
    Main1,
    /// Battle phase: attacks.
    Battle,
    /// Second main phase: summons and spells after the battle.
    Main2,
    /// End of the turn.
    End,
}

/// Successor of each phase; End wraps to Draw.
pub open spec fn spec_next_phase(p: GcTurnPhase) -> GcTurnPhase {
    match p {
        GcTurnPhase::Draw => GcTurnPhase::Main1,
        GcTurnPhase::Main1 => GcTurnPhase::Battle,
        GcTurnPhase::Battle => GcTurnPhase::Main2,
        GcTurnPhase::Main2 => GcTurnPhase::End,
        GcTurnPhase::End => GcTurnPhase::Draw,
    }
}

impl GcTurnPhase {
    /// Display name of the phase.
    pub fn name(&self) -> (r: &'static str)
        ensures
            self is Draw ==> r@ == "抽牌阶段"@,
            self is Main1 ==> r@ == "主阶段1"@,
            self is Battle ==> r@ == "战斗阶段"@,
            self is Main2 ==> r@ == "主阶段2"@,
            self is End ==> r@ == "结束阶段"@,
    {
        match self {
            GcTurnPhase::Draw => "抽牌阶段",
            GcTurnPhase::Main1 => "主阶段1",
            GcTurnPhase::Battle => "战斗阶段",
            GcTurnPhase::Main2 => "主阶段2",
            GcTurnPhase::End => "结束阶段",
        }
    }

    /// Phase that follows this one.
    pub fn next(&self) -> (r: GcTurnPhase)
        ensures
            r == spec_next_phase(*self),
    {
        match self {
            GcTurnPhase::Draw => GcTurnPhase::Main1,
            GcTurnPhase::Main1 => GcTurnPhase::Battle,
            GcTurnPhase::Battle => GcTurnPhase::Main2,
            GcTurnPhase::Main2 => GcTurnPhase::End,
            GcTurnPhase::End => GcTurnPhase::Draw,
        }
    }

    /// Monsters may be summoned only in the two main phases.
    pub fn can_summon(&self) -> (r: bool)
        ensures
            r == (self is Main1 || self is Main2),
    {
        matches!(self, GcTurnPhase::Main1 | GcTurnPhase::Main2)
    }

    /// Spells may be played only in the two main phases.
    pub fn can_play_spell(&self) -> (r: bool)
        ensures
            r == (self is Main1 || self is Main2),
    {
        matches!(self, GcTurnPhase::Main1 | GcTurnPhase::Main2)
    }

    /// Attacks are allowed only in the battle phase.
    pub fn can_attack(&self) -> (r: bool)
        ensures
            r == (self is Battle),
    {
        matches!(self, GcTurnPhase::Battle)
    }
}

/// Per-turn state: the turn counter, the current phase, whose turn it is,
/// whether the one normal summon was used, and which slots already attacked.
///
/// Invariant kept by every operation: `attacked_slots` holds no duplicates.
#[derive(Clone, Debug)]
pub struct GcTurnState {
    /// Current turn, starting at 1.
    pub turn_number: u32,
    /// Current phase of the turn.
    pub phase: GcTurnPhase,
    /// Whether the player (rather than the opponent) is acting.
    pub is_player_turn: bool,
    /// Whether the one normal summon of this turn was used.
    pub normal_summon_used: bool,
    /// Slots that already attacked this turn.
    pub attacked_slots: Vec<u8>,
}

/// Mathematical model of a turn state.
pub open spec fn spec_turn_model(s: GcTurnState) -> (GcTurnPhase, u32, bool, bool, Seq<u8>) {
    (s.phase, s.turn_number, s.is_player_turn, s.normal_summon_used, s.attacked_slots@)
}

/// One `next_phase` step on the model: advance the phase; wrapping into Draw
/// additionally bumps the turn counter (saturating), flips the active side,
/// and clears the per-turn flags.
pub open spec fn spec_turn_step(m: (GcTurnPhase, u32, bool, bool, Seq<u8>)) -> (
    GcTurnPhase,
    u32,
    bool,
    bool,
    Seq<u8>,
) {
    let p = spec_next_phase(m.0);
    if p is Draw {
        (p, m.1.saturating_add(1), !m.2, false, Seq::<u8>::empty())
    } else {
        (p, m.1, m.2, m.3, m.4)
    }
}

impl Default for GcTurnState {
    /// Turn 1, Draw phase, player to act, nothing used yet.
    fn default() -> (r: Self)
        ensures
            r.turn_number == 1,
            r.phase is Draw,
            r.is_player_turn,
            !r.normal_summon_used,
            r.attacked_slots@ == Seq::<u8>::empty(),
    {
        GcTurnState {
            turn_number: 1,
            phase: GcTurnPhase::Draw,
            is_player_turn: true,
            normal_summon_used: false,
            attacked_slots: Vec::new(),
        }
    }
}

impl GcTurnState {
    /// Advance to the next phase; wrapping from End to Draw starts the next
    /// turn: the counter rises, the active side flips and the per-turn flags
    /// and the attacked set are cleared.
    pub fn next_phase(&mut self)
        ensures
            spec_turn_model(*final(self)) == spec_turn_step(spec_turn_model(*old(self))),
    {
        self.phase = self.phase.next();
        if matches!(self.phase, GcTurnPhase::Draw) {
            self.turn_number = self.turn_number.saturating_add(1);
            self.is_player_turn = !self.is_player_turn;
            self.normal_summon_used = false;
            self.attacked_slots = Vec::new();
            assert(self.attacked_slots@ =~= Seq::<u8>::empty());
        }
    }

    /// In Main1, jump straight to Main2 (skipping the battle); in any other
    /// phase, do nothing.
    pub fn skip_battle(&mut self)
        ensures
            old(self).phase is Main1 ==> *final(self) == (GcTurnState {
                phase: GcTurnPhase::Main2,
                ..*old(self)
            }),
            !(old(self).phase is Main1) ==> *final(self) == *old(self),
    {
        if matches!(self.phase, GcTurnPhase::Main1) {
            self.phase = GcTurnPhase::Main2;
        }
    }

    /// End the turn at once: as if the End phase had been reached and wrapped.
    pub fn end_turn(&mut self)
        ensures
            spec_turn_model(*final(self)) == spec_turn_step(
                (
                    GcTurnPhase::End,
                    old(self).turn_number,
                    old(self).is_player_turn,
                    old(self).normal_summon_used,
                    old(self).attacked_slots@,
                ),
            ),
    {
        self.phase = GcTurnPhase::End;
        self.next_phase();
    }

    /// Record that the monster in `slot` attacked; recording twice changes
    /// nothing.
    pub fn mark_attacked(&mut self, slot: u8)
        ensures
            old(self).attacked_slots@.contains(slot) ==> *final(self) == *old(self),
            !old(self).attacked_slots@.contains(slot) ==> *final(self) == (GcTurnState {
                attacked_slots: final(self).attacked_slots,
                ..*old(self)
            }) && final(self).attacked_slots@ == old(self).attacked_slots@.push(slot),
    {
        if !contains_u8(&self.attacked_slots, slot) {
            self.attacked_slots.push(slot);
        }
    }

    /// A monster may attack exactly in the battle phase and only if its slot
    /// has not attacked yet this turn.
    pub fn can_monster_attack(&self, slot: u8) -> (r: bool)
        ensures
            r == (self.phase is Battle && !self.attacked_slots@.contains(slot)),
    {
        self.phase.can_attack() && !contains_u8(&self.attacked_slots, slot)
    }
}

/// Whether `v` holds `x`.
fn contains_u8(v: &Vec<u8>, x: u8) -> (r: bool)
    ensures
        r == v@.contains(x),
{
    let mut i: usize = 0;
    while i < v.len()
        invariant
            i <= v@.len(),
            forall|j: int| 0 <= j < i ==> v@[j] != x,
        decreases v@.len() - i,
    {
        if v[i] == x {
            assert(v@.contains(x));
            return true;
        }
        i = i + 1;
    }
    assert(!v@.contains(x)) by {
        assert(forall|j: int| 0 <= j < v@.len() ==> v@[j] != x);
    }
    false
}

/// Law of the turn cycle: from any state standing in the Draw phase, five
/// consecutive phase steps lead back to Draw with the turn counter one higher,
/// the active side flipped exactly once, the normal-summon flag cleared and
/// the attacked set empty.
pub proof fn lemma_turn_cycle(m: (GcTurnPhase, u32, bool, bool, Seq<u8>))
    requires
        m.0 is Draw,
        m.1 < u32::MAX,
    ensures
        ({
            let f = spec_turn_step(
                spec_turn_step(spec_turn_step(spec_turn_step(spec_turn_step(m)))),
            );
            &&& f.0 is Draw
            &&& f.1 == m.1 + 1
            &&& f.2 == !m.2
            &&& !f.3
            &&& f.4 == Seq::<u8>::empty()
        }),
{
}

} // verus!
