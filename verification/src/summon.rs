//! Summon legality: the stateless validators for normal, tribute and special
//! summons.  Normal summons are limited to one per turn and to levels up to
//! four; higher levels demand tributes; special summons are bound to the main
//! phase and never consume the per-turn normal summon.

use vstd::prelude::*;

verus! {

/// How a monster is brought onto the field.
#[derive(Clone, Debug, PartialEq)]
pub enum GcSummonType {
    /// The one unassisted summon per turn.
    Normal,
    /// A summon paid for with monsters already on the field.
    Tribute { sacrifice_slots: Vec<u8> },
    /// A summon granted by a card effect.
    Special,
}

/// Why a summon was rejected.
#[derive(Clone, Debug, PartialEq, Eq, Structural)]
pub enum GcSummonError {
    /// The normal summon of this turn was already used.
    NormalSummonUsed,
    /// Fewer sacrifice slots were offered than the level requires.
    InsufficientTributes { required: u8, provided: u8 },
    /// A sacrifice slot is out of range or empty.
    InvalidTributeSlot(u8),
    /// The target slot is already occupied.
    SlotOccupied(u8),
    /// The level is too high for a normal summon.
    LevelTooHigh(u8),
    /// The action is not allowed in the current phase.
    NotYourTurn,
}

/// Where a special summon comes from.
#[derive(Clone, Debug, PartialEq)]
pub enum GcSpecialSummonSource {
    /// Triggered by a card effect.
    CardEffect { card_id: String },
    /// Triggered by a monster effect.
    MonsterEffect { monster_id: String },
    /// Revived from the graveyard.
    Graveyard,
}

/// Tributes owed by level: none up to 4, one for 5 and 6, two from 7 on.
pub open spec fn spec_required_tributes(level: u8) -> u8 {
    if level <= 4 {
        0u8
    } else if level <= 6 {
        1u8
    } else {
        2u8
    }
}

/// Number of tribute monsters a summon of the given level costs.
pub fn gc_required_tributes(level: u8) -> (r: u8)
    ensures
        r == spec_required_tributes(level),
{
    if level <= 4 {
        0
    } else if level <= 6 {
        1
    } else {
        2
    }
}

/// Verdict on a normal summon: refused if this turn's normal summon was
/// already used, then if the level is above four.
pub open spec fn spec_validate_normal_summon(level: u8, normal_summon_used: bool) -> Result<
    (),
    GcSummonError,
> {
    if normal_summon_used {
        Err(GcSummonError::NormalSummonUsed)
    } else if level > 4 {
        Err(GcSummonError::LevelTooHigh(level))
    } else {
        Ok(())
    }
}

/// Validate a normal summon of a monster of the given level.
pub fn gc_validate_normal_summon(level: u8, normal_summon_used: bool) -> (r: Result<
    (),
    GcSummonError,
>)
    ensures
        r == spec_validate_normal_summon(level, normal_summon_used),
{
    if normal_summon_used {
        return Err(GcSummonError::NormalSummonUsed);
    }
    if level > 4 {
        return Err(GcSummonError::LevelTooHigh(level));
    }
    Ok(())
}

/// First offered slot, scanning left to right, that is out of range or not
/// occupied; `Ok` when every offered slot is a valid sacrifice.
pub open spec fn spec_tribute_slots_check(slots: Seq<u8>, occupied: Seq<bool>) -> Result<
    (),
    GcSummonError,
>
    recommends
        occupied.len() == 5,
    decreases slots.len(),
{
    if slots.len() == 0 {
        Ok(())
    } else if slots[0] >= 5 || !occupied[slots[0] as int] {
        Err(GcSummonError::InvalidTributeSlot(slots[0]))
    } else {
        spec_tribute_slots_check(slots.drop_first(), occupied)
    }
}

/// Verdict on a tribute summon: refused if fewer slots are offered than the
/// level requires, then at the first offered slot that is invalid.
pub open spec fn spec_validate_tribute_summon(
    level: u8,
    slots: Seq<u8>,
    occupied: Seq<bool>,
) -> Result<(), GcSummonError> {
    let required = spec_required_tributes(level);
    if slots.len() < required as int {
        Err(GcSummonError::InsufficientTributes { required, provided: slots.len() as u8 })
    } else {
        spec_tribute_slots_check(slots, occupied)
    }
}

/// Validate a tribute summon of a monster of the given level, offering the
/// monsters in `sacrifice_slots` against the given occupancy.
pub fn gc_validate_tribute_summon(
    level: u8,
    sacrifice_slots: &[u8],
    occupied_slots: &[bool; 5],
) -> (r: Result<(), GcSummonError>)
    ensures
        r == spec_validate_tribute_summon(level, sacrifice_slots@, occupied_slots@),
{
    let required = gc_required_tributes(level);
    if sacrifice_slots.len() < required as usize {
        return Err(
            GcSummonError::InsufficientTributes {
                required,
                provided: sacrifice_slots.len() as u8,
            },
        );
    }
    let ghost full = sacrifice_slots@;
    proof {
        assert(full.skip(0) =~= full);
    }
    let mut i: usize = 0;
    while i < sacrifice_slots.len()
        invariant
            i <= full.len(),
            full == sacrifice_slots@,
            full.len() >= spec_required_tributes(level) as int,
            occupied_slots@.len() == 5,
            spec_tribute_slots_check(full, occupied_slots@) == spec_tribute_slots_check(
                full.skip(i as int),
                occupied_slots@,
            ),
        decreases full.len() - i,
    {
        let slot = sacrifice_slots[i];
        assert(full.skip(i as int)[0] == slot);
        if slot >= 5 || !occupied_slots[slot as usize] {
            proof {
                assert(full.skip(i as int).len() > 0);
                assert(spec_tribute_slots_check(full.skip(i as int), occupied_slots@) == Err::<
                    (),
                    GcSummonError,
                >(GcSummonError::InvalidTributeSlot(slot)));
            }
            return Err(GcSummonError::InvalidTributeSlot(slot));
        }
        assert(full.skip(i as int).drop_first() =~= full.skip(i as int + 1));
        i = i + 1;
    }
    assert(full.skip(i as int) =~= Seq::<u8>::empty());
    Ok(())
}

/// Verdict on a special summon: refused outside the main phase, then for a
/// target slot out of range, then for an occupied target slot.
pub open spec fn spec_validate_special_summon(
    is_main_phase: bool,
    target_slot: u8,
    occupied: Seq<bool>,
) -> Result<(), GcSummonError> {
    if !is_main_phase {
        Err(GcSummonError::NotYourTurn)
    } else if target_slot >= 5 {
        Err(GcSummonError::InvalidTributeSlot(target_slot))
    } else if occupied[target_slot as int] {
        Err(GcSummonError::SlotOccupied(target_slot))
    } else {
        Ok(())
    }
}

/// Validate a special summon into `target_slot`.  A special summon never
/// consumes the per-turn normal summon.
pub fn gc_validate_special_summon(
    is_main_phase: bool,
    target_slot: u8,
    occupied_slots: &[bool; 5],
) -> (r: Result<(), GcSummonError>)
    ensures
        r == spec_validate_special_summon(is_main_phase, target_slot, occupied_slots@),
{
    if !is_main_phase {
        return Err(GcSummonError::NotYourTurn);
    }
    if target_slot >= 5 {
        return Err(GcSummonError::InvalidTributeSlot(target_slot));
    }
    if occupied_slots[target_slot as usize] {
        return Err(GcSummonError::SlotOccupied(target_slot));
    }
    Ok(())
}

} // verus!
