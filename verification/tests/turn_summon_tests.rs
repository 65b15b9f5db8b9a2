//! The phase cycle and the summon validators.

use game_core::summon::{
    gc_required_tributes, gc_validate_normal_summon, gc_validate_special_summon,
    gc_validate_tribute_summon, GcSummonError,
};
use game_core::turn::{GcTurnPhase, GcTurnState};

#[test]
fn test_phase_flow() {
    let mut state = GcTurnState::default();
    assert_eq!(state.phase, GcTurnPhase::Draw);
    assert!(state.is_player_turn);

    state.next_phase();
    assert_eq!(state.phase, GcTurnPhase::Main1);

    state.next_phase();
    assert_eq!(state.phase, GcTurnPhase::Battle);

    state.next_phase();
    assert_eq!(state.phase, GcTurnPhase::Main2);

    state.next_phase();
    assert_eq!(state.phase, GcTurnPhase::End);

    state.next_phase();
    assert_eq!(state.phase, GcTurnPhase::Draw);
    assert!(!state.is_player_turn);
    assert_eq!(state.turn_number, 2);
}

#[test]
fn test_turn_cycle_flips_side_once() {
    // Five steps from Draw return to Draw with the counter one higher, the
    // side flipped exactly once, and the per-turn state cleared.
    let mut state = GcTurnState::default();
    state.normal_summon_used = true;
    state.mark_attacked(3);
    for _ in 0..5 {
        state.next_phase();
    }
    assert_eq!(state.phase, GcTurnPhase::Draw);
    assert_eq!(state.turn_number, 2);
    assert!(!state.is_player_turn);
    assert!(!state.normal_summon_used);
    assert!(state.attacked_slots.is_empty());
}

#[test]
fn test_mark_attacked_idempotent_and_gating() {
    let mut state = GcTurnState::default();
    state.phase = GcTurnPhase::Battle;
    assert!(state.can_monster_attack(2));
    state.mark_attacked(2);
    state.mark_attacked(2);
    assert_eq!(state.attacked_slots.len(), 1);
    assert!(!state.can_monster_attack(2));
    assert!(state.can_monster_attack(4));
    // Outside the battle phase nothing may attack.
    state.phase = GcTurnPhase::Main1;
    assert!(!state.can_monster_attack(4));
    assert!(state.phase.can_summon());
    assert!(!state.phase.can_attack());
}

#[test]
fn test_required_tributes_by_level() {
    assert_eq!(gc_required_tributes(1), 0);
    assert_eq!(gc_required_tributes(4), 0);
    assert_eq!(gc_required_tributes(5), 1);
    assert_eq!(gc_required_tributes(6), 1);
    assert_eq!(gc_required_tributes(7), 2);
    assert_eq!(gc_required_tributes(12), 2);
}

#[test]
fn test_validate_normal_summon_rules() {
    assert!(gc_validate_normal_summon(4, false).is_ok());
    assert_eq!(
        gc_validate_normal_summon(4, true),
        Err(GcSummonError::NormalSummonUsed)
    );
    assert_eq!(
        gc_validate_normal_summon(5, false),
        Err(GcSummonError::LevelTooHigh(5))
    );
}

#[test]
fn test_validate_tribute_summon_rules() {
    let occupied = [true, false, true, false, false];
    assert!(gc_validate_tribute_summon(6, &[0], &occupied).is_ok());
    assert_eq!(
        gc_validate_tribute_summon(7, &[0], &occupied),
        Err(GcSummonError::InsufficientTributes { required: 2, provided: 1 })
    );
    assert_eq!(
        gc_validate_tribute_summon(7, &[0, 1], &occupied),
        Err(GcSummonError::InvalidTributeSlot(1))
    );
    assert_eq!(
        gc_validate_tribute_summon(5, &[9], &occupied),
        Err(GcSummonError::InvalidTributeSlot(9))
    );
    assert!(gc_validate_tribute_summon(7, &[0, 2], &occupied).is_ok());
}

#[test]
fn test_validate_special_summon_rules() {
    let occupied = [true, false, true, false, false];
    assert!(gc_validate_special_summon(true, 1, &occupied).is_ok());
    assert_eq!(
        gc_validate_special_summon(false, 1, &occupied),
        Err(GcSummonError::NotYourTurn)
    );
    assert_eq!(
        gc_validate_special_summon(true, 5, &occupied),
        Err(GcSummonError::InvalidTributeSlot(5))
    );
    assert_eq!(
        gc_validate_special_summon(true, 0, &occupied),
        Err(GcSummonError::SlotOccupied(0))
    );
}

#[test]
fn test_skip_battle_and_end_turn() {
    let mut state = GcTurnState::default();
    state.next_phase();
    assert_eq!(state.phase, GcTurnPhase::Main1);
    state.skip_battle();
    assert_eq!(state.phase, GcTurnPhase::Main2);
    state.end_turn();
    assert_eq!(state.phase, GcTurnPhase::Draw);
    assert_eq!(state.turn_number, 2);
}
