//! The error kinds a battle can reject an action with.  Errors are plain
//! values; a rejected action never mutates any state.

use vstd::prelude::*;
use vstd::string::StringExecFns;

verus! {

/// Everything a battle entry point can fail with.
#[derive(Clone, Debug)]
pub enum GcError {
    /// The battle has already ended.
    GcBattleEnded,
    /// The acting player is not the current player.
    GcNotYourTurn,
    /// The battle has not started yet.
    GcBattleNotStarted,
    /// No player with the given id takes part in the battle.
    GcPlayerNotFound,
    /// The player is dead or otherwise unable to act.
    GcPlayerCannotAct,
    /// The card is not in the acting player's hand.
    GcCardNotInHand,
    /// No card with the given id exists.
    GcCardNotFound,
    /// The player lacks the energy the card costs.
    GcNotEnoughEnergy,
    /// The chosen target cannot be targeted.
    GcInvalidTarget,
    /// The chosen target is already dead.
    GcTargetDead,
    /// The player lacks the action points the operation costs.
    GcNotEnoughActionPoints,
    /// The requested card is not in the shared pool's display.
    GcCardNotInPool,
    /// The acting player's hand is full.
    GcHandFull,
    /// The battlefield slot index is out of range.
    GcInvalidSlot,
    /// The battlefield slot is already occupied.
    GcSlotOccupied,
    /// A rule violation described by the carried text.
    GcInvalidAction(String),
    /// An internal inconsistency described by the carried text.
    GcInternalError(String),
}

/// The numeric code of each error kind: battle errors in the 1000s, player
/// errors in the 2000s, card errors in the 3000s, target errors in the 4000s
/// and generic errors in the 9000s.
pub open spec fn spec_error_code(e: GcError) -> u32 {
    match e {
        GcError::GcBattleEnded => 1001u32,
        GcError::GcNotYourTurn => 1002u32,
        GcError::GcBattleNotStarted => 1003u32,
        GcError::GcPlayerNotFound => 2001u32,
        GcError::GcPlayerCannotAct => 2002u32,
        GcError::GcCardNotInHand => 3001u32,
        GcError::GcCardNotFound => 3002u32,
        GcError::GcNotEnoughEnergy => 3003u32,
        GcError::GcNotEnoughActionPoints => 3004u32,
        GcError::GcCardNotInPool => 3005u32,
        GcError::GcHandFull => 3006u32,
        GcError::GcInvalidTarget => 4001u32,
        GcError::GcTargetDead => 4002u32,
        GcError::GcInvalidSlot => 4003u32,
        GcError::GcSlotOccupied => 4004u32,
        GcError::GcInvalidAction(_) => 9001u32,
        GcError::GcInternalError(_) => 9999u32,
    }
}

impl GcError {
    /// Numeric code of this error.
    pub fn gc_code(&self) -> (r: u32)
        ensures
            r == spec_error_code(*self),
    {
        match self {
            GcError::GcBattleEnded => 1001,
            GcError::GcNotYourTurn => 1002,
            GcError::GcBattleNotStarted => 1003,
            GcError::GcPlayerNotFound => 2001,
            GcError::GcPlayerCannotAct => 2002,
            GcError::GcCardNotInHand => 3001,
            GcError::GcCardNotFound => 3002,
            GcError::GcNotEnoughEnergy => 3003,
            GcError::GcNotEnoughActionPoints => 3004,
            GcError::GcCardNotInPool => 3005,
            GcError::GcHandFull => 3006,
            GcError::GcInvalidTarget => 4001,
            GcError::GcTargetDead => 4002,
            GcError::GcInvalidSlot => 4003,
            GcError::GcSlotOccupied => 4004,
            GcError::GcInvalidAction(_) => 9001,
            GcError::GcInternalError(_) => 9999,
        }
    }

    /// The human-readable message of each error kind.
    pub open spec fn spec_message(&self) -> Seq<char> {
        match self {
            GcError::GcBattleEnded => "战斗已结束"@,
            GcError::GcNotYourTurn => "不是你的回合"@,
            GcError::GcBattleNotStarted => "战斗未开始"@,
            GcError::GcPlayerNotFound => "玩家不存在"@,
            GcError::GcPlayerCannotAct => "玩家无法行动"@,
            GcError::GcCardNotInHand => "卡牌不在手中"@,
            GcError::GcCardNotFound => "卡牌不存在"@,
            GcError::GcNotEnoughEnergy => "能量不足"@,
            GcError::GcNotEnoughActionPoints => "行动力不足"@,
            GcError::GcCardNotInPool => "卡牌不在卡池中"@,
            GcError::GcHandFull => "手牌已满"@,
            GcError::GcInvalidTarget => "无效目标"@,
            GcError::GcTargetDead => "目标已死亡"@,
            GcError::GcInvalidSlot => "无效的槽位"@,
            GcError::GcSlotOccupied => "槽位已被占用"@,
            GcError::GcInvalidAction(s) => "无效操作: "@ + s@,
            GcError::GcInternalError(s) => "内部错误: "@ + s@,
        }
    }

    /// Human-readable message of this error.
    pub fn gc_message(&self) -> (r: String)
        ensures
            r@ == self.spec_message(),
    {
        match self {
            GcError::GcBattleEnded => "战斗已结束".to_owned(),
            GcError::GcNotYourTurn => "不是你的回合".to_owned(),
            GcError::GcBattleNotStarted => "战斗未开始".to_owned(),
            GcError::GcPlayerNotFound => "玩家不存在".to_owned(),
            GcError::GcPlayerCannotAct => "玩家无法行动".to_owned(),
            GcError::GcCardNotInHand => "卡牌不在手中".to_owned(),
            GcError::GcCardNotFound => "卡牌不存在".to_owned(),
            GcError::GcNotEnoughEnergy => "能量不足".to_owned(),
            GcError::GcNotEnoughActionPoints => "行动力不足".to_owned(),
            GcError::GcCardNotInPool => "卡牌不在卡池中".to_owned(),
            GcError::GcHandFull => "手牌已满".to_owned(),
            GcError::GcInvalidTarget => "无效目标".to_owned(),
            GcError::GcTargetDead => "目标已死亡".to_owned(),
            GcError::GcInvalidSlot => "无效的槽位".to_owned(),
            GcError::GcSlotOccupied => "槽位已被占用".to_owned(),
            GcError::GcInvalidAction(s) => "无效操作: ".to_owned().concat(s.as_str()),
            GcError::GcInternalError(s) => "内部错误: ".to_owned().concat(s.as_str()),
        }
    }
}

} // verus!
