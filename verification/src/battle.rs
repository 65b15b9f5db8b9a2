//! The battle orchestrator: owns the players, the shared card pool and the
//! phase, validates every action before any mutation, applies card plays and
//! battlefield combat, and evaluates victory.

use vstd::prelude::*;
use vstd::string::StringExecFns;

use crate::battlefield::{
    spec_attack_lanes, spec_destroyed_upto, spec_enabled_slots, spec_player_damage_upto,
    spec_spent_slots, spec_swept_def, GcBattlefieldCombatResult,
};
use crate::card::{spec_card_like, GcCard};
use crate::card_pool::{GcCardPool, GcCardPoolConfig};
use crate::effect::GcEffectResult;
use crate::error::GcError;
use crate::player::{GcPlayer, GcPlayerState, GcPlayerStats};
use crate::text::{decimal_string, str_eq};
use crate::types::{GcBattleId, GcConfig, GcDamageResult, GcPlayerId};

verus! {

/// Coarse phase of a whole battle.
#[derive(Clone, Copy, Debug, PartialEq, Eq, Structural)]
pub enum GcBattlePhase {
    /// Not yet under way.
    Starting,
    /// The current player draws.
    DrawCard,
    /// The current player acts.
    Playing,
    /// The turn is being wrapped up.
    EndTurn,
    /// Over; the winner is recorded.
    Finished,
}

impl Default for GcBattlePhase {
    /// Starting.
    fn default() -> (r: Self)
        ensures
            r is Starting,
    {
        GcBattlePhase::Starting
    }
}

/// Outcome of playing one card.
#[derive(Clone, Debug)]
pub struct GcPlayCardResult {
    /// Whether the play went through.
    pub success: bool,
    /// Why it did not, otherwise.
    pub error: Option<String>,
    /// The card played.
    pub card_used: Option<GcCard>,
    /// Damage dealt to the target.
    pub damage_dealt: u32,
    /// Effects that fired.
    pub effects_triggered: Vec<GcEffectResult>,
    /// Whether the target fell.
    pub target_killed: bool,
}

impl GcPlayCardResult {
    /// A successful play.
    pub fn success(card: GcCard, damage: u32, effects: Vec<GcEffectResult>, killed: bool) -> (r:
        Self)
        ensures
            r.success,
            r.error is None,
            r.card_used == Some(card),
            r.damage_dealt == damage,
            r.effects_triggered == effects,
            r.target_killed == killed,
    {
        GcPlayCardResult {
            success: true,
            error: None,
            card_used: Some(card),
            damage_dealt: damage,
            effects_triggered: effects,
            target_killed: killed,
        }
    }

    /// A rejected play with its reason.
    pub fn fail(error: String) -> (r: Self)
        ensures
            !r.success,
            r.error == Some(error),
            r.card_used is None,
            r.damage_dealt == 0,
            r.effects_triggered@.len() == 0,
            !r.target_killed,
    {
        GcPlayCardResult {
            success: false,
            error: Some(error),
            card_used: None,
            damage_dealt: 0,
            effects_triggered: Vec::new(),
            target_killed: false,
        }
    }
}

/// Outcome of the end-of-turn battlefield exchange.
#[derive(Clone, Debug)]
pub struct GcEndTurnResult {
    /// The current player's sweep.
    pub player_combat: GcBattlefieldCombatResult,
    /// The opponent's counter sweep.
    pub opponent_combat: GcBattlefieldCombatResult,
    /// Damage the current player took.
    pub player_damage_taken: u32,
    /// Damage the opponent took.
    pub opponent_damage_taken: u32,
    /// Whether this exchange ended the battle.
    pub battle_ended: bool,
    /// The winner, if it did.
    pub winner_id: Option<String>,
}

/// A whole battle.
///
/// Invariant: every mutating entry point validates fully before mutating, so
/// a rejected action leaves the state untouched.
#[derive(Clone, Debug)]
pub struct GcBattleState {
    pub id: GcBattleId,
    /// Turn counter, starting at 1.
    pub turn: u32,
    /// Index of the acting player.
    pub current_player_index: usize,
    pub players: Vec<GcPlayer>,
    pub phase: GcBattlePhase,
    /// Seconds a turn may take.
    pub turn_time_limit: u32,
    /// The winner, once the battle is over.
    pub winner_id: Option<GcPlayerId>,
    /// The shared card pool.
    pub card_pool: GcCardPool,
    /// Action points granted per turn.
    pub action_points_per_turn: u32,
}

/// Players below `i` that can act.
pub open spec fn spec_can_act_count(players: Seq<GcPlayer>, i: int) -> int
    decreases i,
{
    if i <= 0 {
        0
    } else if players[i - 1].state is Alive && players[i - 1].stats.hp > 0 {
        spec_can_act_count(players, i - 1) + 1
    } else {
        spec_can_act_count(players, i - 1)
    }
}

/// Whether a player value can act.
pub open spec fn spec_can_act(p: GcPlayer) -> bool {
    p.state is Alive && p.stats.hp > 0
}

/// The next index around the circle of `len` seats.
pub open spec fn spec_step_index(i: int, len: int) -> int {
    if i + 1 >= len {
        0
    } else {
        i + 1
    }
}

/// The `k`-th candidate of the circular turn search: one step past `cur0`,
/// then one further per `k`.
pub open spec fn spec_turn_candidate(cur0: int, len: int, k: nat) -> int
    decreases k,
{
    if k == 0 {
        spec_step_index(cur0, len)
    } else {
        spec_step_index(spec_turn_candidate(cur0, len, (k - 1) as nat), len)
    }
}

/// Index of the first player carrying the id; -1 when none does.
pub open spec fn spec_player_index(players: Seq<GcPlayer>, id: Seq<char>) -> int
    decreases players.len(),
{
    if players.len() == 0 {
        -1
    } else if players[0].id@ == id {
        0
    } else if spec_player_index(players.drop_first(), id) < 0 {
        -1
    } else {
        1 + spec_player_index(players.drop_first(), id)
    }
}

/// Index of the first hand card carrying the id; -1 when none does.
pub open spec fn spec_card_index(hand: Seq<GcCard>, id: Seq<char>) -> int
    decreases hand.len(),
{
    if hand.len() == 0 {
        -1
    } else if hand[0].id@ == id {
        0
    } else if spec_card_index(hand.drop_first(), id) < 0 {
        -1
    } else {
        1 + spec_card_index(hand.drop_first(), id)
    }
}

/// The player index function finds the first match: it is -1 exactly when no
/// player carries the id, and otherwise points at the least index that does.
pub proof fn lemma_player_index_props(players: Seq<GcPlayer>, id: Seq<char>)
    ensures
        ({
            let pi = spec_player_index(players, id);
            &&& -1 <= pi < players.len()
            &&& ((pi == -1) <==> (forall|j: int|
                0 <= j < players.len() ==> (#[trigger] players[j]).id@ != id))
            &&& (pi >= 0 ==> players[pi].id@ == id && (forall|j: int|
                0 <= j < pi ==> (#[trigger] players[j]).id@ != id))
        }),
    decreases players.len(),
{
    if players.len() > 0 && players[0].id@ != id {
        let rest = players.drop_first();
        lemma_player_index_props(rest, id);
        assert(forall|j: int| 0 <= j < rest.len() ==> (#[trigger] rest[j]) == players[j + 1]);
        let pr = spec_player_index(rest, id);
        if pr < 0 {
            assert(forall|j: int|
                0 <= j < players.len() ==> (#[trigger] players[j]).id@ != id) by {
                assert(forall|j: int| 1 <= j < players.len() ==> players[j] == rest[j - 1]);
            };
        } else {
            assert(players[pr + 1].id@ == id);
            assert(forall|j: int| 0 <= j < pr + 1 ==> (#[trigger] players[j]).id@ != id) by {
                assert(forall|j: int| 1 <= j < pr + 1 ==> players[j] == rest[j - 1]);
            };
        }
    }
}

/// The card index function finds the first match, in the same sense.
pub proof fn lemma_card_index_props(hand: Seq<GcCard>, id: Seq<char>)
    ensures
        ({
            let ci = spec_card_index(hand, id);
            &&& -1 <= ci < hand.len()
            &&& ((ci == -1) <==> (forall|j: int|
                0 <= j < hand.len() ==> (#[trigger] hand[j]).id@ != id))
            &&& (ci >= 0 ==> hand[ci].id@ == id && (forall|j: int|
                0 <= j < ci ==> (#[trigger] hand[j]).id@ != id))
        }),
    decreases hand.len(),
{
    if hand.len() > 0 && hand[0].id@ != id {
        let rest = hand.drop_first();
        lemma_card_index_props(rest, id);
        assert(forall|j: int| 0 <= j < rest.len() ==> (#[trigger] rest[j]) == hand[j + 1]);
        let cr = spec_card_index(rest, id);
        if cr < 0 {
            assert(forall|j: int| 0 <= j < hand.len() ==> (#[trigger] hand[j]).id@ != id) by {
                assert(forall|j: int| 1 <= j < hand.len() ==> hand[j] == rest[j - 1]);
            };
        } else {
            assert(hand[cr + 1].id@ == id);
            assert(forall|j: int| 0 <= j < cr + 1 ==> (#[trigger] hand[j]).id@ != id) by {
                assert(forall|j: int| 1 <= j < cr + 1 ==> hand[j] == rest[j - 1]);
            };
        }
    }
}

/// A witnessed first match pins the index function's value.
pub proof fn lemma_first_player_index(players: Seq<GcPlayer>, id: Seq<char>, k: int)
    requires
        spec_first_player_at(players, id, k),
    ensures
        spec_player_index(players, id) == k,
{
    lemma_player_index_props(players, id);
}

impl GcBattleState {
    /// A fresh battle over the given players with a default, initialized
    /// pool: turn one, first player to act, five action points per turn.
    pub fn gc_new(id: &str, players: Vec<GcPlayer>) -> (r: Self)
        ensures
            r.id@ == id@,
            r.turn == 1,
            r.current_player_index == 0,
            r.players == players,
            r.phase is Starting,
            r.turn_time_limit == GcConfig::TURN_TIME_LIMIT,
            r.winner_id is None,
            r.action_points_per_turn == 5,
            r.card_pool.display@.len() == 5,
    {
        let mut card_pool = GcCardPool::gc_default();
        card_pool.gc_initialize();
        GcBattleState {
            id: id.to_owned(),
            turn: 1,
            current_player_index: 0,
            players,
            phase: GcBattlePhase::Starting,
            turn_time_limit: GcConfig::TURN_TIME_LIMIT,
            winner_id: None,
            card_pool,
            action_points_per_turn: 5,
        }
    }

    /// A fresh battle with a custom pool shape and action point budget.
    pub fn gc_new_with_config(
        id: &str,
        players: Vec<GcPlayer>,
        pool_config: GcCardPoolConfig,
        action_points: u32,
    ) -> (r: Self)
        requires
            pool_config.initial_pool_size <= 100000,
        ensures
            r.id@ == id@,
            r.turn == 1,
            r.current_player_index == 0,
            r.players == players,
            r.phase is Starting,
            r.turn_time_limit == GcConfig::TURN_TIME_LIMIT,
            r.winner_id is None,
            r.action_points_per_turn == action_points,
    {
        let mut card_pool = GcCardPool::gc_new(pool_config);
        card_pool.gc_initialize();
        GcBattleState {
            id: id.to_owned(),
            turn: 1,
            current_player_index: 0,
            players,
            phase: GcBattlePhase::Starting,
            turn_time_limit: GcConfig::TURN_TIME_LIMIT,
            winner_id: None,
            card_pool,
            action_points_per_turn: action_points,
        }
    }

    /// The pool's display.
    pub fn gc_get_pool_display(&self) -> (r: &[GcCard])
        ensures
            r@ == self.card_pool.display@,
    {
        self.card_pool.gc_get_display()
    }

    /// The acting player, if the index is sound.
    pub fn gc_current_player(&self) -> (r: Option<&GcPlayer>)
        ensures
            self.current_player_index < self.players@.len() ==> (r matches Some(p) && *p
                == self.players@[self.current_player_index as int]),
            self.current_player_index >= self.players@.len() ==> r is None,
    {
        if self.current_player_index < self.players.len() {
            Some(&self.players[self.current_player_index])
        } else {
            None
        }
    }

    /// The acting player's id.
    pub fn gc_current_player_id(&self) -> (r: Option<&str>)
        ensures
            self.current_player_index < self.players@.len() ==> (r matches Some(s) && s@
                == self.players@[self.current_player_index as int].id@),
            self.current_player_index >= self.players@.len() ==> r is None,
    {
        if self.current_player_index < self.players.len() {
            Some(self.players[self.current_player_index].id.as_str())
        } else {
            None
        }
    }

    /// The first player with the given id.
    pub fn gc_find_player(&self, player_id: &str) -> (r: Option<&GcPlayer>)
        ensures
            r is None ==> (forall|j: int|
                0 <= j < self.players@.len() ==> (#[trigger] self.players@[j]).id@ != player_id@),
            r matches Some(p) ==> exists|idx: int|
                #[trigger] spec_first_player_at(self.players@, player_id@, idx) && *p
                    == self.players@[idx],
    {
        let mut i: usize = 0;
        while i < self.players.len()
            invariant
                i <= self.players@.len(),
                forall|j: int| 0 <= j < i ==> (#[trigger] self.players@[j]).id@ != player_id@,
            decreases self.players@.len() - i,
        {
            if str_eq(self.players[i].id.as_str(), player_id) {
                proof {
                    assert(spec_first_player_at(self.players@, player_id@, i as int));
                }
                return Some(&self.players[i]);
            }
            i = i + 1;
        }
        None
    }

    /// The index of the first player with the given id.
    fn find_player_index(&self, player_id: &str) -> (r: Option<usize>)
        ensures
            r is None ==> (forall|j: int|
                0 <= j < self.players@.len() ==> (#[trigger] self.players@[j]).id@ != player_id@),
            r matches Some(idx) ==> 0 <= idx < self.players@.len() && self.players@[idx as int].id@ == player_id@ && (forall|j: int|
                0 <= j < idx ==> (#[trigger] self.players@[j]).id@ != player_id@),
    {
        let mut i: usize = 0;
        while i < self.players.len()
            invariant
                i <= self.players@.len(),
                forall|j: int| 0 <= j < i ==> (#[trigger] self.players@[j]).id@ != player_id@,
            decreases self.players@.len() - i,
        {
            if str_eq(self.players[i].id.as_str(), player_id) {
                return Some(i);
            }
            i = i + 1;
        }
        None
    }

    /// Whether the battle has ended.
    pub fn gc_is_finished(&self) -> (r: bool)
        ensures
            r == (self.phase is Finished),
    {
        matches!(self.phase, GcBattlePhase::Finished)
    }

    /// Victory evaluation: when at most one player can still act, the battle
    /// finishes and the first such player (or nobody) is the winner; with two
    /// or more able players nothing changes.
    pub fn gc_check_battle_end(&mut self)
        ensures
            spec_can_act_count(old(self).players@, old(self).players@.len() as int) > 1 ==> *final(self) == *old(self),
            spec_can_act_count(old(self).players@, old(self).players@.len() as int) <= 1 ==> {
                &&& final(self).phase is Finished
                &&& final(self).players == old(self).players
                &&& final(self).turn == old(self).turn
                &&& final(self).id == old(self).id
                &&& final(self).card_pool == old(self).card_pool
                &&& final(self).current_player_index == old(self).current_player_index
                &&& (spec_can_act_count(old(self).players@, old(self).players@.len() as int) == 0
                    ==> final(self).winner_id is None)
                &&& (spec_can_act_count(old(self).players@, old(self).players@.len() as int) == 1
                    ==> (final(self).winner_id matches Some(w) && exists|idx: int|
                    0 <= idx < old(self).players@.len() && spec_can_act(
                        #[trigger] old(self).players@[idx],
                    ) && w@ == old(self).players@[idx].id@))
            },
    {
        let mut alive: usize = 0;
        let mut first_alive: Option<usize> = None;
        let mut i: usize = 0;
        while i < self.players.len()
            invariant
                i <= self.players@.len(),
                *self == *old(self),
                alive == spec_can_act_count(self.players@, i as int),
                alive <= i,
                alive == 0 <==> first_alive is None,
                first_alive matches Some(f) ==> 0 <= f < i && spec_can_act(
                    self.players@[f as int],
                ),
            decreases self.players@.len() - i,
        {
            if self.players[i].gc_can_act() {
                if first_alive.is_none() {
                    first_alive = Some(i);
                }
                alive = alive + 1;
            }
            i = i + 1;
        }
        if alive <= 1 {
            self.phase = GcBattlePhase::Finished;
            self.winner_id = match first_alive {
                Some(f) => Some(self.players[f].id.clone()),
                None => None,
            };
        }
    }

    /// Hand the turn to the first player after the current one, searching
    /// forward circularly, who can act (players who cannot are skipped): that
    /// player's action points reset, the turn counter rises and the phase
    /// returns to the draw step.  When nobody at all can act, victory is
    /// evaluated instead of advancing.
    pub fn gc_next_turn(&mut self)
        requires
            old(self).turn < u32::MAX,
        ensures
            final(self).players@.len() == old(self).players@.len(),
            final(self).id == old(self).id,
            ({
                let players = old(self).players@;
                let len = players.len() as int;
                let cur0 = old(self).current_player_index as int % len;
                &&& (len > 0 && (exists|k: nat|
                    k < len && spec_can_act(#[trigger] players[spec_turn_candidate(cur0, len, k)]))
                    ==> (exists|k: nat|
                    #![trigger spec_turn_candidate(cur0, len, k)]
                    {
                        let chosen = spec_turn_candidate(cur0, len, k);
                        &&& k < len
                        &&& spec_can_act(players[chosen])
                        &&& (forall|j: nat|
                            j < k ==> !spec_can_act(
                                #[trigger] players[spec_turn_candidate(cur0, len, j)],
                            ))
                        &&& final(self).current_player_index == chosen
                        &&& final(self).players@ == players.update(
                            chosen,
                            GcPlayer {
                                stats: GcPlayerStats {
                                    action_points: players[chosen].stats.max_action_points,
                                    ..players[chosen].stats
                                },
                                ..players[chosen]
                            },
                        )
                        &&& final(self).turn == old(self).turn + 1
                        &&& final(self).phase is DrawCard
                        &&& final(self).winner_id == old(self).winner_id
                        &&& final(self).card_pool == old(self).card_pool
                    }))
                &&& ((len == 0 || (forall|k: nat|
                    k < len ==> !spec_can_act(
                        #[trigger] players[spec_turn_candidate(cur0, len, k)],
                    ))) ==> {
                    &&& final(self).players == old(self).players
                    &&& final(self).turn == old(self).turn
                    &&& final(self).current_player_index == old(self).current_player_index
                    &&& (spec_can_act_count(players, len) <= 1 ==> final(self).phase is Finished)
                    &&& (spec_can_act_count(players, len) > 1 ==> final(self).phase == old(
                        self,
                    ).phase && final(self).winner_id == old(self).winner_id)
                    &&& (spec_can_act_count(players, len) == 0 ==> final(self).winner_id is None)
                })
            }),
    {
        let player_count = self.players.len();
        if player_count == 0 {
            self.gc_check_battle_end();
            return ;
        }
        let ghost cur0 = old(self).current_player_index as int % player_count as int;
        let mut idx: usize = self.current_player_index % player_count;
        let mut k: usize = 0;
        while k < player_count
            invariant
                k <= player_count,
                player_count == self.players@.len(),
                player_count > 0,
                idx < player_count,
                old(self).turn < u32::MAX,
                *self == *old(self),
                cur0 == old(self).current_player_index as int % player_count as int,
                k == 0 ==> idx as int == cur0,
                k > 0 ==> idx as int == spec_turn_candidate(
                    cur0,
                    player_count as int,
                    (k - 1) as nat,
                ),
                forall|j: nat|
                    j < k ==> !spec_can_act(
                        #[trigger] self.players@[spec_turn_candidate(
                            cur0,
                            player_count as int,
                            j,
                        )],
                    ),
            decreases player_count - k,
        {
            idx = if idx + 1 >= player_count {
                0
            } else {
                idx + 1
            };
            proof {
                assert(idx as int == spec_turn_candidate(cur0, player_count as int, k as nat));
            }
            if self.players[idx].gc_can_act() {
                self.players[idx].stats.gc_reset_action_points();
                self.current_player_index = idx;
                self.turn = self.turn + 1;
                self.phase = GcBattlePhase::DrawCard;
                proof {
                    assert(self.players@ =~= old(self).players@.update(
                        idx as int,
                        GcPlayer {
                            stats: GcPlayerStats {
                                action_points: old(self).players@[
                                    idx as int
                                ].stats.max_action_points,
                                ..old(self).players@[idx as int].stats
                            },
                            ..old(self).players@[idx as int]
                        },
                    ));
                }
                return ;
            }
            k = k + 1;
        }
        self.gc_check_battle_end();
    }

    /// Take a card from the pool's display into the acting player's hand,
    /// spending the acquire cost.  Rejected — leaving everything untouched —
    /// when it is not the caller's turn, the player is unknown, the action
    /// points are short, the hand is full, or the card is not on display.  On
    /// success the first display card with the asked id is returned and a
    /// like-for-like copy joins the hand, the cost comes off the player's
    /// action points, and the pool holds one card fewer.
    pub fn gc_acquire_card_from_pool(&mut self, player_id: &str, card_id: &str) -> (r: Result<
        GcCard,
        GcError,
    >)
        ensures
            r is Err ==> final(self).players@ == old(self).players@ && final(self).card_pool
                == old(self).card_pool,
            r matches Ok(c) ==> ({
                let players = old(self).players@;
                let pi = spec_player_index(players, player_id@);
                let cost = old(self).card_pool.config.acquire_cost;
                &&& c.id@ == card_id@
                &&& (exists|di: int|
                    0 <= di < old(self).card_pool.display@.len() && c == old(
                        self,
                    ).card_pool.display@[di] && (#[trigger] old(self).card_pool.display@[di]).id@
                        == card_id@)
                &&& 0 <= pi < players.len()
                &&& final(self).players@.len() == players.len()
                &&& final(self).players@[pi].hand@.len() == players[pi].hand@.len() + 1
                &&& spec_card_like(final(self).players@[pi].hand@.last(), c)
                &&& (forall|j: int|
                    0 <= j < players[pi].hand@.len() ==> final(self).players@[pi].hand@[j]
                        == players[pi].hand@[j])
                &&& final(self).players@[pi].stats == (GcPlayerStats {
                    action_points: (players[pi].stats.action_points - cost) as u32,
                    ..players[pi].stats
                })
                &&& (forall|j: int|
                    0 <= j < players.len() && j != pi ==> final(self).players@[j] == players[j])
                &&& final(self).card_pool.config == old(self).card_pool.config
                &&& final(self).card_pool.display@.len() + final(self).card_pool.draw_pile@.len()
                    + final(self).card_pool.discard_pile@.len() + 1 == old(
                    self,
                ).card_pool.display@.len() + old(self).card_pool.draw_pile@.len() + old(
                    self,
                ).card_pool.discard_pile@.len()
                &&& final(self).phase == old(self).phase
                &&& final(self).winner_id == old(self).winner_id
                &&& final(self).turn == old(self).turn
                &&& final(self).id == old(self).id
            }),
    {
        if self.current_player_index >= self.players.len() {
            return Err(GcError::GcNotYourTurn);
        }
        if !str_eq(self.players[self.current_player_index].id.as_str(), player_id) {
            return Err(GcError::GcNotYourTurn);
        }
        let idx = match self.find_player_index(player_id) {
            Some(i) => i,
            None => {
                return Err(GcError::GcPlayerNotFound);
            },
        };
        proof {
            lemma_first_player_index(self.players@, player_id@, idx as int);
        }
        let cost = self.card_pool.config.acquire_cost;
        if !self.players[idx].stats.gc_has_action_points(cost) {
            return Err(GcError::GcNotEnoughActionPoints);
        }
        if self.players[idx].gc_is_hand_full() {
            return Err(GcError::GcHandFull);
        }
        let card = match self.card_pool.gc_acquire_card(card_id) {
            Some(c) => c,
            None => {
                return Err(GcError::GcCardNotInPool);
            },
        };
        self.players[idx].stats.gc_use_action_points(cost);
        let card_copy = crate::card::clone_card(&card);
        self.players[idx].hand.push(card_copy);
        Ok(card)
    }

    /// Refresh the pool's display for the acquiring player, spending the
    /// refresh cost.  Rejected — untouched — when it is not the caller's
    /// turn, the player is unknown or the points are short.  On success the
    /// cost comes off the player's action points and the pool's cards are
    /// redealt without gaining or losing any.
    pub fn gc_refresh_pool(&mut self, player_id: &str) -> (r: Result<(), GcError>)
        ensures
            r is Err ==> final(self).players@ == old(self).players@ && final(self).card_pool
                == old(self).card_pool,
            r is Ok ==> ({
                let players = old(self).players@;
                let pi = spec_player_index(players, player_id@);
                let cost = old(self).card_pool.config.refresh_cost;
                &&& 0 <= pi < players.len()
                &&& final(self).players@.len() == players.len()
                &&& final(self).players@[pi] == (GcPlayer {
                    stats: GcPlayerStats {
                        action_points: (players[pi].stats.action_points - cost) as u32,
                        ..players[pi].stats
                    },
                    ..players[pi]
                })
                &&& (forall|j: int|
                    0 <= j < players.len() && j != pi ==> final(self).players@[j] == players[j])
                &&& final(self).card_pool.config == old(self).card_pool.config
                &&& final(self).card_pool.display@.len() + final(self).card_pool.draw_pile@.len()
                    + final(self).card_pool.discard_pile@.len() == old(
                    self,
                ).card_pool.display@.len() + old(self).card_pool.draw_pile@.len() + old(
                    self,
                ).card_pool.discard_pile@.len()
                &&& final(self).phase == old(self).phase
                &&& final(self).winner_id == old(self).winner_id
                &&& final(self).turn == old(self).turn
                &&& final(self).id == old(self).id
            }),
    {
        if self.current_player_index >= self.players.len() {
            return Err(GcError::GcNotYourTurn);
        }
        if !str_eq(self.players[self.current_player_index].id.as_str(), player_id) {
            return Err(GcError::GcNotYourTurn);
        }
        let idx = match self.find_player_index(player_id) {
            Some(i) => i,
            None => {
                return Err(GcError::GcPlayerNotFound);
            },
        };
        proof {
            lemma_first_player_index(self.players@, player_id@, idx as int);
        }
        let cost = self.card_pool.config.refresh_cost;
        if !self.players[idx].stats.gc_has_action_points(cost) {
            return Err(GcError::GcNotEnoughActionPoints);
        }
        self.players[idx].stats.gc_use_action_points(cost);
        self.card_pool.gc_refresh_display();
        Ok(())
    }

    /// Deploy a hand card onto the acting player's battlefield slot, spending
    /// one action point.  Rejected — leaving everything untouched — in this
    /// order: not the caller's turn, unknown player, missing action point,
    /// slot out of range, slot occupied, card not in hand.  On success the
    /// point is spent and the card moves from the hand into the slot, not yet
    /// able to attack.
    pub fn gc_deploy_card(&mut self, player_id: &str, card_id: &str, slot_index: usize) -> (r:
        Result<(), GcError>)
        ensures
            r == spec_deploy_verdict(*old(self), player_id@, card_id@, slot_index),
            r is Err ==> *final(self) == *old(self),
            r is Ok ==> ({
                let players = old(self).players@;
                let pi = spec_player_index(players, player_id@);
                let ci = spec_card_index(players[pi].hand@, card_id@);
                let card = players[pi].hand@[ci];
                &&& final(self).players@.len() == players.len()
                &&& final(self).players@[pi].stats == (GcPlayerStats {
                    action_points: (players[pi].stats.action_points - 1) as u32,
                    ..players[pi].stats
                })
                &&& final(self).players@[pi].hand@ == players[pi].hand@.remove(ci)
                &&& final(self).players@[pi].battlefield.slots@.len() == players[
                    pi
                ].battlefield.slots@.len()
                &&& final(self).players@[pi].battlefield.slots@[slot_index as int].card == Some(
                    card,
                )
                &&& !final(self).players@[pi].battlefield.slots@[slot_index as int].can_attack
                &&& final(self).players@[pi].battlefield.slots@[slot_index as int].remaining_hp
                    == crate::battlefield::spec_deploy_hp(card)
                &&& (forall|j: int|
                    0 <= j < players[pi].battlefield.slots@.len() && j != slot_index
                        ==> final(self).players@[pi].battlefield.slots@[j] == players[
                        pi
                    ].battlefield.slots@[j])
                &&& (forall|j: int|
                    0 <= j < players.len() && j != pi ==> final(self).players@[j] == players[j])
                &&& final(self).card_pool == old(self).card_pool
                &&& final(self).phase == old(self).phase
                &&& final(self).winner_id == old(self).winner_id
                &&& final(self).turn == old(self).turn
                &&& final(self).current_player_index == old(self).current_player_index
                &&& final(self).id == old(self).id
            }),
    {
        if self.current_player_index >= self.players.len() {
            return Err(GcError::GcNotYourTurn);
        }
        if !str_eq(self.players[self.current_player_index].id.as_str(), player_id) {
            return Err(GcError::GcNotYourTurn);
        }
        let idx = match self.find_player_index(player_id) {
            Some(i) => i,
            None => {
                return Err(GcError::GcPlayerNotFound);
            },
        };
        proof {
            lemma_first_player_index(self.players@, player_id@, idx as int);
        }
        if !self.players[idx].stats.gc_has_action_points(1) {
            return Err(GcError::GcNotEnoughActionPoints);
        }
        if slot_index >= 5 || slot_index >= self.players[idx].battlefield.slots.len() {
            return Err(GcError::GcInvalidSlot);
        }
        if self.players[idx].battlefield.slots[slot_index].card.is_some() {
            return Err(GcError::GcSlotOccupied);
        }
        proof {
            lemma_card_index_props(self.players@[idx as int].hand@, card_id@);
        }
        match self.players[idx].gc_find_card_in_hand(card_id) {
            Some(_) => {},
            None => {
                return Err(GcError::GcCardNotInHand);
            },
        }
        self.players[idx].stats.gc_use_action_points(1);
        let card = match self.players[idx].gc_remove_card_from_hand(card_id) {
            Some(c) => c,
            None => {
                return Err(GcError::GcCardNotInHand);
            },
        };
        let out = self.players[idx].battlefield.gc_deploy_to_slot(slot_index, card);
        match out {
            Ok(()) => Ok(()),
            Err(e) => Err(GcError::GcInvalidAction(e)),
        }
    }

    /// The battlefield of the named player.
    pub fn gc_get_battlefield(&self, player_id: &str) -> (r: Option<&crate::battlefield::GcBattlefield>)
        ensures
            r matches Some(b) ==> exists|idx: int|
                0 <= idx < self.players@.len() && (#[trigger] self.players@[idx]).id@ == player_id@
                    && *b == self.players@[idx].battlefield,
    {
        let mut i: usize = 0;
        while i < self.players.len()
            invariant
                i <= self.players@.len(),
            decreases self.players@.len() - i,
        {
            if str_eq(self.players[i].id.as_str(), player_id) {
                return Some(&self.players[i].battlefield);
            }
            i = i + 1;
        }
        None
    }

    /// The end-of-turn exchange between the current player and the next one
    /// around the table: the current side wakes and sweeps the opponent lane
    /// by lane, then the opposing side wakes and sweeps back; each sweep's
    /// player damage lands on the other player, and victory is re-evaluated.
    /// Nothing happens — and `None` comes back — exactly when the id names no
    /// player or no second player exists.
    pub fn gc_execute_turn_combat(&mut self, current_player_id: &str) -> (r: Option<
        GcEndTurnResult,
    >)
        ensures
            (r is None) <==> (spec_player_index(old(self).players@, current_player_id@) < 0 || old(
                self,
            ).players@.len() < 2),
            r is None ==> *final(self) == *old(self),
            r matches Some(res) ==> ({
                let players = old(self).players@;
                let len = players.len() as int;
                let ci = spec_player_index(players, current_player_id@);
                let oi = spec_step_index(ci, len);
                let att1 = spec_enabled_slots(players[ci].battlefield.slots@);
                let def0 = players[oi].battlefield.slots@;
                let def1 = spec_swept_def(att1, def0);
                let att2 = spec_enabled_slots(def1);
                let spent1 = spec_spent_slots(att1);
                &&& 0 <= ci < len && len >= 2 && oi != ci
                &&& final(self).players@.len() == len
                &&& final(self).players@[ci].battlefield.slots@ == spec_swept_def(att2, spent1)
                &&& final(self).players@[ci].battlefield.config == players[ci].battlefield.config
                &&& final(self).players@[oi].battlefield.slots@ == spec_spent_slots(att2)
                &&& final(self).players@[oi].battlefield.config == players[oi].battlefield.config
                &&& res.player_combat.player_damage == spec_player_damage_upto(
                    att1,
                    def0,
                    att1.len() as int,
                )
                &&& res.player_combat.cards_destroyed == spec_destroyed_upto(
                    att1,
                    def0,
                    att1.len() as int,
                )
                &&& res.player_combat.attacks@.len() == spec_attack_lanes(
                    att1,
                    def0,
                    att1.len() as int,
                ).len()
                &&& res.opponent_combat.player_damage == spec_player_damage_upto(
                    att2,
                    spent1,
                    att2.len() as int,
                )
                &&& res.opponent_combat.cards_destroyed == spec_destroyed_upto(
                    att2,
                    spent1,
                    att2.len() as int,
                )
                &&& res.opponent_combat.attacks@.len() == spec_attack_lanes(
                    att2,
                    spent1,
                    att2.len() as int,
                ).len()
                &&& res.player_damage_taken == res.opponent_combat.player_damage
                &&& res.opponent_damage_taken == res.player_combat.player_damage
                &&& final(self).players@[ci].stats.hp == players[ci].stats.hp.saturating_sub(
                    res.player_damage_taken,
                )
                &&& final(self).players@[oi].stats.hp == players[oi].stats.hp.saturating_sub(
                    res.opponent_damage_taken,
                )
                &&& (forall|j: int|
                    0 <= j < len && j != ci && j != oi ==> final(self).players@[j] == players[j])
                &&& res.battle_ended == (final(self).phase is Finished)
                &&& (match final(self).winner_id {
                    Option::Some(w) => res.winner_id matches Some(v) && v@ == w@,
                    Option::None => res.winner_id is None,
                })
                &&& (spec_can_act_count(final(self).players@, len) <= 1 ==> final(self).phase
                    is Finished)
                &&& (spec_can_act_count(final(self).players@, len) > 1 ==> final(self).phase
                    == old(self).phase && final(self).winner_id == old(self).winner_id)
                &&& (spec_can_act_count(final(self).players@, len) == 0 ==> final(self).winner_id
                    is None)
                &&& final(self).id == old(self).id
                &&& final(self).card_pool == old(self).card_pool
                &&& final(self).turn == old(self).turn
                &&& final(self).current_player_index == old(self).current_player_index
            }),
    {
        let current_idx = match self.find_player_index(current_player_id) {
            Some(i) => i,
            None => {
                proof {
                    lemma_player_index_props(self.players@, current_player_id@);
                }
                return None;
            },
        };
        proof {
            lemma_first_player_index(self.players@, current_player_id@, current_idx as int);
        }
        let player_count = self.players.len();
        let opponent_idx = (current_idx + 1) % player_count;
        proof {
            if current_idx + 1 < player_count {
                vstd::arithmetic::div_mod::lemma_small_mod(
                    (current_idx + 1) as nat,
                    player_count as nat,
                );
            } else {
                assert(current_idx + 1 == player_count);
                vstd::arithmetic::div_mod::lemma_mod_self_0(player_count as int);
            }
        }
        if opponent_idx == current_idx {
            proof {
                assert(old(self).players@.len() < 2);
            }
            return None;
        }
        proof {
            assert(old(self).players@.len() >= 2);
            assert(opponent_idx as int == spec_step_index(
                current_idx as int,
                player_count as int,
            ));
        }
        let ghost players0 = old(self).players@;
        let ghost ci = current_idx as int;
        let ghost oi = opponent_idx as int;
        let ghost att1 = spec_enabled_slots(players0[ci].battlefield.slots@);
        let ghost def0 = players0[oi].battlefield.slots@;
        self.players[current_idx].battlefield.gc_on_turn_start();
        proof {
            assert(self.players@[ci].battlefield.slots@ =~= att1);
        }
        let mut player_bf = crate::battlefield::GcBattlefield::gc_new(
            crate::battlefield::GcBattlefieldConfig { slot_count: 0, deploy_cost: 0 },
        );
        let mut opponent_bf = crate::battlefield::GcBattlefield::gc_new(
            crate::battlefield::GcBattlefieldConfig { slot_count: 0, deploy_cost: 0 },
        );
        core::mem::swap(&mut player_bf, &mut self.players[current_idx].battlefield);
        core::mem::swap(&mut opponent_bf, &mut self.players[opponent_idx].battlefield);
        let player_combat = player_bf.gc_attack_battlefield(&mut opponent_bf);
        proof {
            assert(player_bf.slots@ =~= spec_spent_slots(att1));
            assert(opponent_bf.slots@ =~= spec_swept_def(att1, def0));
        }
        let ghost def1 = spec_swept_def(att1, def0);
        let ghost spent1 = spec_spent_slots(att1);
        let opponent_damage = player_combat.player_damage;
        opponent_bf.gc_on_turn_start();
        proof {
            assert(opponent_bf.slots@ =~= spec_enabled_slots(def1));
        }
        let ghost att2 = spec_enabled_slots(def1);
        let opponent_combat = opponent_bf.gc_attack_battlefield(&mut player_bf);
        proof {
            assert(player_bf.slots@ =~= spec_swept_def(att2, spent1));
            assert(opponent_bf.slots@ =~= spec_spent_slots(att2));
        }
        let player_damage = opponent_combat.player_damage;
        self.players[current_idx].battlefield = player_bf;
        self.players[opponent_idx].battlefield = opponent_bf;
        self.players[current_idx].stats.gc_take_damage(player_damage);
        self.players[opponent_idx].stats.gc_take_damage(opponent_damage);
        self.gc_check_battle_end();
        let ended = self.gc_is_finished();
        let winner = match &self.winner_id {
            Some(w) => Some(w.clone()),
            None => None,
        };
        Some(
            GcEndTurnResult {
                player_combat,
                opponent_combat,
                player_damage_taken: player_damage,
                opponent_damage_taken: opponent_damage,
                battle_ended: ended,
                winner_id: winner,
            },
        )
    }
}

/// The verdict on one deployment, checked in the fixed order: not the
/// caller's turn, unknown player, missing action point, slot out of range,
/// slot occupied, card not in hand — and approval otherwise.
pub open spec fn spec_deploy_verdict(
    state: GcBattleState,
    player_id: Seq<char>,
    card_id: Seq<char>,
    slot_index: usize,
) -> Result<(), GcError> {
    let players = state.players@;
    let cur_ok = state.current_player_index < players.len() && players[
        state.current_player_index as int
    ].id@ == player_id;
    if !cur_ok {
        Err(GcError::GcNotYourTurn)
    } else {
        let pi = spec_player_index(players, player_id);
        if pi < 0 {
            Err(GcError::GcPlayerNotFound)
        } else if players[pi].stats.action_points < 1 {
            Err(GcError::GcNotEnoughActionPoints)
        } else if slot_index >= 5 || slot_index >= players[pi].battlefield.slots@.len() {
            Err(GcError::GcInvalidSlot)
        } else if players[pi].battlefield.slots@[slot_index as int].card is Some {
            Err(GcError::GcSlotOccupied)
        } else if spec_card_index(players[pi].hand@, card_id) < 0 {
            Err(GcError::GcCardNotInHand)
        } else {
            Ok(())
        }
    }
}

/// Whether `pi` is the first player index carrying the id.
pub open spec fn spec_first_player_at(players: Seq<GcPlayer>, id: Seq<char>, pi: int) -> bool {
    &&& 0 <= pi < players.len()
    &&& players[pi].id@ == id
    &&& forall|j: int| 0 <= j < pi ==> (#[trigger] players[j]).id@ != id
}

/// Whether a card aims at a single chosen character.
pub open spec fn spec_card_targeted(c: GcCard) -> bool {
    c.target_type is SingleEnemy || c.target_type is SingleAlly
}

/// The verdict on one card play, checked in the fixed order: a finished
/// battle, a caller who is not the acting player, an unknown player, a card
/// not in that player's hand, short energy, and — for a card that aims at a
/// single character — a missing or fallen target; approval otherwise.
pub open spec fn spec_play_verdict(
    state: GcBattleState,
    player_id: Seq<char>,
    card_id: Seq<char>,
    target_id: Seq<char>,
) -> Result<(), GcError> {
    let players = state.players@;
    let cur_ok = state.current_player_index < players.len() && players[
        state.current_player_index as int
    ].id@ == player_id;
    if state.phase is Finished {
        Err(GcError::GcBattleEnded)
    } else if !cur_ok {
        Err(GcError::GcNotYourTurn)
    } else {
        let pi = spec_player_index(players, player_id);
        if pi < 0 {
            Err(GcError::GcPlayerNotFound)
        } else {
            let hand = players[pi].hand@;
            let ci = spec_card_index(hand, card_id);
            if ci < 0 {
                Err(GcError::GcCardNotInHand)
            } else if players[pi].stats.energy < hand[ci].cost {
                Err(GcError::GcNotEnoughEnergy)
            } else if spec_card_targeted(hand[ci]) {
                let ti = spec_player_index(players, target_id);
                if ti < 0 || !spec_can_act(players[ti]) {
                    Err(GcError::GcInvalidTarget)
                } else {
                    Ok(())
                }
            } else {
                Ok(())
            }
        }
    }
}

/// Validate one card play without touching anything; the result is exactly
/// the ordered verdict of `spec_play_verdict`.
pub fn gc_validate_play_card(
    state: &GcBattleState,
    player_id: &str,
    card_id: &str,
    target_id: &str,
) -> (r: Result<(), GcError>)
    ensures
        r == spec_play_verdict(*state, player_id@, card_id@, target_id@),
{
    if state.gc_is_finished() {
        return Err(GcError::GcBattleEnded);
    }
    if state.current_player_index >= state.players.len() {
        return Err(GcError::GcNotYourTurn);
    }
    if !str_eq(state.players[state.current_player_index].id.as_str(), player_id) {
        return Err(GcError::GcNotYourTurn);
    }
    let pi = match state.find_player_index(player_id) {
        Some(i) => i,
        None => {
            proof {
                lemma_player_index_props(state.players@, player_id@);
            }
            return Err(GcError::GcPlayerNotFound);
        },
    };
    proof {
        lemma_first_player_index(state.players@, player_id@, pi as int);
        lemma_card_index_props(state.players@[pi as int].hand@, card_id@);
    }
    let card = match state.players[pi].gc_find_card_in_hand(card_id) {
        Some(c) => c,
        None => {
            return Err(GcError::GcCardNotInHand);
        },
    };
    if state.players[pi].stats.energy < card.cost {
        return Err(GcError::GcNotEnoughEnergy);
    }
    if card.gc_needs_target() {
        let ti = match state.find_player_index(target_id) {
            Some(i) => i,
            None => {
                proof {
                    lemma_player_index_props(state.players@, target_id@);
                }
                return Err(GcError::GcInvalidTarget);
            },
        };
        proof {
            lemma_first_player_index(state.players@, target_id@, ti as int);
        }
        if !state.players[ti].gc_can_act() {
            return Err(GcError::GcInvalidTarget);
        }
    }
    Ok(())
}

/// One card play's damage: the card's damage plus the attacker's attack,
/// minus three tenths of the target's defense (truncated), floored at zero.
pub fn gc_calculate_damage(attacker: &GcPlayer, target: &GcPlayer, card: &GcCard) -> (r:
    GcDamageResult)
    ensures
        r.raw_damage == card.base_damage.saturating_add(attacker.stats.attack),
        r.reduced_damage == (target.stats.defense * 3) / 10,
        r.final_damage == r.raw_damage.saturating_sub(r.reduced_damage),
        !r.is_critical,
{
    let base_damage = card.base_damage.saturating_add(attacker.stats.attack);
    proof {
        assert((target.stats.defense as int) * 3 <= (u32::MAX as int) * 3) by (nonlinear_arith)
            requires
                target.stats.defense <= u32::MAX,
        ;
    }
    let defense_reduction: u32 = (((target.stats.defense as u64) * 3) / 10) as u32;
    let final_damage = base_damage.saturating_sub(defense_reduction);
    GcDamageResult::new(base_damage, defense_reduction, final_damage)
}

/// Execute one card play.  A play succeeds exactly when the validator
/// approves it and the target id names a player; a rejected play carries the
/// verdict's message and leaves the state untouched.  On success the damage
/// formula applies to the target (a fallen target turns Dead), the energy is
/// spent, the card moves from the hand to the discard pile, and victory is
/// re-evaluated.
pub fn gc_execute_play_card(
    state: &mut GcBattleState,
    player_id: &str,
    card_id: &str,
    target_id: &str,
) -> (r: GcPlayCardResult)
    ensures
        r.success <==> (spec_play_verdict(*old(state), player_id@, card_id@, target_id@) is Ok
            && spec_player_index(old(state).players@, target_id@) >= 0),
        !r.success ==> *final(state) == *old(state) && (r.error matches Some(m) && m@ == (
        match spec_play_verdict(*old(state), player_id@, card_id@, target_id@) {
            Result::Err(e) => e.spec_message(),
            Result::Ok(_) => GcError::GcInvalidTarget.spec_message(),
        })) && r.card_used is None && r.damage_dealt == 0 && r.effects_triggered@.len() == 0
            && !r.target_killed,
        r.success ==> ({
            let players = old(state).players@;
            let pi = spec_player_index(players, player_id@);
            let ti = spec_player_index(players, target_id@);
            let ci = spec_card_index(players[pi].hand@, card_id@);
            let card = players[pi].hand@[ci];
            let raw = card.base_damage.saturating_add(players[pi].stats.attack);
            let reduced = ((players[ti].stats.defense * 3) / 10) as u32;
            let dmg = raw.saturating_sub(reduced);
            &&& r.damage_dealt == dmg
            &&& (r.card_used matches Some(c) && spec_card_like(c, card))
            &&& r.target_killed == (dmg >= players[ti].stats.hp)
            &&& final(state).players@.len() == players.len()
            &&& final(state).players@[ti].stats.hp == players[ti].stats.hp.saturating_sub(dmg)
            &&& final(state).players@[ti].state == (if dmg >= players[ti].stats.hp {
                GcPlayerState::Dead
            } else {
                players[ti].state
            })
            &&& final(state).players@[pi].stats.energy == players[pi].stats.energy.saturating_sub(
                card.cost,
            )
            &&& final(state).players@[pi].hand@ == players[pi].hand@.remove(ci)
            &&& final(state).players@[pi].discard@ == players[pi].discard@.push(card)
            &&& final(state).players@[pi].battlefield == players[pi].battlefield
            &&& final(state).players@[ti].battlefield == players[ti].battlefield
            &&& (forall|j: int|
                0 <= j < players.len() && j != pi && j != ti ==> final(state).players@[j]
                    == players[j])
            &&& final(state).card_pool == old(state).card_pool
            &&& final(state).id == old(state).id
            &&& final(state).turn == old(state).turn
            &&& final(state).current_player_index == old(state).current_player_index
            &&& (spec_can_act_count(final(state).players@, players.len() as int) <= 1 ==> final(state).phase is Finished)
            &&& (spec_can_act_count(final(state).players@, players.len() as int) > 1 ==> final(state).phase == old(state).phase && final(state).winner_id == old(state).winner_id)
            &&& (spec_can_act_count(final(state).players@, players.len() as int) == 0 ==> final(state).winner_id is None)
        }),
{
    match gc_validate_play_card(state, player_id, card_id, target_id) {
        Ok(()) => {},
        Err(e) => {
            let message = e.gc_message();
            return GcPlayCardResult::fail(message);
        },
    }
    let player_idx = match state.find_player_index(player_id) {
        Some(i) => i,
        None => {
            proof {
                lemma_player_index_props(state.players@, player_id@);
            }
            return GcPlayCardResult::fail(GcError::GcPlayerNotFound.gc_message());
        },
    };
    proof {
        lemma_first_player_index(state.players@, player_id@, player_idx as int);
        lemma_card_index_props(state.players@[player_idx as int].hand@, card_id@);
    }
    let target_idx = match state.find_player_index(target_id) {
        Some(i) => i,
        None => {
            proof {
                lemma_player_index_props(state.players@, target_id@);
            }
            return GcPlayCardResult::fail(GcError::GcInvalidTarget.gc_message());
        },
    };
    proof {
        lemma_first_player_index(state.players@, target_id@, target_idx as int);
    }
    let card = match state.players[player_idx].gc_remove_card_from_hand(card_id) {
        Some(c) => c,
        None => {
            return GcPlayCardResult::fail(GcError::GcCardNotInHand.gc_message());
        },
    };
    let damage_result = gc_calculate_damage(
        &state.players[player_idx],
        &state.players[target_idx],
        &card,
    );
    state.players[target_idx].stats.gc_take_damage(damage_result.final_damage);
    let target_killed = !state.players[target_idx].stats.gc_is_alive();
    if target_killed {
        state.players[target_idx].state = GcPlayerState::Dead;
    }
    state.players[player_idx].stats.energy = state.players[player_idx].stats.energy.saturating_sub(
        card.cost,
    );
    let card_copy = crate::card::clone_card(&card);
    state.players[player_idx].discard.push(card);
    state.gc_check_battle_end();
    let mut message = "造成 ".to_owned();
    message.append(decimal_string(damage_result.final_damage).as_str());
    message.append(" 点伤害");
    let mut effects: Vec<GcEffectResult> = Vec::new();
    effects.push(
        GcEffectResult::new("伤害", target_id, damage_to_i32(damage_result.final_damage), message),
    );
    GcPlayCardResult::success(card_copy, damage_result.final_damage, effects, target_killed)
}

/// A damage figure as a signed value, clamped.
fn damage_to_i32(d: u32) -> (r: i32)
    ensures
        d <= i32::MAX ==> r == d as i32,
        d > i32::MAX ==> r == i32::MAX,
{
    if d > i32::MAX as u32 {
        i32::MAX
    } else {
        d as i32
    }
}

} // verus!
