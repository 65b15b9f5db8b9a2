//! The tavern economy and the level system.

use game_core::economy::{
    gc_monster_buy_price, gc_monster_sell_price, GcEconomy, GC_STARTING_GOLD,
};
use game_core::level_system::{
    gc_get_board_slots, gc_get_tier_weights, GcMonsterTier, GcTierWeights,
};

#[test]
fn test_economy_basics() {
    let mut eco = GcEconomy::new();
    assert_eq!(eco.gold, GC_STARTING_GOLD);

    eco.earn(10);
    assert_eq!(eco.gold, GC_STARTING_GOLD + 10);

    assert!(eco.spend(5));
    assert_eq!(eco.gold, GC_STARTING_GOLD + 5);

    assert!(!eco.spend(100));
}

#[test]
fn test_interest_calculation() {
    let mut eco = GcEconomy::new();
    eco.set_gold(50);

    assert_eq!(eco.calculate_interest(), 5);

    eco.set_gold(100);
    assert_eq!(eco.calculate_interest(), 5);

    eco.set_gold(25);
    assert_eq!(eco.calculate_interest(), 2);
}

#[test]
fn test_level_up() {
    let mut eco = GcEconomy::new();
    eco.set_gold(20);

    assert!(eco.buy_xp());
    assert_eq!(eco.gold, 16);

    assert!(eco.level >= 2 || eco.xp > 0);
}

#[test]
fn test_streak_bonus() {
    let mut eco = GcEconomy::new();

    eco.record_win();
    eco.record_win();
    assert_eq!(eco.win_streak, 2);
    assert_eq!(eco.calculate_streak_bonus(), 1);

    eco.record_loss();
    assert_eq!(eco.win_streak, 0);
    assert_eq!(eco.lose_streak, 1);
}

#[test]
fn test_monster_prices() {
    assert_eq!(gc_monster_buy_price(1), 1);
    assert_eq!(gc_monster_buy_price(2), 2);
    assert_eq!(gc_monster_buy_price(3), 3);

    assert_eq!(gc_monster_sell_price(1, 0), 1);
    assert_eq!(gc_monster_sell_price(3, 0), 3);
    assert_eq!(gc_monster_sell_price(3, 1), 6);
    assert_eq!(gc_monster_sell_price(3, 2), 9);
}

#[test]
fn test_collect_income_once_per_turn() {
    let mut eco = GcEconomy::new();
    eco.set_gold(25);
    let income = eco.collect_income();
    // 5 base + 2 interest + 0 streak.
    assert_eq!(income, 7);
    assert_eq!(eco.gold, 32);
    assert_eq!(eco.collect_income(), 0);
    assert_eq!(eco.gold, 32);
    eco.start_new_turn();
    assert!(eco.collect_income() > 0);
}

#[test]
fn test_economy_summary_string() {
    let eco = GcEconomy::new();
    assert_eq!(eco.summary(), "💰3 | Lv.1 (0/0) | 连胜:0 连败:0");
}

#[test]
fn test_board_slots() {
    assert_eq!(gc_get_board_slots(1), 3);
    assert_eq!(gc_get_board_slots(2), 3);
    assert_eq!(gc_get_board_slots(3), 4);
    assert_eq!(gc_get_board_slots(4), 4);
    assert_eq!(gc_get_board_slots(5), 5);
    assert_eq!(gc_get_board_slots(10), 5);
}

#[test]
fn test_tier_weights() {
    let weights = gc_get_tier_weights(1);
    assert_eq!(weights.weights[0], 100);

    let weights = gc_get_tier_weights(5);
    assert!(weights.weights[3] > 0);
}

#[test]
fn test_tier_selection() {
    let weights = GcTierWeights::new(50, 30, 20, 0, 0);

    assert_eq!(weights.select_tier(0), GcMonsterTier::Tier1);
    assert_eq!(weights.select_tier(49), GcMonsterTier::Tier1);
    assert_eq!(weights.select_tier(50), GcMonsterTier::Tier2);
    assert_eq!(weights.select_tier(80), GcMonsterTier::Tier3);
}

#[test]
fn test_add_xp_cashes_level_ups() {
    let mut eco = GcEconomy::new();
    // From level 1 the first threshold is zero, so any gain levels at once.
    eco.add_xp(3);
    assert_eq!(eco.level, 3);
    assert_eq!(eco.xp, 1);
}
