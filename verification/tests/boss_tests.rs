//! Boss combat: rage, skills, damage intake and the revival rule.

use game_core::boss::{
    gc_create_abyssal_titan, gc_create_shadow_lurker, GcBossState, GcBossType,
};

#[test]
fn test_gc_boss_new() {
    let boss = gc_create_shadow_lurker();

    assert_eq!(boss.id, "boss_shadow_lurker");
    assert_eq!(boss.name, "暗影潜伏者");
    assert_eq!(boss.boss_type, GcBossType::Mini);
    assert_eq!(boss.max_hp, 500);
    assert_eq!(boss.current_hp, 500);
    assert!(boss.gc_is_alive());
}

#[test]
fn test_gc_boss_take_damage() {
    let mut boss = gc_create_shadow_lurker();

    let (damage, died) = boss.gc_take_damage(100);

    assert!(damage > 0);
    assert!(!died);
    assert!(boss.current_hp < 500);
    assert!(boss.current_rage > 0);
}

#[test]
fn test_gc_boss_rage_system() {
    let mut boss = gc_create_shadow_lurker();
    boss.current_rage = 90;

    boss.gc_add_rage(20);

    assert_eq!(boss.current_rage, 100);
    assert!(boss.gc_is_rage_full());
    assert_eq!(boss.state, GcBossState::Enraged);

    boss.gc_consume_rage();

    assert_eq!(boss.current_rage, 0);
    assert!(!boss.gc_is_rage_full());
    assert_eq!(boss.state, GcBossState::Idle);
}

#[test]
fn test_gc_weekly_boss_revive() {
    let mut boss = gc_create_abyssal_titan();

    boss.current_hp = 1;

    let (_, _) = boss.gc_take_damage(100);

    assert!(boss.gc_is_alive());
    assert_eq!(boss.current_hp, boss.max_hp);
    assert_eq!(boss.revive_count, 1);
    assert!(boss.current_attack > boss.base_attack);
}

#[test]
fn test_gc_boss_select_skill() {
    let boss = gc_create_shadow_lurker();

    let skill = boss.gc_select_skill();
    assert!(skill.is_some());
}

#[test]
fn test_weekly_revival_by_survivor_count() {
    // A boss at one hit point takes 100 damage.  With two teams surviving it
    // must revive: alive, health at half the pre-blow figure clamped to at
    // least one, the revive counter one higher and the attack above the base.
    let mut boss = gc_create_abyssal_titan();
    boss.current_hp = 1;
    let (actual, revived, dead) = boss.gc_take_damage_weekly(100, 2);
    assert_eq!(actual, 88);
    assert!(revived);
    assert!(!dead);
    assert!(boss.gc_is_alive());
    assert_eq!(boss.current_hp, 1);
    assert_eq!(boss.revive_count, 1);
    assert!(boss.current_attack > boss.base_attack);
    assert_eq!(boss.state, GcBossState::Enraged);
    assert_eq!(boss.current_rage, 0);

    // The same blow with one team surviving kills for good, counter untouched.
    let mut boss2 = gc_create_abyssal_titan();
    boss2.current_hp = 1;
    let (_, revived2, dead2) = boss2.gc_take_damage_weekly(100, 1);
    assert!(!revived2);
    assert!(dead2);
    assert_eq!(boss2.current_hp, 0);
    assert_eq!(boss2.revive_count, 0);
    assert_eq!(boss2.state, GcBossState::Dead);
    assert!(!boss2.gc_is_alive());
}

#[test]
fn test_weekly_revive_hp_half_of_before() {
    let mut boss = gc_create_abyssal_titan();
    boss.current_hp = 80;
    let (_, revived, _) = boss.gc_take_damage_weekly(5000, 3);
    assert!(revived);
    assert_eq!(boss.current_hp, 40);
}

#[test]
fn test_boss_damage_floor_and_final_death_rule() {
    let mut boss = gc_create_shadow_lurker();
    // The defense cut never negates damage completely.
    let (actual, _) = boss.gc_take_damage(1);
    assert_eq!(actual, 1);
    // Weekly bosses die for good only with at most one team standing.
    let titan = gc_create_abyssal_titan();
    assert!(!titan.gc_check_final_death(5));
    let mut dead_titan = gc_create_abyssal_titan();
    dead_titan.current_hp = 0;
    assert!(!dead_titan.gc_check_final_death(2));
    assert!(dead_titan.gc_check_final_death(1));
}

#[test]
fn test_skill_selection_prefers_longest_ready_cooldown() {
    let mut boss = gc_create_abyssal_titan();
    // All three skills start ready; the longest base cooldown wins.
    let skill = boss.gc_select_skill().unwrap();
    assert_eq!(skill.id, "skill_focus_crush");
    // With full rage the ultimate always comes back, cooldowns ignored.
    boss.current_rage = boss.max_rage;
    let ult = boss.gc_select_skill().unwrap();
    assert_eq!(ult.id, "skill_apocalypse");
}

#[test]
fn test_skill_cooldown_tick() {
    let mut boss = gc_create_shadow_lurker();
    boss.skills[1].gc_use();
    assert_eq!(boss.skills[1].current_cooldown, 3);
    assert!(!boss.skills[1].gc_is_ready());
    boss.gc_on_turn_end();
    assert_eq!(boss.skills[1].current_cooldown, 2);
}
