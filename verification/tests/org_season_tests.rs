//! Organizations, seasons and phases.

use game_core::organization::{
    GcFormationPosition, GcOrganization, GcOrganizationMember, GcOrganizationTeam,
    GcRaidFormation,
};
use game_core::season::{
    GcGameMode, GcPhase, GcSeasonManager, GcTavernPhase,
};

#[test]
fn test_gc_organization_team() {
    let mut team = GcOrganizationTeam::gc_new(GcOrganization::IronBlood);

    let result =
        team.gc_add_member(GcOrganizationMember::gc_new("p1", "玩家1", GcFormationPosition::Front));
    assert!(result.is_ok());

    let result =
        team.gc_add_member(GcOrganizationMember::gc_new("p2", "玩家2", GcFormationPosition::Back));
    assert!(result.is_ok());

    let result =
        team.gc_add_member(GcOrganizationMember::gc_new("p3", "玩家3", GcFormationPosition::Front));
    assert!(result.is_err());

    assert!(team.gc_get_front().is_some());
    assert!(team.gc_get_back().is_some());
}

#[test]
fn test_gc_raid_formation() {
    let mut formation = GcRaidFormation::gc_new();

    let result = formation.gc_add_player(
        GcOrganization::IronBlood,
        "p1",
        "玩家1",
        GcFormationPosition::Front,
    );
    assert!(result.is_ok());

    let org = formation.gc_get_player_organization("p1");
    assert_eq!(org, Some(&GcOrganization::IronBlood));

    assert_eq!(formation.gc_total_players(), 1);
    assert!(!formation.gc_is_full());
}

#[test]
fn test_gc_organization_colors() {
    for org in GcOrganization::gc_all() {
        let (r, g, b) = org.gc_color();
        assert!(r > 0 || g > 0 || b > 0);
    }
}

#[test]
fn test_damage_ranking_orders_descending() {
    let mut formation = GcRaidFormation::gc_new();
    formation.teams[0].gc_add_damage(10);
    formation.teams[1].gc_add_damage(40);
    formation.teams[2].gc_add_damage(25);
    let ranking = formation.gc_damage_ranking();
    assert_eq!(ranking.len(), 4);
    assert_eq!(ranking[0], (GcOrganization::ShadowGuild, 40));
    assert_eq!(ranking[1], (GcOrganization::HolyLight, 25));
    assert_eq!(ranking[2], (GcOrganization::IronBlood, 10));
    assert_eq!(ranking[3].1, 0);
}

#[test]
fn test_team_wipe_check() {
    let mut team = GcOrganizationTeam::gc_new(GcOrganization::Wildland);
    team.gc_add_member(GcOrganizationMember::gc_new("p1", "一", GcFormationPosition::Front))
        .unwrap();
    assert!(!team.gc_check_wiped());
    team.members[0].is_alive = false;
    assert!(team.gc_check_wiped());
    assert!(team.is_wiped);
}

#[test]
fn test_game_mode() {
    let mode = GcGameMode::TavernStyle;
    assert!(mode.has_shop());
    assert!(mode.has_merge());
    assert!(!mode.has_tribute_summon());

    let mode = GcGameMode::YuGiOhStyle;
    assert!(!mode.has_shop());
    assert!(mode.has_tribute_summon());
}

#[test]
fn test_season_manager() {
    let mut manager = GcSeasonManager::with_defaults();

    assert!(manager.current_season().is_some());
    assert!(manager.is_mode_available(GcGameMode::YuGiOhStyle));
    assert!(manager.is_mode_available(GcGameMode::TavernStyle));

    manager.set_active_season_by_id("s2_tavern");
    assert!(manager.is_mode_available(GcGameMode::TavernStyle));
    assert!(!manager.is_mode_available(GcGameMode::YuGiOhStyle));
}

#[test]
fn test_phase() {
    let phase = GcPhase::Tavern(GcTavernPhase::Shopping);
    assert!(phase.allows_shopping());
    assert!(phase.allows_deploy());
    assert!(!phase.is_combat());

    let phase = GcPhase::Tavern(GcTavernPhase::Combat);
    assert!(!phase.allows_shopping());
    assert!(phase.is_combat());
}

#[test]
fn test_season_time_window() {
    let manager = GcSeasonManager::with_defaults();
    let season = manager.current_season().unwrap();
    assert!(season.is_within_time(0));
    assert!(season.is_within_time(1000000));
    assert_eq!(season.remaining_time(u64::MAX), 0);
}
