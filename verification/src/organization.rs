//! Organizations and the eight-player raid formation: four factions of two
//! players each, front and back rows, blame counters and damage rankings.

use vstd::prelude::*;
use vstd::string::StringExecFns;

use crate::text::str_eq;

verus! {

/// The four factions.
#[derive(Clone, Copy, Debug, PartialEq, Eq, Hash, Structural)]
pub enum GcOrganization {
    IronBlood,
    ShadowGuild,
    HolyLight,
    Wildland,
}

impl GcOrganization {
    /// Display name of the faction.
    pub fn gc_name(&self) -> (r: &str)
        ensures
            self is IronBlood ==> r@ == "铁血营"@,
            self is ShadowGuild ==> r@ == "暗影会"@,
            self is HolyLight ==> r@ == "圣光团"@,
            self is Wildland ==> r@ == "蛮荒族"@,
    {
        match self {
            GcOrganization::IronBlood => "铁血营",
            GcOrganization::ShadowGuild => "暗影会",
            GcOrganization::HolyLight => "圣光团",
            GcOrganization::Wildland => "蛮荒族",
        }
    }

    /// Display colour of the faction, as RGB.
    pub fn gc_color(&self) -> (r: (u8, u8, u8))
        ensures
            self is IronBlood ==> r == (180u8, 40u8, 40u8),
            self is ShadowGuild ==> r == (80u8, 40u8, 140u8),
            self is HolyLight ==> r == (200u8, 180u8, 60u8),
            self is Wildland ==> r == (60u8, 140u8, 60u8),
    {
        match self {
            GcOrganization::IronBlood => (180, 40, 40),
            GcOrganization::ShadowGuild => (80, 40, 140),
            GcOrganization::HolyLight => (200, 180, 60),
            GcOrganization::Wildland => (60, 140, 60),
        }
    }

    /// Every faction, in declaration order.
    pub fn gc_all() -> (r: Vec<GcOrganization>)
        ensures
            r@ == seq![
                GcOrganization::IronBlood,
                GcOrganization::ShadowGuild,
                GcOrganization::HolyLight,
                GcOrganization::Wildland,
            ],
    {
        let mut v: Vec<GcOrganization> = Vec::new();
        v.push(GcOrganization::IronBlood);
        v.push(GcOrganization::ShadowGuild);
        v.push(GcOrganization::HolyLight);
        v.push(GcOrganization::Wildland);
        proof {
            assert(v@ =~= seq![
                GcOrganization::IronBlood,
                GcOrganization::ShadowGuild,
                GcOrganization::HolyLight,
                GcOrganization::Wildland,
            ]);
        }
        v
    }
}

/// Row of the two-player formation.
#[derive(Clone, Copy, Debug, PartialEq, Eq, Structural)]
pub enum GcFormationPosition {
    Front,
    Back,
}

/// One member of a faction team.
#[derive(Clone, Debug)]
pub struct GcOrganizationMember {
    pub player_id: String,
    pub player_name: String,
    /// Front or back row.
    pub position: GcFormationPosition,
    /// Whether the member still stands.
    pub is_alive: bool,
    /// Health left, as a percentage.
    pub hp_percent: u32,
}

impl GcOrganizationMember {
    /// A fresh member: alive at full health.
    pub fn gc_new(player_id: &str, player_name: &str, position: GcFormationPosition) -> (r: Self)
        ensures
            r.player_id@ == player_id@,
            r.player_name@ == player_name@,
            r.position == position,
            r.is_alive,
            r.hp_percent == 100,
    {
        GcOrganizationMember {
            player_id: player_id.to_owned(),
            player_name: player_name.to_owned(),
            position,
            is_alive: true,
            hp_percent: 100,
        }
    }
}

/// One faction's two-player team.
///
/// Invariant: at most two members, one per row.
#[derive(Clone, Debug)]
pub struct GcOrganizationTeam {
    pub organization: GcOrganization,
    pub members: Vec<GcOrganizationMember>,
    /// Whether every member has fallen.
    pub is_wiped: bool,
    /// Damage dealt by the whole team.
    pub total_damage: u64,
    /// Times the boss was goaded onto this team.
    pub blame_count: u32,
}

impl GcOrganizationTeam {
    /// An empty team of the given faction.
    pub fn gc_new(organization: GcOrganization) -> (r: Self)
        ensures
            r.organization == organization,
            r.members@.len() == 0,
            !r.is_wiped,
            r.total_damage == 0,
            r.blame_count == 0,
    {
        GcOrganizationTeam {
            organization,
            members: Vec::new(),
            is_wiped: false,
            total_damage: 0,
            blame_count: 0,
        }
    }

    /// Add a member: fails on a full team or a taken row, changing nothing.
    pub fn gc_add_member(&mut self, member: GcOrganizationMember) -> (r: Result<(), String>)
        ensures
            r is Ok <==> (old(self).members@.len() < 2 && (forall|j: int|
                0 <= j < old(self).members@.len() ==> (#[trigger] old(self).members@[j]).position
                    != member.position)),
            r is Ok ==> *final(self) == (GcOrganizationTeam {
                members: final(self).members,
                ..*old(self)
            }) && final(self).members@ == old(self).members@.push(member),
            r is Err ==> *final(self) == *old(self),
    {
        if self.members.len() >= 2 {
            return Err("组织队伍已满 (最多 2 人)".to_owned());
        }
        let mut i: usize = 0;
        while i < self.members.len()
            invariant
                i <= self.members@.len(),
                *self == *old(self),
                forall|j: int|
                    0 <= j < i ==> (#[trigger] self.members@[j]).position != member.position,
            decreases self.members@.len() - i,
        {
            if self.members[i].position == member.position {
                return Err("该位置已被占用".to_owned());
            }
            i = i + 1;
        }
        self.members.push(member);
        Ok(())
    }

    /// The front-row member, if any.
    pub fn gc_get_front(&self) -> (r: Option<&GcOrganizationMember>)
        ensures
            r is None ==> (forall|j: int|
                0 <= j < self.members@.len() ==> !((#[trigger] self.members@[j]).position
                    is Front)),
            r matches Some(m) ==> exists|idx: int|
                0 <= idx < self.members@.len() && *m == self.members@[idx] && m.position is Front,
    {
        let mut i: usize = 0;
        while i < self.members.len()
            invariant
                i <= self.members@.len(),
                forall|j: int| 0 <= j < i ==> !((#[trigger] self.members@[j]).position is Front),
            decreases self.members@.len() - i,
        {
            if matches!(self.members[i].position, GcFormationPosition::Front) {
                return Some(&self.members[i]);
            }
            i = i + 1;
        }
        None
    }

    /// The back-row member, if any.
    pub fn gc_get_back(&self) -> (r: Option<&GcOrganizationMember>)
        ensures
            r is None ==> (forall|j: int|
                0 <= j < self.members@.len() ==> !((#[trigger] self.members@[j]).position
                    is Back)),
            r matches Some(m) ==> exists|idx: int|
                0 <= idx < self.members@.len() && *m == self.members@[idx] && m.position is Back,
    {
        let mut i: usize = 0;
        while i < self.members.len()
            invariant
                i <= self.members@.len(),
                forall|j: int| 0 <= j < i ==> !((#[trigger] self.members@[j]).position is Back),
            decreases self.members@.len() - i,
        {
            if matches!(self.members[i].position, GcFormationPosition::Back) {
                return Some(&self.members[i]);
            }
            i = i + 1;
        }
        None
    }

    /// The members still standing, in order.
    pub fn gc_get_alive_members(&self) -> (r: Vec<&GcOrganizationMember>)
        ensures
            r@.len() <= self.members@.len(),
            forall|k: int| 0 <= k < r@.len() ==> (#[trigger] r@[k]).is_alive,
    {
        let mut out: Vec<&GcOrganizationMember> = Vec::new();
        let mut i: usize = 0;
        while i < self.members.len()
            invariant
                i <= self.members@.len(),
                out@.len() <= i,
                forall|k: int| 0 <= k < out@.len() ==> (#[trigger] out@[k]).is_alive,
            decreases self.members@.len() - i,
        {
            if self.members[i].is_alive {
                out.push(&self.members[i]);
            }
            i = i + 1;
        }
        out
    }

    /// Recompute and return whether the team is wiped: every member fallen.
    pub fn gc_check_wiped(&mut self) -> (r: bool)
        ensures
            r == (forall|j: int|
                0 <= j < old(self).members@.len() ==> !(#[trigger] old(self).members@[j]).is_alive),
            *final(self) == (GcOrganizationTeam { is_wiped: r, ..*old(self) }),
    {
        let mut wiped = true;
        let mut i: usize = 0;
        while i < self.members.len()
            invariant
                i <= self.members@.len(),
                *self == *old(self),
                wiped == (forall|j: int|
                    0 <= j < i ==> !(#[trigger] self.members@[j]).is_alive),
            decreases self.members@.len() - i,
        {
            if self.members[i].is_alive {
                wiped = false;
            }
            i = i + 1;
        }
        self.is_wiped = wiped;
        wiped
    }

    /// Add to the team's damage tally, saturating.
    pub fn gc_add_damage(&mut self, damage: u64)
        ensures
            *final(self) == (GcOrganizationTeam {
                total_damage: old(self).total_damage.saturating_add(damage),
                ..*old(self)
            }),
    {
        self.total_damage = self.total_damage.saturating_add(damage);
    }

    /// Count one more blame, saturating.
    pub fn gc_receive_blame(&mut self)
        ensures
            *final(self) == (GcOrganizationTeam {
                blame_count: old(self).blame_count.saturating_add(1),
                ..*old(self)
            }),
    {
        self.blame_count = self.blame_count.saturating_add(1);
    }
}

/// The full raid: one team per faction and a turn order over the players.
#[derive(Clone, Debug)]
pub struct GcRaidFormation {
    /// The four teams, in faction order.
    pub teams: Vec<GcOrganizationTeam>,
    /// Player ids in acting order.
    pub action_order: Vec<String>,
    /// Index into the acting order.
    pub current_action_index: usize,
}

impl GcRaidFormation {
    /// A raid with the four factions' empty teams.
    pub fn gc_new() -> (r: Self)
        ensures
            r.teams@.len() == 4,
            r.teams@[0].organization is IronBlood,
            r.teams@[1].organization is ShadowGuild,
            r.teams@[2].organization is HolyLight,
            r.teams@[3].organization is Wildland,
            forall|j: int|
                0 <= j < 4 ==> (#[trigger] r.teams@[j]).members@.len() == 0
                    && !r.teams@[j].is_wiped,
            r.action_order@.len() == 0,
            r.current_action_index == 0,
    {
        let mut teams: Vec<GcOrganizationTeam> = Vec::new();
        teams.push(GcOrganizationTeam::gc_new(GcOrganization::IronBlood));
        teams.push(GcOrganizationTeam::gc_new(GcOrganization::ShadowGuild));
        teams.push(GcOrganizationTeam::gc_new(GcOrganization::HolyLight));
        teams.push(GcOrganizationTeam::gc_new(GcOrganization::Wildland));
        GcRaidFormation { teams, action_order: Vec::new(), current_action_index: 0 }
    }

    /// Add a player to the faction's team.
    pub fn gc_add_player(
        &mut self,
        organization: GcOrganization,
        player_id: &str,
        player_name: &str,
        position: GcFormationPosition,
    ) -> (r: Result<(), String>)
        ensures
            r is Ok ==> exists|t: int|
                {
                    &&& 0 <= t < old(self).teams@.len()
                    &&& (#[trigger] old(self).teams@[t]).organization == organization
                    &&& final(self).teams@.len() == old(self).teams@.len()
                    &&& final(self).teams@[t].members@.len() == old(self).teams@[t].members@.len()
                        + 1
                    &&& final(self).teams@[t].members@.last().player_id@ == player_id@
                    &&& final(self).teams@[t].members@.last().position == position
                },
    {
        let mut i: usize = 0;
        while i < self.teams.len()
            invariant
                i <= self.teams@.len(),
                *self == *old(self),
                forall|j: int|
                    0 <= j < i ==> (#[trigger] self.teams@[j]).organization != organization,
            decreases self.teams@.len() - i,
        {
            if self.teams[i].organization == organization {
                let ghost widx = i as int;
                let member = GcOrganizationMember::gc_new(player_id, player_name, position);
                let out = self.teams[i].gc_add_member(member);
                return out;
            }
            i = i + 1;
        }
        Err("找不到组织".to_owned())
    }

    /// The faction's team.
    pub fn gc_get_team(&self, organization: &GcOrganization) -> (r: Option<&GcOrganizationTeam>)
        ensures
            r matches Some(t) ==> t.organization == *organization && exists|j: int|
                0 <= j < self.teams@.len() && *t == self.teams@[j],
            r is None ==> (forall|j: int|
                0 <= j < self.teams@.len() ==> (#[trigger] self.teams@[j]).organization
                    != *organization),
    {
        let mut i: usize = 0;
        while i < self.teams.len()
            invariant
                i <= self.teams@.len(),
                forall|j: int|
                    0 <= j < i ==> (#[trigger] self.teams@[j]).organization != *organization,
            decreases self.teams@.len() - i,
        {
            if self.teams[i].organization == *organization {
                return Some(&self.teams[i]);
            }
            i = i + 1;
        }
        None
    }

    /// The faction a player belongs to, if any.
    pub fn gc_get_player_organization(&self, player_id: &str) -> (r: Option<&GcOrganization>)
        ensures
            r matches Some(o) ==> exists|t: int, m: int|
                0 <= t < self.teams@.len() && 0 <= m < self.teams@[t].members@.len() && self.teams@[t].members@[m].player_id@ == player_id@ && *o == self.teams@[t].organization,
    {
        let mut i: usize = 0;
        while i < self.teams.len()
            invariant
                i <= self.teams@.len(),
            decreases self.teams@.len() - i,
        {
            let mut k: usize = 0;
            while k < self.teams[i].members.len()
                invariant
                    i < self.teams@.len(),
                    k <= self.teams@[i as int].members@.len(),
                decreases self.teams@[i as int].members@.len() - k,
            {
                if str_eq(self.teams[i].members[k].player_id.as_str(), player_id) {
                    return Some(&self.teams[i].organization);
                }
                k = k + 1;
            }
            i = i + 1;
        }
        None
    }

    /// Teams not yet wiped, in order.
    pub fn gc_get_alive_teams(&self) -> (r: Vec<&GcOrganizationTeam>)
        ensures
            r@.len() <= self.teams@.len(),
            forall|k: int| 0 <= k < r@.len() ==> !(#[trigger] r@[k]).is_wiped,
    {
        let mut out: Vec<&GcOrganizationTeam> = Vec::new();
        let mut i: usize = 0;
        while i < self.teams.len()
            invariant
                i <= self.teams@.len(),
                out@.len() <= i,
                forall|k: int| 0 <= k < out@.len() ==> !(#[trigger] out@[k]).is_wiped,
            decreases self.teams@.len() - i,
        {
            if !self.teams[i].is_wiped {
                out.push(&self.teams[i]);
            }
            i = i + 1;
        }
        out
    }

    /// Ids of every member still standing, team by team.
    pub fn gc_get_alive_player_ids(&self) -> (r: Vec<&str>)
    {
        let mut out: Vec<&str> = Vec::new();
        let mut i: usize = 0;
        while i < self.teams.len()
            invariant
                i <= self.teams@.len(),
            decreases self.teams@.len() - i,
        {
            let mut k: usize = 0;
            while k < self.teams[i].members.len()
                invariant
                    i < self.teams@.len(),
                    k <= self.teams@[i as int].members@.len(),
                decreases self.teams@[i as int].members@.len() - k,
            {
                if self.teams[i].members[k].is_alive {
                    out.push(self.teams[i].members[k].player_id.as_str());
                }
                k = k + 1;
            }
            i = i + 1;
        }
        out
    }

    /// Players enrolled over all teams.
    pub fn gc_total_players(&self) -> (r: usize)
        ensures
            r == spec_total_players(self.teams@, self.teams@.len() as int),
    {
        let mut total: usize = 0;
        let mut i: usize = 0;
        while i < self.teams.len()
            invariant
                i <= self.teams@.len(),
                total == spec_total_players(self.teams@, i as int),
            decreases self.teams@.len() - i,
        {
            total = total.saturating_add(self.teams[i].members.len());
            i = i + 1;
        }
        total
    }

    /// Whether the raid is full: eight players enrolled.
    pub fn gc_is_full(&self) -> (r: bool)
        ensures
            r == (spec_total_players(self.teams@, self.teams@.len() as int) >= 8),
    {
        self.gc_total_players() >= 8
    }

    /// Set the acting order and rewind to its start.
    pub fn gc_set_action_order(&mut self, order: Vec<String>)
        ensures
            *final(self) == (GcRaidFormation {
                action_order: order,
                current_action_index: 0usize,
                ..*old(self)
            }),
    {
        self.action_order = order;
        self.current_action_index = 0;
    }

    /// The player whose turn it is, if the order has not run out.
    pub fn gc_get_current_actor(&self) -> (r: Option<&str>)
        ensures
            self.current_action_index < self.action_order@.len() ==> (r matches Some(s) && s@
                == self.action_order@[self.current_action_index as int]@),
            self.current_action_index >= self.action_order@.len() ==> r is None,
    {
        if self.current_action_index < self.action_order.len() {
            Some(self.action_order[self.current_action_index].as_str())
        } else {
            None
        }
    }

    /// Step to the next actor; the result says whether one is left.
    pub fn gc_next_actor(&mut self) -> (r: bool)
        requires
            old(self).current_action_index < usize::MAX,
        ensures
            *final(self) == (GcRaidFormation {
                current_action_index: (old(self).current_action_index + 1) as usize,
                ..*old(self)
            }),
            r == (old(self).current_action_index + 1 < old(self).action_order@.len()),
    {
        self.current_action_index = self.current_action_index + 1;
        self.current_action_index < self.action_order.len()
    }

    /// The factions ranked by damage, highest first, earlier teams first on
    /// ties.
    pub fn gc_damage_ranking(&self) -> (r: Vec<(GcOrganization, u64)>)
        ensures
            r@.len() == self.teams@.len(),
            forall|a: int, b: int| 0 <= a < b < r@.len() ==> (#[trigger] r@[a]).1 >= (
            #[trigger] r@[b]).1,
    {
        let mut ranking: Vec<(GcOrganization, u64)> = Vec::new();
        let mut i: usize = 0;
        while i < self.teams.len()
            invariant
                i <= self.teams@.len(),
                ranking@.len() == i,
                forall|a: int, b: int|
                    0 <= a < b < ranking@.len() ==> (#[trigger] ranking@[a]).1 >= (
                    #[trigger] ranking@[b]).1,
            decreases self.teams@.len() - i,
        {
            let entry = (self.teams[i].organization, self.teams[i].total_damage);
            let mut pos: usize = 0;
            while pos < ranking.len() && ranking[pos].1 >= entry.1
                invariant
                    pos <= ranking@.len(),
                    forall|a: int| 0 <= a < pos ==> (#[trigger] ranking@[a]).1 >= entry.1,
                decreases ranking@.len() - pos,
            {
                pos = pos + 1;
            }
            let ghost before = ranking@;
            ranking.insert(pos, entry);
            proof {
                assert(pos < ranking@.len());
                assert(forall|a: int, b: int|
                    0 <= a < b < ranking@.len() ==> (#[trigger] ranking@[a]).1 >= (
                    #[trigger] ranking@[b]).1) by {
                    assert(forall|a: int|
                        0 <= a < pos ==> (#[trigger] ranking@[a]).1 == before[a].1);
                    assert(forall|b: int|
                        pos < b < ranking@.len() ==> (#[trigger] ranking@[b]).1 == before[b
                            - 1].1);
                    assert(pos < before.len() ==> before[pos as int].1 < entry.1);
                };
            }
            i = i + 1;
        }
        ranking
    }
}

/// Members enrolled over the teams below `i`, saturating at the type limit.
pub open spec fn spec_total_players(teams: Seq<GcOrganizationTeam>, i: int) -> usize
    decreases i,
{
    if i <= 0 {
        0usize
    } else {
        spec_total_players(teams, i - 1).saturating_add(teams[i - 1].members@.len() as usize)
    }
}

} // verus!
