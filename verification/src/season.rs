//! Seasons and game modes: which of the two battle modes a season allows,
//! and the per-mode turn phases.

use vstd::prelude::*;
use vstd::string::StringExecFns;

use crate::text::str_eq;

verus! {

/// The two battle modes.
#[derive(Clone, Copy, Debug, PartialEq, Eq, Hash, Structural)]
pub enum GcGameMode {
    /// Classic card duels: deck draws and tribute summons.
    YuGiOhStyle,
    /// Tavern battler: shop purchases, three-way merges, automatic combat.
    TavernStyle,
}

impl GcGameMode {
    /// Display name.
    pub fn name(&self) -> (r: &'static str)
        ensures
            self is YuGiOhStyle ==> r@ == "决斗王"@,
            self is TavernStyle ==> r@ == "酒馆战棋"@,
    {
        match self {
            GcGameMode::YuGiOhStyle => "决斗王",
            GcGameMode::TavernStyle => "酒馆战棋",
        }
    }

    /// Display description.
    pub fn description(&self) -> (r: &'static str)
        ensures
            self is YuGiOhStyle ==> r@ == "经典卡牌对战，从卡组抽卡，使用祭品召唤高星怪兽"@,
            self is TavernStyle ==> r@ == "酒馆自走棋，购买怪兽，3合1升星，全自动战斗"@,
    {
        match self {
            GcGameMode::YuGiOhStyle => "经典卡牌对战，从卡组抽卡，使用祭品召唤高星怪兽",
            GcGameMode::TavernStyle => "酒馆自走棋，购买怪兽，3合1升星，全自动战斗",
        }
    }

    /// Display icon.
    pub fn icon(&self) -> (r: &'static str)
        ensures
            self is YuGiOhStyle ==> r@ == "🃏"@,
            self is TavernStyle ==> r@ == "🍺"@,
    {
        match self {
            GcGameMode::YuGiOhStyle => "🃏",
            GcGameMode::TavernStyle => "🍺",
        }
    }

    /// Only the duel mode lets the player pick attacks by hand.
    pub fn allows_manual_attack(&self) -> (r: bool)
        ensures
            r == (self is YuGiOhStyle),
    {
        matches!(self, GcGameMode::YuGiOhStyle)
    }

    /// Only the tavern mode has a shop.
    pub fn has_shop(&self) -> (r: bool)
        ensures
            r == (self is TavernStyle),
    {
        matches!(self, GcGameMode::TavernStyle)
    }

    /// Only the tavern mode merges monsters.
    pub fn has_merge(&self) -> (r: bool)
        ensures
            r == (self is TavernStyle),
    {
        matches!(self, GcGameMode::TavernStyle)
    }

    /// Only the duel mode has tribute summons.
    pub fn has_tribute_summon(&self) -> (r: bool)
        ensures
            r == (self is YuGiOhStyle),
    {
        matches!(self, GcGameMode::YuGiOhStyle)
    }
}

impl Default for GcGameMode {
    /// The classic duel mode.
    fn default() -> (r: Self)
        ensures
            r is YuGiOhStyle,
    {
        GcGameMode::YuGiOhStyle
    }
}

/// One season: a window in time and the modes open during it.
#[derive(Clone, Debug)]
pub struct GcSeason {
    pub id: String,
    pub name: String,
    pub description: String,
    pub icon: String,
    /// Modes open this season.
    pub allowed_modes: Vec<GcGameMode>,
    /// Unix time the season opens.
    pub start_time: u64,
    /// Unix time the season closes.
    pub end_time: u64,
    /// Whether this is the season being played.
    pub is_active: bool,
}

/// Whether `v` holds `m`.
fn contains_mode(v: &Vec<GcGameMode>, m: GcGameMode) -> (r: bool)
    ensures
        r == v@.contains(m),
{
    let mut i: usize = 0;
    while i < v.len()
        invariant
            i <= v@.len(),
            forall|j: int| 0 <= j < i ==> v@[j] != m,
        decreases v@.len() - i,
    {
        if v[i] == m {
            assert(v@.contains(m));
            return true;
        }
        i = i + 1;
    }
    false
}

impl GcSeason {
    /// Bundle a season; it starts inactive.
    pub fn new(
        id: &str,
        name: &str,
        description: &str,
        icon: &str,
        allowed_modes: Vec<GcGameMode>,
        start_time: u64,
        end_time: u64,
    ) -> (r: Self)
        ensures
            r.id@ == id@,
            r.name@ == name@,
            r.description@ == description@,
            r.icon@ == icon@,
            r.allowed_modes == allowed_modes,
            r.start_time == start_time,
            r.end_time == end_time,
            !r.is_active,
    {
        GcSeason {
            id: id.to_owned(),
            name: name.to_owned(),
            description: description.to_owned(),
            icon: icon.to_owned(),
            allowed_modes,
            start_time,
            end_time,
            is_active: false,
        }
    }

    /// Whether a mode is open this season.
    pub fn is_mode_available(&self, mode: GcGameMode) -> (r: bool)
        ensures
            r == self.allowed_modes@.contains(mode),
    {
        contains_mode(&self.allowed_modes, mode)
    }

    /// Whether the season covers the given time.
    pub fn is_within_time(&self, current_time: u64) -> (r: bool)
        ensures
            r == (self.start_time <= current_time && current_time < self.end_time),
    {
        current_time >= self.start_time && current_time < self.end_time
    }

    /// Seconds until the season closes; zero once it has.
    pub fn remaining_time(&self, current_time: u64) -> (r: u64)
        ensures
            current_time >= self.end_time ==> r == 0,
            current_time < self.end_time ==> r == self.end_time - current_time,
    {
        if current_time >= self.end_time {
            0
        } else {
            self.end_time - current_time
        }
    }
}

/// The season list and which entry is being played.
#[derive(Clone, Debug)]
pub struct GcSeasonManager {
    /// Every season.
    pub seasons: Vec<GcSeason>,
    /// Index of the active season, if one was chosen.
    pub current_season_index: Option<usize>,
}

impl Default for GcSeasonManager {
    /// No seasons, none active.
    fn default() -> (r: Self)
        ensures
            r.seasons@.len() == 0,
            r.current_season_index is None,
    {
        GcSeasonManager { seasons: Vec::new(), current_season_index: None }
    }
}

impl GcSeasonManager {
    /// An empty manager.
    pub fn new() -> (r: Self)
        ensures
            r.seasons@.len() == 0,
            r.current_season_index is None,
    {
        Self::default()
    }

    /// The manager with the three stock seasons, the first one active.
    pub fn with_defaults() -> (r: Self)
        ensures
            r.seasons@.len() == 3,
            r.current_season_index == Some(0usize),
            r.seasons@[0].is_active,
            r.seasons@[0].allowed_modes@ == seq![
                GcGameMode::YuGiOhStyle,
                GcGameMode::TavernStyle,
            ],
            r.seasons@[1].allowed_modes@ == seq![GcGameMode::TavernStyle],
            r.seasons@[2].allowed_modes@ == seq![GcGameMode::YuGiOhStyle],
            r.seasons@[1].id@ == "s2_tavern"@,
            r.seasons@[2].id@ == "s3_duel"@,
    {
        let mut manager = Self::new();
        manager.add_default_seasons();
        manager
    }

    /// Add the three stock seasons — both modes, tavern only, duel only — and
    /// activate the first.
    pub fn add_default_seasons(&mut self)
        ensures
            final(self).seasons@.len() == old(self).seasons@.len() + 3,
            final(self).current_season_index == Some(old(self).seasons@.len() as usize),
            forall|j: int|
                0 <= j < old(self).seasons@.len() ==> final(self).seasons@[j] == (GcSeason {
                    is_active: (old(self).seasons@[j].is_active && old(self).current_season_index
                        != Some(j as usize)),
                    ..old(self).seasons@[j]
                }),
            final(self).seasons@[old(self).seasons@.len() as int].is_active,
            final(self).seasons@[old(self).seasons@.len() as int].allowed_modes@ == seq![
                GcGameMode::YuGiOhStyle,
                GcGameMode::TavernStyle,
            ],
            final(self).seasons@[old(self).seasons@.len() as int + 1].allowed_modes@ == seq![
                GcGameMode::TavernStyle,
            ],
            final(self).seasons@[old(self).seasons@.len() as int + 2].allowed_modes@ == seq![
                GcGameMode::YuGiOhStyle,
            ],
            final(self).seasons@[old(self).seasons@.len() as int + 1].id@ == "s2_tavern"@,
            final(self).seasons@[old(self).seasons@.len() as int + 2].id@ == "s3_duel"@,
    {
        let mut modes1: Vec<GcGameMode> = Vec::new();
        modes1.push(GcGameMode::YuGiOhStyle);
        modes1.push(GcGameMode::TavernStyle);
        proof {
            assert(modes1@ =~= seq![GcGameMode::YuGiOhStyle, GcGameMode::TavernStyle]);
        }
        let mut modes2: Vec<GcGameMode> = Vec::new();
        modes2.push(GcGameMode::TavernStyle);
        proof {
            assert(modes2@ =~= seq![GcGameMode::TavernStyle]);
        }
        let mut modes3: Vec<GcGameMode> = Vec::new();
        modes3.push(GcGameMode::YuGiOhStyle);
        proof {
            assert(modes3@ =~= seq![GcGameMode::YuGiOhStyle]);
        }
        let first = self.seasons.len();
        self.add_season(GcSeason::new("s1", "创世赛季", "双模式同时开放，自由选择你的战斗方式", "🌟", modes1, 0, u64::MAX));
        self.add_season(GcSeason::new("s2_tavern", "酒馆狂欢", "本赛季仅开放酒馆战棋模式", "🍺", modes2, 0, u64::MAX));
        self.add_season(GcSeason::new("s3_duel", "决斗者之路", "本赛季仅开放经典决斗模式", "🃏", modes3, 0, u64::MAX));
        self.set_active_season(first);
    }

    /// Append a season.
    pub fn add_season(&mut self, season: GcSeason)
        ensures
            final(self).seasons@ == old(self).seasons@.push(season),
            final(self).current_season_index == old(self).current_season_index,
    {
        self.seasons.push(season);
    }

    /// Make the season at `index` the active one, deactivating the previous
    /// choice; out-of-range indices change nothing.
    pub fn set_active_season(&mut self, index: usize) -> (r: bool)
        ensures
            r == (index < old(self).seasons@.len()),
            !r ==> *final(self) == *old(self),
            r ==> {
                &&& final(self).current_season_index == Some(index)
                &&& final(self).seasons@.len() == old(self).seasons@.len()
                &&& final(self).seasons@[index as int].is_active
                &&& final(self).seasons@[index as int] == (GcSeason {
                    is_active: true,
                    ..old(self).seasons@[index as int]
                })
                &&& forall|j: int|
                    0 <= j < old(self).seasons@.len() && j != index
                        ==> final(self).seasons@[j] == (GcSeason {
                        is_active: (old(self).seasons@[j].is_active
                            && old(self).current_season_index != Some(j as usize)),
                        ..old(self).seasons@[j]
                    })
            },
    {
        if index >= self.seasons.len() {
            return false;
        }
        match self.current_season_index {
            Some(old_idx) => {
                if old_idx < self.seasons.len() {
                    self.seasons[old_idx].is_active = false;
                }
            },
            None => {},
        }
        self.seasons[index].is_active = true;
        self.current_season_index = Some(index);
        true
    }

    /// Make the season with the given id active; an unknown id changes
    /// nothing.
    pub fn set_active_season_by_id(&mut self, id: &str) -> (r: bool)
        ensures
            !r ==> *final(self) == *old(self),
            r ==> exists|idx: int|
                {
                    &&& 0 <= idx < old(self).seasons@.len()
                    &&& old(self).seasons@[idx].id@ == id@
                    &&& final(self).current_season_index == Some(idx as usize)
                },
    {
        let mut i: usize = 0;
        while i < self.seasons.len()
            invariant
                i <= self.seasons@.len(),
                *self == *old(self),
            decreases self.seasons@.len() - i,
        {
            if str_eq(self.seasons[i].id.as_str(), id) {
                let ghost widx = i as int;
                let r = self.set_active_season(i);
                proof {
                    assert(0 <= widx < old(self).seasons@.len() && old(self).seasons@[widx].id@
                        == id@ && final(self).current_season_index == Some(widx as usize));
                }
                return r;
            }
            i = i + 1;
        }
        false
    }

    /// The active season, if one was chosen.
    pub fn current_season(&self) -> (r: Option<&GcSeason>)
        ensures
            match self.current_season_index {
                Option::Some(idx) => {
                    if idx < self.seasons@.len() {
                        r matches Some(s) && *s == self.seasons@[idx as int]
                    } else {
                        r is None
                    }
                },
                Option::None => r is None,
            },
    {
        match self.current_season_index {
            Some(idx) => {
                if idx < self.seasons.len() {
                    Some(&self.seasons[idx])
                } else {
                    None
                }
            },
            None => None,
        }
    }

    /// The modes open now: the active season's list, or both modes when no
    /// season is active.
    pub fn available_modes(&self) -> (r: Vec<GcGameMode>)
        ensures
            match self.current_season_index {
                Option::Some(idx) => {
                    if idx < self.seasons@.len() {
                        r@ == self.seasons@[idx as int].allowed_modes@
                    } else {
                        r@ == seq![GcGameMode::YuGiOhStyle, GcGameMode::TavernStyle]
                    }
                },
                Option::None => r@ == seq![GcGameMode::YuGiOhStyle, GcGameMode::TavernStyle],
            },
    {
        match self.current_season() {
            Some(s) => s.allowed_modes.clone(),
            None => {
                let mut v: Vec<GcGameMode> = Vec::new();
                v.push(GcGameMode::YuGiOhStyle);
                v.push(GcGameMode::TavernStyle);
                proof {
                    assert(v@ =~= seq![GcGameMode::YuGiOhStyle, GcGameMode::TavernStyle]);
                }
                v
            },
        }
    }

    /// Whether a mode is open now; with no active season every mode is.
    pub fn is_mode_available(&self, mode: GcGameMode) -> (r: bool)
        ensures
            match self.current_season_index {
                Option::Some(idx) => {
                    if idx < self.seasons@.len() {
                        r == self.seasons@[idx as int].allowed_modes@.contains(mode)
                    } else {
                        r
                    }
                },
                Option::None => r,
            },
    {
        match self.current_season() {
            Some(s) => s.is_mode_available(mode),
            None => true,
        }
    }

    /// Every season, in order.
    pub fn all_seasons(&self) -> (r: &Vec<GcSeason>)
        ensures
            r@ == self.seasons@,
    {
        &self.seasons
    }

    /// Activate the first season whose window covers the given time; nothing
    /// changes when none does.
    pub fn auto_select_by_time(&mut self, current_time: u64)
        ensures
            (forall|j: int|
                0 <= j < old(self).seasons@.len() ==> !((#[trigger] old(self).seasons@[j]).start_time
                    <= current_time < old(self).seasons@[j].end_time)) ==> *final(self) == *old(self),
    {
        let mut i: usize = 0;
        while i < self.seasons.len()
            invariant
                i <= self.seasons@.len(),
                *self == *old(self),
                forall|j: int|
                    0 <= j < i ==> !((#[trigger] old(self).seasons@[j]).start_time
                        <= current_time < old(self).seasons@[j].end_time),
            decreases self.seasons@.len() - i,
        {
            if self.seasons[i].is_within_time(current_time) {
                self.set_active_season(i);
                return ;
            }
            i = i + 1;
        }
    }
}

/// Duel-mode turn phases.
#[derive(Clone, Copy, Debug, PartialEq, Eq, Structural)]
pub enum GcYuGiOhPhase {
    Draw,
    Main1,
    Battle,
    Main2,
    End,
}

/// Tavern-mode turn phases.
#[derive(Clone, Copy, Debug, PartialEq, Eq, Structural)]
pub enum GcTavernPhase {
    /// Buy, sell, refresh and level up.
    Shopping,
    /// Move monsters from the bench onto the board.
    Deploy,
    /// Automatic combat.
    Combat,
    /// Results.
    Result,
}

/// A phase of either mode.
#[derive(Clone, Copy, Debug, PartialEq, Eq, Structural)]
pub enum GcPhase {
    YuGiOh(GcYuGiOhPhase),
    Tavern(GcTavernPhase),
}

impl GcPhase {
    /// Display name of the phase.
    pub fn name(&self) -> (r: &'static str)
    {
        match self {
            GcPhase::YuGiOh(p) => match p {
                GcYuGiOhPhase::Draw => "抽牌阶段",
                GcYuGiOhPhase::Main1 => "主阶段1",
                GcYuGiOhPhase::Battle => "战斗阶段",
                GcYuGiOhPhase::Main2 => "主阶段2",
                GcYuGiOhPhase::End => "结束阶段",
            },
            GcPhase::Tavern(p) => match p {
                GcTavernPhase::Shopping => "购物阶段",
                GcTavernPhase::Deploy => "部署阶段",
                GcTavernPhase::Combat => "战斗阶段",
                GcTavernPhase::Result => "结算阶段",
            },
        }
    }

    /// Shopping is allowed only in the tavern shopping phase.
    pub fn allows_shopping(&self) -> (r: bool)
        ensures
            r == (*self == GcPhase::Tavern(GcTavernPhase::Shopping)),
    {
        matches!(self, GcPhase::Tavern(GcTavernPhase::Shopping))
    }

    /// Deployment is allowed in the duel main phases and the tavern shopping
    /// and deploy phases.
    pub fn allows_deploy(&self) -> (r: bool)
        ensures
            r == (*self == GcPhase::YuGiOh(GcYuGiOhPhase::Main1) || *self == GcPhase::YuGiOh(
                GcYuGiOhPhase::Main2,
            ) || *self == GcPhase::Tavern(GcTavernPhase::Shopping) || *self == GcPhase::Tavern(
                GcTavernPhase::Deploy,
            )),
    {
        matches!(
            self,
            GcPhase::YuGiOh(GcYuGiOhPhase::Main1 | GcYuGiOhPhase::Main2) | GcPhase::Tavern(
                GcTavernPhase::Shopping | GcTavernPhase::Deploy,
            )
        )
    }

    /// Whether this is a combat phase of either mode.
    pub fn is_combat(&self) -> (r: bool)
        ensures
            r == (*self == GcPhase::YuGiOh(GcYuGiOhPhase::Battle) || *self == GcPhase::Tavern(
                GcTavernPhase::Combat,
            )),
    {
        matches!(
            self,
            GcPhase::YuGiOh(GcYuGiOhPhase::Battle) | GcPhase::Tavern(GcTavernPhase::Combat)
        )
    }
}

} // verus!
