//! Talents: nodes with levels and prerequisites, trees per profession, and
//! the player's point budget across trees.

use vstd::prelude::*;
use vstd::string::StringExecFns;

use crate::profession::GcProfessionType;
use crate::text::{decimal_string, str_eq};
use crate::types::{GcBaseStats, GcCombatStats, GcStatType};

verus! {

/// What a talent grants.
#[derive(Clone, Debug, PartialEq)]
pub enum GcTalentEffect {
    /// A flat base attribute gain.
    AddBaseStat { stat_type: GcStatType, value: i32 },
    /// A percentage gain on a named combat attribute.
    AddCombatStatPercent { stat_name: String, percent: i32 },
    /// A flat gain on a named combat attribute.
    AddCombatStatFlat { stat_name: String, value: i32 },
    /// A new skill.
    UnlockSkill { skill_id: String },
    /// A stronger version of a known skill.
    EnhanceSkill { skill_id: String, enhancement: String },
    /// A named passive.
    SpecialPassive { passive_id: String, description: String },
    /// More damage of one kind.
    DamageBonus { damage_type: String, percent: i32 },
    /// Less damage taken of one kind.
    ResistanceBonus { damage_type: String, percent: i32 },
}

/// Render a signed value as decimal with its sign.
fn signed_decimal(out: &mut String, v: i32)
{
    if v < 0 {
        out.append("-");
        let mag: u32 = if v == i32::MIN {
            2147483648u32
        } else {
            (-v) as u32
        };
        out.append(decimal_string(mag).as_str());
    } else {
        out.append(decimal_string(v as u32).as_str());
    }
}

impl GcTalentEffect {
    /// Human-readable description of the effect.
    pub fn gc_description(&self) -> (r: String)
    {
        match self {
            GcTalentEffect::AddBaseStat { stat_type, value } => {
                let mut out = stat_type.gc_name().to_owned();
                out.append(" +");
                signed_decimal(&mut out, *value);
                out
            },
            GcTalentEffect::AddCombatStatPercent { stat_name, percent } => {
                let mut out = stat_name.clone();
                out.append(" +");
                signed_decimal(&mut out, *percent);
                out.append("%");
                out
            },
            GcTalentEffect::AddCombatStatFlat { stat_name, value } => {
                let mut out = stat_name.clone();
                out.append(" +");
                signed_decimal(&mut out, *value);
                out
            },
            GcTalentEffect::UnlockSkill { skill_id } => {
                let mut out = "解锁技能: ".to_owned();
                out.append(skill_id.as_str());
                out
            },
            GcTalentEffect::EnhanceSkill { skill_id, enhancement } => {
                let mut out = "强化 ".to_owned();
                out.append(skill_id.as_str());
                out.append(": ");
                out.append(enhancement.as_str());
                out
            },
            GcTalentEffect::SpecialPassive { description, .. } => description.clone(),
            GcTalentEffect::DamageBonus { damage_type, percent } => {
                let mut out = damage_type.clone();
                out.append("伤害 +");
                signed_decimal(&mut out, *percent);
                out.append("%");
                out
            },
            GcTalentEffect::ResistanceBonus { damage_type, percent } => {
                let mut out = damage_type.clone();
                out.append("抗性 +");
                signed_decimal(&mut out, *percent);
                out.append("%");
                out
            },
        }
    }

    /// Apply the effect to a base block; only base attribute gains act here.
    pub fn gc_apply_to_base_stats(&self, stats: &mut GcBaseStats)
        ensures
            match self {
                GcTalentEffect::AddBaseStat { stat_type, value } => {
                    let v: u32 = if *value <= 0 {
                        0u32
                    } else {
                        *value as u32
                    };
                    &&& (stat_type is Strength ==> *final(stats) == (GcBaseStats {
                        strength: old(stats).strength.saturating_add(v),
                        ..*old(stats)
                    }))
                    &&& (stat_type is Agility ==> *final(stats) == (GcBaseStats {
                        agility: old(stats).agility.saturating_add(v),
                        ..*old(stats)
                    }))
                    &&& (stat_type is Intelligence ==> *final(stats) == (GcBaseStats {
                        intelligence: old(stats).intelligence.saturating_add(v),
                        ..*old(stats)
                    }))
                    &&& (stat_type is Vitality ==> *final(stats) == (GcBaseStats {
                        vitality: old(stats).vitality.saturating_add(v),
                        ..*old(stats)
                    }))
                },
                _ => *final(stats) == *old(stats),
            },
    {
        match self {
            GcTalentEffect::AddBaseStat { stat_type, value } => {
                stats.gc_add(*stat_type, *value);
            },
            _ => {},
        }
    }

    /// Apply the effect to a combat block; only named flat and percentage
    /// combat gains act here, and only on the attribute they name.
    pub fn gc_apply_to_combat_stats(&self, stats: &mut GcCombatStats)
    {
        match self {
            GcTalentEffect::AddCombatStatFlat { stat_name, value } => {
                let v: u32 = if *value <= 0 {
                    0
                } else {
                    *value as u32
                };
                if str_eq(stat_name.as_str(), "max_hp") {
                    stats.max_hp = stats.max_hp.saturating_add(v);
                } else if str_eq(stat_name.as_str(), "physical_attack") {
                    stats.physical_attack = stats.physical_attack.saturating_add(v);
                } else if str_eq(stat_name.as_str(), "magic_attack") {
                    stats.magic_attack = stats.magic_attack.saturating_add(v);
                } else if str_eq(stat_name.as_str(), "physical_defense") {
                    stats.physical_defense = stats.physical_defense.saturating_add(v);
                } else if str_eq(stat_name.as_str(), "magic_defense") {
                    stats.magic_defense = stats.magic_defense.saturating_add(v);
                } else if str_eq(stat_name.as_str(), "crit_rate") {
                    let raised = stats.crit_rate.saturating_add(v);
                    stats.crit_rate = if raised > 100 {
                        100
                    } else {
                        raised
                    };
                } else if str_eq(stat_name.as_str(), "crit_damage") {
                    stats.crit_damage = stats.crit_damage.saturating_add(v);
                } else if str_eq(stat_name.as_str(), "dodge_rate") {
                    let raised = stats.dodge_rate.saturating_add(v);
                    stats.dodge_rate = if raised > 100 {
                        100
                    } else {
                        raised
                    };
                } else if str_eq(stat_name.as_str(), "healing_bonus") {
                    stats.healing_bonus = stats.healing_bonus.saturating_add(v);
                } else if str_eq(stat_name.as_str(), "cooldown_reduction") {
                    let raised = stats.cooldown_reduction.saturating_add(v);
                    stats.cooldown_reduction = if raised > 80 {
                        80
                    } else {
                        raised
                    };
                }
            },
            GcTalentEffect::AddCombatStatPercent { stat_name, percent } => {
                let p: u32 = if *percent <= 0 {
                    0
                } else {
                    *percent as u32
                };
                if str_eq(stat_name.as_str(), "max_hp") {
                    stats.max_hp = scale_up(stats.max_hp, p);
                } else if str_eq(stat_name.as_str(), "physical_attack") {
                    stats.physical_attack = scale_up(stats.physical_attack, p);
                } else if str_eq(stat_name.as_str(), "magic_attack") {
                    stats.magic_attack = scale_up(stats.magic_attack, p);
                } else if str_eq(stat_name.as_str(), "physical_defense") {
                    stats.physical_defense = scale_up(stats.physical_defense, p);
                } else if str_eq(stat_name.as_str(), "magic_defense") {
                    stats.magic_defense = scale_up(stats.magic_defense, p);
                }
            },
            _ => {},
        }
    }
}

/// A value raised by a percentage, truncated, clamped to `u32`.
fn scale_up(base: u32, percent: u32) -> (r: u32)
    requires
        percent <= i32::MAX,
    ensures
        r == ({
            let m = (base * (100 + percent)) / 100;
            if m > u32::MAX {
                u32::MAX
            } else {
                m as u32
            }
        }),
{
    proof {
        assert((base as int) * (100 + percent as int) <= (u32::MAX as int) * (100
            + i32::MAX as int)) by (nonlinear_arith)
            requires
                base <= u32::MAX && percent <= i32::MAX,
        ;
    }
    let m: u64 = (base as u64) * (100 + percent as u64) / 100;
    if m > u32::MAX as u64 {
        u32::MAX
    } else {
        m as u32
    }
}

/// Weight class of a node.
#[derive(Clone, Copy, Debug, PartialEq, Eq, Structural)]
pub enum GcTalentNodeType {
    /// A small attribute bump.
    Minor,
    /// A sizeable effect.
    Major,
    /// A build-defining effect.
    Keystone,
}

/// Points one level of each node class costs.
pub open spec fn spec_node_cost(t: GcTalentNodeType) -> u32 {
    match t {
        GcTalentNodeType::Minor => 1u32,
        GcTalentNodeType::Major => 2u32,
        GcTalentNodeType::Keystone => 3u32,
    }
}

/// One talent node.
#[derive(Clone, Debug)]
pub struct GcTalentNode {
    pub id: String,
    pub name: String,
    pub description: String,
    pub node_type: GcTalentNodeType,
    /// Highest level the node can reach.
    pub max_level: u32,
    /// Level bought so far.
    pub current_level: u32,
    /// Points one level costs.
    pub cost_per_level: u32,
    /// Node ids that must be bought first.
    pub prerequisites: Vec<String>,
    /// Character level needed.
    pub required_player_level: u32,
    /// Effects granted at each level.
    pub effects_per_level: Vec<Vec<GcTalentEffect>>,
    /// Horizontal position in the tree display.
    pub position_x: i32,
    /// Vertical position in the tree display.
    pub position_y: i32,
    pub icon: String,
}

impl GcTalentNode {
    /// A fresh, unbought node; the cost follows the node class.
    pub fn gc_new(
        id: &str,
        name: &str,
        description: &str,
        node_type: GcTalentNodeType,
        max_level: u32,
        position: (i32, i32),
    ) -> (r: Self)
        ensures
            r.id@ == id@,
            r.name@ == name@,
            r.description@ == description@,
            r.node_type == node_type,
            r.max_level == max_level,
            r.current_level == 0,
            r.cost_per_level == spec_node_cost(node_type),
            r.prerequisites@.len() == 0,
            r.required_player_level == 1,
            r.effects_per_level@.len() == 0,
            r.position_x == position.0,
            r.position_y == position.1,
    {
        GcTalentNode {
            id: id.to_owned(),
            name: name.to_owned(),
            description: description.to_owned(),
            node_type,
            max_level,
            current_level: 0,
            cost_per_level: match node_type {
                GcTalentNodeType::Minor => 1,
                GcTalentNodeType::Major => 2,
                GcTalentNodeType::Keystone => 3,
            },
            prerequisites: Vec::new(),
            required_player_level: 1,
            effects_per_level: Vec::new(),
            position_x: position.0,
            position_y: position.1,
            icon: "⭐".to_owned(),
        }
    }

    /// The same node with prerequisites.
    pub fn gc_with_prerequisites(self, prereqs: Vec<&str>) -> (r: Self)
        ensures
            r == (GcTalentNode { prerequisites: r.prerequisites, ..self }),
            r.prerequisites@.len() == prereqs@.len(),
            forall|j: int| 0 <= j < prereqs@.len() ==> r.prerequisites@[j]@ == prereqs@[j]@,
    {
        let mut e = self;
        let mut v: Vec<String> = Vec::new();
        let mut i: usize = 0;
        while i < prereqs.len()
            invariant
                i <= prereqs@.len(),
                v@.len() == i,
                forall|j: int| 0 <= j < i ==> v@[j]@ == prereqs@[j]@,
            decreases prereqs@.len() - i,
        {
            v.push(prereqs[i].to_owned());
            i = i + 1;
        }
        e.prerequisites = v;
        e
    }

    /// The same node with a character-level requirement.
    pub fn gc_with_required_level(self, level: u32) -> (r: Self)
        ensures
            r == (GcTalentNode { required_player_level: level, ..self }),
    {
        let mut e = self;
        e.required_player_level = level;
        e
    }

    /// The same node with its per-level effects.
    pub fn gc_with_effects(self, effects: Vec<Vec<GcTalentEffect>>) -> (r: Self)
        ensures
            r == (GcTalentNode { effects_per_level: effects, ..self }),
    {
        let mut e = self;
        e.effects_per_level = effects;
        e
    }

    /// The same node with an icon.
    pub fn gc_with_icon(self, icon: &str) -> (r: Self)
        ensures
            r == (GcTalentNode { icon: r.icon, ..self }),
            r.icon@ == icon@,
    {
        let mut e = self;
        e.icon = icon.to_owned();
        e
    }

    /// Whether the node may be bought: the character level suffices and every
    /// prerequisite appears among the unlocked talents.
    pub fn gc_is_unlocked(&self, player_level: u32, unlocked_talents: &Vec<String>) -> (r: bool)
        ensures
            r == (player_level >= self.required_player_level && (forall|j: int|
                0 <= j < self.prerequisites@.len() ==> spec_contains_string(
                    unlocked_talents@,
                    (#[trigger] self.prerequisites@[j])@,
                ))),
    {
        if player_level < self.required_player_level {
            return false;
        }
        let mut i: usize = 0;
        while i < self.prerequisites.len()
            invariant
                i <= self.prerequisites@.len(),
                forall|j: int|
                    0 <= j < i ==> spec_contains_string(
                        unlocked_talents@,
                        (#[trigger] self.prerequisites@[j])@,
                    ),
            decreases self.prerequisites@.len() - i,
        {
            if !contains_string(unlocked_talents, self.prerequisites[i].as_str()) {
                return false;
            }
            i = i + 1;
        }
        true
    }

    /// Whether the node sits at its level cap.
    pub fn gc_is_maxed(&self) -> (r: bool)
        ensures
            r == (self.current_level >= self.max_level),
    {
        self.current_level >= self.max_level
    }

    /// Buy one level; fails at the cap, changing nothing.
    pub fn gc_level_up(&mut self) -> (r: Result<(), String>)
        ensures
            r is Ok <==> old(self).current_level < old(self).max_level,
            r is Ok ==> *final(self) == (GcTalentNode {
                current_level: (old(self).current_level + 1) as u32,
                ..*old(self)
            }),
            r is Err ==> *final(self) == *old(self),
    {
        if self.gc_is_maxed() {
            return Err("天赋已满级".to_owned());
        }
        self.current_level = self.current_level + 1;
        Ok(())
    }

    /// Reset the node to level zero.
    pub fn gc_reset(&mut self)
        ensures
            *final(self) == (GcTalentNode { current_level: 0u32, ..*old(self) }),
    {
        self.current_level = 0;
    }

    /// The effects of the level currently bought; none at level zero or
    /// beyond the effect table.
    pub fn gc_get_current_effects(&self) -> (r: Vec<&GcTalentEffect>)
        ensures
            (self.current_level == 0 || self.current_level - 1 >= self.effects_per_level@.len())
                ==> r@.len() == 0,
            (self.current_level > 0 && self.current_level - 1 < self.effects_per_level@.len())
                ==> r@.len() == self.effects_per_level@[self.current_level - 1]@.len(),
    {
        if self.current_level == 0 {
            return Vec::new();
        }
        let level_index = (self.current_level - 1) as usize;
        if level_index < self.effects_per_level.len() {
            let row = &self.effects_per_level[level_index];
            let mut out: Vec<&GcTalentEffect> = Vec::new();
            let mut i: usize = 0;
            while i < row.len()
                invariant
                    i <= row@.len(),
                    out@.len() == i,
                decreases row@.len() - i,
            {
                out.push(&row[i]);
                i = i + 1;
            }
            out
        } else {
            Vec::new()
        }
    }

    /// Points the next level costs; zero at the cap.
    pub fn gc_get_upgrade_cost(&self) -> (r: u32)
        ensures
            self.current_level >= self.max_level ==> r == 0,
            self.current_level < self.max_level ==> r == self.cost_per_level,
    {
        if self.gc_is_maxed() {
            0
        } else {
            self.cost_per_level
        }
    }

    /// Points sunk into the node so far, saturating.
    pub fn gc_get_invested_points(&self) -> (r: u32)
        ensures
            r == crate::num::spec_sat_mul_u32(self.current_level, self.cost_per_level),
    {
        crate::num::sat_mul_u32(self.current_level, self.cost_per_level)
    }
}

/// Whether a string sequence holds the given character sequence.
pub open spec fn spec_contains_string(v: Seq<String>, s: Seq<char>) -> bool {
    exists|j: int| 0 <= j < v.len() && (#[trigger] v[j])@ == s
}

/// Whether `v` holds the string `s`.
fn contains_string(v: &Vec<String>, s: &str) -> (r: bool)
    ensures
        r == spec_contains_string(v@, s@),
{
    let mut i: usize = 0;
    while i < v.len()
        invariant
            i <= v@.len(),
            forall|j: int| 0 <= j < i ==> (#[trigger] v@[j])@ != s@,
        decreases v@.len() - i,
    {
        if str_eq(v[i].as_str(), s) {
            return true;
        }
        i = i + 1;
    }
    false
}

/// A tree of talent nodes, optionally bound to one profession.
#[derive(Clone, Debug)]
pub struct GcTalentTree {
    pub id: String,
    pub name: String,
    /// Profession the tree belongs to; `None` means shared.
    pub profession: Option<GcProfessionType>,
    pub description: String,
    pub nodes: Vec<GcTalentNode>,
    /// Node pairs drawn as connections.
    pub connections: Vec<(String, String)>,
}

impl GcTalentTree {
    /// An empty tree.
    pub fn gc_new(id: &str, name: &str, profession: Option<GcProfessionType>) -> (r: Self)
        ensures
            r.id@ == id@,
            r.name@ == name@,
            r.profession == profession,
            r.description@ == Seq::<char>::empty(),
            r.nodes@.len() == 0,
            r.connections@.len() == 0,
    {
        GcTalentTree {
            id: id.to_owned(),
            name: name.to_owned(),
            profession,
            description: String::new(),
            nodes: Vec::new(),
            connections: Vec::new(),
        }
    }

    /// The same tree with a description.
    pub fn gc_with_description(self, desc: &str) -> (r: Self)
        ensures
            r == (GcTalentTree { description: r.description, ..self }),
            r.description@ == desc@,
    {
        let mut t = self;
        t.description = desc.to_owned();
        t
    }

    /// Append a node.
    pub fn gc_add_node(&mut self, node: GcTalentNode)
        ensures
            *final(self) == (GcTalentTree { nodes: final(self).nodes, ..*old(self) }),
            final(self).nodes@ == old(self).nodes@.push(node),
    {
        self.nodes.push(node);
    }

    /// Append a drawn connection.
    pub fn gc_add_connection(&mut self, from: &str, to: &str)
        ensures
            *final(self) == (GcTalentTree {
                connections: final(self).connections,
                ..*old(self)
            }),
            final(self).connections@.len() == old(self).connections@.len() + 1,
    {
        self.connections.push((from.to_owned(), to.to_owned()));
    }

    /// The first node with the given id.
    pub fn gc_get_node(&self, id: &str) -> (r: Option<&GcTalentNode>)
        ensures
            r is None ==> (forall|j: int|
                0 <= j < self.nodes@.len() ==> (#[trigger] self.nodes@[j]).id@ != id@),
            r matches Some(n) ==> exists|idx: int|
                0 <= idx < self.nodes@.len() && *n == self.nodes@[idx] && n.id@ == id@,
    {
        let mut i: usize = 0;
        while i < self.nodes.len()
            invariant
                i <= self.nodes@.len(),
                forall|j: int| 0 <= j < i ==> (#[trigger] self.nodes@[j]).id@ != id@,
            decreases self.nodes@.len() - i,
        {
            if str_eq(self.nodes[i].id.as_str(), id) {
                return Some(&self.nodes[i]);
            }
            i = i + 1;
        }
        None
    }

    /// Ids of the nodes bought to at least level one, in order.
    pub fn gc_get_unlocked_talent_ids(&self) -> (r: Vec<String>)
        ensures
            r@.len() <= self.nodes@.len(),
    {
        let mut out: Vec<String> = Vec::new();
        let mut i: usize = 0;
        while i < self.nodes.len()
            invariant
                i <= self.nodes@.len(),
                out@.len() <= i,
            decreases self.nodes@.len() - i,
        {
            if self.nodes[i].current_level > 0 {
                out.push(self.nodes[i].id.clone());
            }
            i = i + 1;
        }
        out
    }

    /// Points sunk into the whole tree, saturating.
    pub fn gc_get_total_invested_points(&self) -> (r: u32)
        ensures
            r == spec_tree_invested(self.nodes@, self.nodes@.len() as int),
    {
        let mut total: u32 = 0;
        let mut i: usize = 0;
        while i < self.nodes.len()
            invariant
                i <= self.nodes@.len(),
                total == spec_tree_invested(self.nodes@, i as int),
            decreases self.nodes@.len() - i,
        {
            total = total.saturating_add(self.nodes[i].gc_get_invested_points());
            i = i + 1;
        }
        total
    }

    /// Buy one level of the named talent, checking the unlock conditions, the
    /// level cap and the point budget; the result carries the points spent.
    pub fn gc_upgrade_talent(
        &mut self,
        talent_id: &str,
        player_level: u32,
        available_points: u32,
    ) -> (r: Result<u32, String>)
        ensures
            r is Err ==> *final(self) == *old(self),
            r matches Ok(cost) ==> exists|idx: int|
                {
                    &&& 0 <= idx < old(self).nodes@.len()
                    &&& (#[trigger] old(self).nodes@[idx]).id@ == talent_id@
                    &&& old(self).nodes@[idx].current_level < old(self).nodes@[idx].max_level
                    &&& cost == old(self).nodes@[idx].cost_per_level
                    &&& cost <= available_points
                    &&& final(self).nodes@ == old(self).nodes@.update(
                        idx,
                        GcTalentNode {
                            current_level: (old(self).nodes@[idx].current_level + 1) as u32,
                            ..old(self).nodes@[idx]
                        },
                    )
                    &&& *final(self) == (GcTalentTree { nodes: final(self).nodes, ..*old(self) })
                },
    {
        let unlocked = self.gc_get_unlocked_talent_ids();
        let mut i: usize = 0;
        while i < self.nodes.len()
            invariant
                i <= self.nodes@.len(),
                *self == *old(self),
                forall|j: int| 0 <= j < i ==> (#[trigger] self.nodes@[j]).id@ != talent_id@,
            decreases self.nodes@.len() - i,
        {
            if str_eq(self.nodes[i].id.as_str(), talent_id) {
                if !self.nodes[i].gc_is_unlocked(player_level, &unlocked) {
                    return Err("天赋未解锁".to_owned());
                }
                if self.nodes[i].gc_is_maxed() {
                    return Err("天赋已满级".to_owned());
                }
                let cost = self.nodes[i].gc_get_upgrade_cost();
                if available_points < cost {
                    return Err("天赋点不足".to_owned());
                }
                let ghost widx = i as int;
                let out = self.nodes[i].gc_level_up();
                match out {
                    Ok(()) => {
                        proof {
                            assert(final(self).nodes@ =~= old(self).nodes@.update(
                                widx,
                                GcTalentNode {
                                    current_level: (old(self).nodes@[widx].current_level
                                        + 1) as u32,
                                    ..old(self).nodes@[widx]
                                },
                            ));
                        }
                        return Ok(cost);
                    },
                    Err(e) => {
                        return Err(e);
                    },
                }
            }
            i = i + 1;
        }
        Err("天赋不存在".to_owned())
    }

    /// Reset every node and refund the points they held.
    pub fn gc_reset_all(&mut self) -> (r: u32)
        ensures
            r == spec_tree_invested(old(self).nodes@, old(self).nodes@.len() as int),
            final(self).nodes@.len() == old(self).nodes@.len(),
            forall|j: int|
                0 <= j < old(self).nodes@.len() ==> final(self).nodes@[j] == (GcTalentNode {
                    current_level: 0u32,
                    ..old(self).nodes@[j]
                }),
            *final(self) == (GcTalentTree { nodes: final(self).nodes, ..*old(self) }),
    {
        let refund = self.gc_get_total_invested_points();
        let mut i: usize = 0;
        while i < self.nodes.len()
            invariant
                i <= old(self).nodes@.len(),
                self.nodes@.len() == old(self).nodes@.len(),
                *self == (GcTalentTree { nodes: self.nodes, ..*old(self) }),
                forall|j: int|
                    0 <= j < i ==> self.nodes@[j] == (GcTalentNode {
                        current_level: 0u32,
                        ..old(self).nodes@[j]
                    }),
                forall|j: int| i <= j < old(self).nodes@.len() ==> self.nodes@[j] == old(self).nodes@[j],
            decreases old(self).nodes@.len() - i,
        {
            self.nodes[i].gc_reset();
            i = i + 1;
        }
        refund
    }

    /// Every effect of every bought node, node by node in tree order.
    pub fn gc_collect_all_effects(&self) -> (r: Vec<&GcTalentEffect>)
    {
        let mut out: Vec<&GcTalentEffect> = Vec::new();
        let mut i: usize = 0;
        while i < self.nodes.len()
            decreases self.nodes@.len() - i,
        {
            let mut effects = self.nodes[i].gc_get_current_effects();
            let mut k: usize = 0;
            while k < effects.len()
                decreases effects@.len() - k,
            {
                out.push(effects[k]);
                k = k + 1;
            }
            i = i + 1;
        }
        out
    }

    /// Apply every bought node's effects to a base block, node by node.
    pub fn gc_apply_to_base_stats(&self, stats: &mut GcBaseStats)
    {
        let mut i: usize = 0;
        while i < self.nodes.len()
            decreases self.nodes@.len() - i,
        {
            let effects = self.nodes[i].gc_get_current_effects();
            let mut k: usize = 0;
            while k < effects.len()
                decreases effects@.len() - k,
            {
                effects[k].gc_apply_to_base_stats(stats);
                k = k + 1;
            }
            i = i + 1;
        }
    }

    /// Apply every bought node's effects to a combat block, node by node.
    pub fn gc_apply_to_combat_stats(&self, stats: &mut GcCombatStats)
    {
        let mut i: usize = 0;
        while i < self.nodes.len()
            decreases self.nodes@.len() - i,
        {
            let effects = self.nodes[i].gc_get_current_effects();
            let mut k: usize = 0;
            while k < effects.len()
                decreases effects@.len() - k,
            {
                effects[k].gc_apply_to_combat_stats(stats);
                k = k + 1;
            }
            i = i + 1;
        }
    }
}

/// Points sunk into the nodes below `i`, saturating.
pub open spec fn spec_tree_invested(nodes: Seq<GcTalentNode>, i: int) -> u32
    decreases i,
{
    if i <= 0 {
        0u32
    } else {
        spec_tree_invested(nodes, i - 1).saturating_add(
            crate::num::spec_sat_mul_u32(nodes[i - 1].current_level, nodes[i - 1].cost_per_level),
        )
    }
}

/// A player's talents: the point budget and the trees it is spent on.
#[derive(Clone, Debug)]
pub struct GcPlayerTalents {
    pub player_id: String,
    /// Points not yet spent.
    pub available_points: u32,
    /// Points spent.
    pub spent_points: u32,
    pub trees: Vec<GcTalentTree>,
}

impl GcPlayerTalents {
    /// A fresh state with no points and no trees.
    pub fn gc_new(player_id: &str) -> (r: Self)
        ensures
            r.player_id@ == player_id@,
            r.available_points == 0,
            r.spent_points == 0,
            r.trees@.len() == 0,
    {
        GcPlayerTalents {
            player_id: player_id.to_owned(),
            available_points: 0,
            spent_points: 0,
            trees: Vec::new(),
        }
    }

    /// Append a tree.
    pub fn gc_add_tree(&mut self, tree: GcTalentTree)
        ensures
            *final(self) == (GcPlayerTalents { trees: final(self).trees, ..*old(self) }),
            final(self).trees@ == old(self).trees@.push(tree),
    {
        self.trees.push(tree);
    }

    /// Grant talent points, saturating.
    pub fn gc_add_points(&mut self, points: u32)
        ensures
            *final(self) == (GcPlayerTalents {
                available_points: old(self).available_points.saturating_add(points),
                ..*old(self)
            }),
    {
        self.available_points = self.available_points.saturating_add(points);
    }

    /// The first tree with the given id.
    pub fn gc_get_tree(&self, tree_id: &str) -> (r: Option<&GcTalentTree>)
        ensures
            r is None ==> (forall|j: int|
                0 <= j < self.trees@.len() ==> (#[trigger] self.trees@[j]).id@ != tree_id@),
            r matches Some(t) ==> exists|idx: int|
                0 <= idx < self.trees@.len() && *t == self.trees@[idx] && t.id@ == tree_id@,
    {
        let mut i: usize = 0;
        while i < self.trees.len()
            invariant
                i <= self.trees@.len(),
                forall|j: int| 0 <= j < i ==> (#[trigger] self.trees@[j]).id@ != tree_id@,
            decreases self.trees@.len() - i,
        {
            if str_eq(self.trees[i].id.as_str(), tree_id) {
                return Some(&self.trees[i]);
            }
            i = i + 1;
        }
        None
    }

    /// Buy one level of a talent in the named tree, spending from the budget.
    pub fn gc_upgrade_talent(
        &mut self,
        tree_id: &str,
        talent_id: &str,
        player_level: u32,
    ) -> (r: Result<(), String>)
        ensures
            r is Err ==> final(self).trees@ == old(self).trees@ && final(self).available_points
                == old(self).available_points && final(self).spent_points == old(
                self).spent_points && final(self).player_id == old(self).player_id,
            r is Ok ==> final(self).available_points <= old(self).available_points && final(self).spent_points >= old(self).spent_points,
    {
        let available = self.available_points;
        let mut i: usize = 0;
        while i < self.trees.len()
            invariant
                i <= self.trees@.len(),
                *self == *old(self),
                available == old(self).available_points,
                forall|j: int| 0 <= j < i ==> (#[trigger] self.trees@[j]).id@ != tree_id@,
            decreases self.trees@.len() - i,
        {
            if str_eq(self.trees[i].id.as_str(), tree_id) {
                let out = self.trees[i].gc_upgrade_talent(talent_id, player_level, available);
                match out {
                    Ok(cost) => {
                        self.available_points = self.available_points - cost;
                        self.spent_points = self.spent_points.saturating_add(cost);
                        return Ok(());
                    },
                    Err(e) => {
                        proof {
                            assert(self.trees@ =~= old(self).trees@);
                        }
                        return Err(e);
                    },
                }
            }
            i = i + 1;
        }
        Err("天赋树不存在".to_owned())
    }

    /// Reset the named tree, refunding its points.
    pub fn gc_reset_tree(&mut self, tree_id: &str) -> (r: Result<u32, String>)
        ensures
            r is Err ==> *final(self) == *old(self),
            r matches Ok(refund) ==> final(self).available_points == old(self).available_points.saturating_add(refund) && final(self).spent_points == old(self).spent_points.saturating_sub(refund),
    {
        let mut i: usize = 0;
        while i < self.trees.len()
            invariant
                i <= self.trees@.len(),
                *self == *old(self),
                forall|j: int| 0 <= j < i ==> (#[trigger] self.trees@[j]).id@ != tree_id@,
            decreases self.trees@.len() - i,
        {
            if str_eq(self.trees[i].id.as_str(), tree_id) {
                let refund = self.trees[i].gc_reset_all();
                self.available_points = self.available_points.saturating_add(refund);
                self.spent_points = self.spent_points.saturating_sub(refund);
                return Ok(refund);
            }
            i = i + 1;
        }
        Err("天赋树不存在".to_owned())
    }

    /// Reset every tree: all points return and the spent counter clears.
    pub fn gc_reset_all(&mut self) -> (r: u32)
        ensures
            final(self).available_points == old(self).available_points.saturating_add(r),
            final(self).spent_points == 0,
            final(self).player_id == old(self).player_id,
    {
        let mut total_refund: u32 = 0;
        let mut i: usize = 0;
        while i < self.trees.len()
            invariant
                i <= self.trees@.len(),
                self.trees@.len() == old(self).trees@.len(),
                self.player_id == old(self).player_id,
                self.available_points == old(self).available_points,
                self.spent_points == old(self).spent_points,
            decreases self.trees@.len() - i,
        {
            let refund = self.trees[i].gc_reset_all();
            total_refund = total_refund.saturating_add(refund);
            i = i + 1;
        }
        self.available_points = self.available_points.saturating_add(total_refund);
        self.spent_points = 0;
        total_refund
    }

    /// Every effect of every bought node over all trees, in tree order.
    pub fn gc_collect_all_effects(&self) -> (r: Vec<&GcTalentEffect>)
    {
        let mut out: Vec<&GcTalentEffect> = Vec::new();
        let mut i: usize = 0;
        while i < self.trees.len()
            decreases self.trees@.len() - i,
        {
            let mut tree_effects = self.trees[i].gc_collect_all_effects();
            let mut k: usize = 0;
            while k < tree_effects.len()
                decreases tree_effects@.len() - k,
            {
                out.push(tree_effects[k]);
                k = k + 1;
            }
            i = i + 1;
        }
        out
    }

    /// Apply every tree's bought effects to a base block.
    pub fn gc_apply_to_base_stats(&self, stats: &mut GcBaseStats)
    {
        let mut i: usize = 0;
        while i < self.trees.len()
            decreases self.trees@.len() - i,
        {
            self.trees[i].gc_apply_to_base_stats(stats);
            i = i + 1;
        }
    }

    /// Apply every tree's bought effects to a combat block.
    pub fn gc_apply_to_combat_stats(&self, stats: &mut GcCombatStats)
    {
        let mut i: usize = 0;
        while i < self.trees.len()
            decreases self.trees@.len() - i,
        {
            self.trees[i].gc_apply_to_combat_stats(stats);
            i = i + 1;
        }
    }
}

} // verus!
