//! The boss combat state machine: rage that fills from damage taken, skills
//! with cooldowns plus one rage-gated ultimate, and the multi-stage revival
//! rule that depends on how many teams still stand.

use vstd::prelude::*;
use vstd::string::StringExecFns;

verus! {

/// The kind of boss.
#[derive(Clone, Copy, Debug, PartialEq, Eq, Structural)]
pub enum GcBossType {
    /// Small group boss.
    Mini,
    /// Weekly raid boss with the revival rule.
    Weekly,
    /// World boss.
    World,
}

/// The boss's combat state.
#[derive(Clone, Copy, Debug, PartialEq, Eq, Structural)]
pub enum GcBossState {
    Idle,
    Attacking,
    Charging,
    /// Rage is full or a revival just happened.
    Enraged,
    Stunned,
    /// Terminal: the boss is finally down.
    Dead,
}

/// Whom a skill hits.
#[derive(Clone, Copy, Debug, PartialEq, Eq, Structural)]
pub enum GcSkillTargetType {
    /// One player.
    Single,
    /// Every player of one organization.
    Organization,
    /// Every player.
    All,
}

/// One boss skill.
#[derive(Clone, Debug)]
pub struct GcBossSkill {
    pub id: String,
    pub name: String,
    pub description: String,
    /// Base damage of the skill.
    pub damage: u32,
    /// Whom it hits.
    pub target_type: GcSkillTargetType,
    /// Cooldown in turns once used.
    pub cooldown: u32,
    /// Turns left until ready.
    pub current_cooldown: u32,
    /// Rage needed, for the ultimate skill.
    pub rage_required: Option<u32>,
}

impl GcBossSkill {
    /// A plain skill, ready from the start.
    pub fn gc_new(
        id: &str,
        name: &str,
        description: &str,
        damage: u32,
        target_type: GcSkillTargetType,
        cooldown: u32,
    ) -> (r: Self)
        ensures
            r.id@ == id@,
            r.name@ == name@,
            r.description@ == description@,
            r.damage == damage,
            r.target_type == target_type,
            r.cooldown == cooldown,
            r.current_cooldown == 0,
            r.rage_required is None,
    {
        GcBossSkill {
            id: id.to_owned(),
            name: name.to_owned(),
            description: description.to_owned(),
            damage,
            target_type,
            cooldown,
            current_cooldown: 0,
            rage_required: None,
        }
    }

    /// A rage-gated ultimate that hits everyone.
    pub fn gc_new_rage_skill(
        id: &str,
        name: &str,
        description: &str,
        damage: u32,
        rage_required: u32,
    ) -> (r: Self)
        ensures
            r.id@ == id@,
            r.name@ == name@,
            r.description@ == description@,
            r.damage == damage,
            r.target_type is All,
            r.cooldown == 0,
            r.current_cooldown == 0,
            r.rage_required == Some(rage_required),
    {
        GcBossSkill {
            id: id.to_owned(),
            name: name.to_owned(),
            description: description.to_owned(),
            damage,
            target_type: GcSkillTargetType::All,
            cooldown: 0,
            current_cooldown: 0,
            rage_required: Some(rage_required),
        }
    }

    /// A skill is ready when its cooldown has run out.
    pub fn gc_is_ready(&self) -> (r: bool)
        ensures
            r == (self.current_cooldown == 0),
    {
        self.current_cooldown == 0
    }

    /// Use the skill: its full cooldown starts.
    pub fn gc_use(&mut self)
        ensures
            *final(self) == (GcBossSkill { current_cooldown: old(self).cooldown, ..*old(self) }),
    {
        self.current_cooldown = self.cooldown;
    }

    /// End of turn: the cooldown counts one down, stopping at zero.
    pub fn gc_tick(&mut self)
        ensures
            *final(self) == (GcBossSkill {
                current_cooldown: if old(self).current_cooldown > 0 {
                    (old(self).current_cooldown - 1) as u32
                } else {
                    0u32
                },
                ..*old(self)
            }),
    {
        if self.current_cooldown > 0 {
            self.current_cooldown = self.current_cooldown - 1;
        }
    }
}

/// One entry of a boss's loot table.
#[derive(Clone, Debug)]
pub struct GcBossDrop {
    pub item_id: String,
    pub item_name: String,
    /// Chance out of 100.
    pub drop_rate: u32,
    pub min_quantity: u32,
    pub max_quantity: u32,
}

/// The boss itself.
///
/// Invariant: `current_rage <= max_rage`; the state becomes `Dead` only when
/// the hit points are empty and at most one team still stands.
#[derive(Clone, Debug)]
pub struct GcBoss {
    pub id: String,
    pub name: String,
    pub boss_type: GcBossType,
    pub description: String,
    /// Maximum hit points.
    pub max_hp: u32,
    /// Current hit points.
    pub current_hp: u32,
    /// Attack at creation.
    pub base_attack: u32,
    /// Attack now; it grows with each revival.
    pub current_attack: u32,
    /// Defense; half of it is subtracted from incoming damage.
    pub defense: u32,
    /// Rage cap.
    pub max_rage: u32,
    /// Rage now.
    pub current_rage: u32,
    /// Rage gained per point of damage taken, in percent (50 means half a
    /// point of rage per point of damage).
    pub rage_per_damage: u32,
    /// Ordinary skills.
    pub skills: Vec<GcBossSkill>,
    /// The ultimate released when rage is full.
    pub rage_skill: GcBossSkill,
    /// Combat state.
    pub state: GcBossState,
    /// Times the boss has revived.
    pub revive_count: u32,
    /// Cap on revivals, consulted through `gc_can_revive`.
    pub max_revives: u32,
    /// Attack growth per revival, in percent of the base attack.
    pub attack_boost_per_revive: u32,
    /// Organization the boss was goaded into attacking first, if any.
    pub target_organization: Option<String>,
    /// Loot table.
    pub drops: Vec<GcBossDrop>,
}

/// Whether a skill stands ready (its cooldown has run out).
pub open spec fn spec_skill_ready(s: GcBossSkill) -> bool {
    s.current_cooldown == 0
}

/// Whether `i` is the index the skill choice falls on: a ready skill whose
/// base cooldown no ready skill beats, and which no earlier ready skill ties.
pub open spec fn spec_best_ready_skill(skills: Seq<GcBossSkill>, i: int) -> bool {
    &&& 0 <= i < skills.len()
    &&& spec_skill_ready(skills[i])
    &&& forall|j: int|
        0 <= j < skills.len() && spec_skill_ready(#[trigger] skills[j]) ==> skills[j].cooldown
            <= skills[i].cooldown
    &&& forall|j: int|
        0 <= j < i && spec_skill_ready(#[trigger] skills[j]) ==> skills[j].cooldown
            < skills[i].cooldown
}

/// Damage that actually lands: half the defense is subtracted, but at least
/// one point always goes through.
pub open spec fn spec_boss_actual_damage(damage: u32, defense: u32) -> u32 {
    let reduced = damage.saturating_sub(defense / 2);
    if reduced < 1 {
        1u32
    } else {
        reduced
    }
}

/// Rage gained from damage: the damage scaled by the rage percentage,
/// truncated, clamped to `u32`.
pub open spec fn spec_rage_gain(actual_damage: u32, rage_per_damage: u32) -> u32 {
    let g = (actual_damage * rage_per_damage) / 100;
    if g > u32::MAX {
        u32::MAX
    } else {
        g as u32
    }
}

/// Rage and state after gaining rage: the rage rises, capped at the maximum;
/// hitting the cap turns the state Enraged.
pub open spec fn spec_after_rage_gain(b: GcBoss, amount: u32) -> (u32, GcBossState) {
    let raised = b.current_rage.saturating_add(amount);
    let capped = if raised < b.max_rage {
        raised
    } else {
        b.max_rage
    };
    if capped >= b.max_rage && !(b.state is Enraged) {
        (capped, GcBossState::Enraged)
    } else {
        (capped, b.state)
    }
}

/// Hit points restored by a weekly revival: half the hit points held just
/// before the killing blow, at least one.
pub open spec fn spec_weekly_revive_hp(hp_before_kill: u32) -> u32 {
    if hp_before_kill / 2 == 0 {
        1u32
    } else {
        (hp_before_kill / 2) as u32
    }
}

/// Attack after some number of revivals: the base attack plus the per-revival
/// boost (a percentage of the base) once per revival, saturating.
pub open spec fn spec_revived_attack(base_attack: u32, boost_percent: u32, revive_count: u32) -> u32 {
    let boost = (base_attack * boost_percent) / 100;
    let boost32: u32 = if boost > u32::MAX {
        u32::MAX
    } else {
        boost as u32
    };
    let total = base_attack + boost32 * revive_count;
    if total > u32::MAX {
        u32::MAX
    } else {
        total as u32
    }
}

/// Attack boost of one revival, clamped to `u32`.
fn revive_boost(base_attack: u32, boost_percent: u32) -> (r: u32)
    ensures
        r == ({
            let boost = (base_attack * boost_percent) / 100;
            if boost > u32::MAX {
                u32::MAX
            } else {
                boost as u32
            }
        }),
{
    proof {
        assert((base_attack as int) * (boost_percent as int) <= (u32::MAX as int) * (
        u32::MAX as int)) by (nonlinear_arith)
            requires
                base_attack <= u32::MAX && boost_percent <= u32::MAX,
        ;
    }
    let b: u64 = (base_attack as u64) * (boost_percent as u64) / 100;
    if b > u32::MAX as u64 {
        u32::MAX
    } else {
        b as u32
    }
}

impl GcBoss {
    /// A fresh boss: full health, no rage, idle, with a default ultimate and
    /// no revivals configured.  `rage_per_damage` is in percent.
    pub fn gc_new(
        id: &str,
        name: &str,
        boss_type: GcBossType,
        max_hp: u32,
        base_attack: u32,
        defense: u32,
        max_rage: u32,
        rage_per_damage: u32,
    ) -> (r: Self)
        ensures
            r.id@ == id@,
            r.name@ == name@,
            r.boss_type == boss_type,
            r.description@ == Seq::<char>::empty(),
            r.max_hp == max_hp,
            r.current_hp == max_hp,
            r.base_attack == base_attack,
            r.current_attack == base_attack,
            r.defense == defense,
            r.max_rage == max_rage,
            r.current_rage == 0,
            r.rage_per_damage == rage_per_damage,
            r.skills@.len() == 0,
            r.state is Idle,
            r.revive_count == 0,
            r.max_revives == 0,
            r.attack_boost_per_revive == 0,
            r.target_organization is None,
            r.drops@.len() == 0,
            r.rage_skill.rage_required == Some(100u32),
            r.rage_skill.damage == 50,
    {
        GcBoss {
            id: id.to_owned(),
            name: name.to_owned(),
            boss_type,
            description: String::new(),
            max_hp,
            current_hp: max_hp,
            base_attack,
            current_attack: base_attack,
            defense,
            max_rage,
            current_rage: 0,
            rage_per_damage,
            skills: Vec::new(),
            rage_skill: GcBossSkill::gc_new_rage_skill(
                "default_rage",
                "狂怒爆发",
                "释放怒气，对全体造成伤害",
                50,
                100,
            ),
            state: GcBossState::Idle,
            revive_count: 0,
            max_revives: 0,
            attack_boost_per_revive: 0,
            target_organization: None,
            drops: Vec::new(),
        }
    }

    /// The same boss with the given description.
    pub fn gc_with_description(self, description: &str) -> (r: Self)
        ensures
            r == (GcBoss { description: r.description, ..self }),
            r.description@ == description@,
    {
        let mut b = self;
        b.description = description.to_owned();
        b
    }

    /// Add an ordinary skill.
    pub fn gc_add_skill(&mut self, skill: GcBossSkill)
        ensures
            *final(self) == (GcBoss { skills: final(self).skills, ..*old(self) }),
            final(self).skills@ == old(self).skills@.push(skill),
    {
        self.skills.push(skill);
    }

    /// Replace the ultimate.
    pub fn gc_set_rage_skill(&mut self, skill: GcBossSkill)
        ensures
            *final(self) == (GcBoss { rage_skill: skill, ..*old(self) }),
    {
        self.rage_skill = skill;
    }

    /// Configure the revival budget and the attack growth per revival.
    pub fn gc_set_revive(&mut self, max_revives: u32, attack_boost_per_revive: u32)
        ensures
            *final(self) == (GcBoss { max_revives, attack_boost_per_revive, ..*old(self) }),
    {
        self.max_revives = max_revives;
        self.attack_boost_per_revive = attack_boost_per_revive;
    }

    /// Add a loot entry.
    pub fn gc_add_drop(&mut self, drop: GcBossDrop)
        ensures
            *final(self) == (GcBoss { drops: final(self).drops, ..*old(self) }),
            final(self).drops@.len() == old(self).drops@.len() + 1,
    {
        self.drops.push(drop);
    }

    /// The boss lives while it has hit points and is not finally dead.
    pub fn gc_is_alive(&self) -> (r: bool)
        ensures
            r == (self.current_hp > 0 && !(self.state is Dead)),
    {
        self.current_hp > 0 && !matches!(self.state, GcBossState::Dead)
    }

    /// Whether the revival budget still allows a revival: only weekly bosses
    /// revive, and only below their configured cap.
    pub fn gc_can_revive(&self) -> (r: bool)
        ensures
            r == (self.boss_type is Weekly && self.revive_count < self.max_revives),
    {
        matches!(self.boss_type, GcBossType::Weekly) && self.revive_count < self.max_revives
    }

    /// Whether the boss is finally dead: for a weekly boss the hit points
    /// must be empty *and* at most one team may still stand; for any other
    /// boss empty hit points suffice.
    pub fn gc_check_final_death(&self, surviving_org_count: u32) -> (r: bool)
        ensures
            self.boss_type is Weekly ==> r == (self.current_hp == 0 && surviving_org_count
                <= 1),
            !(self.boss_type is Weekly) ==> r == (self.current_hp == 0),
    {
        if !matches!(self.boss_type, GcBossType::Weekly) {
            return self.current_hp == 0;
        }
        self.current_hp == 0 && surviving_org_count <= 1
    }

    /// Weekly damage intake.  At least one point lands after the defense cut
    /// and rage grows accordingly.  If the blow empties the hit points, the
    /// survivor count decides: with more than one team standing the boss
    /// *must* revive — half the hit points it held before the blow (at least
    /// one) return, the revive counter rises, the attack grows from the base,
    /// the rage clears and the boss turns Enraged; with at most one team
    /// standing it dies for good.  The result is the damage dealt, whether a
    /// revival happened, and whether the boss is finally dead.
    pub fn gc_take_damage_weekly(&mut self, damage: u32, surviving_org_count: u32) -> (r: (
        u32,
        bool,
        bool,
    ))
        ensures
            ({
                let actual = spec_boss_actual_damage(damage, old(self).defense);
                let hp_before = old(self).current_hp;
                let hp_after = hp_before.saturating_sub(actual);
                let gain = spec_rage_gain(actual, old(self).rage_per_damage);
                let raged = spec_after_rage_gain(*old(self), gain);
                &&& r.0 == actual
                &&& r.1 == (hp_after == 0 && surviving_org_count > 1)
                &&& r.2 == (hp_after == 0 && surviving_org_count <= 1)
                &&& (hp_after > 0 ==> *final(self) == (GcBoss {
                    current_hp: hp_after,
                    current_rage: raged.0,
                    state: raged.1,
                    ..*old(self)
                }))
                &&& (hp_after == 0 && surviving_org_count > 1 ==> *final(self) == (GcBoss {
                    current_hp: spec_weekly_revive_hp(hp_before),
                    current_rage: 0,
                    state: GcBossState::Enraged,
                    revive_count: old(self).revive_count.saturating_add(1),
                    current_attack: spec_revived_attack(
                        old(self).base_attack,
                        old(self).attack_boost_per_revive,
                        old(self).revive_count.saturating_add(1),
                    ),
                    ..*old(self)
                }))
                &&& (hp_after == 0 && surviving_org_count <= 1 ==> *final(self) == (GcBoss {
                    current_hp: 0,
                    current_rage: raged.0,
                    state: GcBossState::Dead,
                    ..*old(self)
                }))
                &&& (hp_after == 0 && surviving_org_count <= 1 ==> final(self).revive_count
                    == old(self).revive_count)
            }),
    {
        let actual_damage = {
            let reduced = damage.saturating_sub(self.defense / 2);
            if reduced < 1 {
                1
            } else {
                reduced
            }
        };
        let hp_before = self.current_hp;
        self.current_hp = self.current_hp.saturating_sub(actual_damage);
        let rage_gain = rage_gain_amount(actual_damage, self.rage_per_damage);
        self.gc_add_rage(rage_gain);
        let mut needs_revive = false;
        let mut truly_dead = false;
        if self.current_hp == 0 {
            if surviving_org_count > 1 {
                needs_revive = true;
                self.gc_revive_weekly(hp_before);
            } else {
                truly_dead = true;
                self.state = GcBossState::Dead;
            }
        }
        (actual_damage, needs_revive, truly_dead)
    }

    /// Ordinary damage intake.  At least one point lands after the defense
    /// cut and rage grows.  If the blow empties the hit points, a boss whose
    /// revival budget allows it revives at full health with grown attack and
    /// turns Enraged; otherwise it dies.  The result is the damage dealt and
    /// whether the boss ended up dead.
    pub fn gc_take_damage(&mut self, damage: u32) -> (r: (u32, bool))
        ensures
            ({
                let actual = spec_boss_actual_damage(damage, old(self).defense);
                let hp_after = old(self).current_hp.saturating_sub(actual);
                let gain = spec_rage_gain(actual, old(self).rage_per_damage);
                let raged = spec_after_rage_gain(*old(self), gain);
                let can_revive = old(self).boss_type is Weekly && old(self).revive_count < old(self).max_revives;
                &&& r.0 == actual
                &&& r.1 == (hp_after == 0 && !can_revive)
                &&& (hp_after > 0 ==> *final(self) == (GcBoss {
                    current_hp: hp_after,
                    current_rage: raged.0,
                    state: raged.1,
                    ..*old(self)
                }))
                &&& (hp_after == 0 && can_revive ==> *final(self) == (GcBoss {
                    current_hp: old(self).max_hp,
                    current_rage: 0,
                    state: GcBossState::Enraged,
                    revive_count: old(self).revive_count.saturating_add(1),
                    current_attack: spec_revived_attack(
                        old(self).base_attack,
                        old(self).attack_boost_per_revive,
                        old(self).revive_count.saturating_add(1),
                    ),
                    ..*old(self)
                }))
                &&& (hp_after == 0 && !can_revive ==> *final(self) == (GcBoss {
                    current_hp: 0,
                    current_rage: raged.0,
                    state: GcBossState::Dead,
                    ..*old(self)
                }))
            }),
    {
        let actual_damage = {
            let reduced = damage.saturating_sub(self.defense / 2);
            if reduced < 1 {
                1
            } else {
                reduced
            }
        };
        self.current_hp = self.current_hp.saturating_sub(actual_damage);
        let rage_gain = rage_gain_amount(actual_damage, self.rage_per_damage);
        self.gc_add_rage(rage_gain);
        let died = self.current_hp == 0;
        let mut finally_dead = false;
        if died {
            if self.gc_can_revive() {
                self.gc_revive();
            } else {
                self.state = GcBossState::Dead;
                finally_dead = true;
            }
        }
        (actual_damage, finally_dead)
    }

    /// Weekly revival: the revive counter rises, half the pre-blow hit points
    /// return (at least one), the attack grows from the base, the rage clears
    /// and the boss turns Enraged.
    fn gc_revive_weekly(&mut self, hp_before_kill: u32)
        ensures
            *final(self) == (GcBoss {
                current_hp: spec_weekly_revive_hp(hp_before_kill),
                current_rage: 0,
                state: GcBossState::Enraged,
                revive_count: old(self).revive_count.saturating_add(1),
                current_attack: spec_revived_attack(
                    old(self).base_attack,
                    old(self).attack_boost_per_revive,
                    old(self).revive_count.saturating_add(1),
                ),
                ..*old(self)
            }),
    {
        self.revive_count = self.revive_count.saturating_add(1);
        self.current_hp = hp_before_kill / 2;
        if self.current_hp == 0 {
            self.current_hp = 1;
        }
        let boost = revive_boost(self.base_attack, self.attack_boost_per_revive);
        self.current_attack = apply_revive_boost(self.base_attack, boost, self.revive_count);
        self.state = GcBossState::Enraged;
        self.current_rage = 0;
    }

    /// Ordinary revival: full health, grown attack, cleared rage, Enraged.
    fn gc_revive(&mut self)
        ensures
            *final(self) == (GcBoss {
                current_hp: old(self).max_hp,
                current_rage: 0,
                state: GcBossState::Enraged,
                revive_count: old(self).revive_count.saturating_add(1),
                current_attack: spec_revived_attack(
                    old(self).base_attack,
                    old(self).attack_boost_per_revive,
                    old(self).revive_count.saturating_add(1),
                ),
                ..*old(self)
            }),
    {
        self.revive_count = self.revive_count.saturating_add(1);
        self.current_hp = self.max_hp;
        let boost = revive_boost(self.base_attack, self.attack_boost_per_revive);
        self.current_attack = apply_revive_boost(self.base_attack, boost, self.revive_count);
        self.state = GcBossState::Enraged;
        self.current_rage = 0;
    }

    /// Gain rage, capped at the maximum; hitting the cap turns the boss
    /// Enraged.
    pub fn gc_add_rage(&mut self, amount: u32)
        ensures
            final(self).current_rage == spec_after_rage_gain(*old(self), amount).0,
            final(self).state == spec_after_rage_gain(*old(self), amount).1,
            *final(self) == (GcBoss {
                current_rage: final(self).current_rage,
                state: final(self).state,
                ..*old(self)
            }),
    {
        let raised = self.current_rage.saturating_add(amount);
        self.current_rage = if raised < self.max_rage {
            raised
        } else {
            self.max_rage
        };
        if self.current_rage >= self.max_rage && !matches!(self.state, GcBossState::Enraged) {
            self.state = GcBossState::Enraged;
        }
    }

    /// Whether the rage bar is full.
    pub fn gc_is_rage_full(&self) -> (r: bool)
        ensures
            r == (self.current_rage >= self.max_rage),
    {
        self.current_rage >= self.max_rage
    }

    /// Spend the rage after the ultimate: the bar empties, and an Enraged
    /// boss calms back to Idle.
    pub fn gc_consume_rage(&mut self)
        ensures
            final(self).current_rage == 0,
            final(self).state == (if old(self).state is Enraged {
                GcBossState::Idle
            } else {
                old(self).state
            }),
            *final(self) == (GcBoss {
                current_rage: 0,
                state: final(self).state,
                ..*old(self)
            }),
    {
        self.current_rage = 0;
        if matches!(self.state, GcBossState::Enraged) {
            self.state = GcBossState::Idle;
        }
    }

    /// Choose the next skill: with full rage always the ultimate (its
    /// cooldown does not matter); otherwise the ready skill with the longest
    /// base cooldown, the first of the list breaking ties; nothing when no
    /// skill is ready.
    pub fn gc_select_skill(&self) -> (r: Option<&GcBossSkill>)
        ensures
            self.current_rage >= self.max_rage ==> (r matches Some(s) && *s == self.rage_skill),
            self.current_rage < self.max_rage ==> match r {
                Option::None => forall|j: int|
                    0 <= j < self.skills@.len() ==> !spec_skill_ready(#[trigger] self.skills@[j]),
                Option::Some(s) => exists|i: int|
                    spec_best_ready_skill(self.skills@, i) && *s == self.skills@[i],
            },
    {
        if self.gc_is_rage_full() {
            return Some(&self.rage_skill);
        }
        let mut best: usize = 0;
        let mut found = false;
        let mut i: usize = 0;
        while i < self.skills.len()
            invariant
                i <= self.skills@.len(),
                !found ==> forall|j: int|
                    0 <= j < i ==> !spec_skill_ready(#[trigger] self.skills@[j]),
                found ==> best < i && spec_skill_ready(self.skills@[best as int]),
                found ==> forall|j: int|
                    0 <= j < i && spec_skill_ready(#[trigger] self.skills@[j])
                        ==> self.skills@[j].cooldown <= self.skills@[best as int].cooldown,
                found ==> forall|j: int|
                    0 <= j < best && spec_skill_ready(#[trigger] self.skills@[j])
                        ==> self.skills@[j].cooldown < self.skills@[best as int].cooldown,
            decreases self.skills@.len() - i,
        {
            if self.skills[i].current_cooldown == 0 {
                if !found {
                    best = i;
                    found = true;
                } else if self.skills[i].cooldown > self.skills[best].cooldown {
                    best = i;
                }
            }
            i = i + 1;
        }
        if found {
            proof {
                assert(spec_best_ready_skill(self.skills@, best as int));
            }
            Some(&self.skills[best])
        } else {
            None
        }
    }

    /// End of turn: every ordinary skill's cooldown counts one down.
    pub fn gc_on_turn_end(&mut self)
        ensures
            final(self).skills@.len() == old(self).skills@.len(),
            forall|j: int|
                0 <= j < old(self).skills@.len() ==> final(self).skills@[j] == (GcBossSkill {
                    current_cooldown: if old(self).skills@[j].current_cooldown > 0 {
                        (old(self).skills@[j].current_cooldown - 1) as u32
                    } else {
                        0u32
                    },
                    ..old(self).skills@[j]
                }),
            *final(self) == (GcBoss { skills: final(self).skills, ..*old(self) }),
    {
        let mut i: usize = 0;
        while i < self.skills.len()
            invariant
                i <= old(self).skills@.len(),
                self.skills@.len() == old(self).skills@.len(),
                *self == (GcBoss { skills: self.skills, ..*old(self) }),
                forall|j: int|
                    0 <= j < i ==> self.skills@[j] == (GcBossSkill {
                        current_cooldown: if old(self).skills@[j].current_cooldown > 0 {
                            (old(self).skills@[j].current_cooldown - 1) as u32
                        } else {
                            0u32
                        },
                        ..old(self).skills@[j]
                    }),
                forall|j: int|
                    i <= j < old(self).skills@.len() ==> self.skills@[j] == old(self).skills@[j],
            decreases old(self).skills@.len() - i,
        {
            self.skills[i].gc_tick();
            i = i + 1;
        }
    }

    /// Goad the boss onto one organization.
    pub fn gc_set_target_organization(&mut self, org_id: &str)
        ensures
            *final(self) == (GcBoss {
                target_organization: final(self).target_organization,
                ..*old(self)
            }),
            final(self).target_organization matches Some(s) && s@ == org_id@,
    {
        self.target_organization = Some(org_id.to_owned());
    }

    /// Clear the goaded target.
    pub fn gc_clear_target_organization(&mut self)
        ensures
            *final(self) == (GcBoss { target_organization: None, ..*old(self) }),
    {
        self.target_organization = None;
    }
}

/// Rage gained from damage, clamped to `u32`.
fn rage_gain_amount(actual_damage: u32, rage_per_damage: u32) -> (r: u32)
    ensures
        r == spec_rage_gain(actual_damage, rage_per_damage),
{
    proof {
        assert((actual_damage as int) * (rage_per_damage as int) <= (u32::MAX as int) * (
        u32::MAX as int)) by (nonlinear_arith)
            requires
                actual_damage <= u32::MAX && rage_per_damage <= u32::MAX,
        ;
    }
    let g: u64 = (actual_damage as u64) * (rage_per_damage as u64) / 100;
    if g > u32::MAX as u64 {
        u32::MAX
    } else {
        g as u32
    }
}

/// Base attack plus the boost once per revival, saturating.
fn apply_revive_boost(base_attack: u32, boost: u32, revive_count: u32) -> (r: u32)
    ensures
        r == ({
            let total = base_attack + boost * revive_count;
            if total > u32::MAX {
                u32::MAX
            } else {
                total as u32
            }
        }),
{
    proof {
        assert((boost as int) * (revive_count as int) <= (u32::MAX as int) * (u32::MAX as int))
            by (nonlinear_arith)
            requires
                boost <= u32::MAX && revive_count <= u32::MAX,
        ;
    }
    let t: u64 = (boost as u64) * (revive_count as u64);
    if t > (u32::MAX as u64) {
        return u32::MAX;
    }
    let total: u64 = (base_attack as u64) + t;
    if total > u32::MAX as u64 {
        u32::MAX
    } else {
        total as u32
    }
}

/// The record of one boss action.
#[derive(Clone, Debug)]
pub struct GcBossActionResult {
    pub skill_name: String,
    pub skill_description: String,
    pub target_type: GcSkillTargetType,
    pub target_organization: Option<String>,
    pub target_players: Vec<String>,
    pub damage: u32,
    pub is_rage_skill: bool,
}

/// The shadow lurker, a small boss: 500 health, rage worth half the damage
/// taken, one instant claw and one slow screech, with the default storm
/// ultimate replaced by a named one.
pub fn gc_create_shadow_lurker() -> (r: GcBoss)
    ensures
        r.id@ == "boss_shadow_lurker"@,
        r.boss_type is Mini,
        r.max_hp == 500,
        r.current_hp == 500,
        r.base_attack == 25,
        r.current_attack == 25,
        r.defense == 10,
        r.max_rage == 100,
        r.current_rage == 0,
        r.rage_per_damage == 50,
        r.state is Idle,
        r.revive_count == 0,
        r.max_revives == 0,
        r.skills@.len() == 2,
        r.skills@[0].damage == 30,
        r.skills@[0].cooldown == 0,
        r.skills@[0].target_type is Single,
        r.skills@[1].damage == 15,
        r.skills@[1].cooldown == 3,
        r.skills@[1].target_type is All,
        r.rage_skill.damage == 50,
        r.rage_skill.rage_required == Some(100u32),
{
    let mut boss = GcBoss::gc_new("boss_shadow_lurker", "暗影潜伏者", GcBossType::Mini, 500, 25, 10, 100, 50);
    let boss2 = boss.gc_with_description("在地底深处游荡的凶兽，专门伏击落单的幸存者");
    let mut boss = boss2;
    boss.gc_add_skill(
        GcBossSkill::gc_new("skill_shadow_claw", "暗影利爪", "用锋利的爪子攻击单个目标", 30, GcSkillTargetType::Single, 0),
    );
    boss.gc_add_skill(
        GcBossSkill::gc_new("skill_dark_screech", "黑暗尖啸", "发出刺耳的尖叫，攻击所有玩家", 15, GcSkillTargetType::All, 3),
    );
    boss.gc_set_rage_skill(
        GcBossSkill::gc_new_rage_skill("skill_shadow_storm", "暗影风暴", "释放暗影能量，对全体造成大量伤害", 50, 100),
    );
    boss
}

/// The abyssal titan, a weekly boss: 3000 health, three revivals each worth
/// five percent more attack, three skills and a heavy ultimate.
pub fn gc_create_abyssal_titan() -> (r: GcBoss)
    ensures
        r.id@ == "boss_abyssal_titan"@,
        r.boss_type is Weekly,
        r.max_hp == 3000,
        r.current_hp == 3000,
        r.base_attack == 40,
        r.current_attack == 40,
        r.defense == 25,
        r.max_rage == 150,
        r.current_rage == 0,
        r.rage_per_damage == 30,
        r.state is Idle,
        r.revive_count == 0,
        r.max_revives == 3,
        r.attack_boost_per_revive == 5,
        r.skills@.len() == 3,
        r.skills@[0].damage == 35,
        r.skills@[0].cooldown == 0,
        r.skills@[0].target_type is Organization,
        r.skills@[1].damage == 25,
        r.skills@[1].cooldown == 4,
        r.skills@[2].damage == 80,
        r.skills@[2].cooldown == 5,
        r.rage_skill.damage == 100,
        r.rage_skill.rage_required == Some(150u32),
{
    let mut boss = GcBoss::gc_new("boss_abyssal_titan", "深渊泰坦", GcBossType::Weekly, 3000, 40, 25, 150, 30);
    let boss2 = boss.gc_with_description("从地底深渊爬出的巨型凶兽，是毁灭地表文明的元凶之一");
    let mut boss = boss2;
    boss.gc_set_revive(3, 5);
    boss.gc_add_skill(
        GcBossSkill::gc_new("skill_titan_slam", "泰坦重击", "用巨拳砸向一个组织的所有玩家", 35, GcSkillTargetType::Organization, 0),
    );
    boss.gc_add_skill(
        GcBossSkill::gc_new("skill_earthquake", "地震波", "引发地震，对所有玩家造成伤害", 25, GcSkillTargetType::All, 4),
    );
    boss.gc_add_skill(
        GcBossSkill::gc_new("skill_focus_crush", "集中碾压", "锁定单个目标进行致命攻击", 80, GcSkillTargetType::Single, 5),
    );
    boss.gc_set_rage_skill(
        GcBossSkill::gc_new_rage_skill("skill_apocalypse", "末日降临", "释放毁灭性能量，对全体玩家造成巨量伤害", 100, 150),
    );
    boss
}

/// Law of the revival rule: a weekly boss brought to zero hit points while
/// more than one team survives must revive — it stays alive at half its
/// pre-blow health (at least one), its revive counter rises by exactly one
/// and its attack exceeds the base whenever a boost is configured; the same
/// blow with at most one team surviving kills it for good, leaving the
/// counter untouched.
pub proof fn lemma_weekly_revival(b: GcBoss, damage: u32, hp_before: u32)
    requires
        hp_before == b.current_hp,
        hp_before > 0,
        hp_before.saturating_sub(spec_boss_actual_damage(damage, b.defense)) == 0,
        b.revive_count < u32::MAX,
    ensures
        spec_weekly_revive_hp(hp_before) >= 1,
        spec_weekly_revive_hp(hp_before) == (if hp_before / 2 == 0 {
            1int
        } else {
            hp_before as int / 2
        }),
        b.base_attack * b.attack_boost_per_revive >= 100 && b.base_attack < u32::MAX
            ==> spec_revived_attack(
            b.base_attack,
            b.attack_boost_per_revive,
            b.revive_count.saturating_add(1),
        ) > b.base_attack,
{
    if b.base_attack * b.attack_boost_per_revive >= 100 && b.base_attack < u32::MAX {
        let boost = (b.base_attack * b.attack_boost_per_revive) / 100;
        assert(boost >= 1);
        let n = b.revive_count.saturating_add(1);
        assert(boost * n >= boost * 1) by (nonlinear_arith)
            requires
                n >= 1 && boost >= 0,
        ;
    }
}

} // verus!
