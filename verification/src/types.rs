//! Core shared types: save versions, global configuration, stat blocks,
//! damage results and the player-facing action enum.

use vstd::prelude::*;

use crate::num::{sat_mul_u32, spec_sat_mul_u32};

verus! {

/// Save-file version number.
///
/// A differing `major` is incompatible and forces a reset; a newer `minor` or
/// `patch` within the same `major` can be migrated automatically.
#[derive(Clone, Copy, Debug, PartialEq, Eq, Structural)]
pub struct GcSaveVersion {
    pub major: u32,
    pub minor: u32,
    pub patch: u32,
}

/// The save version written by the current build.
pub fn gc_save_version() -> (r: GcSaveVersion)
    ensures
        r == (GcSaveVersion { major: 2u32, minor: 0u32, patch: 0u32 }),
{
    GcSaveVersion { major: 2, minor: 0, patch: 0 }
}

impl GcSaveVersion {
    /// Bundle the three components into a version.
    pub fn new(major: u32, minor: u32, patch: u32) -> (r: Self)
        ensures
            r == (GcSaveVersion { major, minor, patch }),
    {
        GcSaveVersion { major, minor, patch }
    }

    /// Two versions are compatible exactly when their majors agree.
    pub fn is_compatible_with(&self, other: &GcSaveVersion) -> (r: bool)
        ensures
            r == (self.major == other.major),
    {
        self.major == other.major
    }

    /// A migration is needed for a same-major target with a newer minor or patch.
    pub fn needs_migration(&self, target: &GcSaveVersion) -> (r: bool)
        ensures
            r == (self.major == target.major && (self.minor < target.minor || self.patch
                < target.patch)),
    {
        self.major == target.major && (self.minor < target.minor || self.patch < target.patch)
    }

    /// A reset is needed exactly when the majors differ.
    pub fn needs_reset(&self, target: &GcSaveVersion) -> (r: bool)
        ensures
            r == (self.major != target.major),
    {
        self.major != target.major
    }
}

impl Default for GcSaveVersion {
    /// The default version is the current one.
    fn default() -> (r: Self)
        ensures
            r == (GcSaveVersion { major: 2u32, minor: 0u32, patch: 0u32 }),
    {
        gc_save_version()
    }
}

/// Outcome of comparing a loaded save against the current version.
#[derive(Clone, Debug)]
pub enum GcMigrationResult {
    NoMigrationNeeded,
    MigrationSuccess { from: GcSaveVersion, to: GcSaveVersion },
    ResetRequired { old_version: GcSaveVersion, current_version: GcSaveVersion },
}

/// Global rule constants.
pub struct GcConfig;

impl GcConfig {
    /// Largest hand size a player may hold.
    pub const MAX_HAND_SIZE: usize = 10;

    /// Starting hit points of a player.
    pub const DEFAULT_HP: u32 = 100;

    /// Starting attack of a player.
    pub const DEFAULT_ATTACK: u32 = 10;

    /// Starting defense of a player.
    pub const DEFAULT_DEFENSE: u32 = 5;

    /// Starting energy of a player.
    pub const DEFAULT_ENERGY: u32 = 3;

    /// Cards drawn at the start of each turn.
    pub const DRAW_PER_TURN: usize = 1;

    /// Seconds a player may spend on one turn.
    pub const TURN_TIME_LIMIT: u32 = 60;
}

/// Player identifier.
pub type GcPlayerId = String;

/// Card instance identifier.
pub type GcCardId = String;

/// Card template identifier.
pub type GcCardTemplateId = String;

/// Battle identifier.
pub type GcBattleId = String;

/// Room identifier.
pub type GcRoomId = String;

/// One of the four base attributes a character can grow.
#[derive(Clone, Copy, Debug, PartialEq, Eq, Hash, Structural)]
pub enum GcStatType {
    Strength,
    Agility,
    Intelligence,
    Vitality,
}

impl GcStatType {
    /// Display name of the attribute.
    pub fn gc_name(&self) -> (r: &'static str)
        ensures
            self is Strength ==> r@ == "力量"@,
            self is Agility ==> r@ == "敏捷"@,
            self is Intelligence ==> r@ == "智力"@,
            self is Vitality ==> r@ == "体质"@,
    {
        match self {
            GcStatType::Strength => "力量",
            GcStatType::Agility => "敏捷",
            GcStatType::Intelligence => "智力",
            GcStatType::Vitality => "体质",
        }
    }
}

/// A block of the four base attributes.
#[derive(Clone, Debug, Default, PartialEq, Eq, Structural)]
pub struct GcBaseStats {
    pub strength: u32,
    pub agility: u32,
    pub intelligence: u32,
    pub vitality: u32,
}

impl GcBaseStats {
    /// A zeroed block.
    pub fn gc_new() -> (r: Self)
        ensures
            r == (GcBaseStats { strength: 0, agility: 0, intelligence: 0, vitality: 0 }),
    {
        GcBaseStats { strength: 0, agility: 0, intelligence: 0, vitality: 0 }
    }

    /// Add another block component-wise, saturating at the type limit.
    pub fn gc_merge(&mut self, other: &GcBaseStats)
        ensures
            final(self).strength == old(self).strength.saturating_add(other.strength),
            final(self).agility == old(self).agility.saturating_add(other.agility),
            final(self).intelligence == old(self).intelligence.saturating_add(
                other.intelligence,
            ),
            final(self).vitality == old(self).vitality.saturating_add(other.vitality),
    {
        self.strength = self.strength.saturating_add(other.strength);
        self.agility = self.agility.saturating_add(other.agility);
        self.intelligence = self.intelligence.saturating_add(other.intelligence);
        self.vitality = self.vitality.saturating_add(other.vitality);
    }

    /// Add `value` (negative values count as zero) to one attribute.
    pub fn gc_add(&mut self, stat_type: GcStatType, value: i32)
        ensures
            ({
                let v: u32 = if value <= 0 {
                    0u32
                } else {
                    value as u32
                };
                &&& (stat_type is Strength ==> *final(self) == (GcBaseStats {
                    strength: old(self).strength.saturating_add(v),
                    ..*old(self)
                }))
                &&& (stat_type is Agility ==> *final(self) == (GcBaseStats {
                    agility: old(self).agility.saturating_add(v),
                    ..*old(self)
                }))
                &&& (stat_type is Intelligence ==> *final(self) == (GcBaseStats {
                    intelligence: old(self).intelligence.saturating_add(v),
                    ..*old(self)
                }))
                &&& (stat_type is Vitality ==> *final(self) == (GcBaseStats {
                    vitality: old(self).vitality.saturating_add(v),
                    ..*old(self)
                }))
            }),
    {
        let v: u32 = if value <= 0 {
            0
        } else {
            value as u32
        };
        match stat_type {
            GcStatType::Strength => self.strength = self.strength.saturating_add(v),
            GcStatType::Agility => self.agility = self.agility.saturating_add(v),
            GcStatType::Intelligence => self.intelligence = self.intelligence.saturating_add(v),
            GcStatType::Vitality => self.vitality = self.vitality.saturating_add(v),
        }
    }
}

/// A block of derived combat attributes.  Rates are in hundredths of a percent.
#[derive(Clone, Debug, Default, PartialEq, Eq, Structural)]
pub struct GcCombatStats {
    pub attack: u32,
    pub defense: u32,
    pub max_hp: u32,
    pub max_energy: u32,
    pub crit_rate: u32,
    pub crit_damage: u32,
    pub dodge_rate: u32,
    pub hit_rate: u32,
    pub physical_attack: u32,
    pub magic_attack: u32,
    pub physical_defense: u32,
    pub magic_defense: u32,
    pub healing_bonus: u32,
    pub cooldown_reduction: u32,
}

/// The combat block every base block maps to: vitality feeds hit points,
/// strength the physical side, intelligence the magical side, agility the
/// crit and dodge rates; the generic attack and defense are the better of the
/// physical and magical figures.
pub open spec fn spec_combat_from_base(base: GcBaseStats) -> GcCombatStats {
    let phys_atk = spec_sat_mul_u32(base.strength, 2);
    let mag_atk = spec_sat_mul_u32(base.intelligence, 2);
    GcCombatStats {
        attack: if phys_atk >= mag_atk {
            phys_atk
        } else {
            mag_atk
        },
        defense: if base.strength >= base.intelligence {
            base.strength
        } else {
            base.intelligence
        },
        max_hp: spec_sat_mul_u32(base.vitality, 10),
        max_energy: 3,
        crit_rate: spec_sat_mul_u32(base.agility, 10),
        crit_damage: 0,
        dodge_rate: spec_sat_mul_u32(base.agility, 5),
        hit_rate: 0,
        physical_attack: phys_atk,
        magic_attack: mag_atk,
        physical_defense: base.strength,
        magic_defense: base.intelligence,
        healing_bonus: 0,
        cooldown_reduction: 0,
    }
}

/// Component-wise saturating sum of two base blocks.
pub open spec fn spec_merge_base_stats(a: GcBaseStats, b: GcBaseStats) -> GcBaseStats {
    GcBaseStats {
        strength: a.strength.saturating_add(b.strength),
        agility: a.agility.saturating_add(b.agility),
        intelligence: a.intelligence.saturating_add(b.intelligence),
        vitality: a.vitality.saturating_add(b.vitality),
    }
}

/// Component-wise saturating sum of two combat blocks.
pub open spec fn spec_merge_combat_stats(a: GcCombatStats, b: GcCombatStats) -> GcCombatStats {
    GcCombatStats {
        attack: a.attack.saturating_add(b.attack),
        defense: a.defense.saturating_add(b.defense),
        max_hp: a.max_hp.saturating_add(b.max_hp),
        max_energy: a.max_energy.saturating_add(b.max_energy),
        crit_rate: a.crit_rate.saturating_add(b.crit_rate),
        crit_damage: a.crit_damage.saturating_add(b.crit_damage),
        dodge_rate: a.dodge_rate.saturating_add(b.dodge_rate),
        hit_rate: a.hit_rate.saturating_add(b.hit_rate),
        physical_attack: a.physical_attack.saturating_add(b.physical_attack),
        magic_attack: a.magic_attack.saturating_add(b.magic_attack),
        physical_defense: a.physical_defense.saturating_add(b.physical_defense),
        magic_defense: a.magic_defense.saturating_add(b.magic_defense),
        healing_bonus: a.healing_bonus.saturating_add(b.healing_bonus),
        cooldown_reduction: a.cooldown_reduction.saturating_add(b.cooldown_reduction),
    }
}

/// The zero combat block.
pub open spec fn spec_zero_combat_stats() -> GcCombatStats {
    GcCombatStats {
        attack: 0u32,
        defense: 0u32,
        max_hp: 0u32,
        max_energy: 0u32,
        crit_rate: 0u32,
        crit_damage: 0u32,
        dodge_rate: 0u32,
        hit_rate: 0u32,
        physical_attack: 0u32,
        magic_attack: 0u32,
        physical_defense: 0u32,
        magic_defense: 0u32,
        healing_bonus: 0u32,
        cooldown_reduction: 0u32,
    }
}

impl GcCombatStats {
    /// A zeroed block.
    pub fn gc_new() -> (r: Self)
        ensures
            r == spec_zero_combat_stats(),
    {
        GcCombatStats {
            attack: 0,
            defense: 0,
            max_hp: 0,
            max_energy: 0,
            crit_rate: 0,
            crit_damage: 0,
            dodge_rate: 0,
            hit_rate: 0,
            physical_attack: 0,
            magic_attack: 0,
            physical_defense: 0,
            magic_defense: 0,
            healing_bonus: 0,
            cooldown_reduction: 0,
        }
    }

    /// Add another block component-wise, saturating at the type limit.
    pub fn gc_merge(&mut self, other: &GcCombatStats)
        ensures
            final(self).attack == old(self).attack.saturating_add(other.attack),
            final(self).defense == old(self).defense.saturating_add(other.defense),
            final(self).max_hp == old(self).max_hp.saturating_add(other.max_hp),
            final(self).max_energy == old(self).max_energy.saturating_add(other.max_energy),
            final(self).crit_rate == old(self).crit_rate.saturating_add(other.crit_rate),
            final(self).crit_damage == old(self).crit_damage.saturating_add(other.crit_damage),
            final(self).dodge_rate == old(self).dodge_rate.saturating_add(other.dodge_rate),
            final(self).hit_rate == old(self).hit_rate.saturating_add(other.hit_rate),
            final(self).physical_attack == old(self).physical_attack.saturating_add(
                other.physical_attack,
            ),
            final(self).magic_attack == old(self).magic_attack.saturating_add(
                other.magic_attack,
            ),
            final(self).physical_defense == old(self).physical_defense.saturating_add(
                other.physical_defense,
            ),
            final(self).magic_defense == old(self).magic_defense.saturating_add(
                other.magic_defense,
            ),
            final(self).healing_bonus == old(self).healing_bonus.saturating_add(
                other.healing_bonus,
            ),
            final(self).cooldown_reduction == old(self).cooldown_reduction.saturating_add(
                other.cooldown_reduction,
            ),
    {
        self.attack = self.attack.saturating_add(other.attack);
        self.defense = self.defense.saturating_add(other.defense);
        self.max_hp = self.max_hp.saturating_add(other.max_hp);
        self.max_energy = self.max_energy.saturating_add(other.max_energy);
        self.crit_rate = self.crit_rate.saturating_add(other.crit_rate);
        self.crit_damage = self.crit_damage.saturating_add(other.crit_damage);
        self.dodge_rate = self.dodge_rate.saturating_add(other.dodge_rate);
        self.hit_rate = self.hit_rate.saturating_add(other.hit_rate);
        self.physical_attack = self.physical_attack.saturating_add(other.physical_attack);
        self.magic_attack = self.magic_attack.saturating_add(other.magic_attack);
        self.physical_defense = self.physical_defense.saturating_add(other.physical_defense);
        self.magic_defense = self.magic_defense.saturating_add(other.magic_defense);
        self.healing_bonus = self.healing_bonus.saturating_add(other.healing_bonus);
        self.cooldown_reduction = self.cooldown_reduction.saturating_add(
            other.cooldown_reduction,
        );
    }

    /// Derive the combat block of a base block.  The level does not enter the
    /// formula; growth is already folded into the base attributes.
    pub fn gc_from_base_stats(base: &GcBaseStats, _level: u32) -> (r: Self)
        ensures
            r == spec_combat_from_base(*base),
    {
        let phys_atk = sat_mul_u32(base.strength, 2);
        let mag_atk = sat_mul_u32(base.intelligence, 2);
        GcCombatStats {
            attack: if phys_atk >= mag_atk {
                phys_atk
            } else {
                mag_atk
            },
            defense: if base.strength >= base.intelligence {
                base.strength
            } else {
                base.intelligence
            },
            max_hp: sat_mul_u32(base.vitality, 10),
            max_energy: 3,
            crit_rate: sat_mul_u32(base.agility, 10),
            crit_damage: 0,
            dodge_rate: sat_mul_u32(base.agility, 5),
            hit_rate: 0,
            physical_attack: phys_atk,
            magic_attack: mag_atk,
            physical_defense: base.strength,
            magic_defense: base.intelligence,
            healing_bonus: 0,
            cooldown_reduction: 0,
        }
    }
}

/// Breakdown of one damage computation.
#[derive(Clone, Debug)]
pub struct GcDamageResult {
    /// Damage before mitigation.
    pub raw_damage: u32,
    /// Damage removed by mitigation.
    pub reduced_damage: u32,
    /// Damage actually applied.
    pub final_damage: u32,
    /// Whether the hit was a critical one.
    pub is_critical: bool,
}

impl GcDamageResult {
    /// Bundle the three damage figures; criticals are never set here.
    pub fn new(raw: u32, reduced: u32, final_dmg: u32) -> (r: Self)
        ensures
            r.raw_damage == raw,
            r.reduced_damage == reduced,
            r.final_damage == final_dmg,
            !r.is_critical,
    {
        GcDamageResult { raw_damage: raw, reduced_damage: reduced, final_damage: final_dmg, is_critical: false }
    }
}

/// An action a player can submit to a battle.
#[derive(Clone, Debug)]
pub enum GcAction {
    /// Play a card from the hand onto a target.
    PlayCard { player_id: GcPlayerId, card_id: GcCardId, target_id: GcPlayerId },
    /// End the current turn.
    EndTurn { player_id: GcPlayerId },
    /// Concede the battle.
    Surrender { player_id: GcPlayerId },
}

} // verus!
