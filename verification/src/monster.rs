//! The monster entity: base stats, the star / golden tier multiplier, terrain
//! adjusted effective stats, damage intake, and the duel damage formula.

use vstd::prelude::*;
use vstd::arithmetic::div_mod::lemma_div_is_ordered;
use vstd::string::StringExecFns;

use crate::terrain::{
    spec_apply_atk, spec_apply_def, spec_terrain_modifier, gc_get_terrain_modifier,
    GcMonsterAttribute, GcTerrainType,
};
use crate::text::{decimal_string, spec_decimal};

verus! {

/// A monster, on the field or on the bench.
///
/// Invariant held by all constructors and damage paths: a monster whose
/// current hit points reach zero is removed from play, never left standing.
#[derive(Clone, Debug)]
pub struct GcMonster {
    /// Unique instance id.
    pub id: String,
    /// Template id; only monsters of one template merge.
    pub template_id: String,
    /// Display name.
    pub name: String,
    /// Level, which drives the summon rules.
    pub level: u8,
    /// Elemental attribute.
    pub attribute: GcMonsterAttribute,
    /// Attack before tier and terrain.
    pub base_atk: u32,
    /// Defense before tier and terrain.
    pub base_def: u32,
    /// Current hit points.
    pub current_hp: u32,
    /// Hit points before the tier multiplier.
    pub max_hp: u32,
    /// Field slot, if deployed.
    pub slot: Option<u8>,
    /// Whether the monster may attack this turn.
    pub can_attack: bool,
    /// Star tier, 1 to 3.
    pub star: u8,
    /// Golden level; 0 means not golden.
    pub golden_level: u8,
}

/// Twice the tier multiplier, as an integer: stars give 1x / 2x / 3x, golden
/// level N gives 3 * (1 + N / 2) — so twice the multiplier is `2 * star`, or
/// `6 + 3 * N` once golden.
pub open spec fn spec_tier_numer2(star: u8, golden_level: u8) -> int {
    if golden_level > 0 {
        6 + 3 * golden_level
    } else {
        2 * star
    }
}

/// A base stat scaled by the tier multiplier, truncated, clamped to `u32`.
pub open spec fn spec_starred_stat(base: u32, star: u8, golden_level: u8) -> u32 {
    let v = (base * spec_tier_numer2(star, golden_level)) / 2;
    if v > u32::MAX {
        u32::MAX
    } else {
        v as u32
    }
}

/// Effective attack: tier multiplier first, then the terrain percentage.
pub open spec fn spec_effective_atk(m: GcMonster, terrain: GcTerrainType) -> u32 {
    spec_apply_atk(
        spec_starred_stat(m.base_atk, m.star, m.golden_level),
        spec_terrain_modifier(terrain, m.attribute).atk_percent,
    )
}

/// Effective defense: tier multiplier first, then the terrain percentage.
pub open spec fn spec_effective_def(m: GcMonster, terrain: GcTerrainType) -> u32 {
    spec_apply_def(
        spec_starred_stat(m.base_def, m.star, m.golden_level),
        spec_terrain_modifier(terrain, m.attribute).def_percent,
    )
}

/// Effective maximum hit points: the base scaled by the tier multiplier.
pub open spec fn spec_effective_max_hp(m: GcMonster) -> u32 {
    spec_starred_stat(m.max_hp, m.star, m.golden_level)
}

/// Scale a base stat by the tier multiplier.
fn starred_stat(base: u32, star: u8, golden_level: u8) -> (r: u32)
    ensures
        r == spec_starred_stat(base, star, golden_level),
{
    let numer2: u64 = if golden_level > 0 {
        6 + 3 * (golden_level as u64)
    } else {
        2 * (star as u64)
    };
    proof {
        assert((base as int) * (numer2 as int) <= (u32::MAX as int) * 771)
            by (nonlinear_arith)
            requires
                base <= u32::MAX && numer2 <= 771,
        ;
    }
    let v: u64 = (base as u64) * numer2 / 2;
    if v > u32::MAX as u64 {
        u32::MAX
    } else {
        v as u32
    }
}

impl GcMonster {
    /// A fresh one-star monster whose template id equals its instance id.
    pub fn new(
        id: &str,
        name: &str,
        level: u8,
        attr: GcMonsterAttribute,
        atk: u32,
        def: u32,
        hp: u32,
    ) -> (r: Self)
        ensures
            r.id@ == id@,
            r.template_id@ == id@,
            r.name@ == name@,
            r.level == level,
            r.attribute == attr,
            r.base_atk == atk,
            r.base_def == def,
            r.current_hp == hp,
            r.max_hp == hp,
            r.slot is None,
            !r.can_attack,
            r.star == 1,
            r.golden_level == 0,
    {
        Self::new_with_template(id, id, name, level, attr, atk, def, hp)
    }

    /// A fresh one-star monster with an explicit template id.
    pub fn new_with_template(
        id: &str,
        template_id: &str,
        name: &str,
        level: u8,
        attr: GcMonsterAttribute,
        atk: u32,
        def: u32,
        hp: u32,
    ) -> (r: Self)
        ensures
            r.id@ == id@,
            r.template_id@ == template_id@,
            r.name@ == name@,
            r.level == level,
            r.attribute == attr,
            r.base_atk == atk,
            r.base_def == def,
            r.current_hp == hp,
            r.max_hp == hp,
            r.slot is None,
            !r.can_attack,
            r.star == 1,
            r.golden_level == 0,
    {
        GcMonster {
            id: id.to_owned(),
            template_id: template_id.to_owned(),
            name: name.to_owned(),
            level,
            attribute: attr,
            base_atk: atk,
            base_def: def,
            current_hp: hp,
            max_hp: hp,
            slot: None,
            can_attack: false,
            star: 1,
            golden_level: 0,
        }
    }

    /// A fresh monster of a chosen tier: the star is clamped into 1 to 3 and
    /// the current hit points start at the tier-scaled maximum.
    pub fn new_with_star(
        id: &str,
        template_id: &str,
        name: &str,
        level: u8,
        attr: GcMonsterAttribute,
        atk: u32,
        def: u32,
        hp: u32,
        star: u8,
        golden_level: u8,
    ) -> (r: Self)
        ensures
            r.id@ == id@,
            r.template_id@ == template_id@,
            r.name@ == name@,
            r.level == level,
            r.attribute == attr,
            r.base_atk == atk,
            r.base_def == def,
            r.max_hp == hp,
            r.star == (if star < 1 {
                1u8
            } else if star > 3 {
                3u8
            } else {
                star
            }),
            r.golden_level == golden_level,
            r.current_hp == spec_effective_max_hp(r),
            r.slot is None,
            !r.can_attack,
    {
        let mut monster = Self::new_with_template(id, template_id, name, level, attr, atk, def, hp);
        monster.star = if star < 1 {
            1
        } else if star > 3 {
            3
        } else {
            star
        };
        monster.golden_level = golden_level;
        monster.current_hp = starred_stat(monster.max_hp, monster.star, monster.golden_level);
        monster
    }

    /// Whether the monster has gone golden.
    pub fn is_golden(&self) -> (r: bool)
        ensures
            r == (self.golden_level > 0),
    {
        self.golden_level > 0
    }

    /// Tier label for display: one star glyph per star, or the star count and
    /// golden level once golden.
    pub fn star_display(&self) -> (r: String)
        ensures
            self.golden_level > 0 ==> r@ == "⭐"@ + spec_decimal(self.star as nat) + "Lv"@
                + spec_decimal(self.golden_level as nat),
            self.golden_level == 0 && self.star == 1 ==> r@ == "★"@,
            self.golden_level == 0 && self.star == 2 ==> r@ == "★★"@,
            self.golden_level == 0 && self.star >= 3 ==> r@ == "★"@ + "★"@ + "★"@
                + spec_star_run((self.star - 3) as nat),
    {
        if self.golden_level > 0 {
            let mut out = "⭐".to_owned();
            out.append(decimal_string(self.star as u32).as_str());
            out.append("Lv");
            out.append(decimal_string(self.golden_level as u32).as_str());
            out
        } else {
            let mut out = String::new();
            let mut i: u8 = 0;
            while i < self.star
                invariant
                    i <= self.star,
                    out@ == spec_star_run(i as nat),
                decreases self.star - i,
            {
                out.append("★");
                i = i + 1;
            }
            proof {
                if self.star == 1 {
                    reveal_with_fuel(spec_star_run, 2);
                    assert(out@ =~= "★"@);
                }
                if self.star == 2 {
                    reveal_with_fuel(spec_star_run, 3);
                    assert(out@ =~= "★★"@) by {
                        reveal_strlit("★");
                        reveal_strlit("★★");
                        assert(out@ =~= "★"@ + "★"@);
                    }
                }
                if self.star >= 3 {
                    lemma_star_run_split(self.star as nat, 3);
                    reveal_with_fuel(spec_star_run, 4);
                    assert(out@ =~= "★"@ + "★"@ + "★"@ + spec_star_run((self.star - 3) as nat));
                }
            }
            out
        }
    }

    /// Sale price: one gold per star, or three plus three per golden level.
    pub fn sell_price(&self) -> (r: u32)
        ensures
            self.golden_level > 0 ==> r == 3 + 3 * (self.golden_level as u32),
            self.golden_level == 0 ==> r == self.star as u32,
    {
        if self.golden_level > 0 {
            3 + (self.golden_level as u32) * 3
        } else {
            self.star as u32
        }
    }

    /// Purchase price: one or two gold for the first two stars, three beyond.
    pub fn buy_price(&self) -> (r: u32)
        ensures
            r == spec_buy_price(self.star),
    {
        match self.star {
            1 => 1,
            2 => 2,
            _ => 3,
        }
    }

    /// Two monsters merge only with the same template, star and golden level.
    pub fn can_merge_with(&self, other: &GcMonster) -> (r: bool)
        ensures
            r == (self.template_id@ == other.template_id@ && self.star == other.star
                && self.golden_level == other.golden_level),
    {
        crate::text::str_eq(self.template_id.as_str(), other.template_id.as_str())
            && self.star == other.star && self.golden_level == other.golden_level
    }

    /// Maximum hit points after the tier multiplier.
    pub fn effective_max_hp(&self) -> (r: u32)
        ensures
            r == spec_effective_max_hp(*self),
    {
        starred_stat(self.max_hp, self.star, self.golden_level)
    }

    /// Attack after the tier multiplier and the terrain modifier.
    pub fn effective_atk(&self, terrain: GcTerrainType) -> (r: u32)
        ensures
            r == spec_effective_atk(*self, terrain),
    {
        let base_with_star = starred_stat(self.base_atk, self.star, self.golden_level);
        let modifier = gc_get_terrain_modifier(terrain, self.attribute);
        modifier.apply_atk(base_with_star)
    }

    /// Defense after the tier multiplier and the terrain modifier.
    pub fn effective_def(&self, terrain: GcTerrainType) -> (r: u32)
        ensures
            r == spec_effective_def(*self, terrain),
    {
        let base_with_star = starred_stat(self.base_def, self.star, self.golden_level);
        let modifier = gc_get_terrain_modifier(terrain, self.attribute);
        modifier.apply_def(base_with_star)
    }

    /// Attack after the tier multiplier alone.
    pub fn starred_atk(&self) -> (r: u32)
        ensures
            r == spec_starred_stat(self.base_atk, self.star, self.golden_level),
    {
        starred_stat(self.base_atk, self.star, self.golden_level)
    }

    /// Defense after the tier multiplier alone.
    pub fn starred_def(&self) -> (r: u32)
        ensures
            r == spec_starred_stat(self.base_def, self.star, self.golden_level),
    {
        starred_stat(self.base_def, self.star, self.golden_level)
    }

    /// Subtract damage, saturating at zero; the result says whether this blow
    /// brought the monster down.
    pub fn take_damage(&mut self, damage: u32) -> (died: bool)
        ensures
            final(self).current_hp == old(self).current_hp.saturating_sub(damage),
            died == (damage >= old(self).current_hp),
            *final(self) == (GcMonster { current_hp: final(self).current_hp, ..*old(self) }),
    {
        if damage >= self.current_hp {
            self.current_hp = 0;
            true
        } else {
            self.current_hp = self.current_hp - damage;
            false
        }
    }

    /// A monster lives while its hit points are positive.
    pub fn is_alive(&self) -> (r: bool)
        ensures
            r == (self.current_hp > 0),
    {
        self.current_hp > 0
    }
}

/// A run of `n` star glyphs.
pub open spec fn spec_star_run(n: nat) -> Seq<char>
    decreases n,
{
    if n == 0 {
        Seq::<char>::empty()
    } else {
        spec_star_run((n - 1) as nat) + "★"@
    }
}

proof fn lemma_star_run_split(n: nat, k: nat)
    requires
        k <= n,
    ensures
        spec_star_run(n) == spec_star_run(k) + spec_star_run((n - k) as nat),
    decreases n,
{
    if n == k {
        assert(spec_star_run(0) =~= Seq::<char>::empty());
        assert(spec_star_run(n) =~= spec_star_run(k) + spec_star_run(0));
    } else {
        lemma_star_run_split((n - 1) as nat, k);
        assert(spec_star_run(n) =~= spec_star_run(k) + spec_star_run((n - k) as nat));
    }
}

/// Purchase price by star.
pub open spec fn spec_buy_price(star: u8) -> u32 {
    if star == 1 {
        1u32
    } else if star == 2 {
        2u32
    } else {
        3u32
    }
}

/// Law of the tier system: raising the tier (a higher twice-multiplier, as
/// happens from star to star and from golden level to golden level) never
/// lowers a monster's effective attack or defense; and the effective defense,
/// being unsigned, is never negative.
pub proof fn lemma_effective_stats_monotonic(
    m1: GcMonster,
    m2: GcMonster,
    terrain: GcTerrainType,
)
    requires
        m1.base_atk == m2.base_atk,
        m1.base_def == m2.base_def,
        m1.attribute == m2.attribute,
        spec_tier_numer2(m1.star, m1.golden_level) <= spec_tier_numer2(m2.star, m2.golden_level),
    ensures
        spec_effective_atk(m1, terrain) <= spec_effective_atk(m2, terrain),
        spec_effective_def(m1, terrain) <= spec_effective_def(m2, terrain),
        spec_effective_def(m1, terrain) >= 0,
{
    lemma_starred_monotonic(m1.base_atk, m1.star, m1.golden_level, m2.star, m2.golden_level);
    lemma_starred_monotonic(m1.base_def, m1.star, m1.golden_level, m2.star, m2.golden_level);
    let pa = spec_terrain_modifier(terrain, m1.attribute).atk_percent;
    let pd = spec_terrain_modifier(terrain, m1.attribute).def_percent;
    lemma_apply_atk_monotonic(
        spec_starred_stat(m1.base_atk, m1.star, m1.golden_level),
        spec_starred_stat(m2.base_atk, m2.star, m2.golden_level),
        pa,
    );
    lemma_apply_def_monotonic(
        spec_starred_stat(m1.base_def, m1.star, m1.golden_level),
        spec_starred_stat(m2.base_def, m2.star, m2.golden_level),
        pd,
    );
}

/// Law of the tier system, stated pointwise on the tier fields: within the
/// unit model's star range (stars run 1 to 3; every constructor clamps into
/// it), raising the star or the golden level never lowers the effective
/// attack or defense.
pub proof fn lemma_effective_stats_monotonic_pointwise(
    m1: GcMonster,
    m2: GcMonster,
    terrain: GcTerrainType,
)
    requires
        m1.base_atk == m2.base_atk,
        m1.base_def == m2.base_def,
        m1.attribute == m2.attribute,
        m1.star <= m2.star,
        m2.star <= 3,
        m1.golden_level <= m2.golden_level,
    ensures
        spec_effective_atk(m1, terrain) <= spec_effective_atk(m2, terrain),
        spec_effective_def(m1, terrain) <= spec_effective_def(m2, terrain),
{
    assert(spec_tier_numer2(m1.star, m1.golden_level) <= spec_tier_numer2(
        m2.star,
        m2.golden_level,
    )) by {
        if m1.golden_level == 0 && m2.golden_level > 0 {
            assert(2 * m1.star <= 6);
            assert(6 + 3 * m2.golden_level >= 9);
        }
    };
    lemma_effective_stats_monotonic(m1, m2, terrain);
}

/// A higher tier multiplier never lowers a scaled stat.
pub proof fn lemma_starred_monotonic(base: u32, s1: u8, g1: u8, s2: u8, g2: u8)
    requires
        spec_tier_numer2(s1, g1) <= spec_tier_numer2(s2, g2),
    ensures
        spec_starred_stat(base, s1, g1) <= spec_starred_stat(base, s2, g2),
{
    let n1 = spec_tier_numer2(s1, g1);
    let n2 = spec_tier_numer2(s2, g2);
    assert(base * n1 <= base * n2) by (nonlinear_arith)
        requires
            n1 <= n2 && base >= 0,
    ;
    lemma_div_is_ordered(base * n1, base * n2, 2);
}

/// A higher base never lowers the terrain-adjusted attack.
pub proof fn lemma_apply_atk_monotonic(b1: u32, b2: u32, pct: i32)
    requires
        b1 <= b2,
    ensures
        spec_apply_atk(b1, pct) <= spec_apply_atk(b2, pct),
{
    if 100 + pct > 0 {
        assert(b1 * (100 + pct) <= b2 * (100 + pct)) by (nonlinear_arith)
            requires
                b1 <= b2 && 100 + pct > 0,
        ;
        lemma_div_is_ordered(b1 * (100 + pct), b2 * (100 + pct), 100);
    }
}

/// A higher base never lowers the terrain-adjusted defense.
pub proof fn lemma_apply_def_monotonic(b1: u32, b2: u32, pct: i32)
    requires
        b1 <= b2,
    ensures
        spec_apply_def(b1, pct) <= spec_apply_def(b2, pct),
{
    if 100 + pct > 0 {
        assert(b1 * (100 + pct) <= b2 * (100 + pct)) by (nonlinear_arith)
            requires
                b1 <= b2 && 100 + pct > 0,
        ;
        lemma_div_is_ordered(b1 * (100 + pct), b2 * (100 + pct), 100);
    }
}

/// Outcome of one monster-versus-monster exchange.
#[derive(Clone, Debug)]
pub struct GcBattleResult {
    pub attacker_id: String,
    pub defender_id: String,
    /// Attacker's effective attack.
    pub attacker_atk: u32,
    /// Defender's effective defense.
    pub defender_def: u32,
    /// Damage to the defender (attack above defense).
    pub damage: u32,
    /// Whether that damage empties the defender's hit points.
    pub defender_destroyed: bool,
    /// Damage bounced back to the attacker (defense above attack).
    pub counter_damage: u32,
    /// Whether the counter damage empties the attacker's hit points.
    pub attacker_destroyed: bool,
}

/// The duel formula: a higher attack deals the difference to the defender, a
/// higher defense bounces the difference back to the attacker, equal values
/// hurt nobody.
pub fn gc_calculate_battle_damage(
    attacker: &GcMonster,
    defender: &GcMonster,
    attacker_terrain: GcTerrainType,
    defender_terrain: GcTerrainType,
) -> (r: GcBattleResult)
    ensures
        r.attacker_id@ == attacker.id@,
        r.defender_id@ == defender.id@,
        r.attacker_atk == spec_effective_atk(*attacker, attacker_terrain),
        r.defender_def == spec_effective_def(*defender, defender_terrain),
        r.damage == (if r.attacker_atk > r.defender_def {
            (r.attacker_atk - r.defender_def) as u32
        } else {
            0u32
        }),
        r.counter_damage == (if r.attacker_atk < r.defender_def {
            (r.defender_def - r.attacker_atk) as u32
        } else {
            0u32
        }),
        r.defender_destroyed == (r.damage >= defender.current_hp),
        r.attacker_destroyed == (r.counter_damage >= attacker.current_hp),
{
    let atk = attacker.effective_atk(attacker_terrain);
    let def = defender.effective_def(defender_terrain);
    let (damage, counter_damage): (u32, u32) = if atk > def {
        (atk - def, 0)
    } else if atk < def {
        (0, def - atk)
    } else {
        (0, 0)
    };
    GcBattleResult {
        attacker_id: attacker.id.clone(),
        defender_id: defender.id.clone(),
        attacker_atk: atk,
        defender_def: def,
        damage,
        defender_destroyed: damage >= defender.current_hp,
        counter_damage,
        attacker_destroyed: counter_damage >= attacker.current_hp,
    }
}

/// Resolve one exchange and apply the damage to both monsters.
pub fn gc_execute_monster_battle(
    attacker: &mut GcMonster,
    defender: &mut GcMonster,
    attacker_terrain: GcTerrainType,
    defender_terrain: GcTerrainType,
) -> (r: GcBattleResult)
    ensures
        r.attacker_id@ == old(attacker).id@,
        r.defender_id@ == old(defender).id@,
        r.attacker_atk == spec_effective_atk(*old(attacker), attacker_terrain),
        r.defender_def == spec_effective_def(*old(defender), defender_terrain),
        r.damage == (if r.attacker_atk > r.defender_def {
            (r.attacker_atk - r.defender_def) as u32
        } else {
            0u32
        }),
        r.counter_damage == (if r.attacker_atk < r.defender_def {
            (r.defender_def - r.attacker_atk) as u32
        } else {
            0u32
        }),
        r.defender_destroyed == (r.damage >= old(defender).current_hp),
        r.attacker_destroyed == (r.counter_damage >= old(attacker).current_hp),
        final(defender).current_hp == old(defender).current_hp.saturating_sub(r.damage),
        final(attacker).current_hp == old(attacker).current_hp.saturating_sub(
            r.counter_damage,
        ),
        *final(attacker) == (GcMonster {
            current_hp: final(attacker).current_hp,
            ..*old(attacker)
        }),
        *final(defender) == (GcMonster {
            current_hp: final(defender).current_hp,
            ..*old(defender)
        }),
{
    let result = gc_calculate_battle_damage(attacker, defender, attacker_terrain, defender_terrain);
    if result.damage > 0 {
        defender.take_damage(result.damage);
    }
    if result.counter_damage > 0 {
        attacker.take_damage(result.counter_damage);
    }
    result
}

/// Damage of a direct attack on the player: the attacker's effective attack,
/// with no defense term.
pub fn gc_calculate_direct_attack_damage(
    attacker: &GcMonster,
    attacker_terrain: GcTerrainType,
) -> (r: u32)
    ensures
        r == spec_effective_atk(*attacker, attacker_terrain),
{
    attacker.effective_atk(attacker_terrain)
}

} // verus!
