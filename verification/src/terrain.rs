//! The terrain system: nine battle terrains, the (terrain, attribute) stat
//! modifier table, and deterministic weighted terrain selection driven by the
//! world position, the enemy type and a caller-supplied random value.

use vstd::prelude::*;

verus! {

/// The terrain a battle side stands on.
#[derive(Clone, Copy, Debug, Default, PartialEq, Eq, Hash, Structural)]
pub enum GcTerrainType {
    /// No special effect.
    #[default]
    Plain,
    /// Favours fire attackers, hampers water attackers.
    Volcano,
    /// Favours water defenders, hampers fire defenders.
    Glacier,
    /// Favours water all round, strongly hampers fire attackers.
    Ocean,
    /// Drains every monster each turn.
    Swamp,
    /// Favours dark attackers, light monsters take extra damage.
    Shadow,
    /// Favours light defenders, hampers dark attackers.
    Holy,
    /// Boosts healing of wind and earth monsters.
    Forest,
    /// Favours earth defenders, wind monsters dodge better.
    Mountain,
}

impl GcTerrainType {
    /// Display name of the terrain.
    pub fn name(&self) -> (r: &'static str)
        ensures
            self is Plain ==> r@ == "平原"@,
            self is Volcano ==> r@ == "火山"@,
            self is Glacier ==> r@ == "冰原"@,
            self is Ocean ==> r@ == "海洋"@,
            self is Swamp ==> r@ == "沼泽"@,
            self is Shadow ==> r@ == "暗域"@,
            self is Holy ==> r@ == "圣域"@,
            self is Forest ==> r@ == "森林"@,
            self is Mountain ==> r@ == "山岳"@,
    {
        match self {
            GcTerrainType::Plain => "平原",
            GcTerrainType::Volcano => "火山",
            GcTerrainType::Glacier => "冰原",
            GcTerrainType::Ocean => "海洋",
            GcTerrainType::Swamp => "沼泽",
            GcTerrainType::Shadow => "暗域",
            GcTerrainType::Holy => "圣域",
            GcTerrainType::Forest => "森林",
            GcTerrainType::Mountain => "山岳",
        }
    }

    /// Render colour of the terrain, as RGBA.
    pub fn color(&self) -> (r: (u8, u8, u8, u8))
        ensures
            self is Plain ==> r == (144u8, 238u8, 144u8, 255u8),
            self is Volcano ==> r == (255u8, 69u8, 0u8, 255u8),
            self is Glacier ==> r == (173u8, 216u8, 230u8, 255u8),
            self is Ocean ==> r == (0u8, 105u8, 148u8, 255u8),
            self is Swamp ==> r == (85u8, 107u8, 47u8, 255u8),
            self is Shadow ==> r == (48u8, 25u8, 52u8, 255u8),
            self is Holy ==> r == (255u8, 255u8, 224u8, 255u8),
            self is Forest ==> r == (34u8, 139u8, 34u8, 255u8),
            self is Mountain ==> r == (139u8, 137u8, 137u8, 255u8),
    {
        match self {
            GcTerrainType::Plain => (144, 238, 144, 255),
            GcTerrainType::Volcano => (255, 69, 0, 255),
            GcTerrainType::Glacier => (173, 216, 230, 255),
            GcTerrainType::Ocean => (0, 105, 148, 255),
            GcTerrainType::Swamp => (85, 107, 47, 255),
            GcTerrainType::Shadow => (48, 25, 52, 255),
            GcTerrainType::Holy => (255, 255, 224, 255),
            GcTerrainType::Forest => (34, 139, 34, 255),
            GcTerrainType::Mountain => (139, 137, 137, 255),
        }
    }

    /// Every terrain, in declaration order.
    pub fn all() -> (r: Vec<GcTerrainType>)
        ensures
            r@ == seq![
                GcTerrainType::Plain,
                GcTerrainType::Volcano,
                GcTerrainType::Glacier,
                GcTerrainType::Ocean,
                GcTerrainType::Swamp,
                GcTerrainType::Shadow,
                GcTerrainType::Holy,
                GcTerrainType::Forest,
                GcTerrainType::Mountain,
            ],
    {
        let mut v: Vec<GcTerrainType> = Vec::new();
        v.push(GcTerrainType::Plain);
        v.push(GcTerrainType::Volcano);
        v.push(GcTerrainType::Glacier);
        v.push(GcTerrainType::Ocean);
        v.push(GcTerrainType::Swamp);
        v.push(GcTerrainType::Shadow);
        v.push(GcTerrainType::Holy);
        v.push(GcTerrainType::Forest);
        v.push(GcTerrainType::Mountain);
        proof {
            assert(v@ =~= seq![
                GcTerrainType::Plain,
                GcTerrainType::Volcano,
                GcTerrainType::Glacier,
                GcTerrainType::Ocean,
                GcTerrainType::Swamp,
                GcTerrainType::Shadow,
                GcTerrainType::Holy,
                GcTerrainType::Forest,
                GcTerrainType::Mountain,
            ]);
        }
        v
    }
}

/// Elemental attribute of a monster.
#[derive(Clone, Copy, Debug, Default, PartialEq, Eq, Hash, Structural)]
pub enum GcMonsterAttribute {
    /// No attribute.
    #[default]
    Neutral,
    Fire,
    Water,
    Wind,
    Earth,
    Light,
    Dark,
}

impl GcMonsterAttribute {
    /// Display name of the attribute.
    pub fn name(&self) -> (r: &'static str)
        ensures
            self is Neutral ==> r@ == "无"@,
            self is Fire ==> r@ == "火"@,
            self is Water ==> r@ == "水"@,
            self is Wind ==> r@ == "风"@,
            self is Earth ==> r@ == "地"@,
            self is Light ==> r@ == "光"@,
            self is Dark ==> r@ == "暗"@,
    {
        match self {
            GcMonsterAttribute::Neutral => "无",
            GcMonsterAttribute::Fire => "火",
            GcMonsterAttribute::Water => "水",
            GcMonsterAttribute::Wind => "风",
            GcMonsterAttribute::Earth => "地",
            GcMonsterAttribute::Light => "光",
            GcMonsterAttribute::Dark => "暗",
        }
    }

    /// Display colour of the attribute, as RGBA.
    pub fn color(&self) -> (r: (u8, u8, u8, u8))
        ensures
            self is Neutral ==> r == (128u8, 128u8, 128u8, 255u8),
            self is Fire ==> r == (255u8, 69u8, 0u8, 255u8),
            self is Water ==> r == (30u8, 144u8, 255u8, 255u8),
            self is Wind ==> r == (144u8, 238u8, 144u8, 255u8),
            self is Earth ==> r == (139u8, 90u8, 43u8, 255u8),
            self is Light ==> r == (255u8, 255u8, 0u8, 255u8),
            self is Dark ==> r == (75u8, 0u8, 130u8, 255u8),
    {
        match self {
            GcMonsterAttribute::Neutral => (128, 128, 128, 255),
            GcMonsterAttribute::Fire => (255, 69, 0, 255),
            GcMonsterAttribute::Water => (30, 144, 255, 255),
            GcMonsterAttribute::Wind => (144, 238, 144, 255),
            GcMonsterAttribute::Earth => (139, 90, 43, 255),
            GcMonsterAttribute::Light => (255, 255, 0, 255),
            GcMonsterAttribute::Dark => (75, 0, 130, 255),
        }
    }
}

/// Stat adjustment a terrain applies to a monster: percentages on attack,
/// defense, per-turn hit points, damage taken and healing, and a flat dodge
/// bonus in hundredths of a percent.
#[derive(Clone, Copy, Debug, Default, PartialEq, Eq, Structural)]
pub struct GcTerrainModifier {
    pub atk_percent: i32,
    pub def_percent: i32,
    pub hp_per_turn_percent: i32,
    pub dodge_bonus: i32,
    pub damage_taken_percent: i32,
    pub healing_bonus_percent: i32,
}

/// The modifier that changes nothing.
pub open spec fn spec_zero_modifier() -> GcTerrainModifier {
    GcTerrainModifier {
        atk_percent: 0,
        def_percent: 0,
        hp_per_turn_percent: 0,
        dodge_bonus: 0,
        damage_taken_percent: 0,
        healing_bonus_percent: 0,
    }
}

/// Attack after a percentage modifier: scaled by `(100 + pct) / 100` with
/// integer truncation, clamped into `1 ..= u32::MAX`.
pub open spec fn spec_apply_atk(base: u32, pct: i32) -> u32 {
    if 100 + pct <= 0 {
        1u32
    } else {
        let m = (base * (100 + pct)) / 100;
        if m < 1 {
            1u32
        } else if m > u32::MAX {
            u32::MAX
        } else {
            m as u32
        }
    }
}

/// Defense after a percentage modifier: scaled by `(100 + pct) / 100` with
/// integer truncation, clamped into `0 ..= u32::MAX`; never negative.
pub open spec fn spec_apply_def(base: u32, pct: i32) -> u32 {
    if 100 + pct <= 0 {
        0u32
    } else {
        let m = (base * (100 + pct)) / 100;
        if m > u32::MAX {
            u32::MAX
        } else {
            m as u32
        }
    }
}

impl GcTerrainModifier {
    /// The modifier that changes nothing.
    pub fn none() -> (r: Self)
        ensures
            r == spec_zero_modifier(),
    {
        GcTerrainModifier {
            atk_percent: 0,
            def_percent: 0,
            hp_per_turn_percent: 0,
            dodge_bonus: 0,
            damage_taken_percent: 0,
            healing_bonus_percent: 0,
        }
    }

    /// Apply the attack percentage; the result is at least 1.
    pub fn apply_atk(&self, base_atk: u32) -> (r: u32)
        ensures
            r == spec_apply_atk(base_atk, self.atk_percent),
            r >= 1,
    {
        if self.atk_percent <= -100 {
            return 1;
        }
        let factor: u64 = (100 + self.atk_percent as i64) as u64;
        proof {
            assert((base_atk as int) * (factor as int) <= (u32::MAX as int) * 2147483748int)
                by (nonlinear_arith)
                requires
                    base_atk <= u32::MAX && factor <= 2147483748int,
            ;
        }
        let m: u64 = (base_atk as u64) * factor / 100;
        if m < 1 {
            1
        } else if m > u32::MAX as u64 {
            u32::MAX
        } else {
            m as u32
        }
    }

    /// Apply the defense percentage; the result is never negative.
    pub fn apply_def(&self, base_def: u32) -> (r: u32)
        ensures
            r == spec_apply_def(base_def, self.def_percent),
    {
        if self.def_percent <= -100 {
            return 0;
        }
        let factor: u64 = (100 + self.def_percent as i64) as u64;
        proof {
            assert((base_def as int) * (factor as int) <= (u32::MAX as int) * 2147483748int)
                by (nonlinear_arith)
                requires
                    base_def <= u32::MAX && factor <= 2147483748int,
            ;
        }
        let m: u64 = (base_def as u64) * factor / 100;
        if m > u32::MAX as u64 {
            u32::MAX
        } else {
            m as u32
        }
    }

    /// Hit-point change per turn: `max_hp * hp_per_turn_percent / 100`,
    /// truncated toward zero, clamped to the `i32` range.
    pub fn calc_hp_change(&self, max_hp: u32) -> (r: i32)
        ensures
            self.hp_per_turn_percent >= 0 ==> r == ({
                let m = (max_hp * self.hp_per_turn_percent) / 100;
                if m > i32::MAX {
                    i32::MAX
                } else {
                    m as i32
                }
            }),
            self.hp_per_turn_percent < 0 ==> r == ({
                let m = (max_hp * (-self.hp_per_turn_percent)) / 100;
                if m > i32::MAX {
                    i32::MIN
                } else {
                    (-m) as i32
                }
            }),
    {
        if self.hp_per_turn_percent >= 0 {
            let p: u64 = self.hp_per_turn_percent as u64;
            proof {
                assert((max_hp as int) * (p as int) <= (u32::MAX as int) * (i32::MAX as int))
                    by (nonlinear_arith)
                    requires
                        max_hp <= u32::MAX && p <= i32::MAX as int,
                ;
            }
            let m: u64 = (max_hp as u64) * p / 100;
            if m > i32::MAX as u64 {
                i32::MAX
            } else {
                m as i32
            }
        } else {
            let p: u64 = (-(self.hp_per_turn_percent as i64)) as u64;
            proof {
                assert((max_hp as int) * (p as int) <= (u32::MAX as int) * 2147483648int)
                    by (nonlinear_arith)
                    requires
                        max_hp <= u32::MAX && p <= 2147483648u64,
                ;
            }
            let m: u64 = (max_hp as u64) * p / 100;
            if m > i32::MAX as u64 {
                i32::MIN
            } else {
                -(m as i32)
            }
        }
    }
}

/// The full (terrain, attribute) modifier table.  Every pair not named here
/// resolves to the zero modifier; the lookup is total and has no side effects.
pub open spec fn spec_terrain_modifier(
    terrain: GcTerrainType,
    attribute: GcMonsterAttribute,
) -> GcTerrainModifier {
    match (terrain, attribute) {
        (GcTerrainType::Volcano, GcMonsterAttribute::Fire) => GcTerrainModifier {
            atk_percent: 20i32,
            ..spec_zero_modifier()
        },
        (GcTerrainType::Volcano, GcMonsterAttribute::Water) => GcTerrainModifier {
            atk_percent: -10i32,
            ..spec_zero_modifier()
        },
        (GcTerrainType::Glacier, GcMonsterAttribute::Water) => GcTerrainModifier {
            def_percent: 20i32,
            ..spec_zero_modifier()
        },
        (GcTerrainType::Glacier, GcMonsterAttribute::Fire) => GcTerrainModifier {
            def_percent: -10i32,
            ..spec_zero_modifier()
        },
        (GcTerrainType::Ocean, GcMonsterAttribute::Water) => GcTerrainModifier {
            atk_percent: 10i32,
            def_percent: 10i32,
            ..spec_zero_modifier()
        },
        (GcTerrainType::Ocean, GcMonsterAttribute::Fire) => GcTerrainModifier {
            atk_percent: -20i32,
            ..spec_zero_modifier()
        },
        (GcTerrainType::Swamp, _) => GcTerrainModifier {
            hp_per_turn_percent: -5i32,
            ..spec_zero_modifier()
        },
        (GcTerrainType::Shadow, GcMonsterAttribute::Dark) => GcTerrainModifier {
            atk_percent: 30i32,
            ..spec_zero_modifier()
        },
        (GcTerrainType::Shadow, GcMonsterAttribute::Light) => GcTerrainModifier {
            damage_taken_percent: 20i32,
            ..spec_zero_modifier()
        },
        (GcTerrainType::Holy, GcMonsterAttribute::Light) => GcTerrainModifier {
            def_percent: 30i32,
            ..spec_zero_modifier()
        },
        (GcTerrainType::Holy, GcMonsterAttribute::Dark) => GcTerrainModifier {
            atk_percent: -20i32,
            ..spec_zero_modifier()
        },
        (GcTerrainType::Forest, GcMonsterAttribute::Wind) => GcTerrainModifier {
            healing_bonus_percent: 20i32,
            ..spec_zero_modifier()
        },
        (GcTerrainType::Forest, GcMonsterAttribute::Earth) => GcTerrainModifier {
            healing_bonus_percent: 20i32,
            ..spec_zero_modifier()
        },
        (GcTerrainType::Mountain, GcMonsterAttribute::Earth) => GcTerrainModifier {
            def_percent: 25i32,
            ..spec_zero_modifier()
        },
        (GcTerrainType::Mountain, GcMonsterAttribute::Wind) => GcTerrainModifier {
            dodge_bonus: 1000i32,
            ..spec_zero_modifier()
        },
        _ => spec_zero_modifier(),
    }
}

/// Modifier the given terrain applies to a monster of the given attribute.
pub fn gc_get_terrain_modifier(
    terrain: GcTerrainType,
    attribute: GcMonsterAttribute,
) -> (r: GcTerrainModifier)
    ensures
        r == spec_terrain_modifier(terrain, attribute),
{
    match (terrain, attribute) {
        (GcTerrainType::Volcano, GcMonsterAttribute::Fire) => GcTerrainModifier {
            atk_percent: 20,
            ..GcTerrainModifier::none()
        },
        (GcTerrainType::Volcano, GcMonsterAttribute::Water) => GcTerrainModifier {
            atk_percent: -10,
            ..GcTerrainModifier::none()
        },
        (GcTerrainType::Glacier, GcMonsterAttribute::Water) => GcTerrainModifier {
            def_percent: 20,
            ..GcTerrainModifier::none()
        },
        (GcTerrainType::Glacier, GcMonsterAttribute::Fire) => GcTerrainModifier {
            def_percent: -10,
            ..GcTerrainModifier::none()
        },
        (GcTerrainType::Ocean, GcMonsterAttribute::Water) => GcTerrainModifier {
            atk_percent: 10,
            def_percent: 10,
            ..GcTerrainModifier::none()
        },
        (GcTerrainType::Ocean, GcMonsterAttribute::Fire) => GcTerrainModifier {
            atk_percent: -20,
            ..GcTerrainModifier::none()
        },
        (GcTerrainType::Swamp, _) => GcTerrainModifier {
            hp_per_turn_percent: -5,
            ..GcTerrainModifier::none()
        },
        (GcTerrainType::Shadow, GcMonsterAttribute::Dark) => GcTerrainModifier {
            atk_percent: 30,
            ..GcTerrainModifier::none()
        },
        (GcTerrainType::Shadow, GcMonsterAttribute::Light) => GcTerrainModifier {
            damage_taken_percent: 20,
            ..GcTerrainModifier::none()
        },
        (GcTerrainType::Holy, GcMonsterAttribute::Light) => GcTerrainModifier {
            def_percent: 30,
            ..GcTerrainModifier::none()
        },
        (GcTerrainType::Holy, GcMonsterAttribute::Dark) => GcTerrainModifier {
            atk_percent: -20,
            ..GcTerrainModifier::none()
        },
        (GcTerrainType::Forest, GcMonsterAttribute::Wind) => GcTerrainModifier {
            healing_bonus_percent: 20,
            ..GcTerrainModifier::none()
        },
        (GcTerrainType::Forest, GcMonsterAttribute::Earth) => GcTerrainModifier {
            healing_bonus_percent: 20,
            ..GcTerrainModifier::none()
        },
        (GcTerrainType::Mountain, GcMonsterAttribute::Earth) => GcTerrainModifier {
            def_percent: 25,
            ..GcTerrainModifier::none()
        },
        (GcTerrainType::Mountain, GcMonsterAttribute::Wind) => GcTerrainModifier {
            dodge_bonus: 1000,
            ..GcTerrainModifier::none()
        },
        _ => GcTerrainModifier::none(),
    }
}

/// Whether a (terrain, attribute) pair is one of the special cases of the
/// modifier table.
pub open spec fn spec_is_special_terrain_pair(
    t: GcTerrainType,
    a: GcMonsterAttribute,
) -> bool {
    ||| t is Swamp
    ||| (t is Volcano && (a is Fire || a is Water))
    ||| (t is Glacier && (a is Water || a is Fire))
    ||| (t is Ocean && (a is Water || a is Fire))
    ||| (t is Shadow && (a is Dark || a is Light))
    ||| (t is Holy && (a is Light || a is Dark))
    ||| (t is Forest && (a is Wind || a is Earth))
    ||| (t is Mountain && (a is Earth || a is Wind))
}

/// Law of the modifier table: every pair that is not special-cased resolves
/// to the zero modifier.  The lookup is a pure function, so two calls on the
/// same pair always agree.
pub proof fn lemma_terrain_modifier_default(t: GcTerrainType, a: GcMonsterAttribute)
    requires
        !spec_is_special_terrain_pair(t, a),
    ensures
        spec_terrain_modifier(t, a) == spec_zero_modifier(),
{
}

/// The world-map terrain the party stands on; it biases which battle terrain
/// is drawn.
#[derive(Clone, Copy, Debug, Default, PartialEq, Eq, Structural)]
pub enum GcWorldTerrainType {
    #[default]
    Grassland,
    Desert,
    Snowfield,
    Waterside,
    Highland,
    Woodland,
    Cave,
    Ruins,
}

/// The kind of enemy encountered; it biases which battle terrain is drawn.
#[derive(Clone, Copy, Debug, Default, PartialEq, Eq, Structural)]
pub enum GcEnemyType {
    #[default]
    Normal,
    FireType,
    WaterType,
    DarkType,
    LightType,
    Boss,
}

/// One weighted entry of a terrain draw.
#[derive(Clone, Copy, Debug, PartialEq, Eq, Structural)]
pub struct GcTerrainWeight {
    pub terrain: GcTerrainType,
    pub weight: u32,
}

/// Base battle-terrain weights of each world terrain.
pub open spec fn spec_base_terrain_weights(w: GcWorldTerrainType) -> Seq<GcTerrainWeight> {
    match w {
        GcWorldTerrainType::Grassland => seq![
            GcTerrainWeight { terrain: GcTerrainType::Plain, weight: 60u32 },
            GcTerrainWeight { terrain: GcTerrainType::Forest, weight: 30u32 },
            GcTerrainWeight { terrain: GcTerrainType::Mountain, weight: 10u32 },
        ],
        GcWorldTerrainType::Desert => seq![
            GcTerrainWeight { terrain: GcTerrainType::Plain, weight: 30u32 },
            GcTerrainWeight { terrain: GcTerrainType::Volcano, weight: 50u32 },
            GcTerrainWeight { terrain: GcTerrainType::Mountain, weight: 20u32 },
        ],
        GcWorldTerrainType::Snowfield => seq![
            GcTerrainWeight { terrain: GcTerrainType::Glacier, weight: 60u32 },
            GcTerrainWeight { terrain: GcTerrainType::Plain, weight: 20u32 },
            GcTerrainWeight { terrain: GcTerrainType::Mountain, weight: 20u32 },
        ],
        GcWorldTerrainType::Waterside => seq![
            GcTerrainWeight { terrain: GcTerrainType::Ocean, weight: 50u32 },
            GcTerrainWeight { terrain: GcTerrainType::Swamp, weight: 30u32 },
            GcTerrainWeight { terrain: GcTerrainType::Plain, weight: 20u32 },
        ],
        GcWorldTerrainType::Highland => seq![
            GcTerrainWeight { terrain: GcTerrainType::Mountain, weight: 60u32 },
            GcTerrainWeight { terrain: GcTerrainType::Plain, weight: 20u32 },
            GcTerrainWeight { terrain: GcTerrainType::Volcano, weight: 20u32 },
        ],
        GcWorldTerrainType::Woodland => seq![
            GcTerrainWeight { terrain: GcTerrainType::Forest, weight: 70u32 },
            GcTerrainWeight { terrain: GcTerrainType::Swamp, weight: 20u32 },
            GcTerrainWeight { terrain: GcTerrainType::Plain, weight: 10u32 },
        ],
        GcWorldTerrainType::Cave => seq![
            GcTerrainWeight { terrain: GcTerrainType::Shadow, weight: 50u32 },
            GcTerrainWeight { terrain: GcTerrainType::Mountain, weight: 30u32 },
            GcTerrainWeight { terrain: GcTerrainType::Swamp, weight: 20u32 },
        ],
        GcWorldTerrainType::Ruins => seq![
            GcTerrainWeight { terrain: GcTerrainType::Shadow, weight: 30u32 },
            GcTerrainWeight { terrain: GcTerrainType::Holy, weight: 30u32 },
            GcTerrainWeight { terrain: GcTerrainType::Plain, weight: 40u32 },
        ],
    }
}

/// Base battle-terrain weights for a world terrain.
pub fn gc_get_base_terrain_weights(world_terrain: GcWorldTerrainType) -> (r: Vec<
    GcTerrainWeight,
>)
    ensures
        r@ == spec_base_terrain_weights(world_terrain),
{
    let mut v: Vec<GcTerrainWeight> = Vec::new();
    match world_terrain {
        GcWorldTerrainType::Grassland => {
            v.push(GcTerrainWeight { terrain: GcTerrainType::Plain, weight: 60 });
            v.push(GcTerrainWeight { terrain: GcTerrainType::Forest, weight: 30 });
            v.push(GcTerrainWeight { terrain: GcTerrainType::Mountain, weight: 10 });
        },
        GcWorldTerrainType::Desert => {
            v.push(GcTerrainWeight { terrain: GcTerrainType::Plain, weight: 30 });
            v.push(GcTerrainWeight { terrain: GcTerrainType::Volcano, weight: 50 });
            v.push(GcTerrainWeight { terrain: GcTerrainType::Mountain, weight: 20 });
        },
        GcWorldTerrainType::Snowfield => {
            v.push(GcTerrainWeight { terrain: GcTerrainType::Glacier, weight: 60 });
            v.push(GcTerrainWeight { terrain: GcTerrainType::Plain, weight: 20 });
            v.push(GcTerrainWeight { terrain: GcTerrainType::Mountain, weight: 20 });
        },
        GcWorldTerrainType::Waterside => {
            v.push(GcTerrainWeight { terrain: GcTerrainType::Ocean, weight: 50 });
            v.push(GcTerrainWeight { terrain: GcTerrainType::Swamp, weight: 30 });
            v.push(GcTerrainWeight { terrain: GcTerrainType::Plain, weight: 20 });
        },
        GcWorldTerrainType::Highland => {
            v.push(GcTerrainWeight { terrain: GcTerrainType::Mountain, weight: 60 });
            v.push(GcTerrainWeight { terrain: GcTerrainType::Plain, weight: 20 });
            v.push(GcTerrainWeight { terrain: GcTerrainType::Volcano, weight: 20 });
        },
        GcWorldTerrainType::Woodland => {
            v.push(GcTerrainWeight { terrain: GcTerrainType::Forest, weight: 70 });
            v.push(GcTerrainWeight { terrain: GcTerrainType::Swamp, weight: 20 });
            v.push(GcTerrainWeight { terrain: GcTerrainType::Plain, weight: 10 });
        },
        GcWorldTerrainType::Cave => {
            v.push(GcTerrainWeight { terrain: GcTerrainType::Shadow, weight: 50 });
            v.push(GcTerrainWeight { terrain: GcTerrainType::Mountain, weight: 30 });
            v.push(GcTerrainWeight { terrain: GcTerrainType::Swamp, weight: 20 });
        },
        GcWorldTerrainType::Ruins => {
            v.push(GcTerrainWeight { terrain: GcTerrainType::Shadow, weight: 30 });
            v.push(GcTerrainWeight { terrain: GcTerrainType::Holy, weight: 30 });
            v.push(GcTerrainWeight { terrain: GcTerrainType::Plain, weight: 40 });
        },
    }
    proof {
        assert(v@ =~= spec_base_terrain_weights(world_terrain));
    }
    v
}

/// Terrain an enemy type favours, and by how much; `None` for plain enemies.
pub open spec fn spec_enemy_boost(e: GcEnemyType) -> Option<(GcTerrainType, u32)> {
    match e {
        GcEnemyType::Normal => None,
        GcEnemyType::FireType => Some((GcTerrainType::Volcano, 30u32)),
        GcEnemyType::WaterType => Some((GcTerrainType::Ocean, 30u32)),
        GcEnemyType::DarkType => Some((GcTerrainType::Shadow, 40u32)),
        GcEnemyType::LightType => Some((GcTerrainType::Holy, 40u32)),
        GcEnemyType::Boss => Some((GcTerrainType::Shadow, 20u32)),
    }
}

/// Raise the weight of `t` by `amt` at its first occurrence, or append a new
/// entry if `t` is absent.
pub open spec fn spec_bump_weight(
    ws: Seq<GcTerrainWeight>,
    t: GcTerrainType,
    amt: u32,
) -> Seq<GcTerrainWeight>
    decreases ws.len(),
{
    if ws.len() == 0 {
        seq![GcTerrainWeight { terrain: t, weight: amt }]
    } else if ws[0].terrain == t {
        seq![GcTerrainWeight { terrain: t, weight: ws[0].weight.saturating_add(amt) }]
            + ws.drop_first()
    } else {
        seq![ws[0]] + spec_bump_weight(ws.drop_first(), t, amt)
    }
}

/// The weights after the enemy bias: unchanged for a plain enemy, otherwise
/// the favoured terrain's weight is raised (or the terrain added).
pub open spec fn spec_apply_enemy_modifier(
    ws: Seq<GcTerrainWeight>,
    e: GcEnemyType,
) -> Seq<GcTerrainWeight> {
    match spec_enemy_boost(e) {
        Option::None => ws,
        Option::Some(boost) => spec_bump_weight(ws, boost.0, boost.1),
    }
}

proof fn lemma_bump_weight_at(ws: Seq<GcTerrainWeight>, t: GcTerrainType, amt: u32, i: int)
    requires
        0 <= i < ws.len(),
        ws[i].terrain == t,
        forall|j: int| 0 <= j < i ==> ws[j].terrain != t,
    ensures
        spec_bump_weight(ws, t, amt) == ws.update(
            i,
            GcTerrainWeight { terrain: t, weight: ws[i].weight.saturating_add(amt) },
        ),
    decreases i,
{
    if i == 0 {
        assert(spec_bump_weight(ws, t, amt) =~= ws.update(
            0,
            GcTerrainWeight { terrain: t, weight: ws[0].weight.saturating_add(amt) },
        ));
    } else {
        lemma_bump_weight_at(ws.drop_first(), t, amt, i - 1);
        assert(spec_bump_weight(ws, t, amt) =~= ws.update(
            i,
            GcTerrainWeight { terrain: t, weight: ws[i].weight.saturating_add(amt) },
        ));
    }
}

proof fn lemma_bump_weight_absent(ws: Seq<GcTerrainWeight>, t: GcTerrainType, amt: u32)
    requires
        forall|j: int| 0 <= j < ws.len() ==> ws[j].terrain != t,
    ensures
        spec_bump_weight(ws, t, amt) == ws.push(
            GcTerrainWeight { terrain: t, weight: amt },
        ),
    decreases ws.len(),
{
    if ws.len() == 0 {
        assert(spec_bump_weight(ws, t, amt) =~= ws.push(
            GcTerrainWeight { terrain: t, weight: amt },
        ));
    } else {
        lemma_bump_weight_absent(ws.drop_first(), t, amt);
        assert(spec_bump_weight(ws, t, amt) =~= ws.push(
            GcTerrainWeight { terrain: t, weight: amt },
        ));
    }
}

/// Bias the weights by the enemy type.  The bias must run before selection,
/// never after it.
pub fn gc_apply_enemy_modifier(weights: &mut Vec<GcTerrainWeight>, enemy_type: GcEnemyType)
    ensures
        final(weights)@ == spec_apply_enemy_modifier(old(weights)@, enemy_type),
{
    let (boost_terrain, boost_amount): (GcTerrainType, u32) = match enemy_type {
        GcEnemyType::Normal => {
            return ;
        },
        GcEnemyType::FireType => (GcTerrainType::Volcano, 30),
        GcEnemyType::WaterType => (GcTerrainType::Ocean, 30),
        GcEnemyType::DarkType => (GcTerrainType::Shadow, 40),
        GcEnemyType::LightType => (GcTerrainType::Holy, 40),
        GcEnemyType::Boss => (GcTerrainType::Shadow, 20),
    };
    let mut i: usize = 0;
    while i < weights.len()
        invariant
            i <= weights@.len(),
            weights@ == old(weights)@,
            spec_enemy_boost(enemy_type) == Some((boost_terrain, boost_amount)),
            forall|j: int| 0 <= j < i ==> weights@[j].terrain != boost_terrain,
        decreases weights@.len() - i,
    {
        if weights[i].terrain == boost_terrain {
            let w = weights[i].weight;
            weights[i] = GcTerrainWeight {
                terrain: boost_terrain,
                weight: w.saturating_add(boost_amount),
            };
            proof {
                lemma_bump_weight_at(old(weights)@, boost_terrain, boost_amount, i as int);
            }
            return ;
        }
        i = i + 1;
    }
    weights.push(GcTerrainWeight { terrain: boost_terrain, weight: boost_amount });
    proof {
        lemma_bump_weight_absent(old(weights)@, boost_terrain, boost_amount);
    }
}

/// Sum of all weights.
pub open spec fn spec_weight_sum(ws: Seq<GcTerrainWeight>) -> int
    decreases ws.len(),
{
    if ws.len() == 0 {
        0
    } else {
        ws[0].weight + spec_weight_sum(ws.drop_first())
    }
}

proof fn lemma_weight_sum_nonneg(ws: Seq<GcTerrainWeight>)
    ensures
        spec_weight_sum(ws) >= 0,
    decreases ws.len(),
{
    if ws.len() > 0 {
        lemma_weight_sum_nonneg(ws.drop_first());
    }
}

proof fn lemma_weight_sum_split(ws: Seq<GcTerrainWeight>, i: int)
    requires
        0 <= i <= ws.len(),
    ensures
        spec_weight_sum(ws) == spec_weight_sum(ws.take(i)) + spec_weight_sum(ws.skip(i)),
    decreases i,
{
    if i == 0 {
        assert(ws.take(0) =~= Seq::<GcTerrainWeight>::empty());
        assert(ws.skip(0) =~= ws);
    } else {
        assert(ws.take(i).drop_first() =~= ws.drop_first().take(i - 1));
        assert(ws.skip(i) =~= ws.drop_first().skip(i - 1));
        lemma_weight_sum_split(ws.drop_first(), i - 1);
    }
}

/// Cumulative-threshold pick: walk the entries in order, and return the first
/// terrain whose cumulative weight exceeds the threshold; Plain if the
/// threshold outruns every entry.
pub open spec fn spec_pick_terrain(ws: Seq<GcTerrainWeight>, threshold: int) -> GcTerrainType
    decreases ws.len(),
{
    if ws.len() == 0 {
        GcTerrainType::Plain
    } else if threshold < ws[0].weight {
        ws[0].terrain
    } else {
        spec_pick_terrain(ws.drop_first(), threshold - ws[0].weight)
    }
}

/// The terrain drawn for a weight list and a random value: the threshold is
/// the value reduced modulo the total weight; a zero total defaults to Plain.
pub open spec fn spec_select_terrain(ws: Seq<GcTerrainWeight>, random_value: u32) -> GcTerrainType {
    let total = spec_weight_sum(ws);
    if total == 0 {
        GcTerrainType::Plain
    } else {
        spec_pick_terrain(ws, (random_value as int) % total)
    }
}

/// Draw a terrain from the weighted list with a caller-supplied random value.
pub fn gc_select_terrain(weights: &[GcTerrainWeight], random_value: u32) -> (r: GcTerrainType)
    requires
        spec_weight_sum(weights@) <= u32::MAX,
    ensures
        r == spec_select_terrain(weights@, random_value),
{
    proof {
        lemma_weight_sum_nonneg(weights@);
    }
    let mut total: u32 = 0;
    let mut i: usize = 0;
    while i < weights.len()
        invariant
            i <= weights@.len(),
            spec_weight_sum(weights@) <= u32::MAX,
            total == spec_weight_sum(weights@.take(i as int)),
        decreases weights@.len() - i,
    {
        proof {
            lemma_weight_sum_split(weights@, i as int);
            lemma_weight_sum_split(weights@.skip(i as int), 1);
            lemma_weight_sum_nonneg(weights@.skip(i as int).skip(1));
            assert(weights@.skip(i as int).take(1).drop_first()
                =~= Seq::<GcTerrainWeight>::empty());
            assert(weights@.skip(i as int).take(1)[0] == weights@[i as int]);
            assert(weights@.take(i as int + 1).drop_last() =~= weights@.take(i as int));
            assert(weights@.take(i as int + 1).last() == weights@[i as int]);
            lemma_weight_sum_snoc(weights@.take(i as int + 1));
        }
        total = total + weights[i].weight;
        i = i + 1;
    }
    proof {
        assert(weights@.take(i as int) =~= weights@);
    }
    if total == 0 {
        return GcTerrainType::Plain;
    }
    let threshold: u32 = random_value % total;
    let ghost th0: int = threshold as int;
    let mut accumulated: u32 = 0;
    let mut k: usize = 0;
    while k < weights.len()
        invariant
            k <= weights@.len(),
            total == spec_weight_sum(weights@),
            total > 0,
            threshold < total,
            th0 == threshold as int,
            threshold == random_value % total,
            accumulated == spec_weight_sum(weights@.take(k as int)),
            accumulated <= threshold,
            spec_pick_terrain(weights@, th0) == spec_pick_terrain(
                weights@.skip(k as int),
                th0 - accumulated,
            ),
        decreases weights@.len() - k,
    {
        proof {
            lemma_weight_sum_split(weights@, k as int);
            lemma_weight_sum_nonneg(weights@.skip(k as int));
            lemma_weight_sum_nonneg(weights@.skip(k as int + 1));
            assert(weights@.skip(k as int).drop_first() =~= weights@.skip(k as int + 1));
            assert(weights@.take(k as int + 1).drop_last() =~= weights@.take(k as int));
            lemma_weight_sum_snoc(weights@.take(k as int + 1));
            lemma_weight_sum_split(weights@, k as int + 1);
        }
        let w = weights[k].weight;
        assert(weights@.skip(k as int)[0] == weights@[k as int]);
        if threshold < accumulated + w {
            assert(spec_pick_terrain(weights@.skip(k as int), th0 - accumulated)
                == weights@[k as int].terrain);
            return weights[k].terrain;
        }
        accumulated = accumulated + w;
        k = k + 1;
    }
    proof {
        assert(weights@.skip(k as int) =~= Seq::<GcTerrainWeight>::empty());
    }
    GcTerrainType::Plain
}

proof fn lemma_weight_sum_snoc(ws: Seq<GcTerrainWeight>)
    requires
        ws.len() > 0,
    ensures
        spec_weight_sum(ws) == spec_weight_sum(ws.drop_last()) + ws.last().weight,
    decreases ws.len(),
{
    if ws.len() == 1 {
        assert(ws.drop_first() =~= Seq::<GcTerrainWeight>::empty());
        assert(ws.drop_last() =~= Seq::<GcTerrainWeight>::empty());
    } else {
        lemma_weight_sum_snoc(ws.drop_first());
        assert(ws.drop_first().drop_last() =~= ws.drop_last().drop_first());
        assert(ws.drop_first().last() == ws.last());
    }
}

/// Both sides' battle terrain derived from one seed: the player draw uses
/// `seed % 100`, the enemy draw `(seed / 100) % 100`, over the base weights of
/// the world terrain biased by the enemy type.  The same seed always yields
/// the same pair.
pub fn gc_generate_battle_terrain(
    world_terrain: GcWorldTerrainType,
    enemy_type: GcEnemyType,
    random_seed: u64,
) -> (r: (GcTerrainType, GcTerrainType))
    ensures
        ({
            let ws = spec_apply_enemy_modifier(
                spec_base_terrain_weights(world_terrain),
                enemy_type,
            );
            &&& r.0 == spec_select_terrain(ws, (random_seed % 100) as u32)
            &&& r.1 == spec_select_terrain(ws, ((random_seed / 100) % 100) as u32)
        }),
{
    let mut weights = gc_get_base_terrain_weights(world_terrain);
    let ghost base = weights@;
    gc_apply_enemy_modifier(&mut weights, enemy_type);
    proof {
        assert(base.len() == 3);
        assert(forall|j: int| 0 <= j < base.len() ==> base[j].weight <= 100);
        match spec_enemy_boost(enemy_type) {
            Option::None => {},
            Option::Some(boost) => {
                lemma_bump_weight_bounds(base, boost.0, boost.1, 100);
            },
        }
        lemma_weight_sum_le(weights@, 140);
    }
    let player_random: u32 = (random_seed % 100) as u32;
    let enemy_random: u32 = ((random_seed / 100) % 100) as u32;
    let player_terrain = gc_select_terrain(weights.as_slice(), player_random);
    let enemy_terrain = gc_select_terrain(weights.as_slice(), enemy_random);
    (player_terrain, enemy_terrain)
}

/// A list of weights each at most `b` sums to at most `b` per entry.
proof fn lemma_weight_sum_le(ws: Seq<GcTerrainWeight>, b: int)
    requires
        b >= 0,
        forall|j: int| 0 <= j < ws.len() ==> ws[j].weight <= b,
    ensures
        spec_weight_sum(ws) <= b * ws.len(),
    decreases ws.len(),
{
    if ws.len() > 0 {
        assert(forall|j: int|
            0 <= j < ws.drop_first().len() ==> ws.drop_first()[j].weight <= b);
        lemma_weight_sum_le(ws.drop_first(), b);
        assert(b + b * (ws.len() - 1) == b * ws.len()) by (nonlinear_arith);
    }
}

/// Bumping one weight keeps the list short and its entries bounded.
proof fn lemma_bump_weight_bounds(ws: Seq<GcTerrainWeight>, t: GcTerrainType, amt: u32, b: int)
    requires
        forall|j: int| 0 <= j < ws.len() ==> ws[j].weight <= b,
        b >= 0,
    ensures
        spec_bump_weight(ws, t, amt).len() <= ws.len() + 1,
        forall|j: int| #![auto]
            0 <= j < spec_bump_weight(ws, t, amt).len() ==> spec_bump_weight(
                ws,
                t,
                amt,
            )[j].weight <= b + amt,
    decreases ws.len(),
{
    if ws.len() == 0 {
    } else if ws[0].terrain == t {
    } else {
        assert(forall|j: int|
            0 <= j < ws.drop_first().len() ==> ws.drop_first()[j].weight <= b);
        lemma_bump_weight_bounds(ws.drop_first(), t, amt, b);
    }
}

} // verus!
