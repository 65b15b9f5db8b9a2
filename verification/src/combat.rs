//! The free-target duel resolver: one attack's outcome from effective stats,
//! and the automatic lowest-attack-first target choice.

use vstd::prelude::*;

use crate::monster::{spec_effective_atk, spec_effective_def, GcMonster};
use crate::terrain::GcTerrainType;

verus! {

/// Outcome of one resolved attack.
#[derive(Clone, Debug)]
pub struct GcAttackOutcome {
    /// Attacker's slot.
    pub attacker_slot: u8,
    /// Target slot; `None` means the player was hit directly.
    pub target_slot: Option<u8>,
    /// Attacker's display name.
    pub attacker_name: String,
    /// Target's display name, if a monster was hit.
    pub target_name: Option<String>,
    /// Damage dealt.
    pub damage: u32,
    /// Whether the target monster was destroyed.
    pub target_destroyed: bool,
    /// Whether the attacker fell to counter damage.
    pub attacker_destroyed: bool,
    /// Damage dealt to the player directly.
    pub player_damage: u32,
}

/// Resolve one attack.  Against a monster, a higher attack deals the
/// difference to the defender and a lower attack bounces the difference back
/// to the attacker; equal values bounce with no damage either side.
/// Destruction is a consequence of the damage: a side is destroyed exactly
/// when the damage it bears reaches its current hit points.  With no defender
/// the attacker's full effective attack hits the player.
pub fn gc_calculate_attack(
    attacker: &GcMonster,
    defender: Option<&GcMonster>,
    attacker_slot: u8,
    defender_slot: Option<u8>,
    attacker_terrain: GcTerrainType,
    defender_terrain: GcTerrainType,
) -> (r: GcAttackOutcome)
    ensures
        r.attacker_slot == attacker_slot,
        r.attacker_name@ == attacker.name@,
        ({
            let atk = spec_effective_atk(*attacker, attacker_terrain);
            match defender {
                Option::Some(d) => {
                    let def = spec_effective_def(*d, defender_terrain);
                    &&& r.target_slot == defender_slot
                    &&& r.target_name matches Some(n) && n@ == d.name@
                    &&& r.damage == (if atk > def {
                        (atk - def) as u32
                    } else if atk < def {
                        (def - atk) as u32
                    } else {
                        0u32
                    })
                    &&& r.target_destroyed == (atk > def && r.damage >= d.current_hp)
                    &&& r.attacker_destroyed == (atk < def && r.damage >= attacker.current_hp)
                    &&& r.player_damage == (if r.target_destroyed {
                        r.damage
                    } else {
                        0u32
                    })
                },
                Option::None => {
                    &&& r.target_slot is None
                    &&& r.target_name is None
                    &&& r.damage == atk
                    &&& !r.target_destroyed
                    &&& !r.attacker_destroyed
                    &&& r.player_damage == atk
                },
            }
        }),
{
    let atk = attacker.effective_atk(attacker_terrain);
    match defender {
        Some(def_monster) => {
            let def = def_monster.effective_def(defender_terrain);
            let (damage, attacker_destroyed, target_destroyed): (u32, bool, bool) = if atk > def {
                let dealt = atk - def;
                (dealt, false, dealt >= def_monster.current_hp)
            } else if atk < def {
                let bounced = def - atk;
                (bounced, bounced >= attacker.current_hp, false)
            } else {
                (0, false, false)
            };
            GcAttackOutcome {
                attacker_slot,
                target_slot: defender_slot,
                attacker_name: attacker.name.clone(),
                target_name: Some(def_monster.name.clone()),
                damage,
                target_destroyed,
                attacker_destroyed,
                player_damage: if target_destroyed {
                    damage
                } else {
                    0
                },
            }
        },
        None => GcAttackOutcome {
            attacker_slot,
            target_slot: None,
            attacker_name: attacker.name.clone(),
            target_name: None,
            damage: atk,
            target_destroyed: false,
            attacker_destroyed: false,
            player_damage: atk,
        },
    }
}

/// Pick the default attack target among the occupied enemy slots: the one
/// with the lowest terrain-adjusted attack, the lowest index breaking ties;
/// `None` (a direct player hit) when no enemy monster stands.
pub fn gc_auto_select_target(
    enemy_monsters: &[Option<GcMonster>; 5],
    enemy_terrain: GcTerrainType,
) -> (r: Option<u8>)
    ensures
        r is None <==> (forall|j: int| 0 <= j < 5 ==> enemy_monsters@[j] is None),
        r matches Some(i) ==> {
            &&& 0 <= i < 5
            &&& enemy_monsters@[i as int] is Some
            &&& forall|j: int|
                0 <= j < 5 && enemy_monsters@[j] is Some ==> spec_effective_atk(
                    enemy_monsters@[i as int]->0,
                    enemy_terrain,
                ) <= spec_effective_atk(enemy_monsters@[j]->0, enemy_terrain)
            &&& forall|j: int|
                0 <= j < i && enemy_monsters@[j] is Some ==> spec_effective_atk(
                    enemy_monsters@[i as int]->0,
                    enemy_terrain,
                ) < spec_effective_atk(enemy_monsters@[j]->0, enemy_terrain)
        },
{
    let mut min_atk: u32 = u32::MAX;
    let mut target: Option<u8> = None;
    let mut i: usize = 0;
    while i < 5
        invariant
            i <= 5,
            target is None ==> (forall|j: int| 0 <= j < i ==> enemy_monsters@[j] is None),

            target matches Some(t) ==> {
                &&& 0 <= t < i
                &&& enemy_monsters@[t as int] is Some
                &&& min_atk == spec_effective_atk(enemy_monsters@[t as int]->0, enemy_terrain)
                &&& forall|j: int|
                    0 <= j < i && enemy_monsters@[j] is Some ==> min_atk <= spec_effective_atk(
                        enemy_monsters@[j]->0,
                        enemy_terrain,
                    )
                &&& forall|j: int|
                    0 <= j < t && enemy_monsters@[j] is Some ==> min_atk < spec_effective_atk(
                        enemy_monsters@[j]->0,
                        enemy_terrain,
                    )
            },
        decreases 5 - i,
    {
        match &enemy_monsters[i] {
            Some(m) => {
                let eff_atk = m.effective_atk(enemy_terrain);
                if target.is_none() || eff_atk < min_atk {
                    min_atk = eff_atk;
                    target = Some(i as u8);
                }
            },
            None => {},
        }
        i = i + 1;
    }
    target
}

} // verus!
