//! The graveyard: fallen monsters in death order, lookups, revivals, and the
//! sweep that moves the dead off the board and bench.

use vstd::prelude::*;
use vstd::string::StringExecFns;

use crate::monster::{spec_effective_max_hp, GcMonster};
use crate::text::str_eq;

verus! {

/// Fallen monsters, oldest first.
///
/// Invariant: residents stand in no slot and cannot attack.
#[derive(Clone, Debug)]
pub struct GcGraveyard {
    monsters: Vec<GcMonster>,
}

/// A monster as it rests in the graveyard: off the field, unable to attack.
pub open spec fn spec_buried(m: GcMonster) -> GcMonster {
    GcMonster { slot: None, can_attack: false, ..m }
}

impl Default for GcGraveyard {
    /// Empty.
    fn default() -> (r: Self)
        ensures
            r.spec_monsters().len() == 0,
    {
        GcGraveyard { monsters: Vec::new() }
    }
}

impl GcGraveyard {
    /// The residents, oldest first.
    pub closed spec fn spec_monsters(&self) -> Seq<GcMonster> {
        self.monsters@
    }

    /// An empty graveyard.
    pub fn new() -> (r: Self)
        ensures
            r.spec_monsters().len() == 0,
    {
        Self::default()
    }

    /// Bury a monster: its slot and attack flag clear and it joins the end.
    pub fn add(&mut self, monster: GcMonster)
        ensures
            final(self).spec_monsters() == old(self).spec_monsters().push(spec_buried(monster)),
    {
        let mut monster = monster;
        monster.slot = None;
        monster.can_attack = false;
        self.monsters.push(monster);
    }

    /// Residents counted.
    pub fn count(&self) -> (r: usize)
        ensures
            r == self.spec_monsters().len(),
    {
        self.monsters.len()
    }

    /// Whether nobody rests here.
    pub fn is_empty(&self) -> (r: bool)
        ensures
            r == (self.spec_monsters().len() == 0),
    {
        self.monsters.len() == 0
    }

    /// The residents, oldest first.
    pub fn monsters(&self) -> (r: &[GcMonster])
        ensures
            r@ == self.spec_monsters(),
    {
        self.monsters.as_slice()
    }

    /// The first resident with the given id.
    pub fn find_by_id(&self, id: &str) -> (r: Option<&GcMonster>)
        ensures
            r is None ==> (forall|j: int|
                0 <= j < self.spec_monsters().len() ==> (#[trigger] self.spec_monsters()[j]).id@
                    != id@),
            r matches Some(m) ==> exists|idx: int|
                0 <= idx < self.spec_monsters().len() && *m == self.spec_monsters()[idx] && m.id@
                    == id@,
    {
        let mut i: usize = 0;
        while i < self.monsters.len()
            invariant
                i <= self.monsters@.len(),
                forall|j: int| 0 <= j < i ==> (#[trigger] self.monsters@[j]).id@ != id@,
        decreases self.monsters@.len() - i,
        {
            if str_eq(self.monsters[i].id.as_str(), id) {
                return Some(&self.monsters[i]);
            }
            i = i + 1;
        }
        None
    }

    /// Every resident of the given template, oldest first.
    pub fn find_by_template(&self, template_id: &str) -> (r: Vec<&GcMonster>)
        ensures
            forall|k: int|
                0 <= k < r@.len() ==> (#[trigger] r@[k]).template_id@ == template_id@,
    {
        let mut out: Vec<&GcMonster> = Vec::new();
        let mut i: usize = 0;
        while i < self.monsters.len()
            invariant
                i <= self.monsters@.len(),
                forall|k: int|
                    0 <= k < out@.len() ==> (#[trigger] out@[k]).template_id@ == template_id@,
            decreases self.monsters@.len() - i,
        {
            if str_eq(self.monsters[i].template_id.as_str(), template_id) {
                out.push(&self.monsters[i]);
            }
            i = i + 1;
        }
        out
    }

    /// Take the first resident with the given id out.
    pub fn remove_by_id(&mut self, id: &str) -> (r: Option<GcMonster>)
        ensures
            r is None ==> final(self).spec_monsters() == old(self).spec_monsters(),
            r matches Some(m) ==> exists|idx: int|
                {
                    &&& 0 <= idx < old(self).spec_monsters().len()
                    &&& old(self).spec_monsters()[idx].id@ == id@
                    &&& m == old(self).spec_monsters()[idx]
                    &&& final(self).spec_monsters() == old(self).spec_monsters().remove(idx)
                },
    {
        let mut i: usize = 0;
        while i < self.monsters.len()
            invariant
                i <= self.monsters@.len(),
                self.monsters@ == old(self).monsters@,
            decreases self.monsters@.len() - i,
        {
            if str_eq(self.monsters[i].id.as_str(), id) {
                let ghost widx = i as int;
                let m = self.monsters.remove(i);
                proof {
                    assert(0 <= widx < old(self).spec_monsters().len() && old(
                        self,
                    ).spec_monsters()[widx].id@ == id@ && m == old(self).spec_monsters()[widx]
                        && self.spec_monsters() == old(self).spec_monsters().remove(widx));
                }
                return Some(m);
            }
            i = i + 1;
        }
        None
    }

    /// Revive the newest resident: it simply leaves, as it lay.
    pub fn revive_last(&mut self) -> (r: Option<GcMonster>)
        ensures
            old(self).spec_monsters().len() == 0 ==> r is None && final(self).spec_monsters()
                == old(self).spec_monsters(),
            old(self).spec_monsters().len() > 0 ==> {
                &&& r == Some(old(self).spec_monsters().last())
                &&& final(self).spec_monsters() == old(self).spec_monsters().drop_last()
            },
    {
        self.monsters.pop()
    }

    /// Revive the oldest resident of the given template at full tier-scaled
    /// health.
    pub fn revive_by_template(&mut self, template_id: &str) -> (r: Option<GcMonster>)
        ensures
            r is None ==> final(self).spec_monsters() == old(self).spec_monsters(),
            r matches Some(m) ==> exists|idx: int|
                {
                    &&& 0 <= idx < old(self).spec_monsters().len()
                    &&& old(self).spec_monsters()[idx].template_id@ == template_id@
                    &&& m == (GcMonster {
                        current_hp: spec_effective_max_hp(old(self).spec_monsters()[idx]),
                        ..old(self).spec_monsters()[idx]
                    })
                    &&& final(self).spec_monsters() == old(self).spec_monsters().remove(idx)
                },
    {
        let mut i: usize = 0;
        while i < self.monsters.len()
            invariant
                i <= self.monsters@.len(),
                self.monsters@ == old(self).monsters@,
            decreases self.monsters@.len() - i,
        {
            if str_eq(self.monsters[i].template_id.as_str(), template_id) {
                let ghost widx = i as int;
                let mut m = self.monsters.remove(i);
                m.current_hp = m.effective_max_hp();
                proof {
                    assert(0 <= widx < old(self).spec_monsters().len() && old(
                        self,
                    ).spec_monsters()[widx].template_id@ == template_id@ && m == (GcMonster {
                        current_hp: spec_effective_max_hp(old(self).spec_monsters()[widx]),
                        ..old(self).spec_monsters()[widx]
                    }) && self.spec_monsters() == old(self).spec_monsters().remove(widx));
                }
                return Some(m);
            }
            i = i + 1;
        }
        None
    }

    /// Clear the graveyard.
    pub fn clear(&mut self)
        ensures
            final(self).spec_monsters().len() == 0,
    {
        self.monsters = Vec::new();
    }

    /// Residents counted by tier: total, per star, and golden.
    pub fn stats(&self) -> (r: GcGraveyardStats)
        ensures
            r.total == (if self.spec_monsters().len() > u32::MAX {
                u32::MAX as int
            } else {
                self.spec_monsters().len() as int
            }),
    {
        let mut stats = GcGraveyardStats {
            total: 0,
            star1: 0,
            star2: 0,
            star3: 0,
            golden: 0,
        };
        let mut i: usize = 0;
        while i < self.monsters.len()
            invariant
                i <= self.monsters@.len(),
                stats.total == (if i > u32::MAX {
                    u32::MAX as int
                } else {
                    i as int
                }),
            decreases self.monsters@.len() - i,
        {
            stats.total = stats.total.saturating_add(1);
            if self.monsters[i].golden_level > 0 {
                stats.golden = stats.golden.saturating_add(1);
            } else if self.monsters[i].star == 1 {
                stats.star1 = stats.star1.saturating_add(1);
            } else if self.monsters[i].star == 2 {
                stats.star2 = stats.star2.saturating_add(1);
            } else {
                stats.star3 = stats.star3.saturating_add(1);
            }
            i = i + 1;
        }
        stats
    }
}

/// Tier tally of the graveyard.
#[derive(Clone, Copy, Debug, Default, PartialEq, Eq, Structural)]
pub struct GcGraveyardStats {
    pub total: u32,
    pub star1: u32,
    pub star2: u32,
    pub star3: u32,
    pub golden: u32,
}

/// The record of one monster falling.
#[derive(Clone, Debug)]
pub struct GcDeathEvent {
    pub monster_id: String,
    pub monster_name: String,
    pub star: u8,
    pub golden_level: u8,
    /// Where it stood when it fell.
    pub slot: Option<u8>,
    /// Who felled it, when known.
    pub killer_id: Option<String>,
}

impl GcDeathEvent {
    /// The record of this monster falling.
    pub fn from_monster(monster: &GcMonster, killer_id: Option<String>) -> (r: Self)
        ensures
            r.monster_id@ == monster.id@,
            r.monster_name@ == monster.name@,
            r.star == monster.star,
            r.golden_level == monster.golden_level,
            r.slot == monster.slot,
            r.killer_id == killer_id,
    {
        GcDeathEvent {
            monster_id: monster.id.clone(),
            monster_name: monster.name.clone(),
            star: monster.star,
            golden_level: monster.golden_level,
            slot: monster.slot,
            killer_id,
        }
    }
}

/// Sweep the board: every monster whose hit points are gone moves to the
/// graveyard (living ones stay put), and each departure is recorded.
pub fn gc_process_deaths(board: &mut [Option<GcMonster>], graveyard: &mut GcGraveyard) -> (r: Vec<
    GcDeathEvent,
>)
    ensures
        final(board)@.len() == old(board)@.len(),
        forall|j: int|
            0 <= j < old(board)@.len() ==> final(board)@[j] == (
            if old(board)@[j] matches Some(m) && m.current_hp == 0 {
                None::<GcMonster>
            } else {
                old(board)@[j]
            }),
        final(graveyard).spec_monsters().len() >= old(graveyard).spec_monsters().len(),
{
    let mut events: Vec<GcDeathEvent> = Vec::new();
    let mut i: usize = 0;
    while i < board.len()
        invariant
            board@.len() == old(board)@.len(),
            i <= board@.len(),
            forall|j: int|
                0 <= j < i ==> board@[j] == (
                if old(board)@[j] matches Some(m) && m.current_hp == 0 {
                    None::<GcMonster>
                } else {
                    old(board)@[j]
                }),
            forall|j: int| i <= j < board@.len() ==> board@[j] == old(board)@[j],
            graveyard.spec_monsters().len() >= old(graveyard).spec_monsters().len(),
        decreases board@.len() - i,
    {
        match board[i].take() {
            Some(monster) => {
                if !monster.is_alive() {
                    events.push(GcDeathEvent::from_monster(&monster, None));
                    graveyard.add(monster);
                } else {
                    board[i] = Some(monster);
                }
            },
            None => {},
        }
        i = i + 1;
    }
    events
}

/// Sweep the bench the same way: the dead leave for the graveyard in order.
pub fn gc_process_bench_deaths(bench: &mut Vec<GcMonster>, graveyard: &mut GcGraveyard) -> (r: Vec<
    GcDeathEvent,
>)
    ensures
        final(bench)@.len() <= old(bench)@.len(),
        forall|j: int| 0 <= j < final(bench)@.len() ==> (#[trigger] final(bench)@[j]).current_hp > 0
            || old(bench)@.contains(final(bench)@[j]),
        final(graveyard).spec_monsters().len() >= old(graveyard).spec_monsters().len(),
{
    let mut events: Vec<GcDeathEvent> = Vec::new();
    let mut i: usize = 0;
    while i <= bench.len()
        invariant
            i <= bench@.len() + 1,
            bench@.len() <= old(bench)@.len(),
            forall|j: int| 0 <= j < bench@.len() ==> old(bench)@.contains(#[trigger] bench@[j]),
            graveyard.spec_monsters().len() >= old(graveyard).spec_monsters().len(),
        decreases bench@.len() - i + 1,
    {
        if i >= bench.len() {
            break ;
        }
        if !bench[i].is_alive() {
            let ghost before = bench@;
            let monster = bench.remove(i);
            proof {
                assert(before.contains(before[i as int]));
                assert(forall|j: int|
                    0 <= j < bench@.len() ==> before.contains(#[trigger] bench@[j])) by {
                    assert(forall|j: int| 0 <= j < i ==> bench@[j] == before[j]);
                    assert(forall|j: int|
                        i <= j < bench@.len() ==> bench@[j] == before[j + 1]);
                };
                assert(forall|j: int|
                    0 <= j < bench@.len() ==> old(bench)@.contains(#[trigger] bench@[j]));
            }
            events.push(GcDeathEvent::from_monster(&monster, None));
            graveyard.add(monster);
        } else {
            i = i + 1;
        }
    }
    events
}

} // verus!
