//! Merging monsters: three of one template, star and golden level fuse into
//! the next tier — stars climb to three, then golden levels climb without
//! bound.  Board copies outrank bench copies, and the result lands on the
//! leftmost board slot involved.

use vstd::prelude::*;
use vstd::string::StringExecFns;

use crate::arena::clone_monster;
use crate::monster::{spec_effective_max_hp, GcMonster};
use crate::text::{fresh_suffix, str_eq};

verus! {

/// Outcome of one merge.
#[derive(Clone, Debug)]
pub struct GcMergeResult {
    /// Whether the three monsters fused.
    pub success: bool,
    /// The fused monster.
    pub merged_monster: Option<GcMonster>,
    /// Ids of the three consumed monsters.
    pub consumed_ids: Vec<String>,
    /// Board slot the result landed on; `None` means the bench.
    pub result_location: Option<u8>,
    /// Star tier before.
    pub from_star: u8,
    /// Star tier after.
    pub to_star: u8,
    /// Golden level before.
    pub from_golden: u8,
    /// Golden level after.
    pub to_golden: u8,
}

impl GcMergeResult {
    /// The empty outcome of a refused merge.
    pub fn failed() -> (r: Self)
        ensures
            !r.success,
            r.merged_monster is None,
            r.consumed_ids@.len() == 0,
            r.result_location is None,
            r.from_star == 0,
            r.to_star == 0,
            r.from_golden == 0,
            r.to_golden == 0,
    {
        GcMergeResult {
            success: false,
            merged_monster: None,
            consumed_ids: Vec::new(),
            result_location: None,
            from_star: 0,
            to_star: 0,
            from_golden: 0,
            to_golden: 0,
        }
    }
}

/// A set of mergeable monsters found on the board and bench.
#[derive(Clone, Debug)]
pub struct GcMergeableGroup {
    pub template_id: String,
    pub star: u8,
    pub golden_level: u8,
    /// Where the three copies stand: `(0, slot)` on the board, `(1, index)`
    /// on the bench.
    pub monster_indices: Vec<(u8, usize)>,
    /// Their instance ids.
    pub monster_ids: Vec<String>,
}

/// Whether two monsters may fuse: same template, star and golden level.
pub open spec fn spec_can_merge(a: GcMonster, b: GcMonster) -> bool {
    a.template_id@ == b.template_id@ && a.star == b.star && a.golden_level == b.golden_level
}

/// The tier after a merge: golden levels keep climbing, three stars go
/// golden, and plain stars climb by one.
pub open spec fn spec_merge_target(star: u8, golden: u8) -> (u8, u8) {
    if golden > 0 {
        (3u8, (if golden == 255 { 255u8 } else { (golden + 1) as u8 }))
    } else if star >= 3 {
        (3u8, 1u8)
    } else {
        ((star + 1) as u8, 0u8)
    }
}

/// Whether two monsters may fuse.
pub fn gc_can_merge_pair(a: &GcMonster, b: &GcMonster) -> (r: bool)
    ensures
        r == spec_can_merge(*a, *b),
{
    str_eq(a.template_id.as_str(), b.template_id.as_str()) && a.star == b.star && a.golden_level
        == b.golden_level
}

/// Whether three monsters may fuse together.
pub fn gc_can_merge_triple(a: &GcMonster, b: &GcMonster, c: &GcMonster) -> (r: bool)
    ensures
        r == (spec_can_merge(*a, *b) && spec_can_merge(*b, *c)),
{
    gc_can_merge_pair(a, b) && gc_can_merge_pair(b, c)
}

/// Find the mergeable groups over the board and bench: for every (template,
/// star, golden) combination with at least three copies, the first three in
/// priority order (board left to right, then bench left to right).  Groups of
/// lower golden level come first, then lower stars.
pub fn gc_find_mergeable_groups(board: &[Option<GcMonster>], bench: &[GcMonster]) -> (r: Vec<
    GcMergeableGroup,
>)
    ensures
        groups_wf(r@),
        forall|a: int, b: int|
            0 <= a < b < r@.len() ==> spec_group_key_le(#[trigger] r@[a], #[trigger] r@[b]),
{
    let mut groups: Vec<GcMergeableGroup> = Vec::new();
    let mut i: usize = 0;
    while i < board.len()
        invariant
            groups_wf(groups@),
        decreases board@.len() - i,
    {
        match &board[i] {
            Some(m) => {
                collect_group(&mut groups, board, bench, m);
            },
            None => {},
        }
        i = i + 1;
    }
    let mut k: usize = 0;
    while k < bench.len()
        invariant
            groups_wf(groups@),
        decreases bench@.len() - k,
    {
        collect_group(&mut groups, board, bench, &bench[k]);
        k = k + 1;
    }
    let mut sorted: Vec<GcMergeableGroup> = Vec::new();
    let mut g: usize = 0;
    while g < groups.len()
        invariant
            groups_wf(groups@),
            groups_wf(sorted@),
            sorted@.len() == g,
            g <= groups@.len(),
            forall|a: int, b: int|
                0 <= a < b < sorted@.len() ==> spec_group_key_le(
                    #[trigger] sorted@[a],
                    #[trigger] sorted@[b],
                ),
        decreases groups@.len() - g,
    {
        let entry = copy_group(&groups[g]);
        let mut pos: usize = 0;
        while pos < sorted.len() && group_key_le(&sorted[pos], &entry)
            invariant
                pos <= sorted@.len(),
                forall|a: int| 0 <= a < pos ==> spec_group_key_le(#[trigger] sorted@[a], entry),
            decreases sorted@.len() - pos,
        {
            pos = pos + 1;
        }
        let ghost before = sorted@;
        sorted.insert(pos, entry);
        proof {
            assert(forall|a: int, b: int|
                0 <= a < b < sorted@.len() ==> spec_group_key_le(
                    #[trigger] sorted@[a],
                    #[trigger] sorted@[b],
                )) by {
                assert(forall|a: int| 0 <= a < pos ==> sorted@[a] == before[a]);
                assert(forall|b: int| pos < b < sorted@.len() ==> sorted@[b] == before[b - 1]);
                assert(pos < before.len() ==> !spec_group_key_le(before[pos as int], entry));
            };
            assert(groups_wf(sorted@));
        }
        g = g + 1;
    }
    sorted
}

/// Groups ordered by golden level, then star.
pub open spec fn spec_group_key_le(a: GcMergeableGroup, b: GcMergeableGroup) -> bool {
    a.golden_level < b.golden_level || (a.golden_level == b.golden_level && a.star <= b.star)
}

/// Whether `a`'s sort key is at most `b`'s.
fn group_key_le(a: &GcMergeableGroup, b: &GcMergeableGroup) -> (r: bool)
    ensures
        r == spec_group_key_le(*a, *b),
{
    a.golden_level < b.golden_level || (a.golden_level == b.golden_level && a.star <= b.star)
}

/// A field-for-field copy of a group.
fn copy_group(g: &GcMergeableGroup) -> (r: GcMergeableGroup)
    ensures
        r.template_id@ == g.template_id@,
        r.star == g.star,
        r.golden_level == g.golden_level,
        r.monster_indices@ == g.monster_indices@,
        r.monster_ids@.len() == g.monster_ids@.len(),
        spec_group_key_le(r, *g) && spec_group_key_le(*g, r),
        r.monster_indices@.len() == g.monster_indices@.len(),
{
    let mut ids: Vec<String> = Vec::new();
    let mut i: usize = 0;
    while i < g.monster_ids.len()
        invariant
            ids@.len() == i,
            i <= g.monster_ids@.len(),
        decreases g.monster_ids@.len() - i,
    {
        ids.push(g.monster_ids[i].clone());
        i = i + 1;
    }
    let mut indices: Vec<(u8, usize)> = Vec::new();
    let mut k: usize = 0;
    while k < g.monster_indices.len()
        invariant
            k <= g.monster_indices@.len(),
            indices@ == g.monster_indices@.take(k as int),
        decreases g.monster_indices@.len() - k,
    {
        proof {
            assert(g.monster_indices@.take(k as int + 1).drop_last() =~= g.monster_indices@.take(
                k as int,
            ));
        }
        indices.push(g.monster_indices[k]);
        proof {
            assert(indices@ =~= g.monster_indices@.take(k as int + 1));
        }
        k = k + 1;
    }
    proof {
        assert(g.monster_indices@.take(g.monster_indices@.len() as int) =~= g.monster_indices@);
    }
    GcMergeableGroup {
        template_id: g.template_id.clone(),
        star: g.star,
        golden_level: g.golden_level,
        monster_indices: indices,
        monster_ids: ids,
    }
}

/// Every group holds exactly three copies.
pub open spec fn groups_wf(gs: Seq<GcMergeableGroup>) -> bool {
    forall|g: int|
        0 <= g < gs.len() ==> (#[trigger] gs[g]).monster_indices@.len() == 3
            && gs[g].monster_ids@.len() == 3
}

/// If board and bench hold at least three copies matching `probe`, and no
/// group for its combination exists yet, add the first three in priority
/// order as a group.
fn collect_group(
    groups: &mut Vec<GcMergeableGroup>,
    board: &[Option<GcMonster>],
    bench: &[GcMonster],
    probe: &GcMonster,
)
    requires
        groups_wf(old(groups)@),
    ensures
        groups_wf(final(groups)@),
{
    let mut e: usize = 0;
    while e < groups.len()
        invariant
            groups_wf(groups@),
            groups@ == old(groups)@,
        decreases groups@.len() - e,
    {
        if str_eq(groups[e].template_id.as_str(), probe.template_id.as_str()) && groups[e].star
            == probe.star && groups[e].golden_level == probe.golden_level {
            return ;
        }
        e = e + 1;
    }
    let mut indices: Vec<(u8, usize)> = Vec::new();
    let mut ids: Vec<String> = Vec::new();
    let mut i: usize = 0;
    while i < board.len()
        invariant
            groups_wf(groups@),
            groups@ == old(groups)@,
            indices@.len() == ids@.len(),
            indices@.len() <= 3,
        decreases board@.len() - i,
    {
        if indices.len() >= 3 {
            break ;
        }
        match &board[i] {
            Some(m) => {
                if gc_can_merge_pair(m, probe) {
                    indices.push((0, i));
                    ids.push(m.id.clone());
                }
            },
            None => {},
        }
        i = i + 1;
    }
    let mut k: usize = 0;
    while k < bench.len()
        invariant
            groups_wf(groups@),
            groups@ == old(groups)@,
            indices@.len() == ids@.len(),
            indices@.len() <= 3,
        decreases bench@.len() - k,
    {
        if indices.len() >= 3 {
            break ;
        }
        if gc_can_merge_pair(&bench[k], probe) {
            indices.push((1, k));
            ids.push(bench[k].id.clone());
        }
        k = k + 1;
    }
    if indices.len() == 3 {
        groups.push(
            GcMergeableGroup {
                template_id: probe.template_id.clone(),
                star: probe.star,
                golden_level: probe.golden_level,
                monster_indices: indices,
                monster_ids: ids,
            },
        );
    }
}

/// Fuse three monsters.  Refused — with the empty outcome — unless all three
/// match; otherwise the result is a fresh monster of the first one's template
/// and base figures at the next tier, standing on the leftmost involved board
/// slot (or bound for the bench), not yet able to attack.
pub fn gc_merge_monsters(monsters: [GcMonster; 3]) -> (r: GcMergeResult)
    ensures
        r.success == (spec_can_merge(monsters@[0], monsters@[1]) && spec_can_merge(
            monsters@[1],
            monsters@[2],
        )),
        r.success ==> {
            &&& r.from_star == monsters@[0].star
            &&& r.from_golden == monsters@[0].golden_level
            &&& (r.to_star, r.to_golden) == spec_merge_target(
                monsters@[0].star,
                monsters@[0].golden_level,
            )
            &&& r.merged_monster matches Some(m) && {
                &&& m.template_id@ == monsters@[0].template_id@
                &&& m.name@ == monsters@[0].name@
                &&& m.base_atk == monsters@[0].base_atk
                &&& m.base_def == monsters@[0].base_def
                &&& m.max_hp == monsters@[0].max_hp
                &&& m.star == r.to_star
                &&& m.golden_level == r.to_golden
                &&& m.current_hp == spec_effective_max_hp(m)
                &&& !m.can_attack
                &&& m.slot == r.result_location
            }
            &&& r.consumed_ids@.len() == 3
            &&& r.consumed_ids@[0]@ == monsters@[0].id@
            &&& r.consumed_ids@[1]@ == monsters@[1].id@
            &&& r.consumed_ids@[2]@ == monsters@[2].id@
        },
{
    if !gc_can_merge_triple(&monsters[0], &monsters[1], &monsters[2]) {
        return GcMergeResult::failed();
    }
    let from_star = monsters[0].star;
    let from_golden = monsters[0].golden_level;
    let (to_star, to_golden): (u8, u8) = if from_golden > 0 {
        (3, if from_golden == 255 {
            255
        } else {
            from_golden + 1
        })
    } else if from_star >= 3 {
        (3, 1)
    } else {
        (from_star + 1, 0)
    };
    let mut result_location: Option<u8> = None;
    let mut i: usize = 0;
    while i < 3
        invariant
            i <= 3,
        decreases 3 - i,
    {
        match monsters[i].slot {
            Some(s) => {
                match result_location {
                    Some(cur) => {
                        if s < cur {
                            result_location = Some(s);
                        }
                    },
                    None => {
                        result_location = Some(s);
                    },
                }
            },
            None => {},
        }
        i = i + 1;
    }
    let mut id = monsters[0].template_id.clone();
    id.append("_merged_");
    id.append(fresh_suffix().as_str());
    let mut merged = GcMonster::new_with_star(
        id.as_str(),
        monsters[0].template_id.as_str(),
        monsters[0].name.as_str(),
        monsters[0].level,
        monsters[0].attribute,
        monsters[0].base_atk,
        monsters[0].base_def,
        monsters[0].max_hp,
        to_star,
        to_golden,
    );
    merged.slot = result_location;
    merged.can_attack = false;
    let mut consumed_ids: Vec<String> = Vec::new();
    consumed_ids.push(monsters[0].id.clone());
    consumed_ids.push(monsters[1].id.clone());
    consumed_ids.push(monsters[2].id.clone());
    GcMergeResult {
        success: true,
        merged_monster: Some(merged),
        consumed_ids,
        result_location,
        from_star,
        to_star,
        from_golden,
        to_golden,
    }
}

/// Scan for one mergeable group and fuse it: the three copies leave the board
/// and bench and the result takes its place (board slot or bench).  `None`
/// when nothing can merge.
pub fn gc_auto_merge_once(
    board: &mut Vec<Option<GcMonster>>,
    bench: &mut Vec<GcMonster>,
) -> (r: Option<GcMergeResult>)
    ensures
        final(board)@.len() == old(board)@.len(),
{
    let groups = gc_find_mergeable_groups(board.as_slice(), bench.as_slice());
    if groups.len() == 0 {
        return None;
    }
    let group = &groups[0];
    let mut to_merge: Vec<GcMonster> = Vec::new();
    let mut bench_indices: Vec<usize> = Vec::new();
    let mut i: usize = 0;
    while i < group.monster_indices.len()
        invariant
            board@.len() == old(board)@.len(),
            bench@ == old(bench)@,
        decreases group.monster_indices@.len() - i,
    {
        let (location, idx) = group.monster_indices[i];
        if location == 0 {
            if idx < board.len() {
                match board[idx].take() {
                    Some(m) => {
                        to_merge.push(m);
                    },
                    None => {},
                }
            }
        } else {
            bench_indices.push(idx);
        }
        i = i + 1;
    }
    let mut b: usize = bench_indices.len();
    while b > 0
        invariant
            board@.len() == old(board)@.len(),
            b <= bench_indices@.len(),
        decreases b,
    {
        b = b - 1;
        let idx = bench_indices[b];
        if idx < bench.len() {
            to_merge.push(bench.remove(idx));
        }
    }
    if to_merge.len() != 3 {
        return None;
    }
    let m0 = match to_merge.pop() {
        Some(m) => m,
        None => {
            return None;
        },
    };
    let m1 = match to_merge.pop() {
        Some(m) => m,
        None => {
            return None;
        },
    };
    let m2 = match to_merge.pop() {
        Some(m) => m,
        None => {
            return None;
        },
    };
    let result = gc_merge_monsters([m0, m1, m2]);
    if result.success {
        match &result.merged_monster {
            Some(merged) => {
                match result.result_location {
                    Some(slot) => {
                        if (slot as usize) < board.len() {
                            let copy = clone_monster(merged);
                            board[slot as usize] = Some(copy);
                        } else {
                            bench.push(clone_monster(merged));
                        }
                    },
                    None => {
                        bench.push(clone_monster(merged));
                    },
                }
            },
            None => {},
        }
    }
    Some(result)
}

/// Fuse every mergeable group, rescanning until nothing more merges.
pub fn gc_auto_merge_all(
    board: &mut Vec<Option<GcMonster>>,
    bench: &mut Vec<GcMonster>,
) -> (r: Vec<GcMergeResult>)
    ensures
        final(board)@.len() == old(board)@.len(),
{
    let mut results: Vec<GcMergeResult> = Vec::new();
    let mut guard: usize = 0;
    let fuel = bench.len().saturating_add(board.len()).saturating_add(1);
    while guard < fuel
        invariant
            board@.len() == old(board)@.len(),
        decreases fuel - guard,
    {
        match gc_auto_merge_once(board, bench) {
            Some(result) => {
                results.push(result);
            },
            None => {
                return results;
            },
        }
        guard = guard + 1;
    }
    results
}

} // verus!
