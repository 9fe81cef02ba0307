//! Multi-drag group snapshotting.
//!
//! When a drag starts on an item that belongs to a multi-item selection,
//! the whole selection travels as one group. The app owns the selection;
//! the library only decides, at drag start, *which* ids ride along.
use std::collections::HashSet;

use vstd::prelude::*;
use vstd::std_specs::hash::spec_hash_keys_iter;
use vstd::std_specs::iter::IteratorSpec;

use crate::state::DraggableId;

verus! {

broadcast use vstd::std_specs::hash::group_hash_axioms;

/// `ids` lists the members of `set` in strictly ascending order (so each
/// exactly once).
pub open spec fn sorted_listing(ids: Seq<u64>, set: Set<u64>) -> bool {
    &&& ids.to_set() == set
    &&& forall|i: int, j: int| 0 <= i < j < ids.len() ==> ids[i] < ids[j]
}

/// The group dragged along with `primary`, as raw ids: `primary` followed by
/// the other members of the selection in ascending order when `primary` is a
/// member of a selection of more than one; `primary` alone otherwise.
pub open spec fn is_drag_group(group: Seq<DraggableId>, primary: DraggableId, selection: Set<u64>) -> bool {
    if selection.len() > 1 && selection.contains(primary.0) {
        &&& group.len() >= 1
        &&& group[0] == primary
        &&& sorted_listing(group.drop_first().map_values(|d: DraggableId| d.0), selection.remove(primary.0))
    } else {
        group == seq![primary]
    }
}

/// Build the dragged group for a drag starting on `primary`.
///
/// `selection` holds the raw ids of the selected draggables. If `primary` is
/// in `selection` and the selection has more than one member, the group is
/// `[primary, ...rest]` with the remaining members sorted by ascending id — a
/// deterministic order, so repeated drags of the same selection always
/// produce the same group. Otherwise the drag is single-item and the group is
/// just `[primary]`.
pub fn drag_group(primary: DraggableId, selection: &HashSet<u64>) -> (group: Vec<DraggableId>)
    ensures
        is_drag_group(group@, primary, selection@),
{
    if selection.len() > 1 && selection.contains(&primary.0) {
        let rest = members_except(selection, primary.0);
        let sorted = sort_ascending(rest);
        let mut group: Vec<DraggableId> = Vec::new();
        group.push(primary);
        let mut k: usize = 0;
        while k < sorted.len()
            invariant
                k <= sorted.len(),
                group.len() == k + 1,
                group@[0] == primary,
                forall|i: int| 0 <= i < k ==> #[trigger] group@[i + 1] == DraggableId(sorted@[i]),
            decreases sorted.len() - k,
        {
            group.push(DraggableId(sorted[k]));
            k = k + 1;
        }
        proof {
            assert(group@.drop_first().map_values(|d: DraggableId| d.0) =~= sorted@);
            assert(sorted@.to_set() =~= selection@.remove(primary.0));
        }
        group
    } else {
        let mut group: Vec<DraggableId> = Vec::new();
        group.push(primary);
        group
    }
}

/// The members of `selection` other than `excluded`, each once, in the
/// set's iteration order.
fn members_except(selection: &HashSet<u64>, excluded: u64) -> (rest: Vec<u64>)
    ensures
        rest@.no_duplicates(),
        forall|v: u64| #[trigger] rest@.contains(v) <==> (selection@.contains(v) && v != excluded),
{
    let mut rest: Vec<u64> = Vec::new();
    let ghost keys = spec_hash_keys_iter(selection).remaining().unref();
    for x in it: selection.iter()
        invariant
            keys == it.seq().unref(),
            keys.to_set() == selection@,
            keys.no_duplicates(),
            rest@.no_duplicates(),
            forall|v: u64| #[trigger] rest@.contains(v) <==> (v != excluded && exists|j: int|
                0 <= j < it.index() && keys[j] == v),
    {
        let ghost i = it.index();
        let ghost old_rest = rest@;
        assert(keys[i] == *x);
        if *x != excluded {
            proof {
                assert forall|j: int| 0 <= j < rest@.len() implies rest@[j] != *x by {
                    assert(rest@.contains(rest@[j]));
                }
            }
            rest.push(*x);
        }
        proof {
            assert forall|v: u64| #[trigger] rest@.contains(v) <==> (v != excluded && exists|j: int|
                0 <= j < i + 1 && keys[j] == v) by {
                let was = v != excluded && exists|j: int| 0 <= j < i && keys[j] == v;
                assert(old_rest.contains(v) <==> was);
                if rest@.contains(v) {
                    let k: int = choose|k: int| 0 <= k < rest@.len() && rest@[k] == v;
                    if k < old_rest.len() {
                        assert(old_rest[k] == v);
                        let j: int = choose|j: int| 0 <= j < i && keys[j] == v;
                        assert(0 <= j < i + 1 && keys[j] == v);
                    } else {
                        assert(keys[i] == v);
                    }
                }
                if v != excluded && (exists|j: int| 0 <= j < i + 1 && keys[j] == v) {
                    let j: int = choose|j: int| 0 <= j < i + 1 && keys[j] == v;
                    if j < i {
                        assert(old_rest.contains(v));
                        let k: int = choose|k: int| 0 <= k < old_rest.len() && old_rest[k] == v;
                        assert(rest@[k] == v);
                    } else {
                        assert(rest@.last() == v);
                    }
                }
            }
        }
    }
    proof {
        assert forall|v: u64| #[trigger] rest@.contains(v) <==> (selection@.contains(v) && v != excluded) by {
            if selection@.contains(v) {
                assert(keys.to_set().contains(v));
                let j: int = choose|j: int| 0 <= j < keys.len() && keys[j] == v;
                assert(keys[j] == v);
            }
        }
    }
    rest
}

/// Sort distinct ids into ascending order (insertion sort).
fn sort_ascending(ids: Vec<u64>) -> (sorted: Vec<u64>)
    requires
        ids@.no_duplicates(),
    ensures
        sorted_listing(sorted@, ids@.to_set()),
{
    let mut sorted: Vec<u64> = Vec::new();
    let mut i: usize = 0;
    while i < ids.len()
        invariant
            i <= ids.len(),
            ids@.no_duplicates(),
            forall|a: int, b: int| 0 <= a < b < sorted@.len() ==> sorted@[a] < sorted@[b],
            forall|v: u64| #[trigger] sorted@.contains(v) <==> ids@.take(i as int).contains(v),
        decreases ids.len() - i,
    {
        let x: u64 = ids[i];
        proof {
            assert(!ids@.take(i as int).contains(x)) by {
                if ids@.take(i as int).contains(x) {
                    let j: int = choose|j: int| 0 <= j < i && ids@.take(i as int)[j] == x;
                    assert(ids@[j] == ids@[i as int]);
                }
            }
        }
        let mut pos: usize = 0;
        while pos < sorted.len() && sorted[pos] < x
            invariant
                pos <= sorted.len(),
                forall|j: int| 0 <= j < pos ==> sorted@[j] < x,
            decreases sorted.len() - pos,
        {
            pos = pos + 1;
        }
        proof {
            if pos < sorted@.len() {
                assert(sorted@.contains(sorted@[pos as int]));
                assert(sorted@[pos as int] != x);
            }
        }
        let ghost before = sorted@;
        sorted.insert(pos, x);
        proof {
            before.insert_ensures(pos as int, x);
            assert(sorted@ == before.insert(pos as int, x));
            assert(ids@.take(i + 1) =~= ids@.take(i as int).push(x));
            assert forall|v: u64| #[trigger] sorted@.contains(v) <==> ids@.take(i + 1).contains(v) by {
                if ids@.take(i as int).contains(v) {
                    let j: int = choose|j: int| 0 <= j < i && ids@.take(i as int)[j] == v;
                    assert(ids@.take(i + 1)[j] == v);
                }
                if v == x {
                    assert(ids@.take(i + 1)[i as int] == v);
                }
                let next = ids@.take(i + 1);
                if next.contains(v) {
                    let j: int = choose|j: int| 0 <= j < next.len() && next[j] == v;
                    if j < i {
                        assert(ids@.take(i as int)[j] == v);
                    }
                }
                assert(ids@.take(i + 1).contains(v) <==> (ids@.take(i as int).contains(v) || v == x));
                if sorted@.contains(v) {
                    let j: int = choose|j: int| 0 <= j < sorted@.len() && sorted@[j] == v;
                    if j < pos {
                        assert(before[j] == v);
                        assert(before.contains(v));
                    } else if j > pos {
                        assert(before[j - 1] == v);
                        assert(before.contains(v));
                    }
                }
                if before.contains(v) {
                    let j: int = choose|j: int| 0 <= j < before.len() && before[j] == v;
                    if j < pos {
                        assert(sorted@[j] == v);
                    } else {
                        assert(sorted@[j + 1] == v);
                    }
                }
                assert(sorted@[pos as int] == x);
            }
            assert forall|a: int, b: int| 0 <= a < b < sorted@.len() implies sorted@[a] < sorted@[b] by {
                if b < pos {
                } else if b == pos {
                } else if a < pos {
                    assert(sorted@[b] == before[b - 1]);
                } else if a == pos {
                    assert(sorted@[b] == before[b - 1]);
                    assert(before[pos as int] <= before[b - 1] || b - 1 == pos);
                } else {
                    assert(sorted@[a] == before[a - 1]);
                    assert(sorted@[b] == before[b - 1]);
                }
            }
        }
        i = i + 1;
    }
    proof {
        assert(ids@.take(ids@.len() as int) =~= ids@);
        assert(sorted@.to_set() =~= ids@.to_set());
    }
    sorted
}

/// Two ascending listings of the same set are the same sequence.
proof fn lemma_sorted_listing_unique(a: Seq<u64>, b: Seq<u64>, set: Set<u64>)
    requires
        sorted_listing(a, set),
        sorted_listing(b, set),
    ensures
        a == b,
    decreases a.len(),
{
    if a.len() == 0 {
        if b.len() > 0 {
            assert(b.to_set().contains(b[0]));
            assert(a.to_set().contains(b[0]));
        }
        assert(a =~= b);
    } else {
        assert(a.to_set().contains(a[0]));
        assert(b.len() > 0) by {
            assert(b.to_set().contains(a[0]));
        }
        assert(b.to_set().contains(b[0]));
        let ka: int = choose|k: int| 0 <= k < b.len() && b[k] == a[0];
        let kb: int = choose|k: int| 0 <= k < a.len() && a[k] == b[0];
        assert(a[0] == b[ka]);
        assert(b[0] == a[kb]);
        assert(a[0] == b[0]) by {
            if ka > 0 {
                assert(b[0] < b[ka]);
            }
            if kb > 0 {
                assert(a[0] < a[kb]);
            }
        }
        let rest = set.remove(a[0]);
        assert forall|v: u64| a.drop_first().to_set().contains(v) <==> rest.contains(v) by {
            if a.drop_first().contains(v) {
                let k: int = choose|k: int| 0 <= k < a.len() - 1 && a.drop_first()[k] == v;
                assert(a[k + 1] == v);
                assert(a[0] < a[k + 1]);
                assert(a.contains(v));
            }
            if rest.contains(v) {
                assert(a.to_set().contains(v));
                let k: int = choose|k: int| 0 <= k < a.len() && a[k] == v;
                assert(k != 0);
                assert(a.drop_first()[k - 1] == v);
            }
        }
        assert forall|v: u64| b.drop_first().to_set().contains(v) <==> rest.contains(v) by {
            if b.drop_first().contains(v) {
                let k: int = choose|k: int| 0 <= k < b.len() - 1 && b.drop_first()[k] == v;
                assert(b[k + 1] == v);
                assert(b[0] < b[k + 1]);
                assert(b.contains(v));
            }
            if rest.contains(v) {
                assert(b.to_set().contains(v));
                let k: int = choose|k: int| 0 <= k < b.len() && b[k] == v;
                assert(k != 0);
                assert(b.drop_first()[k - 1] == v);
            }
        }
        assert(a.drop_first().to_set() =~= rest);
        assert(b.drop_first().to_set() =~= rest);
        lemma_sorted_listing_unique(a.drop_first(), b.drop_first(), rest);
        assert(a =~= seq![a[0]] + a.drop_first());
        assert(b =~= seq![b[0]] + b.drop_first());
    }
}

/// The group is a function of the primary and the selection alone: whatever
/// order the selection is stored or walked in, every group that
/// [`drag_group`] may return for the same primary and selection is the same
/// sequence.
pub proof fn lemma_drag_group_is_deterministic(
    g1: Seq<DraggableId>,
    g2: Seq<DraggableId>,
    primary: DraggableId,
    selection: Set<u64>,
)
    requires
        is_drag_group(g1, primary, selection),
        is_drag_group(g2, primary, selection),
    ensures
        g1 == g2,
{
    if selection.len() > 1 && selection.contains(primary.0) {
        let r1 = g1.drop_first().map_values(|d: DraggableId| d.0);
        let r2 = g2.drop_first().map_values(|d: DraggableId| d.0);
        lemma_sorted_listing_unique(r1, r2, selection.remove(primary.0));
        assert forall|k: int| 0 <= k < g1.len() implies g1[k] == g2[k] by {
            if k > 0 {
                assert(r1[k - 1] == r2[k - 1]);
                assert(g1[k] == DraggableId(r1[k - 1]));
                assert(g2[k] == DraggableId(r2[k - 1]));
            }
        }
        assert(g1 =~= g2);
    }
}

/// What rides along: the group starts with the primary, holds no id twice,
/// and holds exactly the selection when the primary belongs to a selection
/// of more than one, or just the primary otherwise.
pub proof fn lemma_drag_group_members(group: Seq<DraggableId>, primary: DraggableId, selection: Set<u64>)
    requires
        is_drag_group(group, primary, selection),
    ensures
        group.len() >= 1,
        group[0] == primary,
        group.no_duplicates(),
        forall|v: u64| #[trigger] group.contains(DraggableId(v)) <==> if selection.len() > 1
            && selection.contains(primary.0) {
            selection.contains(v)
        } else {
            v == primary.0
        },
{
    if selection.len() > 1 && selection.contains(primary.0) {
        let rest = group.drop_first().map_values(|d: DraggableId| d.0);
        assert forall|i: int, j: int| 0 <= i < j < group.len() implies group[i] != group[j] by {
            if i == 0 {
                assert(group[j] == DraggableId(rest[j - 1]));
                assert(rest.to_set().contains(rest[j - 1]));
            } else {
                assert(rest[i - 1] < rest[j - 1]);
            }
        }
        assert forall|v: u64| #[trigger] group.contains(DraggableId(v)) <==> selection.contains(v) by {
            if group.contains(DraggableId(v)) {
                let k: int = choose|k: int| 0 <= k < group.len() && group[k] == DraggableId(v);
                if k > 0 {
                    assert(rest[k - 1] == v);
                    assert(rest.to_set().contains(v));
                }
            }
            if selection.contains(v) {
                if v == primary.0 {
                    assert(group[0] == DraggableId(v));
                } else {
                    assert(rest.to_set().contains(v));
                    let k: int = choose|k: int| 0 <= k < rest.len() && rest[k] == v;
                    assert(group[k + 1] == DraggableId(v));
                }
            }
        }
    } else {
        assert forall|v: u64| #[trigger] group.contains(DraggableId(v)) <==> v == primary.0 by {
            if v == primary.0 {
                assert(group[0] == DraggableId(v));
            }
        }
    }
}

} // verus!
