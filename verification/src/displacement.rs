//! Live drop-preview displacements.
//!
//! While a drag is active, neighbors of the hovered slot shift to *show*
//! where the dragged item would land. Items are arranged in a 1D list (the
//! caller sorts them in render order along the list's axis). The dragged item
//! and the `over` slot define a range:
//!
//! * **Forward move** (`over` after `dragged`): items in `(dragged, over]`
//!   shift backward by one step along the axis, opening a gap where the
//!   dragged item would land.
//! * **Backward move** (`over` before `dragged`): items in `[over, dragged)`
//!   shift forward.
//! * Otherwise: no item moves.
//!
//! The step is the size of the *dragged* item along the axis, so every
//! shifted item carries the dragged item's rectangle; the binding turns it
//! into a CSS translation (`-height`/`+height` on a vertical list,
//! `-width`/`+width` on a horizontal one).
use vstd::prelude::*;

use crate::state::DroppableId;

verus! {

/// How one item of the list moves while the drag hovers.
#[derive(Debug, Clone, Copy, PartialEq)]
pub enum Shift<R> {
    /// The item stays in place.
    Still,
    /// The item moves toward the start of the list by the size of the dragged
    /// item, whose rectangle is carried.
    Backward(R),
    /// The item moves toward the end of the list by the size of the dragged
    /// item, whose rectangle is carried.
    Forward(R),
}

/// `i` is the first index of `items` whose id is `id`.
pub open spec fn is_first_position<R>(items: Seq<(DroppableId, R)>, id: DroppableId, i: int) -> bool {
    &&& 0 <= i < items.len()
    &&& items[i].0 == id
    &&& forall|j: int| 0 <= j < i ==> items[j].0 != id
}

/// The first index of `id` in `items`, if it occurs.
pub open spec fn position<R>(items: Seq<(DroppableId, R)>, id: DroppableId) -> Option<int> {
    if exists|i: int| is_first_position(items, id, i) {
        Some(choose|i: int| is_first_position(items, id, i))
    } else {
        None
    }
}

/// The shift of the item at index `k` while `dragged` hovers over `over`.
pub open spec fn preview_shift<R>(
    items: Seq<(DroppableId, R)>,
    dragged: DroppableId,
    over: Option<DroppableId>,
    k: int,
) -> Shift<R> {
    match over {
        Some(o) => if o == dragged {
            Shift::Still
        } else {
            match (position(items, dragged), position(items, o)) {
                (Some(d), Some(v)) => if v > d {
                    if d < k <= v {
                        Shift::Backward(items[d].1)
                    } else {
                        Shift::Still
                    }
                } else {
                    if v <= k < d {
                        Shift::Forward(items[d].1)
                    } else {
                        Shift::Still
                    }
                },
                _ => Shift::Still,
            }
        },
        None => Shift::Still,
    }
}

/// A first position is unique.
proof fn lemma_first_position_unique<R>(items: Seq<(DroppableId, R)>, id: DroppableId, i: int, j: int)
    requires
        is_first_position(items, id, i),
        is_first_position(items, id, j),
    ensures
        i == j,
{
    if i < j {
        assert(items[i].0 != id);
    }
    if j < i {
        assert(items[j].0 != id);
    }
}

/// The first index of `id` in `items`.
fn position_of<R: Copy>(items: &[(DroppableId, R)], id: DroppableId) -> (r: Option<usize>)
    ensures
        r matches Some(i) ==> position(items@, id) == Some(i as int),
        r is None ==> position(items@, id) is None,
{
    let mut i: usize = 0;
    while i < items.len()
        invariant
            i <= items@.len(),
            forall|j: int| 0 <= j < i ==> items@[j].0 != id,
        decreases items.len() - i,
    {
        if items[i].0 == id {
            proof {
                assert(is_first_position(items@, id, i as int));
                let c: int = choose|c: int| is_first_position(items@, id, c);
                lemma_first_position_unique(items@, id, i as int, c);
            }
            return Some(i);
        }
        i = i + 1;
    }
    proof {
        assert(!exists|c: int| is_first_position(items@, id, c));
    }
    None
}

/// Compute how each item should move while a drag is hovering over `over`.
///
/// `items` is the list of registered droppables **in render order**, each
/// with its rectangle. `dragged` is the droppable that corresponds to the
/// dragged item (in the sortable-list pattern draggable and droppable share
/// an id). Returns a `Vec` aligned with `items` (same order, same length,
/// same ids). Nothing moves when `over` is `None`, equals `dragged`, or
/// either id is not in `items`.
pub fn live_displacements<R: Copy>(
    dragged: DroppableId,
    over: Option<DroppableId>,
    items: &[(DroppableId, R)],
) -> (out: Vec<(DroppableId, Shift<R>)>)
    ensures
        out@.len() == items@.len(),
        forall|k: int|
            0 <= k < items@.len() ==> #[trigger] out@[k] == (items@[k].0, preview_shift(
                items@,
                dragged,
                over,
                k,
            )),
{
    let mut range: Option<(usize, usize, bool, R)> = None;
    match over {
        Some(o) => {
            if o != dragged {
                let d = position_of(items, dragged);
                let v = position_of(items, o);
                match (d, v) {
                    (Some(d), Some(v)) => {
                        let step = items[d].1;
                        if v > d {
                            range = Some((d + 1, v, false, step));
                        } else {
                            range = Some((v, d - 1, true, step));
                        }
                    },
                    _ => {},
                }
            }
        },
        None => {},
    }
    let mut out: Vec<(DroppableId, Shift<R>)> = Vec::new();
    let mut k: usize = 0;
    while k < items.len()
        invariant
            k <= items@.len(),
            out@.len() == k,
            match range {
                Some((start, end, forward, step)) => {
                    &&& over matches Some(o)
                    &&& o != dragged
                    &&& position(items@, dragged) matches Some(d)
                    &&& position(items@, o) matches Some(v)
                    &&& step == items@[d].1
                    &&& if v > d {
                        start == d + 1 && end == v && !forward
                    } else {
                        start == v && end == d - 1 && forward
                    }
                },
                None => forall|k: int| #[trigger] preview_shift(items@, dragged, over, k) == Shift::<R>::Still,
            },
            forall|j: int|
                0 <= j < k ==> #[trigger] out@[j] == (items@[j].0, preview_shift(
                    items@,
                    dragged,
                    over,
                    j,
                )),
        decreases items.len() - k,
    {
        let shift = match range {
            Some((start, end, forward, step)) => {
                if start <= k && k <= end {
                    if forward {
                        Shift::Forward(step)
                    } else {
                        Shift::Backward(step)
                    }
                } else {
                    Shift::Still
                }
            },
            None => Shift::Still,
        };
        proof {
            if range is Some {
                let o = over->0;
                let d: int = position(items@, dragged)->0;
                let v: int = position(items@, o)->0;
                assert(is_first_position(items@, dragged, d));
                assert(is_first_position(items@, o, v));
                assert(v != d);
            }
        }
        out.push((items[k].0, shift));
        k = k + 1;
    }
    out
}

/// The dragged item itself never moves in the preview.
pub proof fn lemma_dragged_item_stays<R>(
    items: Seq<(DroppableId, R)>,
    dragged: DroppableId,
    over: Option<DroppableId>,
)
    ensures
        position(items, dragged) matches Some(d) ==> preview_shift(items, dragged, over, d)
            == Shift::<R>::Still,
{
}

/// A preview moves its items one way and by one step: any two items that
/// move, move in the same direction by the dragged item's size, and every
/// moving item lies between the dragged item and `over` — after the dragged
/// item up to `over` for a forward move, from `over` up to the dragged item
/// for a backward move.
pub proof fn lemma_preview_is_one_gap<R>(
    items: Seq<(DroppableId, R)>,
    dragged: DroppableId,
    over: Option<DroppableId>,
    a: int,
    b: int,
)
    requires
        0 <= a < items.len(),
        0 <= b < items.len(),
        preview_shift(items, dragged, over, a) != Shift::<R>::Still,
        preview_shift(items, dragged, over, b) != Shift::<R>::Still,
    ensures
        preview_shift(items, dragged, over, a) == preview_shift(items, dragged, over, b),
        ({
            &&& position(items, dragged) matches Some(d)
            &&& over matches Some(o)
            &&& position(items, o) matches Some(v)
            &&& if v > d {
                d < a <= v
            } else {
                v <= a < d
            }
        }),
{
}

/// The first occurrence of an id is its position.
proof fn lemma_position_at_first<R>(items: Seq<(DroppableId, R)>, id: DroppableId, i: int)
    requires
        0 <= i < items.len(),
        items[i].0 == id,
        forall|j: int| 0 <= j < i ==> items[j].0 != id,
    ensures
        position(items, id) == Some(i),
{
    assert(is_first_position(items, id, i));
    let c: int = choose|c: int| is_first_position(items, id, c);
    lemma_first_position_unique(items, id, i, c);
}

/// An id that does not occur has no position.
proof fn lemma_position_absent<R>(items: Seq<(DroppableId, R)>, id: DroppableId)
    requires
        forall|j: int| 0 <= j < items.len() ==> items[j].0 != id,
    ensures
        position(items, id) is None,
{
    assert(!exists|c: int| is_first_position(items, id, c));
}

/// The whole gap opens. Let the dragged item first occur at index `d` and the
/// hovered one (a different id) first occur at index `v`. On a forward move
/// (`d < v`) every item after the dragged one up to and including the
/// hovered one moves backward by the dragged item's rectangle, and every
/// other item stays; on a backward move (`v < d`) every item from the hovered
/// one up to but excluding the dragged one moves forward by the dragged
/// item's rectangle, and every other item stays.
pub proof fn lemma_preview_moves_the_whole_range<R>(
    items: Seq<(DroppableId, R)>,
    dragged: DroppableId,
    hovered: DroppableId,
    d: int,
    v: int,
    k: int,
)
    requires
        0 <= d < items.len(),
        items[d].0 == dragged,
        forall|j: int| 0 <= j < d ==> items[j].0 != dragged,
        0 <= v < items.len(),
        items[v].0 == hovered,
        forall|j: int| 0 <= j < v ==> items[j].0 != hovered,
        hovered != dragged,
        0 <= k < items.len(),
    ensures
        d < v && d < k <= v ==> preview_shift(items, dragged, Some(hovered), k) == Shift::Backward(
            items[d].1,
        ),
        d < v && !(d < k <= v) ==> preview_shift(items, dragged, Some(hovered), k) == Shift::<
            R,
        >::Still,
        v < d && v <= k < d ==> preview_shift(items, dragged, Some(hovered), k) == Shift::Forward(
            items[d].1,
        ),
        v < d && !(v <= k < d) ==> preview_shift(items, dragged, Some(hovered), k) == Shift::<
            R,
        >::Still,
{
    lemma_position_at_first(items, dragged, d);
    lemma_position_at_first(items, hovered, v);
}

/// Nothing moves without a real target: when no droppable is hovered, when
/// the hovered droppable is the dragged one, or when either id does not
/// occur among the items, every item stays.
pub proof fn lemma_preview_needs_two_known_items<R>(
    items: Seq<(DroppableId, R)>,
    dragged: DroppableId,
    over: Option<DroppableId>,
    k: int,
)
    ensures
        over is None ==> preview_shift(items, dragged, over, k) == Shift::<R>::Still,
        over == Some(dragged) ==> preview_shift(items, dragged, over, k) == Shift::<R>::Still,
        (forall|j: int| 0 <= j < items.len() ==> items[j].0 != dragged) ==> preview_shift(
            items,
            dragged,
            over,
            k,
        ) == Shift::<R>::Still,
        (over matches Some(o) && forall|j: int| 0 <= j < items.len() ==> items[j].0 != o)
            ==> preview_shift(items, dragged, over, k) == Shift::<R>::Still,
{
    if forall|j: int| 0 <= j < items.len() ==> items[j].0 != dragged {
        lemma_position_absent(items, dragged);
    }
    if over matches Some(o) && forall|j: int| 0 <= j < items.len() ==> items[j].0 != o {
        lemma_position_absent(items, over->0);
    }
}

} // verus!
