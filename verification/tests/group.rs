use std::collections::HashSet;

use taino_dnd::group::drag_group;
use taino_dnd::state::DraggableId;

fn set(ids: &[u64]) -> HashSet<u64> {
    ids.iter().copied().collect()
}

#[test]
fn empty_selection_is_singleton() {
    assert_eq!(drag_group(DraggableId(7), &set(&[])), vec![DraggableId(7)]);
}

#[test]
fn primary_not_in_selection_is_singleton() {
    // The drag starts on an unselected item: the selection is ignored.
    assert_eq!(drag_group(DraggableId(99), &set(&[1, 2])), vec![DraggableId(99)]);
}

#[test]
fn selection_with_only_the_primary_is_singleton() {
    assert_eq!(drag_group(DraggableId(4), &set(&[4])), vec![DraggableId(4)]);
}

#[test]
fn multi_selection_carries_the_group_primary_first_rest_sorted() {
    assert_eq!(
        drag_group(DraggableId(2), &set(&[3, 1, 2])),
        vec![DraggableId(2), DraggableId(1), DraggableId(3)],
    );
}

#[test]
fn group_order_is_deterministic_across_calls() {
    let sel = set(&[5, 9, 1, 7, 3]);
    let first = drag_group(DraggableId(7), &sel);
    for _ in 0..10 {
        assert_eq!(drag_group(DraggableId(7), &sel), first);
    }
}

#[test]
fn group_from_differently_built_sets_is_the_same() {
    let a: HashSet<u64> = [40, 2, 17, 9, 1000].into_iter().collect();
    let mut b: HashSet<u64> = HashSet::with_capacity(64);
    for id in [1000, 9, 17, 2, 40] {
        b.insert(id);
    }
    let expected = vec![DraggableId(17), DraggableId(2), DraggableId(9), DraggableId(40), DraggableId(1000)];
    assert_eq!(drag_group(DraggableId(17), &a), expected);
    assert_eq!(drag_group(DraggableId(17), &b), expected);
}

#[test]
fn large_ids_sort_numerically() {
    assert_eq!(
        drag_group(DraggableId(5), &set(&[u64::MAX, 5, 0, 10])),
        vec![DraggableId(5), DraggableId(0), DraggableId(10), DraggableId(u64::MAX)],
    );
}
