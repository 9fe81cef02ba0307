use taino_dnd::displacement::{live_displacements, Shift};
use taino_dnd::state::DroppableId;

/// `(x, y, width, height)` in CSS pixels.
type Rect = (f64, f64, f64, f64);

/// Turn a shift into the vertical / horizontal translation the bindings apply.
fn vector_y(s: Shift<Rect>) -> (f64, f64) {
    match s {
        Shift::Still => (0.0, 0.0),
        Shift::Backward(r) => (0.0, -r.3),
        Shift::Forward(r) => (0.0, r.3),
    }
}

fn vector_x(s: Shift<Rect>) -> (f64, f64) {
    match s {
        Shift::Still => (0.0, 0.0),
        Shift::Backward(r) => (-r.2, 0.0),
        Shift::Forward(r) => (r.2, 0.0),
    }
}

fn vertical_list() -> [(DroppableId, Rect); 4] {
    [
        (DroppableId(1), (0.0, 0.0, 100.0, 40.0)),
        (DroppableId(2), (0.0, 50.0, 100.0, 40.0)),
        (DroppableId(3), (0.0, 100.0, 100.0, 40.0)),
        (DroppableId(4), (0.0, 150.0, 100.0, 40.0)),
    ]
}

fn horizontal_list() -> [(DroppableId, Rect); 4] {
    [
        (DroppableId(1), (0.0, 0.0, 80.0, 40.0)),
        (DroppableId(2), (100.0, 0.0, 80.0, 40.0)),
        (DroppableId(3), (200.0, 0.0, 80.0, 40.0)),
        (DroppableId(4), (300.0, 0.0, 80.0, 40.0)),
    ]
}

#[test]
fn no_over_no_displacement() {
    let items = vertical_list();
    let d = live_displacements(DroppableId(2), None, &items);
    assert!(d.iter().all(|(_, v)| *v == Shift::Still));
}

#[test]
fn over_equals_dragged_no_displacement() {
    let items = vertical_list();
    let d = live_displacements(DroppableId(2), Some(DroppableId(2)), &items);
    assert!(d.iter().all(|(_, v)| *v == Shift::Still));
}

#[test]
fn forward_move_vertical() {
    let items = vertical_list();
    let d = live_displacements(DroppableId(2), Some(DroppableId(4)), &items);
    assert_eq!(vector_y(d[0].1), (0.0, 0.0));
    assert_eq!(vector_y(d[1].1), (0.0, 0.0));
    assert_eq!(vector_y(d[2].1), (0.0, -40.0));
    assert_eq!(vector_y(d[3].1), (0.0, -40.0));
}

#[test]
fn backward_move_vertical() {
    let items = vertical_list();
    let d = live_displacements(DroppableId(4), Some(DroppableId(2)), &items);
    assert_eq!(vector_y(d[0].1), (0.0, 0.0));
    assert_eq!(vector_y(d[1].1), (0.0, 40.0));
    assert_eq!(vector_y(d[2].1), (0.0, 40.0));
    assert_eq!(vector_y(d[3].1), (0.0, 0.0));
}

#[test]
fn single_step_forward() {
    let items = vertical_list();
    let d = live_displacements(DroppableId(2), Some(DroppableId(3)), &items);
    assert_eq!(vector_y(d[0].1), (0.0, 0.0));
    assert_eq!(vector_y(d[1].1), (0.0, 0.0));
    assert_eq!(vector_y(d[2].1), (0.0, -40.0));
    assert_eq!(vector_y(d[3].1), (0.0, 0.0));
}

#[test]
fn single_step_backward() {
    let items = vertical_list();
    let d = live_displacements(DroppableId(3), Some(DroppableId(2)), &items);
    assert_eq!(vector_y(d[0].1), (0.0, 0.0));
    assert_eq!(vector_y(d[1].1), (0.0, 40.0));
    assert_eq!(vector_y(d[2].1), (0.0, 0.0));
    assert_eq!(vector_y(d[3].1), (0.0, 0.0));
}

#[test]
fn horizontal_axis_uses_width() {
    let items = horizontal_list();
    let d = live_displacements(DroppableId(1), Some(DroppableId(3)), &items);
    assert_eq!(vector_x(d[0].1), (0.0, 0.0));
    assert_eq!(vector_x(d[1].1), (-80.0, 0.0));
    assert_eq!(vector_x(d[2].1), (-80.0, 0.0));
    assert_eq!(vector_x(d[3].1), (0.0, 0.0));
}

#[test]
fn unknown_dragged_or_over_no_displacement() {
    let items = vertical_list();
    let d = live_displacements(DroppableId(999), Some(DroppableId(2)), &items);
    assert!(d.iter().all(|(_, v)| *v == Shift::Still));
    let d = live_displacements(DroppableId(2), Some(DroppableId(999)), &items);
    assert!(d.iter().all(|(_, v)| *v == Shift::Still));
}

#[test]
fn drag_from_start_to_end() {
    let items = vertical_list();
    let d = live_displacements(DroppableId(1), Some(DroppableId(4)), &items);
    assert_eq!(vector_y(d[0].1), (0.0, 0.0));
    assert_eq!(vector_y(d[1].1), (0.0, -40.0));
    assert_eq!(vector_y(d[2].1), (0.0, -40.0));
    assert_eq!(vector_y(d[3].1), (0.0, -40.0));
}

#[test]
fn drag_from_end_to_start() {
    let items = vertical_list();
    let d = live_displacements(DroppableId(4), Some(DroppableId(1)), &items);
    assert_eq!(vector_y(d[0].1), (0.0, 40.0));
    assert_eq!(vector_y(d[1].1), (0.0, 40.0));
    assert_eq!(vector_y(d[2].1), (0.0, 40.0));
    assert_eq!(vector_y(d[3].1), (0.0, 0.0));
}

#[test]
fn output_is_aligned_with_items() {
    let items = vertical_list();
    let d = live_displacements(DroppableId(4), Some(DroppableId(1)), &items);
    assert_eq!(d.len(), items.len());
    for (k, (id, _)) in items.iter().enumerate() {
        assert_eq!(d[k].0, *id);
    }
    assert_eq!(d[0].1, Shift::Forward((0.0, 150.0, 100.0, 40.0)));
}

#[test]
fn step_is_the_dragged_items_size() {
    // Items of different heights: the dragged item's height is the step.
    let items = [
        (DroppableId(1), (0.0, 0.0, 100.0, 10.0)),
        (DroppableId(2), (0.0, 20.0, 100.0, 70.0)),
        (DroppableId(3), (0.0, 100.0, 100.0, 25.0)),
    ];
    let d = live_displacements(DroppableId(2), Some(DroppableId(3)), &items);
    assert_eq!(vector_y(d[2].1), (0.0, -70.0));
    let d = live_displacements(DroppableId(3), Some(DroppableId(1)), &items);
    assert_eq!(vector_y(d[0].1), (0.0, 25.0));
    assert_eq!(vector_y(d[1].1), (0.0, 25.0));
    assert_eq!(vector_y(d[2].1), (0.0, 0.0));
}

#[test]
fn empty_list_has_no_displacements() {
    let items: [(DroppableId, Rect); 0] = [];
    assert!(live_displacements(DroppableId(1), Some(DroppableId(2)), &items).is_empty());
}
