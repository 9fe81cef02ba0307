use taino_dnd::error::Error;
use taino_dnd::state::{threshold_probe, transition, DragEvent, DragState, DraggableId};

#[derive(Debug, Clone, Copy, PartialEq)]
struct Point {
    x: f64,
    y: f64,
}

impl Point {
    fn new(x: f64, y: f64) -> Self {
        Point { x, y }
    }
}

const T: f64 = 5.0;

/// Apply an event the way the bindings do: measure the press distance when
/// the machine asks for it, then transition.
fn step(
    state: DragState<Point>,
    event: DragEvent<Point>,
    threshold: f64,
) -> Result<DragState<Point>, Error> {
    let moved = match threshold_probe(state, event) {
        Some((a, b)) => {
            let dx = a.x - b.x;
            let dy = a.y - b.y;
            dx.mul_add(dx, dy * dy) >= threshold * threshold
        }
        None => false,
    };
    transition(state, event, moved)
}

#[test]
fn idle_pointer_down_goes_to_pressed() {
    let id = DraggableId(7);
    let s = step(DragState::Idle, DragEvent::PointerDown { id, at: Point::new(0.0, 0.0) }, T).unwrap();
    assert!(matches!(s, DragState::Pressed { id: DraggableId(7), .. }));
}

#[test]
fn pressed_below_threshold_stays_pressed() {
    let id = DraggableId(1);
    let start = Point::new(10.0, 10.0);
    let s = step(DragState::Pressed { id, start }, DragEvent::PointerMove { at: Point::new(12.0, 10.0) }, T)
        .unwrap();
    assert!(matches!(s, DragState::Pressed { .. }));
}

#[test]
fn pressed_above_threshold_becomes_dragging() {
    let id = DraggableId(1);
    let start = Point::new(0.0, 0.0);
    let s = step(DragState::Pressed { id, start }, DragEvent::PointerMove { at: Point::new(20.0, 0.0) }, T)
        .unwrap();
    assert!(matches!(s, DragState::Dragging { .. }));
}

#[test]
fn pressed_pointer_up_resets_to_idle() {
    let id = DraggableId(1);
    let s = step(DragState::Pressed { id, start: Point::new(0.0, 0.0) }, DragEvent::PointerUp, T).unwrap();
    assert_eq!(s, DragState::Idle);
}

#[test]
fn dragging_pointer_up_enters_dropping() {
    let id = DraggableId(2);
    let s = step(
        DragState::Dragging { id, start: Point::new(0.0, 0.0), current: Point::new(50.0, 0.0) },
        DragEvent::PointerUp,
        T,
    )
    .unwrap();
    assert_eq!(s, DragState::Dropping { id });
}

#[test]
fn dragging_cancel_goes_back_to_idle() {
    let id = DraggableId(2);
    let s = step(
        DragState::Dragging { id, start: Point::new(0.0, 0.0), current: Point::new(50.0, 0.0) },
        DragEvent::Cancel,
        T,
    )
    .unwrap();
    assert_eq!(s, DragState::Idle);
}

#[test]
fn dropping_settles_to_idle() {
    let id = DraggableId(3);
    let s = step(DragState::Dropping { id }, DragEvent::Settle, T).unwrap();
    assert_eq!(s, DragState::Idle);
}

#[test]
fn dragged_id_reports_for_each_active_state() {
    let id = DraggableId(7);
    let at = Point::new(1.0, 2.0);
    assert_eq!(DragState::<Point>::Idle.dragged_id(), None);
    assert_eq!(DragState::Pressed { id, start: at }.dragged_id(), Some(id));
    assert_eq!(DragState::Dragging { id, start: at, current: at }.dragged_id(), Some(id));
    assert_eq!(DragState::<Point>::Dropping { id }.dragged_id(), Some(id));
}

#[test]
fn is_dragging_only_true_for_dragging() {
    let id = DraggableId(7);
    let at = Point::new(1.0, 2.0);
    assert!(!DragState::<Point>::Idle.is_dragging());
    assert!(!DragState::Pressed { id, start: at }.is_dragging());
    assert!(DragState::Dragging { id, start: at, current: at }.is_dragging());
    assert!(!DragState::<Point>::Dropping { id }.is_dragging());
}

#[test]
fn keyboard_pickup_goes_idle_to_dragging() {
    let id = DraggableId(11);
    let at = Point::new(50.0, 50.0);
    let s = step(DragState::Idle, DragEvent::KeyboardPickUp { id, at }, T).unwrap();
    assert_eq!(s, DragState::Dragging { id, start: at, current: at });
}

#[test]
fn keyboard_pickup_rejected_when_already_dragging() {
    let id = DraggableId(11);
    let at = Point::new(50.0, 50.0);
    let dragging = DragState::Dragging { id, start: at, current: at };
    let err = step(dragging, DragEvent::KeyboardPickUp { id, at }, T).unwrap_err();
    assert!(err.message().contains("KeyboardPickUp"));
}

#[test]
fn invalid_transition_reports_event_and_state() {
    let err = step(DragState::Idle, DragEvent::PointerUp, T).unwrap_err();
    let msg = err.message();
    assert!(msg.contains("PointerUp"));
    assert!(msg.contains("Idle"));
}

#[test]
fn invalid_transition_message_is_exact() {
    let err = transition(DragState::<Point>::Dropping { id: DraggableId(4) }, DragEvent::Cancel, false)
        .unwrap_err();
    assert_eq!(err, Error::InvalidTransition { event: "Cancel", state: "Dropping" });
    assert_eq!(err.message(), "invalid transition: cannot apply Cancel while in Dropping");
}

#[test]
fn threshold_is_inclusive() {
    // Exactly the threshold distance (3-4-5 triangle) promotes the press.
    let id = DraggableId(1);
    let s = step(
        DragState::Pressed { id, start: Point::new(0.0, 0.0) },
        DragEvent::PointerMove { at: Point::new(3.0, 4.0) },
        T,
    )
    .unwrap();
    assert_eq!(
        s,
        DragState::Dragging { id, start: Point::new(0.0, 0.0), current: Point::new(3.0, 4.0) }
    );
}

#[test]
fn threshold_probe_asks_only_for_press_moves() {
    let id = DraggableId(1);
    let a = Point::new(1.0, 1.0);
    let b = Point::new(9.0, 9.0);
    assert_eq!(threshold_probe(DragState::Pressed { id, start: a }, DragEvent::PointerMove { at: b }), Some((a, b)));
    assert_eq!(
        threshold_probe(DragState::Dragging { id, start: a, current: a }, DragEvent::PointerMove { at: b }),
        None
    );
    assert_eq!(threshold_probe(DragState::Idle, DragEvent::PointerDown { id, at: b }), None);
}

#[test]
fn full_pointer_drag_cycle_returns_to_idle() {
    let id = DraggableId(5);
    let s = DragState::Idle;
    let s = step(s, DragEvent::PointerDown { id, at: Point::new(0.0, 0.0) }, T).unwrap();
    let s = step(s, DragEvent::PointerMove { at: Point::new(2.0, 0.0) }, T).unwrap();
    assert_eq!(s, DragState::Pressed { id, start: Point::new(0.0, 0.0) });
    let s = step(s, DragEvent::PointerMove { at: Point::new(30.0, 0.0) }, T).unwrap();
    let s = step(s, DragEvent::PointerMove { at: Point::new(40.0, 5.0) }, T).unwrap();
    assert_eq!(
        s,
        DragState::Dragging { id, start: Point::new(0.0, 0.0), current: Point::new(40.0, 5.0) }
    );
    let s = step(s, DragEvent::PointerUp, T).unwrap();
    assert_eq!(s.dragged_id(), Some(id));
    let s = step(s, DragEvent::Settle, T).unwrap();
    assert_eq!(s, DragState::Idle);
}

#[test]
fn settle_is_rejected_outside_dropping() {
    let id = DraggableId(5);
    let at = Point::new(0.0, 0.0);
    assert!(step(DragState::Idle, DragEvent::Settle, T).is_err());
    assert!(step(DragState::Pressed { id, start: at }, DragEvent::Settle, T).is_err());
    assert!(step(DragState::Dragging { id, start: at, current: at }, DragEvent::Settle, T).is_err());
    assert!(step(DragState::Dropping { id }, DragEvent::PointerDown { id, at }, T).is_err());
}

#[test]
fn state_and_event_names() {
    let id = DraggableId(1);
    let at = Point::new(0.0, 0.0);
    assert_eq!(DragState::<Point>::Idle.name(), "Idle");
    assert_eq!(DragState::Pressed { id, start: at }.name(), "Pressed");
    assert_eq!(DragState::Dragging { id, start: at, current: at }.name(), "Dragging");
    assert_eq!(DragState::<Point>::Dropping { id }.name(), "Dropping");
    assert_eq!(DragEvent::<Point>::Settle.name(), "Settle");
    assert_eq!(DragEvent::PointerMove { at }.name(), "PointerMove");
}
