//! The drag state machine.
//!
//! ```text
//!                pointerdown
//!   Idle  ─────────────────────────►  Pressed
//!     ▲                                  │
//!     │                                  │  movement reaches threshold
//!     │                                  ▼
//!     │                              Dragging
//!     │                                  │
//!     │                                  │  pointerup / cancel
//!     │                                  ▼
//!     └─────────────────────────── Dropping (terminal, settles back to Idle)
//! ```
//!
//! Pointer positions are carried as values of the type parameter `P` (the
//! bindings use a point in CSS pixels). The one geometric question the machine
//! asks, whether the pointer has travelled at least the drag threshold since
//! the press, is answered by the caller: [`threshold_probe`] names the two
//! positions to measure, and the answer is handed to [`transition`].
use vstd::prelude::*;

use crate::error::Error;

verus! {

/// Opaque identifier for a draggable element.
///
/// User code is responsible for keeping IDs unique within a single drag context.
#[derive(Debug, Clone, Copy, PartialEq, Eq, Hash, PartialOrd, Ord, Structural)]
pub struct DraggableId(pub u64);

/// Opaque identifier for a drop target.
#[derive(Debug, Clone, Copy, PartialEq, Eq, Hash, PartialOrd, Ord, Structural)]
pub struct DroppableId(pub u64);

/// The current state of a drag interaction.
#[derive(Debug, Clone, Copy, PartialEq)]
pub enum DragState<P> {
    /// No drag in progress.
    Idle,
    /// Pointer is down on a draggable but has not yet moved past the threshold.
    Pressed {
        /// The draggable the user pressed on.
        id: DraggableId,
        /// Pointer position when the press started.
        start: P,
    },
    /// Pointer has moved past the threshold; this is an active drag.
    Dragging {
        /// The draggable being dragged.
        id: DraggableId,
        /// Pointer position when the press started.
        start: P,
        /// Current pointer position.
        current: P,
    },
    /// Drag has been released (or cancelled). Bindings settle visuals before
    /// transitioning back to [`DragState::Idle`].
    Dropping {
        /// The draggable that was dropped.
        id: DraggableId,
    },
}

/// Events that drive [`DragState`] transitions.
#[derive(Debug, Clone, Copy, PartialEq)]
pub enum DragEvent<P> {
    /// A pointer pressed on a draggable.
    PointerDown {
        /// Draggable that was pressed.
        id: DraggableId,
        /// Pointer position.
        at: P,
    },
    /// A pointer moved.
    PointerMove {
        /// New pointer position.
        at: P,
    },
    /// A pointer was released or the drag was otherwise terminated.
    PointerUp,
    /// The drag was cancelled (e.g. `pointercancel`, Escape).
    Cancel,
    /// Bindings finished any drop animation and the state should return to [`DragState::Idle`].
    Settle,
    /// A non-pointer sensor (typically the keyboard) directly enters a drag,
    /// skipping the `Pressed` threshold.
    KeyboardPickUp {
        /// Draggable being picked up.
        id: DraggableId,
        /// Initial position to record as both `start` and `current`.
        at: P,
    },
}

/// The id a state concerns: `None` for `Idle`, the draggable otherwise.
pub open spec fn state_id<P>(state: DragState<P>) -> Option<DraggableId> {
    match state {
        DragState::Idle => None,
        DragState::Pressed { id, .. } => Some(id),
        DragState::Dragging { id, .. } => Some(id),
        DragState::Dropping { id } => Some(id),
    }
}

/// The human-readable name of a state's variant.
pub open spec fn state_label<P>(state: DragState<P>) -> Seq<char> {
    match state {
        DragState::Idle => "Idle"@,
        DragState::Pressed { .. } => "Pressed"@,
        DragState::Dragging { .. } => "Dragging"@,
        DragState::Dropping { .. } => "Dropping"@,
    }
}

/// The human-readable name of an event's variant.
pub open spec fn event_label<P>(event: DragEvent<P>) -> Seq<char> {
    match event {
        DragEvent::PointerDown { .. } => "PointerDown"@,
        DragEvent::PointerMove { .. } => "PointerMove"@,
        DragEvent::PointerUp => "PointerUp"@,
        DragEvent::Cancel => "Cancel"@,
        DragEvent::Settle => "Settle"@,
        DragEvent::KeyboardPickUp { .. } => "KeyboardPickUp"@,
    }
}

/// The transition table. `None` marks an event that makes no sense in the
/// state. `moved_past_threshold` is consulted only for a `PointerMove` in the
/// `Pressed` state.
pub open spec fn next_state<P>(
    state: DragState<P>,
    event: DragEvent<P>,
    moved_past_threshold: bool,
) -> Option<DragState<P>> {
    match (state, event) {
        (DragState::Idle, DragEvent::PointerDown { id, at }) => Some(
            DragState::Pressed { id, start: at },
        ),
        (DragState::Idle, DragEvent::KeyboardPickUp { id, at }) => Some(
            DragState::Dragging { id, start: at, current: at },
        ),
        (DragState::Pressed { id, start }, DragEvent::PointerMove { at }) => if moved_past_threshold {
            Some(DragState::Dragging { id, start, current: at })
        } else {
            Some(DragState::Pressed { id, start })
        },
        (DragState::Pressed { .. }, DragEvent::PointerUp) => Some(DragState::Idle),
        (DragState::Pressed { .. }, DragEvent::Cancel) => Some(DragState::Idle),
        (DragState::Dragging { id, start, .. }, DragEvent::PointerMove { at }) => Some(
            DragState::Dragging { id, start, current: at },
        ),
        (DragState::Dragging { id, .. }, DragEvent::PointerUp) => Some(DragState::Dropping { id }),
        (DragState::Dragging { .. }, DragEvent::Cancel) => Some(DragState::Idle),
        (DragState::Dropping { .. }, DragEvent::Settle) => Some(DragState::Idle),
        _ => None,
    }
}

impl<P: Copy> DragState<P> {
    /// The id associated with the current state, if any.
    ///
    /// Returns `Some` for `Pressed`, `Dragging`, and `Dropping`; `None` for `Idle`.
    pub fn dragged_id(self) -> (r: Option<DraggableId>)
        ensures
            r == state_id(self),
    {
        match self {
            DragState::Idle => None,
            DragState::Pressed { id, .. } => Some(id),
            DragState::Dragging { id, .. } => Some(id),
            DragState::Dropping { id } => Some(id),
        }
    }

    /// `true` while a drag is actively in progress (past the click threshold).
    pub fn is_dragging(self) -> (r: bool)
        ensures
            r <==> self is Dragging,
    {
        match self {
            DragState::Dragging { .. } => true,
            _ => false,
        }
    }

    /// The name of this state's variant.
    pub fn name(self) -> (r: &'static str)
        ensures
            r@ == state_label(self),
    {
        match self {
            DragState::Idle => "Idle",
            DragState::Pressed { .. } => "Pressed",
            DragState::Dragging { .. } => "Dragging",
            DragState::Dropping { .. } => "Dropping",
        }
    }
}

impl<P: Copy> DragEvent<P> {
    /// The name of this event's variant.
    pub fn name(self) -> (r: &'static str)
        ensures
            r@ == event_label(self),
    {
        match self {
            DragEvent::PointerDown { .. } => "PointerDown",
            DragEvent::PointerMove { .. } => "PointerMove",
            DragEvent::PointerUp => "PointerUp",
            DragEvent::Cancel => "Cancel",
            DragEvent::Settle => "Settle",
            DragEvent::KeyboardPickUp { .. } => "KeyboardPickUp",
        }
    }
}

/// The two positions whose distance decides whether applying `event` to
/// `state` promotes a press into a drag: `Some((start, at))` exactly when a
/// `Pressed` state receives a `PointerMove`, `None` when no measurement is
/// needed.
pub fn threshold_probe<P: Copy>(state: DragState<P>, event: DragEvent<P>) -> (r: Option<(P, P)>)
    ensures
        r == (match (state, event) {
            (DragState::Pressed { start, .. }, DragEvent::PointerMove { at }) => Some((start, at)),
            _ => None,
        }),
{
    match (state, event) {
        (DragState::Pressed { start, .. }, DragEvent::PointerMove { at }) => Some((start, at)),
        _ => None,
    }
}

/// Apply an event to the current state, returning the new state.
///
/// Returns [`Error::InvalidTransition`], naming the event and the state, when
/// the event does not make sense for the current state (e.g. `PointerUp`
/// while `Idle`).
///
/// `moved_past_threshold` tells whether the pointer, at the event's position,
/// has travelled at least the drag threshold from the press start (the pair
/// [`threshold_probe`] returns). It only matters when a `Pressed` state
/// receives a `PointerMove`: the press then becomes a `Dragging` state, or
/// stays `Pressed` when the threshold was not reached.
pub fn transition<P: Copy>(
    state: DragState<P>,
    event: DragEvent<P>,
    moved_past_threshold: bool,
) -> (r: Result<DragState<P>, Error>)
    ensures
        match next_state(state, event, moved_past_threshold) {
            Some(s) => r == Ok::<DragState<P>, Error>(s),
            None => r matches Err(Error::InvalidTransition { event: e, state: s })
                && e@ == event_label(event) && s@ == state_label(state),
        },
        r is Ok <==> match state {
            DragState::Idle => event is PointerDown || event is KeyboardPickUp,
            DragState::Pressed { .. } => event is PointerMove || event is PointerUp || event is Cancel,
            DragState::Dragging { .. } => event is PointerMove || event is PointerUp || event is Cancel,
            DragState::Dropping { .. } => event is Settle,
        },
        (state is Dropping && event is Settle) ==> r == Ok::<DragState<P>, Error>(DragState::Idle),
{
    match (state, event) {
        // Idle → Pressed
        (DragState::Idle, DragEvent::PointerDown { id, at }) => Ok(
            DragState::Pressed { id, start: at },
        ),
        // Idle → Dragging (keyboard sensor, no threshold)
        (DragState::Idle, DragEvent::KeyboardPickUp { id, at }) => Ok(
            DragState::Dragging { id, start: at, current: at },
        ),
        // Pressed → Dragging (if moved past threshold) or stay Pressed
        (DragState::Pressed { id, start }, DragEvent::PointerMove { at }) => {
            if moved_past_threshold {
                Ok(DragState::Dragging { id, start, current: at })
            } else {
                Ok(DragState::Pressed { id, start })
            }
        },
        // Pressed → Idle on release (it was a click, not a drag)
        (DragState::Pressed { .. }, DragEvent::PointerUp) => Ok(DragState::Idle),
        (DragState::Pressed { .. }, DragEvent::Cancel) => Ok(DragState::Idle),
        // Dragging tracks pointer moves
        (DragState::Dragging { id, start, .. }, DragEvent::PointerMove { at }) => Ok(
            DragState::Dragging { id, start, current: at },
        ),
        // Dragging → Dropping
        (DragState::Dragging { id, .. }, DragEvent::PointerUp) => Ok(DragState::Dropping { id }),
        // Dragging → Idle on cancel
        (DragState::Dragging { .. }, DragEvent::Cancel) => Ok(DragState::Idle),
        // Dropping → Idle once visuals settle
        (DragState::Dropping { .. }, DragEvent::Settle) => Ok(DragState::Idle),
        // Anything else is an invalid transition.
        (state, event) => Err(Error::InvalidTransition { event: event.name(), state: state.name() }),
    }
}

/// A drag never changes which item it concerns: when an accepted event leads
/// from a state that names a draggable to another state that names one, both
/// name the same draggable; and a drag started from `Idle` concerns the
/// draggable the starting event names.
pub proof fn lemma_drag_keeps_its_item<P>(
    state: DragState<P>,
    event: DragEvent<P>,
    moved_past_threshold: bool,
)
    ensures
        next_state(state, event, moved_past_threshold) matches Some(next) ==> {
            &&& (state_id(state) is Some && state_id(next) is Some) ==> state_id(next) == state_id(
                state,
            )
            &&& (state is Idle && next !is Idle) ==> match event {
                DragEvent::PointerDown { id, .. } => state_id(next) == Some(id),
                DragEvent::KeyboardPickUp { id, .. } => state_id(next) == Some(id),
                _ => false,
            }
        },
{
}

/// The press position is kept for the whole drag: a `Pressed` or `Dragging`
/// state that stays `Pressed` or `Dragging` keeps its `start`.
pub proof fn lemma_start_is_kept<P>(state: DragState<P>, event: DragEvent<P>, moved_past_threshold: bool)
    ensures
        next_state(state, event, moved_past_threshold) matches Some(next) ==> match (state, next) {
            (DragState::Pressed { start: a, .. }, DragState::Pressed { start: b, .. }) => a == b,
            (DragState::Pressed { start: a, .. }, DragState::Dragging { start: b, .. }) => a == b,
            (DragState::Dragging { start: a, .. }, DragState::Dragging { start: b, .. }) => a == b,
            _ => true,
        },
{
}

/// Every interaction can be ended: `Cancel` takes `Pressed` and `Dragging`
/// back to `Idle`, and `Settle` takes `Dropping` back to `Idle`.
pub proof fn lemma_every_drag_can_end<P>(state: DragState<P>, moved_past_threshold: bool)
    ensures
        (state is Pressed || state is Dragging) ==> next_state(
            state,
            DragEvent::<P>::Cancel,
            moved_past_threshold,
        ) == Some(DragState::<P>::Idle),
        state is Dropping ==> next_state(state, DragEvent::<P>::Settle, moved_past_threshold)
            == Some(DragState::<P>::Idle),
{
}

/// Drags start only from `Idle`: `PointerDown` and `KeyboardPickUp` are
/// accepted exactly in `Idle`. A press becomes `Pressed` at the pointer
/// position; a keyboard pick-up becomes `Dragging` with `start == current`.
pub proof fn lemma_drags_start_only_when_idle<P>(
    state: DragState<P>,
    id: DraggableId,
    at: P,
    moved_past_threshold: bool,
)
    ensures
        next_state(state, DragEvent::PointerDown { id, at }, moved_past_threshold) is Some
            <==> state is Idle,
        next_state(state, DragEvent::KeyboardPickUp { id, at }, moved_past_threshold) is Some
            <==> state is Idle,
        state is Idle ==> next_state(state, DragEvent::PointerDown { id, at }, moved_past_threshold)
            == Some(DragState::Pressed { id, start: at }),
        state is Idle ==> next_state(
            state,
            DragEvent::KeyboardPickUp { id, at },
            moved_past_threshold,
        ) == Some(DragState::Dragging { id, start: at, current: at }),
{
}

/// Only a drop can settle: `Settle` is accepted exactly in `Dropping`, and
/// `Dropping` is entered only by releasing an active drag.
pub proof fn lemma_settle_only_after_drop<P>(
    state: DragState<P>,
    event: DragEvent<P>,
    moved_past_threshold: bool,
)
    ensures
        next_state(state, DragEvent::<P>::Settle, moved_past_threshold) is Some <==> state is Dropping,
        next_state(state, event, moved_past_threshold) matches Some(next) ==> (next is Dropping
            ==> state is Dragging && event is PointerUp),
{
}

/// Which events each state accepts, and where they lead. `Idle` accepts only
/// the events that start a drag (`PointerDown`, `KeyboardPickUp`); `Pressed`
/// and `Dragging` accept only `PointerMove`, `PointerUp` and `Cancel`; and
/// `Dropping` waits for the settle animation: `Settle` is the only event it
/// accepts, and it leads back to `Idle`. Moving during a press becomes a drag
/// from the press position to the new pointer position once the threshold is
/// reached, and leaves the press as it was before that. Releasing or
/// cancelling a press returns to `Idle` (it was a click); moving during a drag keeps the
/// draggable and the press position and records the new pointer position;
/// releasing a drag enters `Dropping` for the same draggable; cancelling a drag
/// returns to `Idle`.
pub proof fn lemma_accepted_events<P>(state: DragState<P>, event: DragEvent<P>, moved_past_threshold: bool)
    ensures
        state is Idle ==> (next_state(state, event, moved_past_threshold) is Some <==> (
        event is PointerDown || event is KeyboardPickUp)),
        state is Pressed ==> (next_state(state, event, moved_past_threshold) is Some <==> (
        event is PointerMove || event is PointerUp || event is Cancel)),
        state is Dragging ==> (next_state(state, event, moved_past_threshold) is Some <==> (
        event is PointerMove || event is PointerUp || event is Cancel)),
        state is Dropping ==> (next_state(state, event, moved_past_threshold) is Some
            <==> event is Settle),
        (state is Dropping && event is Settle) ==> next_state(state, event, moved_past_threshold)
            == Some(DragState::<P>::Idle),
        (state is Pressed && (event is PointerUp || event is Cancel)) ==> next_state(
            state,
            event,
            moved_past_threshold,
        ) == Some(DragState::<P>::Idle),
        (state is Dragging && event is Cancel) ==> next_state(state, event, moved_past_threshold)
            == Some(DragState::<P>::Idle),
        match (state, event) {
            (DragState::Pressed { id, start }, DragEvent::PointerMove { at }) => next_state(
                state,
                event,
                moved_past_threshold,
            ) == Some(
                if moved_past_threshold {
                    DragState::Dragging { id, start, current: at }
                } else {
                    DragState::Pressed { id, start }
                },
            ),
            (DragState::Dragging { id, start, .. }, DragEvent::PointerMove { at }) => next_state(
                state,
                event,
                moved_past_threshold,
            ) == Some(DragState::Dragging { id, start, current: at }),
            (DragState::Dragging { id, .. }, DragEvent::PointerUp) => next_state(
                state,
                event,
                moved_past_threshold,
            ) == Some(DragState::<P>::Dropping { id }),
            _ => true,
        },
{
}

/// The threshold answer matters only where [`threshold_probe`] asks for it:
/// for every other state and event the outcome does not depend on it; and a
/// `Pressed` state below the threshold stays exactly as it was.
pub proof fn lemma_threshold_only_for_press<P>(state: DragState<P>, event: DragEvent<P>)
    ensures
        !(state is Pressed && event is PointerMove) ==> next_state(state, event, true)
            == next_state(state, event, false),
        (state is Pressed && event is PointerMove) ==> next_state(state, event, false) == Some(
            state,
        ),
        (state is Pressed && event is PointerMove) ==> (next_state(state, event, true) matches Some(
            next,
        ) && next is Dragging),
{
}

} // verus!
