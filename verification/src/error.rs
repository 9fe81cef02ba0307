//! Error type of the drag state machine.

use vstd::prelude::*;

verus! {

/// Errors produced by core operations.
#[derive(Debug, Clone, Copy, PartialEq, Eq)]
#[non_exhaustive]
pub enum Error {
    /// A `DragEvent` was applied to a `DragState` that is not in a compatible variant.
    ///
    /// Example: receiving `DragEvent::PointerUp` while the state is `Idle`.
    InvalidTransition {
        /// Human-readable name of the event that was rejected.
        event: &'static str,
        /// Human-readable name of the state at the time of rejection.
        state: &'static str,
    },
}

/// The text of an invalid-transition message for the given event and state names.
pub open spec fn invalid_transition_text(event: Seq<char>, state: Seq<char>) -> Seq<char> {
    "invalid transition: cannot apply "@ + event + " while in "@ + state
}

impl Error {
    /// Human-readable description of the error:
    /// `invalid transition: cannot apply {event} while in {state}`.
    pub fn message(&self) -> (text: String)
        ensures
            match *self {
                Error::InvalidTransition { event, state } =>
                    text@ == invalid_transition_text(event@, state@),
            },
    {
        match *self {
            Error::InvalidTransition { event, state } => {
                let mut text = String::from_str("invalid transition: cannot apply ");
                text.append(event);
                text.append(" while in ");
                text.append(state);
                text
            },
        }
    }
}

} // verus!
