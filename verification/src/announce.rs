//! Screen-reader announcement events and the default formatter.
//!
//! Drag-and-drop is invisible to assistive technology unless the app narrates
//! it. The bindings emit an [`AnnounceEvent`] at each lifecycle step (pick up,
//! move, drop, cancel) and run it through a formatter to produce the string
//! pushed into the `aria-live` region.
//!
//! [`default_announcement`] is the built-in formatter; it uses raw numeric
//! ids (`"Item 1 moved over target 3."`). Apps wanting human-readable or
//! localized labels install their own formatter in the binding.
use vstd::prelude::*;

use crate::state::{DraggableId, DroppableId};

verus! {

/// A drag-lifecycle event worth announcing to assistive technology.
#[derive(Debug, Clone, Copy, PartialEq, Eq, Structural)]
pub enum AnnounceEvent {
    /// The draggable was picked up — a drag began.
    PickedUp {
        /// The draggable that was picked up.
        draggable: DraggableId,
    },
    /// The pointer (or keyboard selection) moved over a droppable, or off all
    /// of them (`over` is `None`).
    MovedOver {
        /// The draggable being moved.
        draggable: DraggableId,
        /// The droppable now under the drag, if any.
        over: Option<DroppableId>,
    },
    /// The draggable was released.
    Dropped {
        /// The draggable that was dropped.
        draggable: DraggableId,
        /// The droppable it landed on, if any.
        over: Option<DroppableId>,
    },
    /// The drag was cancelled (Escape / `pointercancel`), restoring position.
    Cancelled {
        /// The draggable whose drag was cancelled.
        draggable: DraggableId,
    },
}

/// The draggable an announcement concerns.
pub open spec fn event_draggable(event: AnnounceEvent) -> DraggableId {
    match event {
        AnnounceEvent::PickedUp { draggable } => draggable,
        AnnounceEvent::MovedOver { draggable, .. } => draggable,
        AnnounceEvent::Dropped { draggable, .. } => draggable,
        AnnounceEvent::Cancelled { draggable } => draggable,
    }
}

impl AnnounceEvent {
    /// The draggable this event concerns.
    pub fn draggable(self) -> (d: DraggableId)
        ensures
            d == event_draggable(self),
    {
        match self {
            AnnounceEvent::PickedUp { draggable } => draggable,
            AnnounceEvent::MovedOver { draggable, .. } => draggable,
            AnnounceEvent::Dropped { draggable, .. } => draggable,
            AnnounceEvent::Cancelled { draggable } => draggable,
        }
    }
}

/// The character of a decimal digit.
pub open spec fn digit_char(d: nat) -> char {
    if d == 0 {
        '0'
    } else if d == 1 {
        '1'
    } else if d == 2 {
        '2'
    } else if d == 3 {
        '3'
    } else if d == 4 {
        '4'
    } else if d == 5 {
        '5'
    } else if d == 6 {
        '6'
    } else if d == 7 {
        '7'
    } else if d == 8 {
        '8'
    } else {
        '9'
    }
}

/// The decimal notation of `n`, most significant digit first, with no
/// leading zeros (`0` is written `"0"`).
pub open spec fn decimal(n: nat) -> Seq<char>
    decreases n,
{
    if n < 10 {
        seq![digit_char(n)]
    } else {
        decimal(n / 10).push(digit_char(n % 10))
    }
}

/// The built-in announcement text for an event.
pub open spec fn announcement_text(event: AnnounceEvent) -> Seq<char> {
    match event {
        AnnounceEvent::PickedUp { draggable } => "Picked up item "@ + decimal(draggable.0 as nat)
            + ". Use arrow keys to move, space or enter to drop, escape to cancel."@,
        AnnounceEvent::MovedOver { draggable, over } => match over {
            Some(o) => "Item "@ + decimal(draggable.0 as nat) + " moved over target "@ + decimal(
                o.0 as nat,
            ) + "."@,
            None => "Item "@ + decimal(draggable.0 as nat) + " is not over a target."@,
        },
        AnnounceEvent::Dropped { draggable, over } => match over {
            Some(o) => "Dropped item "@ + decimal(draggable.0 as nat) + " on target "@ + decimal(
                o.0 as nat,
            ) + "."@,
            None => "Dropped item "@ + decimal(draggable.0 as nat) + " outside any target."@,
        },
        AnnounceEvent::Cancelled { draggable } => "Cancelled drag of item "@ + decimal(
            draggable.0 as nat,
        ) + "."@,
    }
}

/// The one-character string of a decimal digit.
fn digit_str(d: u64) -> (s: &'static str)
    requires
        d < 10,
    ensures
        s@ == seq![digit_char(d as nat)],
{
    proof {
        reveal_strlit("0");
        reveal_strlit("1");
        reveal_strlit("2");
        reveal_strlit("3");
        reveal_strlit("4");
        reveal_strlit("5");
        reveal_strlit("6");
        reveal_strlit("7");
        reveal_strlit("8");
        reveal_strlit("9");
    }
    if d == 0 {
        "0"
    } else if d == 1 {
        "1"
    } else if d == 2 {
        "2"
    } else if d == 3 {
        "3"
    } else if d == 4 {
        "4"
    } else if d == 5 {
        "5"
    } else if d == 6 {
        "6"
    } else if d == 7 {
        "7"
    } else if d == 8 {
        "8"
    } else {
        "9"
    }
}

/// Append the decimal notation of `n` to `text`.
fn push_decimal(text: &mut String, n: u64)
    ensures
        final(text)@ == old(text)@ + decimal(n as nat),
    decreases n,
{
    if n >= 10 {
        push_decimal(text, n / 10);
    }
    text.append(digit_str(n % 10));
    proof {
        if n >= 10 {
            assert(decimal(n as nat) == decimal((n / 10) as nat).push(digit_char((n % 10) as nat)));
        }
    }
}

/// The library's built-in announcement strings — raw numeric ids.
///
/// | Event | Text |
/// | ----- | ---- |
/// | `PickedUp` | `Picked up item {d}. Use arrow keys to move, space or enter to drop, escape to cancel.` |
/// | `MovedOver` over a target | `Item {d} moved over target {o}.` |
/// | `MovedOver` off all targets | `Item {d} is not over a target.` |
/// | `Dropped` on a target | `Dropped item {d} on target {o}.` |
/// | `Dropped` outside | `Dropped item {d} outside any target.` |
/// | `Cancelled` | `Cancelled drag of item {d}.` |
pub fn default_announcement(event: &AnnounceEvent) -> (text: String)
    ensures
        text@ == announcement_text(*event),
{
    let mut text = String::new();
    match *event {
        AnnounceEvent::PickedUp { draggable } => {
            text.append("Picked up item ");
            push_decimal(&mut text, draggable.0);
            text.append(". Use arrow keys to move, space or enter to drop, escape to cancel.");
        },
        AnnounceEvent::MovedOver { draggable, over: Some(over) } => {
            text.append("Item ");
            push_decimal(&mut text, draggable.0);
            text.append(" moved over target ");
            push_decimal(&mut text, over.0);
            text.append(".");
        },
        AnnounceEvent::MovedOver { draggable, over: None } => {
            text.append("Item ");
            push_decimal(&mut text, draggable.0);
            text.append(" is not over a target.");
        },
        AnnounceEvent::Dropped { draggable, over: Some(over) } => {
            text.append("Dropped item ");
            push_decimal(&mut text, draggable.0);
            text.append(" on target ");
            push_decimal(&mut text, over.0);
            text.append(".");
        },
        AnnounceEvent::Dropped { draggable, over: None } => {
            text.append("Dropped item ");
            push_decimal(&mut text, draggable.0);
            text.append(" outside any target.");
        },
        AnnounceEvent::Cancelled { draggable } => {
            text.append("Cancelled drag of item ");
            push_decimal(&mut text, draggable.0);
            text.append(".");
        },
    }
    text
}

/// `part` occurs in `text` as a contiguous run of characters.
pub open spec fn mentions(text: Seq<char>, part: Seq<char>) -> bool {
    exists|k: int| 0 <= k && k + part.len() <= text.len() && #[trigger] text.subrange(k, k + part.len()) == part
}

proof fn lemma_middle_is_mentioned(a: Seq<char>, b: Seq<char>, c: Seq<char>)
    ensures
        mentions(a + b + c, b),
{
    let t = a + b + c;
    assert(t.subrange(a.len() as int, (a.len() + b.len()) as int) =~= b);
}

/// Every built-in announcement names the draggable it concerns by its
/// decimal id, and a move or drop over a target also names that target.
pub proof fn lemma_announcement_mentions_ids(event: AnnounceEvent)
    ensures
        mentions(announcement_text(event), decimal(event_draggable(event).0 as nat)),
        match event {
            AnnounceEvent::MovedOver { over: Some(o), .. } => mentions(
                announcement_text(event),
                decimal(o.0 as nat),
            ),
            AnnounceEvent::Dropped { over: Some(o), .. } => mentions(
                announcement_text(event),
                decimal(o.0 as nat),
            ),
            _ => true,
        },
{
    match event {
        AnnounceEvent::PickedUp { draggable } => {
            lemma_middle_is_mentioned(
                "Picked up item "@,
                decimal(draggable.0 as nat),
                ". Use arrow keys to move, space or enter to drop, escape to cancel."@,
            );
        },
        AnnounceEvent::MovedOver { draggable, over } => match over {
            Some(o) => {
                let d = decimal(draggable.0 as nat);
                let t = decimal(o.0 as nat);
                lemma_middle_is_mentioned("Item "@, d, " moved over target "@ + t + "."@);
                assert("Item "@ + d + (" moved over target "@ + t + "."@) =~= announcement_text(event));
                lemma_middle_is_mentioned("Item "@ + d + " moved over target "@, t, "."@);
            },
            None => {
                lemma_middle_is_mentioned(
                    "Item "@,
                    decimal(draggable.0 as nat),
                    " is not over a target."@,
                );
            },
        },
        AnnounceEvent::Dropped { draggable, over } => match over {
            Some(o) => {
                let d = decimal(draggable.0 as nat);
                let t = decimal(o.0 as nat);
                lemma_middle_is_mentioned("Dropped item "@, d, " on target "@ + t + "."@);
                assert("Dropped item "@ + d + (" on target "@ + t + "."@) =~= announcement_text(event));
                lemma_middle_is_mentioned("Dropped item "@ + d + " on target "@, t, "."@);
            },
            None => {
                lemma_middle_is_mentioned(
                    "Dropped item "@,
                    decimal(draggable.0 as nat),
                    " outside any target."@,
                );
            },
        },
        AnnounceEvent::Cancelled { draggable } => {
            lemma_middle_is_mentioned("Cancelled drag of item "@, decimal(draggable.0 as nat), "."@);
        },
    }
}

} // verus!
