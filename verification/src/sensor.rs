//! Decisions of the pointer and keyboard sensors.
//!
//! The bindings own the reactive state and the DOM; on every pointer or key
//! event they ask these functions what to do, then perform it.
//!
//! Keyboard model:
//!
//! | Key             | When focused (Idle) | When dragging this item |
//! | --------------- | ------------------- | ----------------------- |
//! | Space / Enter   | Pick up             | Drop                    |
//! | Arrow keys      | (pass through)      | Move over neighbor      |
//! | Escape          | (pass through)      | Cancel, restore         |
use vstd::prelude::*;

use crate::collision::Direction;
use crate::state::{next_state, DragEvent, DragState, DraggableId, DroppableId};

verus! {

/// The outcome of a completed drag interaction.
#[derive(Debug, Clone, PartialEq, Eq)]
pub struct DropResult {
    /// The draggable that was dropped.
    pub draggable: DraggableId,
    /// The droppable the pointer was over at the moment of release, if any.
    /// `None` means the drag ended outside any registered droppable.
    pub over: Option<DroppableId>,
    /// The other members of a multi-item drag, in the order the group was
    /// snapshotted (ascending id). Empty for a single-item drag.
    pub additional: Vec<DraggableId>,
}

/// What a key press asks the keyboard sensor of one draggable to do.
#[derive(Debug, Clone, Copy, PartialEq, Eq, Structural)]
pub enum KeyCommand {
    /// The key is not consumed; let it through.
    Ignore,
    /// Pick this draggable up (enter a keyboard drag).
    PickUp,
    /// Drop this draggable at its current target.
    Drop,
    /// Cancel the drag and restore the original position.
    Cancel,
    /// Move the drag over the neighboring droppable in this direction.
    Move(Direction),
}

/// `key` is one of the keys that pick up or drop: Space or Enter.
pub open spec fn is_activation_key(key: Seq<char>) -> bool {
    key == " "@ || key == "Enter"@
}

/// The navigation direction of an arrow key.
pub open spec fn key_direction(key: Seq<char>) -> Option<Direction> {
    if key == "ArrowUp"@ {
        Some(Direction::Up)
    } else if key == "ArrowDown"@ {
        Some(Direction::Down)
    } else if key == "ArrowLeft"@ {
        Some(Direction::Left)
    } else if key == "ArrowRight"@ {
        Some(Direction::Right)
    } else {
        None
    }
}

/// `state` is a drag of `me` that is currently `Dragging`.
pub open spec fn is_dragging_item<P>(state: DragState<P>, me: DraggableId) -> bool {
    match state {
        DragState::Dragging { id, .. } => id == me,
        _ => false,
    }
}

/// The keyboard model for the draggable `me`, as a function of the key, the
/// drag state and whether `me` is disabled.
pub open spec fn key_command_for<P>(
    key: Seq<char>,
    state: DragState<P>,
    me: DraggableId,
    disabled: bool,
) -> KeyCommand {
    if !is_dragging_item(state, me) {
        if state is Idle && is_activation_key(key) && !disabled {
            KeyCommand::PickUp
        } else {
            KeyCommand::Ignore
        }
    } else if is_activation_key(key) {
        KeyCommand::Drop
    } else if key == "Escape"@ {
        KeyCommand::Cancel
    } else {
        match key_direction(key) {
            Some(d) => KeyCommand::Move(d),
            None => KeyCommand::Ignore,
        }
    }
}

/// `a` and `b` hold the same characters.
pub(crate) fn same_text(a: &str, b: &str) -> (r: bool)
    ensures
        r == (a@ == b@),
{
    String::from_str(a) == String::from_str(b)
}

/// Space and Enter pick up and drop.
pub fn is_activation(key: &str) -> (r: bool)
    ensures
        r == is_activation_key(key@),
        r <==> (key@ == " "@ || key@ == "Enter"@),
{
    same_text(key, " ") || same_text(key, "Enter")
}

/// The direction an arrow key navigates in; `None` for any other key.
pub fn direction_for_key(key: &str) -> (r: Option<Direction>)
    ensures
        r == key_direction(key@),
        key@ == "ArrowUp"@ ==> r == Some(Direction::Up),
        key@ == "ArrowDown"@ ==> r == Some(Direction::Down),
        key@ == "ArrowLeft"@ ==> r == Some(Direction::Left),
        key@ == "ArrowRight"@ ==> r == Some(Direction::Right),
        !(key@ == "ArrowUp"@ || key@ == "ArrowDown"@ || key@ == "ArrowLeft"@ || key@
            == "ArrowRight"@) ==> r is None,
{
    proof {
        lemma_key_names_differ();
    }
    if same_text(key, "ArrowUp") {
        Some(Direction::Up)
    } else if same_text(key, "ArrowDown") {
        Some(Direction::Down)
    } else if same_text(key, "ArrowLeft") {
        Some(Direction::Left)
    } else if same_text(key, "ArrowRight") {
        Some(Direction::Right)
    } else {
        None
    }
}

/// Decide what a key press on the draggable `me` does.
///
/// While `me` is not being dragged, Space/Enter pick it up when no drag is in
/// progress and `me` is not disabled; every other key passes through. While
/// `me` is being dragged, Space/Enter drop it, Escape cancels, and the arrow
/// keys move over the neighbor in their direction.
pub fn key_command<P: Copy>(key: &str, state: DragState<P>, me: DraggableId, disabled: bool) -> (r: KeyCommand)
    ensures
        r == key_command_for(key@, state, me, disabled),
{
    let is_dragging_me = match state {
        DragState::Dragging { id, .. } => id == me,
        _ => false,
    };
    if !is_dragging_me {
        let idle = match state {
            DragState::Idle => true,
            _ => false,
        };
        if idle && is_activation(key) && !disabled {
            return KeyCommand::PickUp;
        }
        return KeyCommand::Ignore;
    }
    if is_activation(key) {
        KeyCommand::Drop
    } else if same_text(key, "Escape") {
        KeyCommand::Cancel
    } else {
        match direction_for_key(key) {
            Some(d) => KeyCommand::Move(d),
            None => KeyCommand::Ignore,
        }
    }
}

/// `state` is a press or a drag of `me`: the pointer handlers of `me` act
/// only on such states.
pub fn is_my_state<P: Copy>(state: DragState<P>, me: DraggableId) -> (r: bool)
    ensures
        r == (match state {
            DragState::Pressed { id, .. } => id == me,
            DragState::Dragging { id, .. } => id == me,
            _ => false,
        }),
{
    match state {
        DragState::Pressed { id, .. } => id == me,
        DragState::Dragging { id, .. } => id == me,
        _ => false,
    }
}

/// The members of a drag group other than the primary `me`, in group order:
/// the `additional` field of the drop.
pub fn additional_from_group(group: &Vec<DraggableId>, me: DraggableId) -> (rest: Vec<DraggableId>)
    ensures
        rest@ == group@.filter(|d: DraggableId| d != me),
{
    let mut rest: Vec<DraggableId> = Vec::new();
    let mut i: usize = 0;
    while i < group.len()
        invariant
            i <= group@.len(),
            rest@ == group@.take(i as int).filter(|d: DraggableId| d != me),
        decreases group.len() - i,
    {
        proof {
            reveal_with_fuel(Seq::<_>::filter, 1);
            assert(group@.take(i + 1).drop_last() =~= group@.take(i as int));
        }
        let d = group[i];
        if d != me {
            rest.push(d);
        }
        i = i + 1;
    }
    proof {
        assert(group@.take(group@.len() as int) =~= group@);
    }
    rest
}

/// The key names the keyboard model reads are pairwise different.
proof fn lemma_key_names_differ()
    ensures
        " "@ != "Enter"@,
        " "@ != "Escape"@,
        " "@ != "ArrowUp"@,
        " "@ != "ArrowDown"@,
        " "@ != "ArrowLeft"@,
        " "@ != "ArrowRight"@,
        "Enter"@ != "Escape"@,
        "Enter"@ != "ArrowUp"@,
        "Enter"@ != "ArrowDown"@,
        "Enter"@ != "ArrowLeft"@,
        "Enter"@ != "ArrowRight"@,
        "Escape"@ != "ArrowUp"@,
        "Escape"@ != "ArrowDown"@,
        "Escape"@ != "ArrowLeft"@,
        "Escape"@ != "ArrowRight"@,
        "ArrowUp"@ != "ArrowDown"@,
        "ArrowUp"@ != "ArrowLeft"@,
        "ArrowUp"@ != "ArrowRight"@,
        "ArrowDown"@ != "ArrowLeft"@,
        "ArrowDown"@ != "ArrowRight"@,
        "ArrowLeft"@ != "ArrowRight"@,
{
    reveal_strlit(" ");
    reveal_strlit("Enter");
    reveal_strlit("Escape");
    reveal_strlit("ArrowUp");
    reveal_strlit("ArrowDown");
    reveal_strlit("ArrowLeft");
    reveal_strlit("ArrowRight");
    assert(" "@.len() == 1);
    assert("Enter"@.len() == 5);
    assert("Escape"@.len() == 6);
    assert("ArrowUp"@.len() == 7);
    assert("ArrowDown"@.len() == 9);
    assert("ArrowLeft"@.len() == 9);
    assert("ArrowRight"@.len() == 10);
    assert("ArrowDown"@[5] != "ArrowLeft"@[5]);
}

/// Exactly Space and Enter are activation keys: every other key, a letter
/// such as `"a"` included, neither picks up nor drops.
pub proof fn lemma_activation_keys(key: Seq<char>)
    ensures
        is_activation_key(key) <==> (key == " "@ || key == "Enter"@),
{
}

/// The four arrow keys name their own directions, and no other key names
/// one.
pub proof fn lemma_arrow_directions(key: Seq<char>)
    ensures
        key == "ArrowUp"@ ==> key_direction(key) == Some(Direction::Up),
        key == "ArrowDown"@ ==> key_direction(key) == Some(Direction::Down),
        key == "ArrowLeft"@ ==> key_direction(key) == Some(Direction::Left),
        key == "ArrowRight"@ ==> key_direction(key) == Some(Direction::Right),
        !(key == "ArrowUp"@ || key == "ArrowDown"@ || key == "ArrowLeft"@ || key == "ArrowRight"@)
            ==> key_direction(key) is None,
{
    lemma_key_names_differ();
}

/// The keyboard table, key by key. While `me` is being dragged, Space and
/// Enter drop, Escape cancels, each arrow key moves over the neighbor in its
/// own direction, and every other key passes through. While `me` is not
/// being dragged, Space and Enter pick `me` up exactly when no drag is in
/// progress and `me` is not disabled; every other key, and every key in any
/// other situation, passes through.
pub proof fn lemma_key_table<P>(key: Seq<char>, state: DragState<P>, me: DraggableId, disabled: bool)
    ensures
        (state matches DragState::Dragging { id, .. } && id == me) ==> {
            &&& (key == " "@ || key == "Enter"@) ==> key_command_for(key, state, me, disabled)
                == KeyCommand::Drop
            &&& key == "Escape"@ ==> key_command_for(key, state, me, disabled) == KeyCommand::Cancel
            &&& key == "ArrowUp"@ ==> key_command_for(key, state, me, disabled) == KeyCommand::Move(
                Direction::Up,
            )
            &&& key == "ArrowDown"@ ==> key_command_for(key, state, me, disabled)
                == KeyCommand::Move(Direction::Down)
            &&& key == "ArrowLeft"@ ==> key_command_for(key, state, me, disabled)
                == KeyCommand::Move(Direction::Left)
            &&& key == "ArrowRight"@ ==> key_command_for(key, state, me, disabled)
                == KeyCommand::Move(Direction::Right)
            &&& !(key == " "@ || key == "Enter"@ || key == "Escape"@ || key == "ArrowUp"@ || key
                == "ArrowDown"@ || key == "ArrowLeft"@ || key == "ArrowRight"@) ==> key_command_for(
                key,
                state,
                me,
                disabled,
            ) == KeyCommand::Ignore
        },
        !(state matches DragState::Dragging { id, .. } && id == me) ==> key_command_for(
            key,
            state,
            me,
            disabled,
        ) == (if state is Idle && !disabled && (key == " "@ || key == "Enter"@) {
            KeyCommand::PickUp
        } else {
            KeyCommand::Ignore
        }),
{
    lemma_key_names_differ();
}

/// Key handling never starts a drag that is already running, and never acts
/// on another item's drag: a pick-up is commanded only from `Idle`, and a
/// drop, cancel or move only while `me` itself is being dragged.
pub proof fn lemma_keys_act_only_on_own_drag<P>(
    key: Seq<char>,
    state: DragState<P>,
    me: DraggableId,
    disabled: bool,
)
    ensures
        key_command_for(key, state, me, disabled) == KeyCommand::PickUp ==> state is Idle && !disabled,
        (key_command_for(key, state, me, disabled) is Drop || key_command_for(key, state, me, disabled) is Cancel
            || key_command_for(key, state, me, disabled) is Move) ==> is_dragging_item(state, me),
{
}

/// Every command the sensors issue is one the state machine accepts: a
/// keyboard pick-up turns `Idle` into a drag of `me` with `start == current`,
/// a keyboard drop turns the drag into `Dropping` for `me`, a keyboard cancel
/// returns to `Idle`; and on a press or drag of `me` (what the pointer
/// handlers act on) release and cancel are always accepted.
pub proof fn lemma_sensor_commands_are_accepted<P>(
    key: Seq<char>,
    state: DragState<P>,
    me: DraggableId,
    disabled: bool,
    at: P,
    moved_past_threshold: bool,
)
    ensures
        key_command_for(key, state, me, disabled) == KeyCommand::PickUp ==> next_state(
            state,
            DragEvent::KeyboardPickUp { id: me, at },
            moved_past_threshold,
        ) == Some(DragState::Dragging { id: me, start: at, current: at }),
        key_command_for(key, state, me, disabled) == KeyCommand::Drop ==> next_state(
            state,
            DragEvent::<P>::PointerUp,
            moved_past_threshold,
        ) == Some(DragState::<P>::Dropping { id: me }),
        key_command_for(key, state, me, disabled) == KeyCommand::Cancel ==> next_state(
            state,
            DragEvent::<P>::Cancel,
            moved_past_threshold,
        ) == Some(DragState::<P>::Idle),
        (match state {
            DragState::Pressed { id, .. } => id == me,
            DragState::Dragging { id, .. } => id == me,
            _ => false,
        }) ==> {
            &&& next_state(state, DragEvent::<P>::PointerUp, moved_past_threshold) is Some
            &&& next_state(state, DragEvent::<P>::Cancel, moved_past_threshold) == Some(
                DragState::<P>::Idle,
            )
        },
{
}

} // verus!
