//! Directions for keyboard navigation between drop targets.
//!
//! The spatial search itself (which droppable lies predominantly in a
//! direction, and which of those is nearest) is geometry on CSS-pixel
//! coordinates and lives with the bindings; the keyboard sensor here only
//! decides *which* direction a key asks for.
use vstd::prelude::*;

verus! {

/// A cardinal direction used for keyboard navigation.
#[derive(Debug, Clone, Copy, PartialEq, Eq, Structural)]
pub enum Direction {
    /// Toward smaller `y`.
    Up,
    /// Toward larger `y`.
    Down,
    /// Toward smaller `x`.
    Left,
    /// Toward larger `x`.
    Right,
}

} // verus!
