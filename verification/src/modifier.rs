//! The axis along which a list is laid out or a drag is restricted.
use vstd::prelude::*;

verus! {

/// Cardinal axis: the layout direction of a sortable list, and the axis a
/// `RestrictToAxis` modifier keeps.
#[derive(Debug, Clone, Copy, PartialEq, Eq, Structural)]
pub enum Axis {
    /// Horizontal axis. Drags restricted to it keep `y = 0`.
    X,
    /// Vertical axis. Drags restricted to it keep `x = 0`.
    Y,
}

} // verus!
