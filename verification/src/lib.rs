//! Framework-agnostic drag-and-drop primitives: identifiers, the drag state
//! machine, multi-drag grouping, live drop-preview planning, keyboard-sensor
//! decisions, scroll-container detection and screen-reader announcements.
//!
//! Coordinates and sizes (CSS pixels) are carried through as opaque values of
//! a caller-chosen type: every decision this crate takes is on identifiers,
//! indices, keys and states, so it is stated and proved exactly.

pub mod announce;
pub mod collision;
pub mod displacement;
pub mod error;
pub mod group;
pub mod modifier;
pub mod scroll;
pub mod sensor;
pub mod state;
