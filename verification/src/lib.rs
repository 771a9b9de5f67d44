//! Grid movement for a tile-based game: a frame's newly pressed directional
//! inputs are resolved to at most one step, and that step is applied to the
//! grid position of every controlled entity.
//!
//! The controller itself knows no engine: it works on [`PressedSet`] and
//! [`GridCoordinate`]. The module [`engine`] reads a [`PressedSet`] off the
//! engine's keyboard state; [`keyboard`] holds the key bindings.

pub mod controller;
pub mod direction;
pub mod engine;
pub mod grid;
pub mod keyboard;
pub mod pressed;

pub use controller::{apply_movement, can_move, resolve_direction, tick};
pub use direction::Direction;
pub use engine::newly_pressed;
pub use grid::GridCoordinate;
pub use keyboard::{pressed_from_keys, Key};
pub use pressed::PressedSet;
