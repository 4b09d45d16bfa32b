//! The input events that the canvas consumes.

use crate::geometry::Point;
use vstd::prelude::*;

verus! {

/// The logical identity of a pointer button.
#[derive(Clone, Copy, Debug, PartialEq, Eq, Structural)]
pub enum MouseButton {
    Left,
    Middle,
    Right,
    Other,
}

/// The logical identity of a key, as far as the canvas tells keys apart.
#[derive(Clone, Copy, Debug, PartialEq, Eq, Structural)]
pub enum Key {
    Left,
    Right,
    LShift,
    RShift,
    LControl,
    RControl,
    A,
    I,
    J,
    K,
    O,
    Other,
}

/// How far a scroll gesture went, per axis, in thousandths of the unit
/// that the variant names.
#[derive(Clone, Copy, Debug, PartialEq, Eq, Structural)]
pub enum MouseScrollDistance {
    Lines { x: i32, y: i32, z: i32 },
    Pixels { x: i32, y: i32, z: i32 },
    Pages { x: i32, y: i32, z: i32 },
}

/// The character that a backspace arrives as.
pub const BACKSPACE: char = '\u{8}';

/// The character that the delete key arrives as.
pub const DELETE: char = '\u{7f}';

/// Where the pointer is, in window coordinates and relative to the
/// module's own area.
#[derive(Clone, Copy, Debug, PartialEq, Eq, Structural)]
pub struct MousePosition {
    pub viewport_position: Point,
    pub module_position: Point,
}

impl MousePosition {
    pub fn new(viewport_position: Point, module_position: Point) -> (position: MousePosition)
        ensures
            position == (MousePosition { viewport_position, module_position }),
    {
        MousePosition { viewport_position, module_position }
    }

    pub fn viewport(&self) -> (point: Point)
        ensures
            point == self.viewport_position,
    {
        self.viewport_position
    }

    pub fn module(&self) -> (point: Point)
        ensures
            point == self.module_position,
    {
        self.module_position
    }
}

} // verus!
