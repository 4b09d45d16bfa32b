//! The drawing requests that the canvas issues. Whoever owns the surface
//! carries them out, in order.

use crate::geometry::{Point, Rect};
use vstd::prelude::*;

verus! {

/// Colours are written as `0xRRGGBBAA`.
pub const BLACK: u32 = 0x0000_00ff;

pub const BLUE: u32 = 0x0000_ffff;

pub const RED: u32 = 0xff00_00ff;

pub const BACKGROUND_COLOR: u32 = 0xcad2_c5ff;

pub const SELECTION_RECTANGLE_COLOR: u32 = 0x8ea7_e9ff;

pub const WRAPPED_NODE_BORDER_COLOR: u32 = 0x8ea7_e9ff;

pub const WRAPPED_NODE_COLOR: u32 = 0xe5e0_ffff;

pub const WRAPPED_NODE_SELECTED_COLOR: u32 = 0x8ea7_e9ff;

pub const PANEL_BACKGROUND_COLOR: u32 = 0x748c_abff;

pub const EDITOR_COLOR: u32 = 0x0000_00ff;

pub const EDITOR_SELECTION_COLOR: u32 = 0x0000_ff64;

/// The font size of node text at a scale of 1.
pub const FONT_SIZE: i32 = 60;

/// The width of a node's border at a scale of 1.
pub const WRAPPED_NODE_BORDER_SIZE: i32 = 6;

/// The space between a node's text and its border at a scale of 1.
pub const WRAPPED_NODE_PADDING: i32 = 20;

pub const ROUNDED_RECT_RADIUS: i32 = 14;

pub const ROUNDED_RECT_BORDER_RADIUS: i32 = 20;

/// How far above the bottom of the text the editor's underline runs, at
/// a scale of 1.
pub const EDITOR_UNDERLINE_RISE: i32 = 8;

/// The thickness of the editor's underline at a scale of 1.
pub const EDITOR_UNDERLINE_THICKNESS: i32 = 5;

/// One request against the drawing surface.
#[derive(Clone, Copy, Debug, PartialEq, Eq, Structural)]
pub enum DrawCommand {
    /// A filled rectangle.
    Rectangle { rect: Rect, color: u32 },
    /// A filled rectangle with rounded corners.
    RoundedRectangle { rect: Rect, radius: i32, color: u32 },
    /// A straight line.
    Line { from: Point, to: Point, thickness: i32, color: u32 },
    /// A filled circle.
    Circle { center: Point, radius: i32, color: u32 },
    /// The content of the node `node_id`, laid out at `font_size` with
    /// its top left corner at `position`.
    Text { position: Point, node_id: i64, font_size: i32, color: u32 },
    /// The name of the module at position `module` of the registry, laid
    /// out at `font_size`, wrapped after `wrap_width`, with its top left
    /// corner at `position`.
    Label { position: Point, module: usize, font_size: i32, wrap_width: i32, color: u32 },
}

} // verus!
