//! An interactive node-graph canvas engine: a pannable, zoomable surface of
//! small text nodes, with selection, dragging, inline text editing and a
//! registry of swappable canvas modules.
//!
//! Coordinates are integers in canvas units, and times are whole
//! microseconds, milliseconds or seconds. Every operation is total:
//! results that would leave the coordinate range are clamped to it.
//!
//! The library draws nothing and measures no text itself. It returns
//! drawing requests, and takes the measured sizes of the texts that it
//! lays out from whoever owns the font.

pub mod draw;
pub mod dummy;
pub mod generic_node_container;
pub mod generic_node_editor;
pub mod geometry;
pub mod input;
pub mod keyboard_shortcut;
pub mod link;
pub mod module;
pub mod node;
pub mod node_container;
pub mod side_panel;
pub mod top_panel;
pub mod utils;
pub mod viewport;
pub mod window;
pub mod workspace;
pub mod wrapped_node;
