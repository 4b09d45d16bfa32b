//! The bar along the top of the window.

use crate::draw::{DrawCommand, PANEL_BACKGROUND_COLOR};
use crate::geometry::{Point, Rect};
use crate::side_panel::{area, spec_area};
use vstd::prelude::*;

verus! {

/// The share of the window's height that the bar takes, in percent.
pub const DEFAULT_HEIGHT_RATIO: i32 = 5;

/// The top bar. `bounds` is the area it was last drawn in.
#[derive(Clone, Copy, Debug)]
pub struct TopPanel {
    pub bounds: Rect,
}

impl TopPanel {
    /// A bar that was never drawn.
    pub fn new() -> (panel: TopPanel)
        ensures
            panel.bounds == (Rect {
                top_left: Point { x: 0, y: 0 },
                bottom_right: Point { x: 0, y: 0 },
            }),
    {
        TopPanel { bounds: Rect::zero() }
    }

    /// Draws the bar `size` large at `offset`: its background.
    pub fn draw(&mut self, size: (i32, i32), offset: (i32, i32)) -> (commands: Vec<DrawCommand>)
        ensures
            final(self).bounds == spec_area(size, offset),
            commands@ == seq![
                DrawCommand::Rectangle {
                    rect: spec_area(size, offset),
                    color: PANEL_BACKGROUND_COLOR,
                },
            ],
    {
        self.bounds = area(size, offset);
        let mut commands: Vec<DrawCommand> = Vec::new();
        commands.push(DrawCommand::Rectangle { rect: self.bounds, color: PANEL_BACKGROUND_COLOR });
        commands
    }

    pub fn get_bounds(&self) -> (bounds: Rect)
        ensures
            bounds == self.bounds,
    {
        self.bounds
    }
}

} // verus!
