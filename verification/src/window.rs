//! What the window decides before a module sees an event: how its area
//! is shared between the panels and the module, where a pointer event
//! belongs, and how many clicks a gesture has seen.

use crate::geometry::{Point, Rect};
use crate::input::MousePosition;
use crate::side_panel::DEFAULT_WIDTH_RATIO;
use crate::top_panel::DEFAULT_HEIGHT_RATIO;
use vstd::prelude::*;

verus! {

/// How long after a click, in milliseconds, another click still belongs
/// to the same gesture.
pub const DOUBLE_CLICK_WINDOW: u64 = 400;

/// The areas of the window.
#[derive(Clone, Copy, Debug, PartialEq, Eq, Structural)]
pub struct Layout {
    pub side_panel: Rect,
    pub top_panel: Rect,
    pub module: Rect,
}

/// The part of the window that a pointer event belongs to.
#[derive(Clone, Copy, Debug, PartialEq, Eq, Structural)]
pub enum PointerTarget {
    SidePanel,
    TopPanel,
    Module,
}

/// The length that a window side of `pixels` pixels has in coordinates.
pub open spec fn spec_side(pixels: u32) -> int {
    if pixels > i32::MAX as u32 {
        i32::MAX as int
    } else {
        pixels as int
    }
}

/// The areas of a window `width` by `height` pixels large: the top
/// panel spans the window's width, the side panel lies below it on the
/// left, and the module has the rest.
pub open spec fn spec_layout(width: u32, height: u32) -> Layout {
    let w = spec_side(width);
    let h = spec_side(height);
    let top = (h * DEFAULT_HEIGHT_RATIO / 100) as i32;
    let side = (w * DEFAULT_WIDTH_RATIO / 100) as i32;
    Layout {
        side_panel: Rect {
            top_left: Point { x: 0, y: top },
            bottom_right: Point { x: side, y: h as i32 },
        },
        top_panel: Rect {
            top_left: Point { x: 0, y: 0 },
            bottom_right: Point { x: w as i32, y: top },
        },
        module: Rect {
            top_left: Point { x: side, y: top },
            bottom_right: Point { x: w as i32, y: h as i32 },
        },
    }
}

/// The part of the window that `position` belongs to: the side panel
/// where it lies in it, else the top panel where it lies in that, else
/// the module.
pub open spec fn spec_classify(layout: Layout, position: Point) -> PointerTarget {
    if layout.side_panel.spec_contains(position) {
        PointerTarget::SidePanel
    } else if layout.top_panel.spec_contains(position) {
        PointerTarget::TopPanel
    } else {
        PointerTarget::Module
    }
}

/// Divides the window among the panels and the module.
pub fn layout(width: u32, height: u32) -> (areas: Layout)
    ensures
        areas == spec_layout(width, height),
{
    let w: i32 = if width > 0x7fff_ffff {
        0x7fff_ffff
    } else {
        width as i32
    };
    let h: i32 = if height > 0x7fff_ffff {
        0x7fff_ffff
    } else {
        height as i32
    };
    let top: i32 = (h as i64 * DEFAULT_HEIGHT_RATIO as i64 / 100) as i32;
    let side: i32 = (w as i64 * DEFAULT_WIDTH_RATIO as i64 / 100) as i32;
    Layout {
        side_panel: Rect { top_left: Point { x: 0, y: top }, bottom_right: Point { x: side, y: h } },
        top_panel: Rect { top_left: Point { x: 0, y: 0 }, bottom_right: Point { x: w, y: top } },
        module: Rect { top_left: Point { x: side, y: top }, bottom_right: Point { x: w, y: h } },
    }
}

/// Finds the part of the window that a pointer event at `position`
/// belongs to.
pub fn classify(layout: &Layout, position: Point) -> (target: PointerTarget)
    ensures
        target == spec_classify(*layout, position),
{
    if layout.side_panel.contains(position) {
        PointerTarget::SidePanel
    } else if layout.top_panel.contains(position) {
        PointerTarget::TopPanel
    } else {
        PointerTarget::Module
    }
}

/// The pointer position that a module is handed: the position in the
/// window, and the same counted from the module's corner, which lies the
/// side panel's width to the right and the top panel's height down.
pub fn module_position(layout: &Layout, position: Point) -> (handed: MousePosition)
    ensures
        handed.viewport_position == position,
        handed.module_position == position.difference(
            (Point {
                x: layout.side_panel.bottom_right.x,
                y: layout.top_panel.bottom_right.y,
            }).difference(
                Point { x: layout.side_panel.top_left.x, y: layout.top_panel.top_left.y },
            ),
        ),
{
    let corner = Point { x: layout.side_panel.right(), y: layout.top_panel.bottom() }.minus(
        Point { x: layout.side_panel.left(), y: layout.top_panel.top() },
    );
    MousePosition::new(position, position.minus(corner))
}

/// Counts the clicks of a gesture. `last_click` is the time of the last
/// click in milliseconds, and `None` where a click can only begin a new
/// gesture.
#[derive(Clone, Copy, Debug)]
pub struct ClickCounter {
    pub last_click: Option<u64>,
    pub count: i32,
}

impl ClickCounter {
    /// Whether a click at time `now` goes on with the gesture: it does
    /// within the window after the last click.
    pub open spec fn continues(self, now: u64) -> bool {
        match self.last_click {
            Some(last) => last <= now && now - last < DOUBLE_CLICK_WINDOW,
            None => false,
        }
    }

    /// The counter after a click at time `now`.
    pub open spec fn after_click(self, now: u64) -> ClickCounter {
        ClickCounter {
            last_click: Some(now),
            count: if !self.continues(now) {
                1
            } else if self.count < i32::MAX {
                (self.count + 1) as i32
            } else {
                i32::MAX
            },
        }
    }

    /// A counter that has seen no click.
    pub fn new() -> (counter: ClickCounter)
        ensures
            counter.last_click is None,
            counter.count == 0,
    {
        ClickCounter { last_click: None, count: 0 }
    }

    /// Counts a click at time `now` and returns which click of its
    /// gesture it is: one more than the click before where that came
    /// within the window, and the first otherwise.
    pub fn click(&mut self, now: u64) -> (count: i32)
        ensures
            *final(self) == old(self).after_click(now),
            count == final(self).count,
    {
        let continues = match self.last_click {
            Some(last) => last <= now && now - last < DOUBLE_CLICK_WINDOW,
            None => false,
        };
        if !continues {
            self.count = 1;
        } else if self.count < i32::MAX {
            self.count = self.count + 1;
        }
        self.last_click = Some(now);
        self.count
    }

    /// Ends the gesture, as a move of the pointer does: the next click
    /// is a first click.
    pub fn forget(&mut self)
        ensures
            *final(self) == (ClickCounter { last_click: None, ..*old(self) }),
    {
        self.last_click = None;
    }
}

} // verus!
