//! A module that shows a cursor which the keys I, J, K and O move.

use crate::draw::{DrawCommand, RED};
use crate::geometry::{clamp_coord, divide, ratio, saturate, Point, Rect};
use crate::input::Key;
use vstd::prelude::*;
use vstd::string::*;

verus! {

/// The speed that a held key gives the cursor, in units per second.
pub const IDLE_CURSOR_MOVE_SPEED: i32 = 230;

/// How many parts of the cursor's position make one unit: with the
/// frame time in microseconds and the speed in units per second, a frame
/// moves the cursor by a whole number of such parts.
pub const CURSOR_PARTS: i64 = 1_000_000;

/// The module. `cursor` is the position of the cursor in millionths of
/// a unit. `speed` holds what each of the four keys adds to the cursor's
/// speed while it is held: I and K along y, J and O along x.
#[derive(Clone, Copy, Debug)]
pub struct NodeContainer {
    pub cursor: (i64, i64),
    pub speed: (i32, i32, i32, i32),
    pub viewport: Rect,
}

/// The position nearest to `v` that the cursor can hold.
pub open spec fn clamp_fine(v: int) -> int {
    if v < i64::MIN as int {
        i64::MIN as int
    } else if v > i64::MAX as int {
        i64::MAX as int
    } else {
        v
    }
}

/// Whether a rectangle has no area.
pub open spec fn spec_is_zero_area(rect: Rect) -> bool {
    rect.top_left.x == rect.bottom_right.x || rect.top_left.y == rect.bottom_right.y
}

impl NodeContainer {
    /// The module as the frame finds it: a module that has no viewport
    /// yet takes the physical area, with its cursor at rest in the middle.
    pub open spec fn laid_out(self, physical: Rect) -> NodeContainer {
        if spec_is_zero_area(self.viewport) {
            NodeContainer {
                viewport: physical,
                cursor: (
                    ((2 * physical.top_left.x + physical.spec_width()) * (CURSOR_PARTS / 2)) as i64,
                    ((2 * physical.top_left.y + physical.spec_height()) * (CURSOR_PARTS / 2)) as i64,
                ),
                speed: (0, 0, 0, 0),
            }
        } else {
            self
        }
    }

    /// The module after a frame of `delta_micros` microseconds: the
    /// cursor moves by its speed times the frame's length.
    pub open spec fn after_draw(self, physical: Rect, delta_micros: u64) -> NodeContainer {
        let base = self.laid_out(physical);
        NodeContainer {
            cursor: (
                clamp_fine(base.cursor.0 + (base.speed.1 + base.speed.3) * delta_micros) as i64,
                clamp_fine(base.cursor.1 + (base.speed.0 + base.speed.2) * delta_micros) as i64,
            ),
            ..base
        }
    }

    /// Where the cursor shows, in whole units.
    pub open spec fn cursor_point(self) -> Point {
        Point {
            x: clamp_coord(ratio(self.cursor.0 as int, CURSOR_PARTS as int)) as i32,
            y: clamp_coord(ratio(self.cursor.1 as int, CURSOR_PARTS as int)) as i32,
        }
    }

    /// The module after `key` went down: each of the four keys sets its
    /// share of the speed.
    pub open spec fn after_key_down(self, key: Option<Key>) -> NodeContainer {
        match key {
            Some(Key::I) => NodeContainer {
                speed: ((-IDLE_CURSOR_MOVE_SPEED) as i32, self.speed.1, self.speed.2, self.speed.3),
                ..self
            },
            Some(Key::J) => NodeContainer {
                speed: (self.speed.0, (-IDLE_CURSOR_MOVE_SPEED) as i32, self.speed.2, self.speed.3),
                ..self
            },
            Some(Key::K) => NodeContainer {
                speed: (self.speed.0, self.speed.1, IDLE_CURSOR_MOVE_SPEED, self.speed.3),
                ..self
            },
            Some(Key::O) => NodeContainer {
                speed: (self.speed.0, self.speed.1, self.speed.2, IDLE_CURSOR_MOVE_SPEED),
                ..self
            },
            _ => self,
        }
    }

    /// The module after `key` went up: each of the four keys clears its
    /// share of the speed.
    pub open spec fn after_key_up(self, key: Option<Key>) -> NodeContainer {
        match key {
            Some(Key::I) => NodeContainer {
                speed: (0, self.speed.1, self.speed.2, self.speed.3),
                ..self
            },
            Some(Key::J) => NodeContainer {
                speed: (self.speed.0, 0, self.speed.2, self.speed.3),
                ..self
            },
            Some(Key::K) => NodeContainer {
                speed: (self.speed.0, self.speed.1, 0, self.speed.3),
                ..self
            },
            Some(Key::O) => NodeContainer {
                speed: (self.speed.0, self.speed.1, self.speed.2, 0),
                ..self
            },
            _ => self,
        }
    }

    /// A module without a viewport, its cursor at rest at the origin.
    pub fn new() -> (module: NodeContainer)
        ensures
            module.cursor == (0i64, 0i64),
            module.speed == (0i32, 0i32, 0i32, 0i32),
            module.viewport == (Rect {
                top_left: Point { x: 0, y: 0 },
                bottom_right: Point { x: 0, y: 0 },
            }),
    {
        NodeContainer { cursor: (0, 0), speed: (0, 0, 0, 0), viewport: Rect::zero() }
    }

    pub fn get_name(&self) -> (name: String)
        ensures
            name@ == "NodeContainer"@,
    {
        String::from_str("NodeContainer")
    }

    /// Moves the cursor for a frame of `delta_micros` microseconds over
    /// the physical area `viewport`, and draws it.
    pub fn draw(&mut self, viewport: Rect, delta_micros: u64) -> (commands: Vec<DrawCommand>)
        ensures
            *final(self) == old(self).after_draw(viewport, delta_micros),
            commands@ == seq![
                DrawCommand::Circle { center: final(self).cursor_point(), radius: 10, color: RED },
            ],
    {
        if self.viewport.left() == self.viewport.right() || self.viewport.top()
            == self.viewport.bottom() {
            self.viewport = viewport;
            self.cursor = (
                middle(viewport.left(), viewport.width()),
                middle(viewport.top(), viewport.height()),
            );
            self.speed = (0, 0, 0, 0);
        }
        self.cursor = (
            advance(self.cursor.0, self.speed.1, self.speed.3, delta_micros),
            advance(self.cursor.1, self.speed.0, self.speed.2, delta_micros),
        );
        let mut commands: Vec<DrawCommand> = Vec::new();
        commands.push(
            DrawCommand::Circle {
                center: Point {
                    x: saturate(divide(self.cursor.0 as i128, CURSOR_PARTS as i128)),
                    y: saturate(divide(self.cursor.1 as i128, CURSOR_PARTS as i128)),
                },
                radius: 10,
                color: RED,
            },
        );
        commands
    }

    pub fn handle_key_down(&mut self, key: Option<Key>)
        ensures
            *final(self) == old(self).after_key_down(key),
    {
        match key {
            Some(Key::I) => {
                self.speed = (-IDLE_CURSOR_MOVE_SPEED, self.speed.1, self.speed.2, self.speed.3);
            },
            Some(Key::J) => {
                self.speed = (self.speed.0, -IDLE_CURSOR_MOVE_SPEED, self.speed.2, self.speed.3);
            },
            Some(Key::K) => {
                self.speed = (self.speed.0, self.speed.1, IDLE_CURSOR_MOVE_SPEED, self.speed.3);
            },
            Some(Key::O) => {
                self.speed = (self.speed.0, self.speed.1, self.speed.2, IDLE_CURSOR_MOVE_SPEED);
            },
            _ => {},
        }
    }

    pub fn handle_key_up(&mut self, key: Option<Key>)
        ensures
            *final(self) == old(self).after_key_up(key),
    {
        match key {
            Some(Key::I) => {
                self.speed = (0, self.speed.1, self.speed.2, self.speed.3);
            },
            Some(Key::J) => {
                self.speed = (self.speed.0, 0, self.speed.2, self.speed.3);
            },
            Some(Key::K) => {
                self.speed = (self.speed.0, self.speed.1, 0, self.speed.3);
            },
            Some(Key::O) => {
                self.speed = (self.speed.0, self.speed.1, self.speed.2, 0);
            },
            _ => {},
        }
    }
}

/// The middle of a span, in millionths of a unit.
fn middle(start: i32, length: i64) -> (parts: i64)
    requires
        -0x1_0000_0000 <= length <= 0x1_0000_0000,
    ensures
        parts as int == (2 * start + length) * (CURSOR_PARTS / 2),
{
    let doubled: i64 = 2 * (start as i64) + length;
    proof {
        assert(CURSOR_PARTS / 2 == 500_000);
        assert(-0x1000_0000_0000_0000 <= doubled as int * 500_000 <= 0x1000_0000_0000_0000)
            by (nonlinear_arith)
            requires
                -0x2_0000_0000 <= doubled as int <= 0x2_0000_0000,
        ;
    }
    doubled * 500_000
}

/// A coordinate of the cursor after a frame at the sum of two speeds.
fn advance(position: i64, first: i32, second: i32, delta_micros: u64) -> (moved: i64)
    ensures
        moved as int == clamp_fine(position + (first + second) * delta_micros),
{
    let speed: i128 = first as i128 + second as i128;
    proof {
        assert(-0x2_0000_0000_0000_0000_0000_0000 <= speed as int * delta_micros as int
            <= 0x2_0000_0000_0000_0000_0000_0000) by (nonlinear_arith)
            requires
                -0x1_0000_0000 <= speed as int <= 0x1_0000_0000,
                0 <= delta_micros as int <= 0x1_0000_0000_0000_0000,
        ;
    }
    let target: i128 = position as i128 + speed * delta_micros as i128;
    if target < -0x8000_0000_0000_0000 {
        -0x8000_0000_0000_0000
    } else if target > 0x7fff_ffff_ffff_ffff {
        0x7fff_ffff_ffff_ffff
    } else {
        target as i64
    }
}

} // verus!
