//! The side menu: one entry for each module, a click on which makes
//! that module the active one.

use crate::draw::{DrawCommand, BLACK, FONT_SIZE, PANEL_BACKGROUND_COLOR};
use crate::geometry::{clamp_coord, divide, ratio, saturate, Point, Rect};
use crate::input::MouseButton;
use crate::module::{ModuleCall, ModuleRegistry};
use vstd::prelude::*;

verus! {

/// The share of the window's width that the menu takes, in percent.
pub const DEFAULT_WIDTH_RATIO: i32 = 20;

/// The width of the lines around the menu.
pub const BORDER_LINES_WIDTH: i32 = 2;

/// The share of the menu's width left free on the left of its entries,
/// in percent.
pub const MENU_H_PADDING: i32 = 5;

/// The share of the menu's height left free above its first entry, in
/// percent.
pub const MENU_V_PADDING: i32 = 1;

/// The share of the menu's height left free between two entries, in
/// thousandths.
pub const MENU_V_SPACING: i32 = 15;

/// Where the entries of a menu in `bounds` begin on the left.
pub open spec fn menu_left(bounds: Rect) -> int {
    clamp_coord(bounds.top_left.x + ratio(bounds.spec_width() * MENU_H_PADDING, 100))
}

/// Where the entry at `index` begins at the top, the names of the
/// entries measuring `sizes`: the first entry lies the padding below the
/// top of the menu, each other one the spacing below the one before.
pub open spec fn menu_top(bounds: Rect, sizes: Seq<Point>, index: int) -> int
    decreases index,
{
    if index <= 0 {
        clamp_coord(bounds.top_left.y + ratio(bounds.spec_height() * MENU_V_PADDING, 100))
    } else {
        clamp_coord(
            menu_top(bounds, sizes, index - 1) + sizes[index - 1].y + ratio(
                bounds.spec_height() * MENU_V_SPACING,
                1000,
            ),
        )
    }
}

/// The area of the entry at `index`: as large as its name.
pub open spec fn menu_hitbox(bounds: Rect, sizes: Seq<Point>, index: int) -> Rect {
    Rect {
        top_left: Point {
            x: menu_left(bounds) as i32,
            y: menu_top(bounds, sizes, index) as i32,
        },
        bottom_right: Point {
            x: clamp_coord(menu_left(bounds) + sizes[index].x) as i32,
            y: clamp_coord(menu_top(bounds, sizes, index) + sizes[index].y) as i32,
        },
    }
}

/// The share `part / whole` of a length, rounded toward zero.
fn share(length: i64, part: i32, whole: i32) -> (r: i128)
    requires
        -0x1_0000_0000 <= length <= 0x1_0000_0000,
    ensures
        r as int == ratio(length * part, whole as int),
        -0x1_0000_0000_0000_0000 <= r <= 0x1_0000_0000_0000_0000,
{
    proof {
        assert(-0x1_0000_0000_0000_0000 <= length as int * part as int <= 0x1_0000_0000_0000_0000)
            by (nonlinear_arith)
            requires
                -0x1_0000_0000 <= length as int <= 0x1_0000_0000,
                -0x1_0000_0000 <= part as int <= 0x1_0000_0000,
        ;
    }
    let product: i128 = length as i128 * part as i128;
    divide(product, whole as i128)
}

/// Lays out the entries of a menu in `bounds`, one below the other, for
/// names that measure `sizes`.
pub fn menu_hitboxes(bounds: &Rect, sizes: &Vec<Point>) -> (hitboxes: Vec<Rect>)
    ensures
        hitboxes@ == Seq::new(sizes@.len(), |i: int| menu_hitbox(*bounds, sizes@, i)),
{
    let left: i32 = saturate(bounds.left() as i128 + share(bounds.width(), MENU_H_PADDING, 100));
    let spacing: i128 = share(bounds.height(), MENU_V_SPACING, 1000);
    let mut top: i32 = saturate(bounds.top() as i128 + share(bounds.height(), MENU_V_PADDING, 100));
    let mut hitboxes: Vec<Rect> = Vec::new();
    let mut i: usize = 0;
    while i < sizes.len()
        invariant
            i <= sizes@.len(),
            left as int == menu_left(*bounds),
            top as int == menu_top(*bounds, sizes@, i as int),
            spacing as int == ratio(bounds.spec_height() * MENU_V_SPACING, 1000),
            -0x1_0000_0000_0000 <= spacing <= 0x1_0000_0000_0000,
            hitboxes@ == Seq::new(i as nat, |k: int| menu_hitbox(*bounds, sizes@, k)),
        decreases sizes.len() - i,
    {
        let size = sizes[i];
        hitboxes.push(
            Rect {
                top_left: Point { x: left, y: top },
                bottom_right: Point {
                    x: saturate(left as i128 + size.x as i128),
                    y: saturate(top as i128 + size.y as i128),
                },
            },
        );
        top = saturate(top as i128 + size.y as i128 + spacing);
        i += 1;
        proof {
            assert(hitboxes@ =~= Seq::new(i as nat, |k: int| menu_hitbox(*bounds, sizes@, k)));
        }
    }
    hitboxes
}

/// The width after which the name of an entry is wrapped: what the
/// padding leaves of the menu's width.
pub open spec fn menu_wrap_width(bounds: Rect) -> int {
    clamp_coord(ratio(bounds.spec_width() * (100 - MENU_H_PADDING), 100))
}

/// The area from `offset` on that is `size` large.
pub open spec fn spec_area(size: (i32, i32), offset: (i32, i32)) -> Rect {
    Rect {
        top_left: Point { x: offset.0, y: offset.1 },
        bottom_right: Point {
            x: clamp_coord(offset.0 + size.0) as i32,
            y: clamp_coord(offset.1 + size.1) as i32,
        },
    }
}

/// The area from `offset` on that is `size` large.
pub fn area(size: (i32, i32), offset: (i32, i32)) -> (rect: Rect)
    ensures
        rect == spec_area(size, offset),
{
    Rect {
        top_left: Point { x: offset.0, y: offset.1 },
        bottom_right: Point {
            x: saturate(offset.0 as i128 + size.0 as i128),
            y: saturate(offset.1 as i128 + size.1 as i128),
        },
    }
}

/// What a menu in `bounds` draws before its entries: its background and
/// a line along its left, right, top and bottom edge.
pub open spec fn menu_frame(bounds: Rect) -> Seq<DrawCommand> {
    let top_right = Point { x: bounds.bottom_right.x, y: bounds.top_left.y };
    let bottom_left = Point { x: bounds.top_left.x, y: bounds.bottom_right.y };
    seq![
        DrawCommand::Rectangle { rect: bounds, color: PANEL_BACKGROUND_COLOR },
        DrawCommand::Line {
            from: bounds.top_left,
            to: bottom_left,
            thickness: BORDER_LINES_WIDTH,
            color: BLACK,
        },
        DrawCommand::Line {
            from: top_right,
            to: bounds.bottom_right,
            thickness: BORDER_LINES_WIDTH,
            color: BLACK,
        },
        DrawCommand::Line {
            from: bounds.top_left,
            to: top_right,
            thickness: BORDER_LINES_WIDTH,
            color: BLACK,
        },
        DrawCommand::Line {
            from: bottom_left,
            to: bounds.bottom_right,
            thickness: BORDER_LINES_WIDTH,
            color: BLACK,
        },
    ]
}

/// The label of the entry at `index`.
pub open spec fn menu_label(bounds: Rect, sizes: Seq<Point>, index: int) -> DrawCommand {
    DrawCommand::Label {
        position: menu_hitbox(bounds, sizes, index).top_left,
        module: index as usize,
        font_size: FONT_SIZE,
        wrap_width: menu_wrap_width(bounds) as i32,
        color: BLACK,
    }
}

/// The side menu. `bounds` is the area it was last drawn in, `hitboxes`
/// the areas of its entries then, in the order of the modules.
#[derive(Debug)]
pub struct SidePanel {
    pub bounds: Rect,
    pub hitboxes: Vec<Rect>,
}

impl SidePanel {
    /// A menu that was never drawn.
    pub fn new() -> (panel: SidePanel)
        ensures
            panel.bounds == (Rect {
                top_left: Point { x: 0, y: 0 },
                bottom_right: Point { x: 0, y: 0 },
            }),
            panel.hitboxes@ == Seq::<Rect>::empty(),
    {
        SidePanel { bounds: Rect::zero(), hitboxes: Vec::new() }
    }

    /// The width after which to wrap the names when measuring them for
    /// a menu that is `size` large.
    pub fn wrap_width(size: (i32, i32), offset: (i32, i32)) -> (width: i32)
        ensures
            width as int == menu_wrap_width(spec_area(size, offset)),
    {
        let bounds = area(size, offset);
        saturate(share(bounds.width(), 100 - MENU_H_PADDING, 100))
    }

    /// Draws the menu `size` large at `offset`, for modules whose names
    /// measure `sizes`: the frame, then one label for each module. The
    /// menu remembers its area and those of its entries.
    pub fn draw(&mut self, size: (i32, i32), offset: (i32, i32), sizes: &Vec<Point>) -> (commands: Vec<
        DrawCommand,
    >)
        ensures
            final(self).bounds == spec_area(size, offset),
            final(self).hitboxes@ == Seq::new(
                sizes@.len(),
                |i: int| menu_hitbox(spec_area(size, offset), sizes@, i),
            ),
            commands@ == menu_frame(spec_area(size, offset)) + Seq::new(
                sizes@.len(),
                |i: int| menu_label(spec_area(size, offset), sizes@, i),
            ),
    {
        let bounds = area(size, offset);
        let wrap = SidePanel::wrap_width(size, offset);
        let top_right = Point { x: bounds.bottom_right.x, y: bounds.top_left.y };
        let bottom_left = Point { x: bounds.top_left.x, y: bounds.bottom_right.y };
        let mut commands: Vec<DrawCommand> = Vec::new();
        commands.push(DrawCommand::Rectangle { rect: bounds, color: PANEL_BACKGROUND_COLOR });
        commands.push(
            DrawCommand::Line {
                from: bounds.top_left,
                to: bottom_left,
                thickness: BORDER_LINES_WIDTH,
                color: BLACK,
            },
        );
        commands.push(
            DrawCommand::Line {
                from: top_right,
                to: bounds.bottom_right,
                thickness: BORDER_LINES_WIDTH,
                color: BLACK,
            },
        );
        commands.push(
            DrawCommand::Line {
                from: bounds.top_left,
                to: top_right,
                thickness: BORDER_LINES_WIDTH,
                color: BLACK,
            },
        );
        commands.push(
            DrawCommand::Line {
                from: bottom_left,
                to: bounds.bottom_right,
                thickness: BORDER_LINES_WIDTH,
                color: BLACK,
            },
        );
        proof {
            assert(commands@ =~= menu_frame(bounds));
        }
        let hitboxes = menu_hitboxes(&bounds, sizes);
        let mut i: usize = 0;
        while i < hitboxes.len()
            invariant
                i <= hitboxes@.len(),
                hitboxes@ == Seq::new(sizes@.len(), |k: int| menu_hitbox(bounds, sizes@, k)),
                wrap as int == menu_wrap_width(bounds),
                commands@ == menu_frame(bounds) + Seq::new(
                    i as nat,
                    |k: int| menu_label(bounds, sizes@, k),
                ),
            decreases hitboxes.len() - i,
        {
            commands.push(
                DrawCommand::Label {
                    position: hitboxes[i].top_left,
                    module: i,
                    font_size: FONT_SIZE,
                    wrap_width: wrap,
                    color: BLACK,
                },
            );
            i += 1;
            proof {
                assert(commands@ =~= menu_frame(bounds) + Seq::new(
                    i as nat,
                    |k: int| menu_label(bounds, sizes@, k),
                ));
            }
        }
        self.bounds = bounds;
        self.hitboxes = hitboxes;
        commands
    }

    /// Handles a click at `position`: every entry hit switches the
    /// registry to its module. Returns the lifecycle calls that are due.
    pub fn handle_click(
        &self,
        registry: &mut ModuleRegistry,
        position: Point,
        _click_count: i32,
        _button: MouseButton,
    ) -> (calls: Vec<ModuleCall>)
        ensures
            final(registry)@ == old(registry)@.after_click(
                self.hitboxes@,
                position,
                self.hitboxes@.len() as int,
            ),
            calls@ == old(registry)@.click_calls(
                self.hitboxes@,
                position,
                self.hitboxes@.len() as int,
            ),
    {
        registry.handle_click(&self.hitboxes, position)
    }

    pub fn get_bounds(&self) -> (bounds: Rect)
        ensures
            bounds == self.bounds,
    {
        self.bounds
    }
}

} // verus!
