//! Conversions between positions in the window and positions in a
//! viewport.

use crate::geometry::{clamp_coord, divide, ratio, saturate, Point, Rect};
use vstd::prelude::*;

verus! {

/// A window coordinate as a viewport coordinate: the distance of `p`
/// from the middle of a window `window` wide, as a share of that width,
/// taken of the viewport's extent `length` and counted from `start`.
pub open spec fn spec_window_to_viewport_coord(p: int, window: int, start: int, length: int) -> int {
    clamp_coord(ratio((2 * p - window) * length, 2 * window) + start)
}

/// A viewport coordinate as a window coordinate: the distance of `p`
/// from `start`, as a share of the viewport's extent `length`, taken of
/// the window's width `window` and counted from the middle of the window.
pub open spec fn spec_viewport_to_window_coord(p: int, window: int, start: int, length: int) -> int {
    clamp_coord(ratio(2 * (p - start) * window + window * length, 2 * length))
}

fn window_to_viewport_coord(p: i32, window: i32, start: i32, length: i64) -> (r: i32)
    requires
        -0x1_0000_0000 <= length <= 0x1_0000_0000,
    ensures
        r as int == spec_window_to_viewport_coord(
            p as int,
            window as int,
            start as int,
            length as int,
        ),
{
    let offset: i128 = 2 * (p as i128) - window as i128;
    proof {
        assert(-0x1_0000_0000_0000_0000_0000 <= offset as int * length as int
            <= 0x1_0000_0000_0000_0000_0000) by (nonlinear_arith)
            requires
                -0x2_0000_0000 <= offset as int <= 0x2_0000_0000,
                -0x1_0000_0000 <= length as int <= 0x1_0000_0000,
        ;
    }
    let product: i128 = offset * length as i128;
    saturate(divide(product, 2 * (window as i128)) + start as i128)
}

fn viewport_to_window_coord(p: i32, window: i32, start: i32, length: i64) -> (r: i32)
    requires
        -0x1_0000_0000 <= length <= 0x1_0000_0000,
    ensures
        r as int == spec_viewport_to_window_coord(
            p as int,
            window as int,
            start as int,
            length as int,
        ),
{
    let offset: i128 = 2 * (p as i128 - start as i128);
    proof {
        assert(-0x1_0000_0000_0000_0000_0000 <= offset as int * window as int
            <= 0x1_0000_0000_0000_0000_0000) by (nonlinear_arith)
            requires
                -0x2_0000_0000 <= offset as int <= 0x2_0000_0000,
                -0x1_0000_0000 <= window as int <= 0x1_0000_0000,
        ;
        assert(-0x1_0000_0000_0000_0000_0000 <= window as int * length as int
            <= 0x1_0000_0000_0000_0000_0000) by (nonlinear_arith)
            requires
                -0x1_0000_0000 <= window as int <= 0x1_0000_0000,
                -0x1_0000_0000 <= length as int <= 0x1_0000_0000,
        ;
    }
    let scaled: i128 = offset * window as i128;
    let half: i128 = window as i128 * length as i128;
    saturate(divide(scaled + half, 2 * (length as i128)))
}

/// Translates a point of a window of size `window` into the viewport
/// that the window shows: the middle of the window is the viewport's top
/// left corner, and a window's width to the right of it lies the
/// viewport's right edge.
pub fn window_to_viewport(point: Point, window: Point, viewport: Rect) -> (translated: Point)
    ensures
        translated.x as int == spec_window_to_viewport_coord(
            point.x as int,
            window.x as int,
            viewport.top_left.x as int,
            viewport.spec_width(),
        ),
        translated.y as int == spec_window_to_viewport_coord(
            point.y as int,
            window.y as int,
            viewport.top_left.y as int,
            viewport.spec_height(),
        ),
{
    Point {
        x: window_to_viewport_coord(point.x, window.x, viewport.left(), viewport.width()),
        y: window_to_viewport_coord(point.y, window.y, viewport.top(), viewport.height()),
    }
}

/// Translates a point of the viewport into the window of size `window`
/// that shows it: the inverse of `window_to_viewport`, up to rounding.
pub fn viewport_to_window(point: Point, window: Point, viewport: Rect) -> (translated: Point)
    ensures
        translated.x as int == spec_viewport_to_window_coord(
            point.x as int,
            window.x as int,
            viewport.top_left.x as int,
            viewport.spec_width(),
        ),
        translated.y as int == spec_viewport_to_window_coord(
            point.y as int,
            window.y as int,
            viewport.top_left.y as int,
            viewport.spec_height(),
        ),
{
    Point {
        x: viewport_to_window_coord(point.x, window.x, viewport.left(), viewport.width()),
        y: viewport_to_window_coord(point.y, window.y, viewport.top(), viewport.height()),
    }
}

} // verus!
