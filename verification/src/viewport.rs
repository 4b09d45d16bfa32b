//! The arithmetic of the animated viewport: the easing step that moves
//! each edge toward its goal, and the zoom about the pointer.

use crate::geometry::{
    clamp_coord, divide, divide_up, lemma_ratio_up_bounds, magnitude, ratio, ratio_up, saturate,
    Point, Rect,
};
use vstd::arithmetic::power::pow;
use vstd::prelude::*;

verus! {

/// The share of the remaining distance that an edge covers per second.
pub const LERP_SPEED: u64 = 100;

/// The length of a frame, in microseconds, from which on an edge reaches
/// its goal within the frame: a second divided by `LERP_SPEED`.
pub const LERP_FULL_STEP_MICROS: u64 = 10_000;

/// By how much a scroll distance, in thousandths of a line, is divided to
/// get the share by which the viewport grows: one thirtieth per line.
pub const ZOOM_DIVISOR: i32 = 30_000;

/// The weight of one frame of `delta_micros` microseconds, out of
/// `LERP_FULL_STEP_MICROS`: the frame's length times `LERP_SPEED`, and at
/// most the whole.
pub open spec fn lerp_weight(delta_micros: u64) -> int {
    if delta_micros > LERP_FULL_STEP_MICROS {
        LERP_FULL_STEP_MICROS as int
    } else {
        delta_micros as int
    }
}

/// Where an edge at `current` stands after one frame on its way to
/// `goal`: it covers the frame's share of the distance, rounded up to a
/// whole unit.
pub open spec fn spec_lerp(current: int, goal: int, delta_micros: u64) -> int {
    current + ratio_up((goal - current) * lerp_weight(delta_micros), LERP_FULL_STEP_MICROS as int)
}

/// Where an edge stands after `frames` frames of the same length.
pub open spec fn lerp_repeated(current: int, goal: int, delta_micros: u64, frames: nat) -> int
    decreases frames,
{
    if frames == 0 {
        current
    } else {
        lerp_repeated(spec_lerp(current, goal, delta_micros), goal, delta_micros, (frames - 1) as nat)
    }
}

/// A rectangle after one frame on its way to `goal`, edge by edge.
pub open spec fn spec_lerp_rect(current: Rect, goal: Rect, delta_micros: u64) -> Rect {
    Rect {
        top_left: Point {
            x: spec_lerp(current.top_left.x as int, goal.top_left.x as int, delta_micros) as i32,
            y: spec_lerp(current.top_left.y as int, goal.top_left.y as int, delta_micros) as i32,
        },
        bottom_right: Point {
            x: spec_lerp(
                current.bottom_right.x as int,
                goal.bottom_right.x as int,
                delta_micros,
            ) as i32,
            y: spec_lerp(
                current.bottom_right.y as int,
                goal.bottom_right.y as int,
                delta_micros,
            ) as i32,
        },
    }
}

/// A coordinate of a corner after a zoom about `cursor`: the corner
/// moves away from the cursor by the scrolled share of their distance,
/// rounded toward zero.
pub open spec fn spec_zoom_coord(corner: int, cursor: int, lines: int) -> int {
    clamp_coord(corner + ratio((corner - cursor) * lines, ZOOM_DIVISOR as int))
}

/// A rectangle after a zoom about `cursor`.
pub open spec fn spec_zoom(rect: Rect, cursor: Point, lines: int) -> Rect {
    Rect {
        top_left: Point {
            x: spec_zoom_coord(rect.top_left.x as int, cursor.x as int, lines) as i32,
            y: spec_zoom_coord(rect.top_left.y as int, cursor.y as int, lines) as i32,
        },
        bottom_right: Point {
            x: spec_zoom_coord(rect.bottom_right.x as int, cursor.x as int, lines) as i32,
            y: spec_zoom_coord(rect.bottom_right.y as int, cursor.y as int, lines) as i32,
        },
    }
}

/// One frame moves an edge that is not at its goal by at least one unit
/// toward the goal and never past it; an edge at its goal stays.
pub proof fn lemma_lerp_step(current: int, goal: int, delta_micros: u64)
    ensures
        delta_micros > 0 && current < goal ==> current < spec_lerp(current, goal, delta_micros)
            <= goal,
        delta_micros > 0 && current > goal ==> goal <= spec_lerp(current, goal, delta_micros)
            < current,
        current == goal || delta_micros == 0 ==> spec_lerp(current, goal, delta_micros) == current,
        current <= goal ==> current <= spec_lerp(current, goal, delta_micros) <= goal,
        current >= goal ==> goal <= spec_lerp(current, goal, delta_micros) <= current,
{
    let w = lerp_weight(delta_micros);
    let d = LERP_FULL_STEP_MICROS as int;
    let gap = magnitude(goal - current);
    let n = (goal - current) * w;
    assert(magnitude(n) == gap * w) by (nonlinear_arith)
        requires
            n == (goal - current) * w,
            gap == magnitude(goal - current),
            w >= 0,
    ;
    assert(gap * w <= gap * d) by (nonlinear_arith)
        requires
            0 <= w <= d,
            gap >= 0,
    ;
    assert(gap * w >= 0) by (nonlinear_arith)
        requires
            0 <= w,
            gap >= 0,
    ;
    assert(gap > 0 && w > 0 ==> gap * w > 0) by (nonlinear_arith)
        requires
            0 <= w,
            gap >= 0,
    ;
    lemma_ratio_up_bounds(gap * w, d);
    let q = (gap * w + d - 1) / d;
    assert(q <= gap) by {
        vstd::arithmetic::div_mod::lemma_div_is_ordered(gap * w + d - 1, gap * d + d - 1, d);
        vstd::arithmetic::div_mod::lemma_fundamental_div_mod_converse(gap * d + d - 1, d, gap, d - 1);
    }
    assert((n >= 0) == (goal - current >= 0) || n == 0) by (nonlinear_arith)
        requires
            n == (goal - current) * w,
            w >= 0,
    ;
    assert(goal - current == 0 || w == 0 ==> n == 0) by (nonlinear_arith)
        requires
            n == (goal - current) * w,
    ;
    if n == 0 {
        assert(gap * w == 0);
        assert(q == 0) by {
            vstd::arithmetic::div_mod::lemma_basic_div(d - 1, d);
        }
    }
}

/// Each frame strictly shortens the distance between an edge and its
/// goal, for any frame length above zero.
pub proof fn lemma_lerp_approaches(current: int, goal: int, delta_micros: u64)
    requires
        delta_micros > 0,
        current != goal,
    ensures
        magnitude(goal - spec_lerp(current, goal, delta_micros)) < magnitude(goal - current),
{
    lemma_lerp_step(current, goal, delta_micros);
}

/// After `frames` frames of any one length above zero the distance
/// between an edge and its goal has shrunk by at least `frames` units, or
/// to nothing: the edge reaches the goal and stays there, without ever
/// passing it.
pub proof fn lemma_lerp_converges(current: int, goal: int, delta_micros: u64, frames: nat)
    requires
        delta_micros > 0,
    ensures
        magnitude(goal - lerp_repeated(current, goal, delta_micros, frames)) <= magnitude(
            goal - current,
        ),
        magnitude(goal - lerp_repeated(current, goal, delta_micros, frames)) <= if magnitude(
            goal - current,
        ) > frames {
            magnitude(goal - current) - frames
        } else {
            0
        },
        current <= goal ==> current <= lerp_repeated(current, goal, delta_micros, frames) <= goal,
        current >= goal ==> goal <= lerp_repeated(current, goal, delta_micros, frames) <= current,
    decreases frames,
{
    if frames > 0 {
        lemma_lerp_step(current, goal, delta_micros);
        lemma_lerp_converges(
            spec_lerp(current, goal, delta_micros),
            goal,
            delta_micros,
            (frames - 1) as nat,
        );
    }
}

/// After one frame the distance between an edge and its goal is the
/// share of it that the frame's weight does not cover, rounded down to a
/// whole unit: `d * (1 - weight)`, with the weight out of
/// `LERP_FULL_STEP_MICROS`.
pub proof fn lemma_lerp_remainder(current: int, goal: int, delta_micros: u64)
    ensures
        magnitude(goal - spec_lerp(current, goal, delta_micros)) == magnitude(goal - current) * (
        LERP_FULL_STEP_MICROS - lerp_weight(delta_micros)) / (LERP_FULL_STEP_MICROS as int),
        magnitude(goal - spec_lerp(current, goal, delta_micros)) * LERP_FULL_STEP_MICROS
            <= magnitude(goal - current) * (LERP_FULL_STEP_MICROS - lerp_weight(delta_micros)),
{
    let w = lerp_weight(delta_micros);
    let d = LERP_FULL_STEP_MICROS as int;
    let gap = magnitude(goal - current);
    let n = (goal - current) * w;
    lemma_lerp_step(current, goal, delta_micros);
    assert(magnitude(n) == gap * w) by (nonlinear_arith)
        requires
            n == (goal - current) * w,
            gap == magnitude(goal - current),
            w >= 0,
    ;
    assert(gap * w >= 0) by (nonlinear_arith)
        requires
            0 <= w,
            gap >= 0,
    ;
    assert((n >= 0) == (goal - current >= 0) || n == 0) by (nonlinear_arith)
        requires
            n == (goal - current) * w,
            w >= 0,
    ;
    let q = (gap * w + d - 1) / d;
    let r = (gap * w + d - 1) % d;
    vstd::arithmetic::div_mod::lemma_fundamental_div_mod(gap * w + d - 1, d);
    vstd::arithmetic::div_mod::lemma_mod_bound(gap * w + d - 1, d);
    if n == 0 {
        assert(q == 0) by {
            vstd::arithmetic::div_mod::lemma_basic_div(d - 1, d);
        }
    }
    assert(magnitude(ratio_up(n, d)) == q);
    assert(magnitude(goal - spec_lerp(current, goal, delta_micros)) == gap - q);
    let left = gap * (d - w);
    assert(left == d * (gap - q) + (d - 1 - r)) by (nonlinear_arith)
        requires
            left == gap * (d - w),
            gap * w + d - 1 == d * q + r,
    ;
    vstd::arithmetic::div_mod::lemma_fundamental_div_mod_converse(left, d, gap - q, d - 1 - r);
    assert((gap - q) * d <= left) by (nonlinear_arith)
        requires
            left == d * (gap - q) + (d - 1 - r),
            r < d,
    ;
}

/// A power of a base that is not negative is not negative.
pub proof fn lemma_power_not_negative(base: int, exponent: nat)
    requires
        base >= 0,
    ensures
        pow(base, exponent) >= 0,
    decreases exponent,
{
    reveal(pow);
    if exponent > 0 {
        lemma_power_not_negative(base, (exponent - 1) as nat);
        assert(base * pow(base, (exponent - 1) as nat) >= 0) by (nonlinear_arith)
            requires
                base >= 0,
                pow(base, (exponent - 1) as nat) >= 0,
        ;
    }
}

/// After `frames` frames of one length the distance between an edge
/// and its goal is at most the distance at the start times the `frames`-th
/// power of the share that one frame leaves: `d * (1 - weight)^frames`,
/// with the weight out of `LERP_FULL_STEP_MICROS`. Rounding to whole units
/// only brings the edge nearer than that.
pub proof fn lemma_lerp_converges_geometrically(
    current: int,
    goal: int,
    delta_micros: u64,
    frames: nat,
)
    ensures
        magnitude(goal - lerp_repeated(current, goal, delta_micros, frames)) * pow(
            LERP_FULL_STEP_MICROS as int,
            frames,
        ) <= magnitude(goal - current) * pow(
            LERP_FULL_STEP_MICROS - lerp_weight(delta_micros),
            frames,
        ),
    decreases frames,
{
    reveal(pow);
    let d = LERP_FULL_STEP_MICROS as int;
    let rest = LERP_FULL_STEP_MICROS - lerp_weight(delta_micros);
    if frames > 0 {
        let next = spec_lerp(current, goal, delta_micros);
        let before = (frames - 1) as nat;
        lemma_lerp_remainder(current, goal, delta_micros);
        lemma_lerp_converges_geometrically(next, goal, delta_micros, before);
        lemma_power_not_negative(d, before);
        lemma_power_not_negative(rest, before);
        let last = magnitude(goal - lerp_repeated(next, goal, delta_micros, before));
        let first = magnitude(goal - current);
        let second = magnitude(goal - next);
        let whole = pow(d, before);
        let part = pow(rest, before);
        assert(last * (d * whole) <= first * (rest * part)) by (nonlinear_arith)
            requires
                last * whole <= second * part,
                second * d <= first * rest,
                part >= 0,
                whole >= 0,
                last >= 0,
                d > 0,
        ;
    }
}

/// For any frame length above zero an edge is at its goal after as
/// many frames as it was units away, and stays there: the distance falls
/// below any bound above zero.
pub proof fn lemma_lerp_arrives(current: int, goal: int, delta_micros: u64, frames: nat)
    requires
        delta_micros > 0,
        frames >= magnitude(goal - current),
    ensures
        lerp_repeated(current, goal, delta_micros, frames) == goal,
{
    lemma_lerp_converges(current, goal, delta_micros, frames);
}

/// Moves an edge one frame toward its goal.
pub fn lerp(current: i32, goal: i32, delta_micros: u64) -> (next: i32)
    ensures
        next as int == spec_lerp(current as int, goal as int, delta_micros),
{
    let weight: i128 = if delta_micros > LERP_FULL_STEP_MICROS {
        LERP_FULL_STEP_MICROS as i128
    } else {
        delta_micros as i128
    };
    let gap: i128 = goal as i128 - current as i128;
    proof {
        assert(-0x1_0000_0000_0000 <= gap as int * weight as int <= 0x1_0000_0000_0000)
            by (nonlinear_arith)
            requires
                -0x1_0000_0000 <= gap as int <= 0x1_0000_0000,
                0 <= weight as int <= 10_000,
        ;
        lemma_lerp_step(current as int, goal as int, delta_micros);
    }
    let product: i128 = gap * weight;
    let step: i128 = divide_up(product, LERP_FULL_STEP_MICROS as i128);
    (current as i128 + step) as i32
}

/// Moves the four edges of a rectangle one frame toward those of `goal`.
pub fn lerp_rect(current: &Rect, goal: &Rect, delta_micros: u64) -> (next: Rect)
    ensures
        next == spec_lerp_rect(*current, *goal, delta_micros),
{
    Rect {
        top_left: Point {
            x: lerp(current.top_left.x, goal.top_left.x, delta_micros),
            y: lerp(current.top_left.y, goal.top_left.y, delta_micros),
        },
        bottom_right: Point {
            x: lerp(current.bottom_right.x, goal.bottom_right.x, delta_micros),
            y: lerp(current.bottom_right.y, goal.bottom_right.y, delta_micros),
        },
    }
}

/// Moves one coordinate of a corner for a zoom about `cursor`.
pub fn zoom_coord(corner: i32, cursor: i32, lines: i32) -> (moved: i32)
    ensures
        moved as int == spec_zoom_coord(corner as int, cursor as int, lines as int),
{
    let reach: i128 = corner as i128 - cursor as i128;
    proof {
        assert(-0x1_0000_0000_0000_0000 <= reach as int * lines as int <= 0x1_0000_0000_0000_0000)
            by (nonlinear_arith)
            requires
                -0x1_0000_0000 <= reach as int <= 0x1_0000_0000,
                -0x1_0000_0000 <= lines as int <= 0x1_0000_0000,
        ;
    }
    let product: i128 = reach * lines as i128;
    let shift: i128 = divide(product, ZOOM_DIVISOR as i128);
    saturate(corner as i128 + shift)
}

/// Grows or shrinks a rectangle about `cursor` by the scrolled share.
pub fn zoom(rect: &Rect, cursor: Point, lines: i32) -> (zoomed: Rect)
    ensures
        zoomed == spec_zoom(*rect, cursor, lines as int),
{
    Rect {
        top_left: Point {
            x: zoom_coord(rect.top_left.x, cursor.x, lines),
            y: zoom_coord(rect.top_left.y, cursor.y, lines),
        },
        bottom_right: Point {
            x: zoom_coord(rect.bottom_right.x, cursor.x, lines),
            y: zoom_coord(rect.bottom_right.y, cursor.y, lines),
        },
    }
}

} // verus!
