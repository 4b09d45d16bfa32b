//! Integer points and rectangles, and the clamped arithmetic they share.

use vstd::prelude::*;

verus! {

/// The coordinate nearest to `v` that a point can hold.
pub open spec fn clamp_coord(v: int) -> int {
    if v < i32::MIN as int {
        i32::MIN as int
    } else if v > i32::MAX as int {
        i32::MAX as int
    } else {
        v
    }
}

/// The magnitude of `v`.
pub open spec fn magnitude(v: int) -> int {
    if v < 0 {
        -v
    } else {
        v
    }
}

/// The quotient `n / d` rounded toward zero, and zero where `d` is zero.
pub open spec fn ratio(n: int, d: int) -> int {
    if d == 0 {
        0
    } else if (n >= 0) == (d > 0) {
        magnitude(n) / magnitude(d)
    } else {
        -(magnitude(n) / magnitude(d))
    }
}

/// The quotient `n / d` rounded away from zero, and zero where `d` is zero.
pub open spec fn ratio_up(n: int, d: int) -> int {
    if d == 0 {
        0
    } else if (n >= 0) == (d > 0) {
        (magnitude(n) + magnitude(d) - 1) / magnitude(d)
    } else {
        -((magnitude(n) + magnitude(d) - 1) / magnitude(d))
    }
}

/// The widest magnitude that the products of this module reach.
pub const WIDE_LIMIT: i128 = 0x4000_0000_0000_0000_0000_0000;

/// Clamps a wide value into the coordinate range.
pub fn saturate(v: i128) -> (r: i32)
    ensures
        r as int == clamp_coord(v as int),
{
    if v < -2147483648 {
        -2147483648
    } else if v > 2147483647 {
        2147483647
    } else {
        v as i32
    }
}

/// Divides rounding toward zero; a zero divisor gives zero.
pub fn divide(n: i128, d: i128) -> (q: i128)
    requires
        -WIDE_LIMIT <= n <= WIDE_LIMIT,
        -WIDE_LIMIT <= d <= WIDE_LIMIT,
    ensures
        q as int == ratio(n as int, d as int),
        magnitude(q as int) <= magnitude(n as int),
{
    if d == 0 {
        return 0;
    }
    let n_abs: i128 = if n < 0 { -n } else { n };
    let d_abs: i128 = if d < 0 { -d } else { d };
    let q_abs: i128 = n_abs / d_abs;
    proof {
        vstd::arithmetic::div_mod::lemma_div_is_ordered_by_denominator(n_abs as int, 1, d_abs as int);
        vstd::arithmetic::div_mod::lemma_div_pos_is_pos(n_abs as int, d_abs as int);
    }
    if (n >= 0) == (d > 0) {
        q_abs
    } else {
        -q_abs
    }
}

/// Divides rounding away from zero; a zero divisor gives zero.
pub fn divide_up(n: i128, d: i128) -> (q: i128)
    requires
        -WIDE_LIMIT <= n <= WIDE_LIMIT,
        -WIDE_LIMIT <= d <= WIDE_LIMIT,
    ensures
        q as int == ratio_up(n as int, d as int),
        magnitude(q as int) <= magnitude(n as int),
{
    if d == 0 {
        return 0;
    }
    let n_abs: i128 = if n < 0 { -n } else { n };
    let d_abs: i128 = if d < 0 { -d } else { d };
    let q_abs: i128 = (n_abs + d_abs - 1) / d_abs;
    proof {
        lemma_ratio_up_bounds(n_abs as int, d_abs as int);
    }
    if (n >= 0) == (d > 0) {
        q_abs
    } else {
        -q_abs
    }
}

/// Rounding a non-negative quotient up keeps it between zero and the
/// numerator, and above zero where the numerator is.
pub proof fn lemma_ratio_up_bounds(n: int, d: int)
    requires
        n >= 0,
        d > 0,
    ensures
        0 <= (n + d - 1) / d <= n,
        n > 0 ==> (n + d - 1) / d >= 1,
        (n + d - 1) / d * d >= n,
{
    let q = (n + d - 1) / d;
    let r = (n + d - 1) % d;
    vstd::arithmetic::div_mod::lemma_fundamental_div_mod(n + d - 1, d);
    vstd::arithmetic::div_mod::lemma_mod_bound(n + d - 1, d);
    assert(d * q + r == n + d - 1);
    assert(0 <= r < d);
    assert(q >= 0) by (nonlinear_arith)
        requires d * q + r == n + d - 1, 0 <= r < d, n >= 0, d > 0;
    assert(q <= n) by (nonlinear_arith)
        requires d * q + r == n + d - 1, 0 <= r < d, n >= 0, d > 0;
    assert(n > 0 ==> q >= 1) by (nonlinear_arith)
        requires d * q + r == n + d - 1, 0 <= r < d, n >= 0, d > 0;
    assert(q * d >= n) by (nonlinear_arith)
        requires d * q + r == n + d - 1, 0 <= r < d;
}

/// A point, or a vector between two points, in canvas units.
#[derive(Clone, Copy, Debug, PartialEq, Eq, Structural)]
pub struct Point {
    pub x: i32,
    pub y: i32,
}

impl Point {
    /// The sum of two vectors, each coordinate clamped to the range.
    pub open spec fn sum(self, other: Point) -> Point {
        Point {
            x: clamp_coord(self.x + other.x) as i32,
            y: clamp_coord(self.y + other.y) as i32,
        }
    }

    /// The vector from `other` to `self`, each coordinate clamped to the range.
    pub open spec fn difference(self, other: Point) -> Point {
        Point {
            x: clamp_coord(self.x - other.x) as i32,
            y: clamp_coord(self.y - other.y) as i32,
        }
    }

    pub fn new(x: i32, y: i32) -> (p: Point)
        ensures
            p == (Point { x, y }),
    {
        Point { x, y }
    }

    /// The origin, which is also the zero vector.
    pub fn zero() -> (p: Point)
        ensures
            p == (Point { x: 0, y: 0 }),
    {
        Point { x: 0, y: 0 }
    }

    pub fn plus(self, other: Point) -> (p: Point)
        ensures
            p == self.sum(other),
    {
        Point {
            x: saturate(self.x as i128 + other.x as i128),
            y: saturate(self.y as i128 + other.y as i128),
        }
    }

    pub fn minus(self, other: Point) -> (p: Point)
        ensures
            p == self.difference(other),
    {
        Point {
            x: saturate(self.x as i128 - other.x as i128),
            y: saturate(self.y as i128 - other.y as i128),
        }
    }
}

/// An axis-aligned rectangle given by two corners. Nothing orders the
/// corners: a rectangle drawn right to left has a negative width.
#[derive(Clone, Copy, Debug, PartialEq, Eq, Structural)]
pub struct Rect {
    pub top_left: Point,
    pub bottom_right: Point,
}

impl Rect {
    pub open spec fn spec_width(self) -> int {
        self.bottom_right.x - self.top_left.x
    }

    pub open spec fn spec_height(self) -> int {
        self.bottom_right.y - self.top_left.y
    }

    /// Whether `point` lies in the rectangle: the top and left edges
    /// belong to it, the bottom and right edges do not.
    pub open spec fn spec_contains(self, point: Point) -> bool {
        &&& point.x >= self.top_left.x
        &&& point.y >= self.top_left.y
        &&& point.x < self.bottom_right.x
        &&& point.y < self.bottom_right.y
    }

    /// Whether both corners of `inner` lie in the rectangle.
    pub open spec fn spec_encloses(self, inner: Rect) -> bool {
        self.spec_contains(inner.top_left) && self.spec_contains(inner.bottom_right)
    }

    /// The same area with the smaller coordinate first on both axes.
    pub open spec fn spec_normalized(self) -> Rect {
        Rect {
            top_left: Point {
                x: if self.top_left.x <= self.bottom_right.x {
                    self.top_left.x
                } else {
                    self.bottom_right.x
                },
                y: if self.top_left.y <= self.bottom_right.y {
                    self.top_left.y
                } else {
                    self.bottom_right.y
                },
            },
            bottom_right: Point {
                x: if self.top_left.x <= self.bottom_right.x {
                    self.bottom_right.x
                } else {
                    self.top_left.x
                },
                y: if self.top_left.y <= self.bottom_right.y {
                    self.bottom_right.y
                } else {
                    self.top_left.y
                },
            },
        }
    }

    /// The rectangle moved by `vector`, each corner clamped to the range.
    pub open spec fn spec_translated(self, vector: Point) -> Rect {
        Rect {
            top_left: self.top_left.sum(vector),
            bottom_right: self.bottom_right.sum(vector),
        }
    }

    /// Whether the rectangle is too small to lay anything out in.
    pub open spec fn spec_is_degenerate(self) -> bool {
        self.spec_width() < 1 || self.spec_height() < 1
    }

    pub fn new(top_left: Point, bottom_right: Point) -> (r: Rect)
        ensures
            r == (Rect { top_left, bottom_right }),
    {
        Rect { top_left, bottom_right }
    }

    /// The empty rectangle at the origin.
    pub fn zero() -> (r: Rect)
        ensures
            r.top_left == (Point { x: 0, y: 0 }),
            r.bottom_right == (Point { x: 0, y: 0 }),
    {
        Rect { top_left: Point::zero(), bottom_right: Point::zero() }
    }

    pub fn left(&self) -> (v: i32)
        ensures
            v == self.top_left.x,
    {
        self.top_left.x
    }

    pub fn top(&self) -> (v: i32)
        ensures
            v == self.top_left.y,
    {
        self.top_left.y
    }

    pub fn right(&self) -> (v: i32)
        ensures
            v == self.bottom_right.x,
    {
        self.bottom_right.x
    }

    pub fn bottom(&self) -> (v: i32)
        ensures
            v == self.bottom_right.y,
    {
        self.bottom_right.y
    }

    pub fn width(&self) -> (w: i64)
        ensures
            w as int == self.spec_width(),
    {
        self.bottom_right.x as i64 - self.top_left.x as i64
    }

    pub fn height(&self) -> (h: i64)
        ensures
            h as int == self.spec_height(),
    {
        self.bottom_right.y as i64 - self.top_left.y as i64
    }

    pub fn contains(&self, point: Point) -> (inside: bool)
        ensures
            inside == self.spec_contains(point),
    {
        point.x >= self.top_left.x && point.y >= self.top_left.y && point.x
            < self.bottom_right.x && point.y < self.bottom_right.y
    }

    pub fn encloses(&self, inner: &Rect) -> (inside: bool)
        ensures
            inside == self.spec_encloses(*inner),
    {
        self.contains(inner.top_left) && self.contains(inner.bottom_right)
    }

    pub fn normalized(&self) -> (r: Rect)
        ensures
            r == self.spec_normalized(),
    {
        let (left, right) = if self.top_left.x <= self.bottom_right.x {
            (self.top_left.x, self.bottom_right.x)
        } else {
            (self.bottom_right.x, self.top_left.x)
        };
        let (top, bottom) = if self.top_left.y <= self.bottom_right.y {
            (self.top_left.y, self.bottom_right.y)
        } else {
            (self.bottom_right.y, self.top_left.y)
        };
        Rect { top_left: Point { x: left, y: top }, bottom_right: Point { x: right, y: bottom } }
    }

    pub fn translated(&self, vector: Point) -> (r: Rect)
        ensures
            r == self.spec_translated(vector),
    {
        Rect {
            top_left: self.top_left.plus(vector),
            bottom_right: self.bottom_right.plus(vector),
        }
    }

    pub fn is_degenerate(&self) -> (degenerate: bool)
        ensures
            degenerate == self.spec_is_degenerate(),
    {
        self.width() < 1 || self.height() < 1
    }
}

/// A rectangle drawn with rounded corners. Its corners do not count in
/// hit testing: a point is in it where it is in `rect`.
#[derive(Clone, Copy, Debug, PartialEq, Eq, Structural)]
pub struct RoundedRect {
    pub rect: Rect,
    pub radius: i32,
}

impl RoundedRect {
    pub fn new(rect: Rect, radius: i32) -> (r: RoundedRect)
        ensures
            r == (RoundedRect { rect, radius }),
    {
        RoundedRect { rect, radius }
    }

    pub fn contains(&self, point: Point) -> (inside: bool)
        ensures
            inside == self.rect.spec_contains(point),
    {
        self.rect.contains(point)
    }
}

/// A ratio by which content is sized: `num / den`.
#[derive(Clone, Copy, Debug, PartialEq, Eq, Structural)]
pub struct Scale {
    pub num: i64,
    pub den: i64,
}

impl Scale {
    /// A length times the ratio, rounded away from zero and clamped to
    /// the range; zero where `den` is zero.
    pub open spec fn spec_apply(self, length: int) -> int {
        clamp_coord(ratio_up(length * self.num, self.den as int))
    }

    /// Whether the ratio is above zero.
    pub open spec fn is_positive(self) -> bool {
        (self.num > 0 && self.den > 0) || (self.num < 0 && self.den < 0)
    }

    /// The ratio of 1.
    pub fn unit() -> (s: Scale)
        ensures
            s == (Scale { num: 1, den: 1 }),
    {
        Scale { num: 1, den: 1 }
    }

    /// The ratio of 0.
    pub fn none() -> (s: Scale)
        ensures
            s == (Scale { num: 0, den: 1 }),
    {
        Scale { num: 0, den: 1 }
    }

    pub fn apply(&self, length: i32) -> (scaled: i32)
        ensures
            scaled as int == self.spec_apply(length as int),
    {
        proof {
            assert(-WIDE_LIMIT <= length as int * self.num as int <= WIDE_LIMIT)
                by (nonlinear_arith)
                requires
                    -0x8000_0000 <= length as int <= 0x8000_0000,
                    -0x8000_0000_0000_0000 <= self.num as int <= 0x8000_0000_0000_0000,
                    WIDE_LIMIT == 0x4000_0000_0000_0000_0000_0000,
            ;
        }
        let product: i128 = length as i128 * self.num as i128;
        saturate(divide_up(product, self.den as i128))
    }
}

/// Where `p` lands when the span that starts at `from_start` and is
/// `from_length` long is laid over the span that starts at `to_start` and
/// is `to_length` long: the part of the way along the first span, rounded
/// toward zero, taken along the second. An empty first span puts
/// everything at `to_start`.
pub open spec fn project(
    p: int,
    from_start: int,
    from_length: int,
    to_start: int,
    to_length: int,
) -> int {
    ratio((p - from_start) * to_length, from_length) + to_start
}

/// `project` on coordinates, before clamping.
pub fn project_coord(p: i32, from_start: i32, from_length: i64, to_start: i32, to_length: i64) -> (r:
    i128)
    requires
        -0x1_0000_0000 <= from_length <= 0x1_0000_0000,
        -0x1_0000_0000 <= to_length <= 0x1_0000_0000,
    ensures
        r as int == project(
            p as int,
            from_start as int,
            from_length as int,
            to_start as int,
            to_length as int,
        ),
        -0x1_0000_0000_0000_0000_0000 <= r <= 0x1_0000_0000_0000_0000_0000,
{
    let offset: i128 = p as i128 - from_start as i128;
    proof {
        assert(-0x1_0000_0000_0000_0000 <= offset as int * to_length as int
            <= 0x1_0000_0000_0000_0000) by (nonlinear_arith)
            requires
                -0x1_0000_0000 <= offset as int <= 0x1_0000_0000,
                -0x1_0000_0000 <= to_length as int <= 0x1_0000_0000,
        ;
    }
    let product: i128 = offset * to_length as i128;
    let along: i128 = divide(product, from_length as i128);
    along + to_start as i128
}

} // verus!
