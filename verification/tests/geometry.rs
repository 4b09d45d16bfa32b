use rmaps::geometry::{divide, divide_up, project_coord, saturate, Point, Rect, RoundedRect, Scale};

#[test]
fn saturate_clamps_to_the_coordinate_range() {
    assert_eq!(saturate(0), 0);
    assert_eq!(saturate(-5), -5);
    assert_eq!(saturate(2147483647), i32::MAX);
    assert_eq!(saturate(2147483648), i32::MAX);
    assert_eq!(saturate(-2147483649), i32::MIN);
    assert_eq!(saturate(1 << 80), i32::MAX);
}

#[test]
fn divide_rounds_toward_zero() {
    assert_eq!(divide(7, 2), 3);
    assert_eq!(divide(-7, 2), -3);
    assert_eq!(divide(7, -2), -3);
    assert_eq!(divide(-7, -2), 3);
    assert_eq!(divide(7, 0), 0);
    assert_eq!(divide(0, 5), 0);
}

#[test]
fn divide_up_rounds_away_from_zero() {
    assert_eq!(divide_up(7, 2), 4);
    assert_eq!(divide_up(-7, 2), -4);
    assert_eq!(divide_up(7, -2), -4);
    assert_eq!(divide_up(-7, -2), 4);
    assert_eq!(divide_up(8, 2), 4);
    assert_eq!(divide_up(1, 1000), 1);
    assert_eq!(divide_up(0, 1000), 0);
    assert_eq!(divide_up(7, 0), 0);
}

#[test]
fn points_add_and_subtract_with_clamping() {
    let a = Point::new(3, -4);
    let b = Point::new(10, 20);
    assert_eq!(a.plus(b), Point::new(13, 16));
    assert_eq!(a.minus(b), Point::new(-7, -24));
    assert_eq!(Point::new(i32::MAX, i32::MIN).plus(Point::new(1, -1)), Point::new(i32::MAX, i32::MIN));
    assert_eq!(Point::new(i32::MIN, 0).minus(Point::new(1, i32::MIN)), Point::new(i32::MIN, i32::MAX));
    assert_eq!(Point::zero(), Point::new(0, 0));
}

#[test]
fn rect_edges_and_extent() {
    let r = Rect::new(Point::new(10, 20), Point::new(110, 70));
    assert_eq!((r.left(), r.top(), r.right(), r.bottom()), (10, 20, 110, 70));
    assert_eq!(r.width(), 100);
    assert_eq!(r.height(), 50);
    let wide = Rect::new(Point::new(i32::MIN, 0), Point::new(i32::MAX, 0));
    assert_eq!(wide.width(), 4294967295);
    let flipped = Rect::new(Point::new(5, 5), Point::new(0, 0));
    assert_eq!(flipped.width(), -5);
    assert!(flipped.is_degenerate());
    assert!(Rect::zero().is_degenerate());
    assert!(!r.is_degenerate());
}

#[test]
fn rect_contains_top_left_but_not_bottom_right() {
    let r = Rect::new(Point::new(10, 20), Point::new(110, 70));
    assert!(r.contains(Point::new(10, 20)));
    assert!(r.contains(Point::new(109, 69)));
    assert!(!r.contains(Point::new(110, 69)));
    assert!(!r.contains(Point::new(109, 70)));
    assert!(!r.contains(Point::new(9, 20)));
    assert!(!r.contains(Point::new(10, 19)));
}

#[test]
fn rect_normalizes_and_encloses() {
    let drawn = Rect::new(Point::new(200, 10), Point::new(10, 100));
    let normal = drawn.normalized();
    assert_eq!(normal, Rect::new(Point::new(10, 10), Point::new(200, 100)));
    assert_eq!(normal.normalized(), normal);
    assert!(normal.encloses(&Rect::new(Point::new(74, 24), Point::new(166, 86))));
    assert!(!normal.encloses(&Rect::new(Point::new(74, 24), Point::new(200, 86))));
    assert!(!normal.encloses(&Rect::new(Point::new(5, 24), Point::new(166, 86))));
    assert!(!drawn.encloses(&Rect::new(Point::new(74, 24), Point::new(166, 86))));
}

#[test]
fn rect_translates() {
    let r = Rect::new(Point::new(10, 20), Point::new(110, 70));
    assert_eq!(r.translated(Point::new(-10, 5)), Rect::new(Point::new(0, 25), Point::new(100, 75)));
}

#[test]
fn rounded_rect_contains_like_its_rect() {
    let r = RoundedRect::new(Rect::new(Point::new(0, 0), Point::new(100, 100)), 20);
    assert!(r.contains(Point::new(0, 0)));
    assert!(r.contains(Point::new(99, 99)));
    assert!(!r.contains(Point::new(100, 100)));
}

#[test]
fn scale_applies_rounding_up() {
    assert_eq!(Scale::unit().apply(26), 26);
    assert_eq!(Scale::none().apply(26), 0);
    assert_eq!(Scale { num: 2, den: 1 }.apply(26), 52);
    assert_eq!(Scale { num: 1, den: 3 }.apply(26), 9);
    assert_eq!(Scale { num: 1, den: 1000 }.apply(26), 1);
    assert_eq!(Scale { num: -1, den: 2 }.apply(5), -3);
    assert_eq!(Scale { num: 5, den: 0 }.apply(26), 0);
    assert_eq!(Scale { num: i64::MAX, den: 1 }.apply(2), i32::MAX);
}

#[test]
fn project_lays_one_span_over_another() {
    assert_eq!(project_coord(100, 0, 1000, 0, 2000), 200);
    assert_eq!(project_coord(100, 0, 1000, 50, 500), 100);
    assert_eq!(project_coord(5, 0, 3, 0, 1), 1);
    assert_eq!(project_coord(-5, 0, 3, 0, 1), -1);
    assert_eq!(project_coord(100, 0, 0, 7, 2000), 7);
}
