use rmaps::geometry::{Point, Rect};
use rmaps::viewport::{lerp, lerp_rect, zoom, zoom_coord};

#[test]
fn lerp_covers_the_share_of_the_frame() {
    assert_eq!(lerp(0, 100, 5_000), 50);
    assert_eq!(lerp(0, 100, 2_500), 25);
    assert_eq!(lerp(100, 0, 5_000), 50);
    assert_eq!(lerp(0, -3, 5_000), -2);
    assert_eq!(lerp(0, 100, 1), 1);
}

#[test]
fn lerp_reaches_the_goal_in_a_long_frame() {
    assert_eq!(lerp(0, 100, 10_000), 100);
    assert_eq!(lerp(0, 100, 20_000), 100);
    assert_eq!(lerp(i32::MIN, i32::MAX, u64::MAX), i32::MAX);
    assert_eq!(lerp(i32::MAX, i32::MIN, 10_000), i32::MIN);
}

#[test]
fn lerp_rests_at_the_goal_and_without_time() {
    assert_eq!(lerp(42, 42, 5_000), 42);
    assert_eq!(lerp(0, 100, 0), 0);
}

#[test]
fn lerp_converges_without_overshoot() {
    let goal = 1000;
    let mut edge = -1000;
    let mut frames = 0;
    while edge != goal {
        let next = lerp(edge, goal, 3_030);
        assert!(next > edge);
        assert!(next <= goal);
        edge = next;
        frames += 1;
        assert!(frames <= 2000);
    }
    assert_eq!(lerp(edge, goal, 3_030), goal);
}

#[test]
fn lerp_converges_from_above() {
    let goal = -7;
    let mut edge = 500;
    let mut frames = 0;
    while edge != goal {
        let next = lerp(edge, goal, 1);
        assert!(next < edge);
        assert!(next >= goal);
        edge = next;
        frames += 1;
    }
    assert_eq!(frames, 507);
}

#[test]
fn lerp_rect_moves_each_edge() {
    let current = Rect::new(Point::new(0, 0), Point::new(100, 100));
    let goal = Rect::new(Point::new(10, -10), Point::new(200, 50));
    assert_eq!(
        lerp_rect(&current, &goal, 5_000),
        Rect::new(Point::new(5, -5), Point::new(150, 75))
    );
}

#[test]
fn zoom_moves_corners_away_from_the_cursor() {
    let rect = Rect::new(Point::new(0, 0), Point::new(300, 300));
    assert_eq!(
        zoom(&rect, Point::new(150, 150), 3_000),
        Rect::new(Point::new(-15, -15), Point::new(315, 315))
    );
    assert_eq!(
        zoom(&rect, Point::new(150, 150), -3_000),
        Rect::new(Point::new(15, 15), Point::new(285, 285))
    );
    assert_eq!(
        zoom(&rect, Point::new(0, 300), 30_000),
        Rect::new(Point::new(0, -300), Point::new(600, 300))
    );
    assert_eq!(zoom(&rect, Point::new(150, 150), 0), rect);
}

#[test]
fn zoom_coord_rounds_toward_zero_and_clamps() {
    assert_eq!(zoom_coord(10, 0, 1_000), 10);
    assert_eq!(zoom_coord(100, 0, 1_000), 103);
    assert_eq!(zoom_coord(-100, 0, 1_000), -103);
    assert_eq!(zoom_coord(i32::MAX, 0, 30_000), i32::MAX);
}

#[test]
fn lerp_leaves_the_uncovered_share_rounded_down() {
    assert_eq!(lerp(0, 1_000, 2_500), 250);
    assert_eq!(lerp(0, 7, 2_500), 2);
    assert_eq!(lerp(7, 0, 2_500), 5);
    assert_eq!(lerp(-3, 4, 9_999), 4);
    assert_eq!(lerp(0, 20_000, 9_999), 19_998);
}

#[test]
fn lerp_stays_within_the_geometric_bound() {
    let goal: i64 = 1_000_000;
    let mut edge: i32 = 0;
    let mut bound: f64 = goal as f64;
    for _ in 0..60 {
        edge = lerp(edge, goal as i32, 2_500);
        bound *= 0.75;
        assert!(((goal - edge as i64) as f64) <= bound + 1e-6);
    }
    assert_eq!(edge, goal as i32);
}
