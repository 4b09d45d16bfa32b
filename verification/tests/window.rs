use rmaps::geometry::{Point, Rect};
use rmaps::side_panel::menu_hitboxes;
use rmaps::utils::{viewport_to_window, window_to_viewport};
use rmaps::window::{classify, layout, module_position, ClickCounter, PointerTarget};

#[test]
fn layout_divides_the_window() {
    let areas = layout(1500, 1000);
    assert_eq!(areas.top_panel, Rect::new(Point::new(0, 0), Point::new(1500, 50)));
    assert_eq!(areas.side_panel, Rect::new(Point::new(0, 50), Point::new(300, 1000)));
    assert_eq!(areas.module, Rect::new(Point::new(300, 50), Point::new(1500, 1000)));
}

#[test]
fn layout_of_an_empty_and_of_a_huge_window() {
    let empty = layout(0, 0);
    assert_eq!(empty.module, Rect::zero());
    let huge = layout(u32::MAX, 99);
    assert_eq!(huge.top_panel, Rect::new(Point::new(0, 0), Point::new(i32::MAX, 4)));
    assert_eq!(huge.module, Rect::new(Point::new(429496729, 4), Point::new(i32::MAX, 99)));
}

#[test]
fn pointer_events_are_classified_by_area() {
    let areas = layout(1500, 1000);
    assert_eq!(classify(&areas, Point::new(100, 500)), PointerTarget::SidePanel);
    assert_eq!(classify(&areas, Point::new(100, 20)), PointerTarget::TopPanel);
    assert_eq!(classify(&areas, Point::new(700, 20)), PointerTarget::TopPanel);
    assert_eq!(classify(&areas, Point::new(700, 500)), PointerTarget::Module);
    assert_eq!(classify(&areas, Point::new(300, 50)), PointerTarget::Module);
    assert_eq!(classify(&areas, Point::new(299, 50)), PointerTarget::SidePanel);
    assert_eq!(classify(&areas, Point::new(-1, -1)), PointerTarget::Module);
}

#[test]
fn module_position_counts_from_the_module_corner() {
    let areas = layout(1500, 1000);
    let handed = module_position(&areas, Point::new(700, 500));
    assert_eq!(handed.viewport(), Point::new(700, 500));
    assert_eq!(handed.module(), Point::new(400, 450));
}

#[test]
fn clicks_within_the_window_count_up() {
    let mut counter = ClickCounter::new();
    assert_eq!(counter.click(1_000), 1);
    assert_eq!(counter.click(1_300), 2);
    assert_eq!(counter.click(1_699), 3);
    assert_eq!(counter.click(2_099), 1);
    assert_eq!(counter.click(2_100), 2);
}

#[test]
fn a_move_or_a_clock_set_back_ends_the_gesture() {
    let mut counter = ClickCounter::new();
    assert_eq!(counter.click(1_000), 1);
    counter.forget();
    assert_eq!(counter.click(1_001), 1);
    assert_eq!(counter.click(900), 1);
    assert_eq!(counter.click(900), 2);
}

#[test]
fn click_count_stops_at_the_largest() {
    let mut counter = ClickCounter { last_click: Some(5), count: i32::MAX };
    assert_eq!(counter.click(6), i32::MAX);
}

#[test]
fn menu_entries_lie_one_below_the_other() {
    let bounds = Rect::new(Point::new(0, 50), Point::new(300, 1000));
    let sizes = vec![Point::new(200, 60), Point::new(100, 60)];
    assert_eq!(
        menu_hitboxes(&bounds, &sizes),
        vec![
            Rect::new(Point::new(15, 59), Point::new(215, 119)),
            Rect::new(Point::new(15, 133), Point::new(115, 193)),
        ]
    );
    assert_eq!(menu_hitboxes(&bounds, &Vec::new()), Vec::<Rect>::new());
}

#[test]
fn window_center_is_the_viewport_corner() {
    let window = Point::new(1500, 1000);
    let viewport = Rect::new(Point::new(0, 0), Point::new(1500, 1000));
    assert_eq!(window_to_viewport(Point::new(750, 500), window, viewport), Point::new(0, 0));
    assert_eq!(window_to_viewport(Point::new(1500, 1000), window, viewport), Point::new(750, 500));
    assert_eq!(window_to_viewport(Point::new(0, 0), window, viewport), Point::new(-750, -500));
    let shifted = Rect::new(Point::new(100, -100), Point::new(3100, 1900));
    assert_eq!(window_to_viewport(Point::new(1500, 1000), window, shifted), Point::new(1600, 900));
    assert_eq!(
        window_to_viewport(Point::new(2, 2), Point::new(3, 3), Rect::new(Point::new(0, 0), Point::new(30, 30))),
        Point::new(5, 5)
    );
    assert_eq!(window_to_viewport(Point::new(9, 9), Point::new(0, 0), shifted), Point::new(100, -100));
}

#[test]
fn viewport_to_window_undoes_window_to_viewport() {
    let window = Point::new(1500, 1000);
    let viewport = Rect::new(Point::new(0, 0), Point::new(1500, 1000));
    assert_eq!(viewport_to_window(Point::new(0, 0), window, viewport), Point::new(750, 500));
    assert_eq!(viewport_to_window(Point::new(750, 500), window, viewport), Point::new(1500, 1000));
    let shifted = Rect::new(Point::new(100, -100), Point::new(3100, 1900));
    for point in [Point::new(0, 0), Point::new(1500, 1000), Point::new(400, 900)] {
        let there = window_to_viewport(point, window, shifted);
        assert_eq!(viewport_to_window(there, window, shifted), point);
    }
    assert_eq!(viewport_to_window(Point::new(5, 5), window, Rect::zero()), Point::new(0, 0));
}
