use rmaps::draw::{DrawCommand, BLACK, PANEL_BACKGROUND_COLOR, RED};
use rmaps::geometry::{Point, Rect};
use rmaps::input::{Key, MouseButton};
use rmaps::module::{ModuleCall, ModuleRegistry};
use rmaps::node_container::NodeContainer;
use rmaps::side_panel::{area, SidePanel};
use rmaps::top_panel::TopPanel;

fn physical() -> Rect {
    Rect::new(Point::new(300, 50), Point::new(1500, 1000))
}

fn circle(x: i32, y: i32) -> Vec<DrawCommand> {
    vec![DrawCommand::Circle { center: Point::new(x, y), radius: 10, color: RED }]
}

#[test]
fn area_spans_from_the_offset() {
    assert_eq!(area((300, 950), (0, 50)), Rect::new(Point::new(0, 50), Point::new(300, 1000)));
    assert_eq!(area((10, 10), (i32::MAX, 0)), Rect::new(Point::new(i32::MAX, 0), Point::new(i32::MAX, 10)));
}

#[test]
fn side_panel_draws_its_frame_and_one_label_for_each_module() {
    let mut panel = SidePanel::new();
    assert_eq!(panel.get_bounds(), Rect::zero());
    assert!(panel.hitboxes.is_empty());
    assert_eq!(SidePanel::wrap_width((300, 950), (0, 50)), 285);
    let sizes = vec![Point::new(200, 60), Point::new(100, 60)];
    let commands = panel.draw((300, 950), (0, 50), &sizes);
    let bounds = Rect::new(Point::new(0, 50), Point::new(300, 1000));
    assert_eq!(panel.get_bounds(), bounds);
    assert_eq!(
        panel.hitboxes,
        vec![
            Rect::new(Point::new(15, 59), Point::new(215, 119)),
            Rect::new(Point::new(15, 133), Point::new(115, 193)),
        ]
    );
    let line = |from: (i32, i32), to: (i32, i32)| DrawCommand::Line {
        from: Point::new(from.0, from.1),
        to: Point::new(to.0, to.1),
        thickness: 2,
        color: BLACK,
    };
    assert_eq!(
        commands,
        vec![
            DrawCommand::Rectangle { rect: bounds, color: PANEL_BACKGROUND_COLOR },
            line((0, 50), (0, 1000)),
            line((300, 50), (300, 1000)),
            line((0, 50), (300, 50)),
            line((0, 1000), (300, 1000)),
            DrawCommand::Label {
                position: Point::new(15, 59),
                module: 0,
                font_size: 60,
                wrap_width: 285,
                color: BLACK,
            },
            DrawCommand::Label {
                position: Point::new(15, 133),
                module: 1,
                font_size: 60,
                wrap_width: 285,
                color: BLACK,
            },
        ]
    );
}

#[test]
fn side_panel_click_switches_the_module() {
    let mut panel = SidePanel::new();
    let mut registry = ModuleRegistry::new(2).unwrap();
    assert_eq!(panel.handle_click(&mut registry, Point::new(20, 140), 1, MouseButton::Left), vec![]);
    panel.draw((300, 950), (0, 50), &vec![Point::new(200, 60), Point::new(100, 60)]);
    assert_eq!(
        panel.handle_click(&mut registry, Point::new(20, 140), 1, MouseButton::Left),
        vec![ModuleCall::Close(0), ModuleCall::Open(1)]
    );
    assert_eq!(registry.active(), 1);
    assert_eq!(panel.handle_click(&mut registry, Point::new(20, 125), 1, MouseButton::Left), vec![]);
    assert_eq!(registry.active(), 1);
}

#[test]
fn top_panel_draws_its_background() {
    let mut panel = TopPanel::new();
    assert_eq!(panel.get_bounds(), Rect::zero());
    let commands = panel.draw((1500, 50), (0, 0));
    let bounds = Rect::new(Point::new(0, 0), Point::new(1500, 50));
    assert_eq!(panel.get_bounds(), bounds);
    assert_eq!(commands, vec![DrawCommand::Rectangle { rect: bounds, color: PANEL_BACKGROUND_COLOR }]);
}

#[test]
fn cursor_starts_in_the_middle_of_the_first_area() {
    let mut module = NodeContainer::new();
    assert_eq!(module.get_name(), "NodeContainer");
    assert_eq!(module.draw(physical(), 3_000), circle(900, 525));
    assert_eq!(module.viewport, physical());
    assert_eq!(module.cursor, (900_000_000, 525_000_000));
    let other = Rect::new(Point::new(0, 0), Point::new(10, 10));
    assert_eq!(module.draw(other, 3_000), circle(900, 525));
    assert_eq!(module.viewport, physical());
}

#[test]
fn held_keys_move_the_cursor() {
    let mut module = NodeContainer::new();
    module.draw(physical(), 0);
    module.handle_key_down(Some(Key::K));
    assert_eq!(module.speed, (0, 0, 230, 0));
    assert_eq!(module.draw(physical(), 1_000_000), circle(900, 755));
    module.handle_key_down(Some(Key::J));
    module.handle_key_down(Some(Key::Other));
    module.handle_key_down(None);
    assert_eq!(module.speed, (0, -230, 230, 0));
    assert_eq!(module.draw(physical(), 500_000), circle(785, 870));
    module.handle_key_down(Some(Key::I));
    module.handle_key_down(Some(Key::O));
    assert_eq!(module.speed, (-230, -230, 230, 230));
    assert_eq!(module.draw(physical(), 1_000_000), circle(785, 870));
    module.handle_key_up(Some(Key::K));
    module.handle_key_up(Some(Key::J));
    module.handle_key_up(None);
    assert_eq!(module.speed, (-230, 0, 0, 230));
    assert_eq!(module.draw(physical(), 100_000), circle(808, 847));
    module.handle_key_up(Some(Key::I));
    module.handle_key_up(Some(Key::O));
    assert_eq!(module.speed, (0, 0, 0, 0));
}

#[test]
fn short_frames_add_up() {
    let mut module = NodeContainer::new();
    module.draw(physical(), 0);
    module.handle_key_down(Some(Key::K));
    assert_eq!(module.draw(physical(), 3_000), circle(900, 525));
    assert_eq!(module.cursor, (900_000_000, 525_690_000));
    assert_eq!(module.draw(physical(), 3_000), circle(900, 526));
}

#[test]
fn cursor_stops_at_the_end_of_its_range() {
    let mut module = NodeContainer::new();
    module.draw(physical(), 0);
    module.handle_key_down(Some(Key::O));
    module.draw(physical(), u64::MAX);
    assert_eq!(module.cursor, (i64::MAX, 525_000_000));
    assert_eq!(module.draw(physical(), 0), circle(i32::MAX, 525));
}
