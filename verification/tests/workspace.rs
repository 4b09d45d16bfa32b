use rmaps::draw::{DrawCommand, BLUE, RED};
use rmaps::dummy::DummyModule;
use rmaps::generic_node_container::GenericNodeContainer;
use rmaps::geometry::{Point, Rect};
use rmaps::input::{Key, MouseButton, MousePosition, MouseScrollDistance};
use rmaps::module::ModuleCall;
use rmaps::node::NodeStore;
use rmaps::node_container::NodeContainer;
use rmaps::workspace::{AnyModule, Frame, Workspace};

fn physical() -> Rect {
    Rect::new(Point::new(300, 50), Point::new(1500, 1000))
}

fn frame(delta_micros: u64) -> Frame {
    Frame {
        viewport: physical(),
        delta_micros,
        sizes: Vec::new(),
        caret_offset: 0,
        selection_offset: 0,
        now: 0,
    }
}

fn at(x: i32, y: i32) -> MousePosition {
    MousePosition::new(Point::new(x, y), Point::new(x - 300, y - 50))
}

fn workspace() -> Workspace {
    Workspace::new(vec![
        AnyModule::Canvas(GenericNodeContainer::new()),
        AnyModule::Cursor(NodeContainer::new()),
        AnyModule::Dummy(DummyModule::new()),
    ])
    .unwrap()
}

fn canvas(workspace: &Workspace) -> &GenericNodeContainer {
    match &workspace.modules[0] {
        AnyModule::Canvas(canvas) => canvas,
        _ => panic!("the first module is the canvas"),
    }
}

fn cursor(workspace: &Workspace) -> &NodeContainer {
    match &workspace.modules[1] {
        AnyModule::Cursor(cursor) => cursor,
        _ => panic!("the second module is the cursor"),
    }
}

#[test]
fn workspace_needs_a_module() {
    assert!(Workspace::new(Vec::new()).is_none());
    let workspace = workspace();
    assert_eq!(workspace.registry.count(), 3);
    assert_eq!(workspace.registry.active(), 0);
    assert_eq!(workspace.names(), vec!["Generic Node Container", "NodeContainer", "Dummy Module"]);
}

#[test]
fn the_draw_after_a_switch_is_that_of_the_new_module() {
    let mut workspace = workspace();
    workspace.advance(physical(), 10_000);
    let first = workspace.draw(&frame(10_000));
    assert_eq!(first.len(), 6);
    assert_eq!(canvas(&workspace).viewport, physical());

    let calls = workspace.switch_to(2);
    assert_eq!(calls, vec![ModuleCall::Close(0), ModuleCall::Open(2)]);
    workspace.advance(physical(), 10_000);
    assert_eq!(
        workspace.draw(&frame(10_000)),
        vec![DrawCommand::Rectangle { rect: physical(), color: BLUE }]
    );

    let calls = workspace.switch_to(1);
    assert_eq!(calls, vec![ModuleCall::Close(2), ModuleCall::Open(1)]);
    assert_eq!(
        workspace.draw(&frame(10_000)),
        vec![DrawCommand::Circle { center: Point::new(900, 525), radius: 10, color: RED }]
    );
}

#[test]
fn events_reach_only_the_active_module() {
    let mut workspace = workspace();
    let mut store = NodeStore::new();
    let sizes: Vec<Point> = Vec::new();
    workspace.advance(physical(), 10_000);
    workspace.handle_key_down(Some(Key::K), &store, 0);
    assert_eq!(cursor(&workspace).speed, (0, 0, 0, 0));
    workspace.handle_mouse_down(&mut store, &sizes, at(500, 300), 2, MouseButton::Left, 0);
    workspace.handle_mouse_up(&sizes, at(500, 300), 2, MouseButton::Left);
    assert_eq!(canvas(&workspace).wrapped_nodes.len(), 1);
    assert_eq!(store.len(), 1);

    workspace.switch_to(1);
    workspace.handle_key_down(Some(Key::K), &store, 0);
    assert_eq!(cursor(&workspace).speed, (0, 0, 230, 0));
    workspace.handle_key_up(Some(Key::K));
    assert_eq!(cursor(&workspace).speed, (0, 0, 0, 0));
    workspace.handle_mouse_down(&mut store, &sizes, at(900, 700), 2, MouseButton::Left, 0);
    workspace.handle_mouse_move(&sizes, at(910, 700));
    workspace.handle_drag(at(910, 700), MouseScrollDistance::Lines { x: 0, y: 3_000, z: 0 });
    workspace.handle_char(&mut store, '\u{7f}');
    assert_eq!(canvas(&workspace).wrapped_nodes.len(), 1);
    assert_eq!(canvas(&workspace).target_viewport, physical());
    assert_eq!(canvas(&workspace).pivot, Point::new(0, 0));
    assert_eq!(store.len(), 1);

    workspace.switch_to(0);
    workspace.handle_mouse_move(&sizes, at(910, 700));
    assert_eq!(canvas(&workspace).pivot, Point::new(910, 700));
    workspace.handle_drag(at(900, 525), MouseScrollDistance::Lines { x: 0, y: 30_000, z: 0 });
    assert_eq!(
        canvas(&workspace).target_viewport,
        Rect::new(Point::new(-300, -425), Point::new(2100, 1475))
    );
    workspace.handle_mouse_down(&mut store, &vec![Point::zero()], at(500, 300), 1, MouseButton::Left, 0);
    workspace.handle_char(&mut store, '\u{7f}');
    assert_eq!(canvas(&workspace).wrapped_nodes.len(), 0);
    assert_eq!(store.len(), 0);
}

#[test]
fn only_the_dummy_module_has_notices() {
    let mut modules = vec![
        AnyModule::Canvas(GenericNodeContainer::new()),
        AnyModule::Cursor(NodeContainer::new()),
        AnyModule::Dummy(DummyModule::new()),
    ];
    assert_eq!(modules[0].open(), None);
    assert_eq!(modules[1].close(), None);
    assert_eq!(modules[2].open(), Some("loaded dummy module".to_string()));
    assert_eq!(modules[2].close(), Some("unloaded dummy module".to_string()));
    assert_eq!(modules[2].get_name(), "Dummy Module");
}

#[test]
fn switch_to_a_missing_module_keeps_the_route() {
    let mut workspace = workspace();
    assert_eq!(workspace.switch_to(3), vec![]);
    assert_eq!(workspace.registry.active(), 0);
    workspace.advance(physical(), 10_000);
    assert_eq!(workspace.draw(&frame(0)).len(), 6);
}
