use rmaps::dummy::DummyModule;
use rmaps::draw::{DrawCommand, BLUE};
use rmaps::geometry::{Point, Rect};
use rmaps::keyboard_shortcut::KeyShortcut;
use rmaps::link::Link;
use rmaps::module::{ModuleCall, ModuleRegistry};

#[test]
fn registry_needs_a_module() {
    assert!(ModuleRegistry::new(0).is_none());
    let registry = ModuleRegistry::new(3).unwrap();
    assert_eq!(registry.count(), 3);
    assert_eq!(registry.active(), 0);
}

#[test]
fn switch_closes_then_opens_and_reroutes() {
    let mut registry = ModuleRegistry::new(2).unwrap();
    let calls = registry.switch_to(1);
    assert_eq!(calls, vec![ModuleCall::Close(0), ModuleCall::Open(1)]);
    assert_eq!(registry.active(), 1);
    let back = registry.switch_to(0);
    assert_eq!(back, vec![ModuleCall::Close(1), ModuleCall::Open(0)]);
    assert_eq!(registry.active(), 0);
}

#[test]
fn switch_to_the_active_module_reopens_it() {
    let mut registry = ModuleRegistry::new(2).unwrap();
    assert_eq!(registry.switch_to(0), vec![ModuleCall::Close(0), ModuleCall::Open(0)]);
    assert_eq!(registry.active(), 0);
}

#[test]
fn switch_to_a_missing_module_changes_nothing() {
    let mut registry = ModuleRegistry::new(2).unwrap();
    assert_eq!(registry.switch_to(2), vec![]);
    assert_eq!(registry.active(), 0);
    assert_eq!(registry.count(), 2);
}

#[test]
fn load_and_unload_follow_registration_order() {
    let registry = ModuleRegistry::new(3).unwrap();
    assert_eq!(
        registry.load_calls(),
        vec![ModuleCall::Load(0), ModuleCall::Load(1), ModuleCall::Load(2)]
    );
    assert_eq!(
        registry.unload_calls(),
        vec![ModuleCall::Unload(0), ModuleCall::Unload(1), ModuleCall::Unload(2)]
    );
}

#[test]
fn menu_click_switches_to_the_entry_hit() {
    let mut registry = ModuleRegistry::new(2).unwrap();
    let hitboxes = vec![
        Rect::new(Point::new(10, 10), Point::new(200, 60)),
        Rect::new(Point::new(10, 80), Point::new(200, 130)),
    ];
    assert_eq!(registry.handle_click(&hitboxes, Point::new(5, 5)), vec![]);
    assert_eq!(registry.active(), 0);
    assert_eq!(
        registry.handle_click(&hitboxes, Point::new(50, 100)),
        vec![ModuleCall::Close(0), ModuleCall::Open(1)]
    );
    assert_eq!(registry.active(), 1);
}

#[test]
fn menu_click_on_overlapping_entries_switches_in_order() {
    let mut registry = ModuleRegistry::new(2).unwrap();
    let hitboxes = vec![
        Rect::new(Point::new(0, 0), Point::new(100, 100)),
        Rect::new(Point::new(0, 0), Point::new(100, 100)),
        Rect::new(Point::new(0, 0), Point::new(100, 100)),
    ];
    assert_eq!(
        registry.handle_click(&hitboxes, Point::new(50, 50)),
        vec![
            ModuleCall::Close(0),
            ModuleCall::Open(0),
            ModuleCall::Close(0),
            ModuleCall::Open(1),
        ]
    );
    assert_eq!(registry.active(), 1);
}

#[test]
fn dummy_module_draws_a_blue_area() {
    let mut dummy = DummyModule::new();
    assert_eq!(dummy.get_name(), "Dummy Module");
    let area = Rect::new(Point::new(300, 50), Point::new(1500, 1000));
    assert_eq!(dummy.draw(area, 3000), vec![DrawCommand::Rectangle { rect: area, color: BLUE }]);
    assert_eq!(dummy.open(), "loaded dummy module");
    assert_eq!(dummy.close(), "unloaded dummy module");
}

#[test]
fn shortcut_matches_its_keys_in_any_order() {
    let shortcut = KeyShortcut::new(vec!['a', 'b', 'c']);
    assert!(shortcut.equals_permut(&['c', 'a', 'b']));
    assert!(shortcut.equals_permut(&['b', 'b']));
    assert!(shortcut.equals_permut(&[]));
    assert!(!shortcut.equals_permut(&['a', 'd']));
    assert!(!KeyShortcut::new(vec![]).equals_permut(&['a']));
}

#[test]
fn link_holds_its_ends() {
    let link = Link { id: 1, from_id: 2, to_id: 3, owner: "canvas".to_string() };
    assert_eq!((link.id, link.from_id, link.to_id), (1, 2, 3));
    assert_eq!(link.owner, "canvas");
}
