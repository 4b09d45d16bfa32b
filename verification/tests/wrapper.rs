use rmaps::draw::{
    DrawCommand, BLACK, WRAPPED_NODE_BORDER_COLOR, WRAPPED_NODE_COLOR, WRAPPED_NODE_SELECTED_COLOR,
};
use rmaps::geometry::{Point, Rect, Scale};
use rmaps::node::{Node, NodeStore};
use rmaps::wrapped_node::{expanded, NodeWrapper};

fn physical() -> Rect {
    Rect::new(Point::new(0, 0), Point::new(1000, 500))
}

fn doubled() -> Rect {
    Rect::new(Point::new(0, 0), Point::new(2000, 1000))
}

fn node(id: i64) -> Node {
    Node::restore(id, "text".to_string(), "canvas".to_string())
}

#[test]
fn new_wrapper_is_unselected_and_at_rest() {
    let wrapper = NodeWrapper::new(&node(5), (100, 50));
    assert_eq!(wrapper.get_node_id(), 5);
    assert_eq!(wrapper.get_position(), (100, 50));
    assert!(!wrapper.selected);
    assert!(wrapper.linked);
    assert_eq!(wrapper.offset, Point::new(0, 0));
    assert_eq!(*wrapper.get_cached_bounds(), (Rect::zero(), Scale { num: 0, den: 1 }));
}

#[test]
fn translation_at_rest_is_the_position() {
    let wrapper = NodeWrapper::for_id(1, (100, 50));
    let (anchor, scale) = wrapper.translation(&physical(), &physical());
    assert_eq!(anchor, Point::new(100, 50));
    assert_eq!(scale, Scale { num: 500, den: 500 });
}

#[test]
fn translation_follows_the_viewport_and_the_drag() {
    let mut wrapper = NodeWrapper::for_id(1, (100, 50));
    wrapper.set_offset(Point::new(7, -3));
    let (anchor, scale) = wrapper.translation(&physical(), &doubled());
    assert_eq!(anchor, Point::new(207, 97));
    assert_eq!(scale, Scale { num: 1000, den: 500 });
    let shifted = Rect::new(Point::new(300, 100), Point::new(1300, 600));
    let (moved, same) = wrapper.translation(&physical(), &shifted);
    assert_eq!(moved, Point::new(407, 147));
    assert_eq!(same, Scale { num: 500, den: 500 });
}

#[test]
fn translation_over_an_empty_area_lands_on_the_corner() {
    let wrapper = NodeWrapper::for_id(1, (100, 50));
    let (anchor, scale) = wrapper.translation(&Rect::zero(), &physical());
    assert_eq!(anchor, Point::new(0, 0));
    assert_eq!(scale.apply(26), 0);
}

#[test]
fn bounds_grow_the_text_box_by_border_and_padding() {
    let wrapper = NodeWrapper::for_id(1, (100, 50));
    let bounds = wrapper.calculate_bounds(&physical(), &physical(), Point::new(40, 10));
    assert_eq!(bounds.rect, Rect::new(Point::new(74, 24), Point::new(166, 86)));
    assert_eq!(bounds.radius, 20);
    let zoomed = wrapper.calculate_bounds(&physical(), &doubled(), Point::new(80, 20));
    assert_eq!(zoomed.rect, Rect::new(Point::new(148, 48), Point::new(332, 172)));
}

#[test]
fn bounds_contain_the_text_anchor_at_any_scale() {
    let wrapper = NodeWrapper::for_id(1, (100, 50));
    for height in [1, 2, 17, 499, 500, 501, 5000, 1_000_000] {
        let to = Rect::new(Point::new(-40, 30), Point::new(960, 30 + height));
        let (anchor, _) = wrapper.translation(&physical(), &to);
        for size in [Point::new(0, 0), Point::new(40, 10)] {
            let bounds = wrapper.calculate_bounds(&physical(), &to, size);
            assert!(bounds.contains(anchor));
        }
    }
}

#[test]
fn expanded_clamps_at_the_edge_of_the_range() {
    let rect = expanded(Point::new(i32::MAX, i32::MIN), Point::new(10, 10), 5);
    assert_eq!(rect, Rect::new(Point::new(i32::MAX - 5, i32::MIN), Point::new(i32::MAX, i32::MIN + 15)));
}

#[test]
fn merge_offset_moves_the_position() {
    let mut wrapper = NodeWrapper::for_id(1, (100, 50));
    wrapper.set_offset(Point::new(30, -20));
    wrapper.merge_offset();
    assert_eq!(wrapper.get_position(), (130, 30));
    assert_eq!(wrapper.offset, Point::new(0, 0));
    wrapper.set_position((i32::MAX, 0));
    wrapper.set_offset(Point::new(1, 1));
    wrapper.merge_offset();
    assert_eq!(wrapper.get_position(), (i32::MAX, 1));
}

#[test]
fn toggle_selected_flips_the_flag() {
    let mut wrapper = NodeWrapper::for_id(1, (0, 0));
    wrapper.toggle_selected();
    assert!(wrapper.selected);
    wrapper.toggle_selected();
    assert!(!wrapper.selected);
}

#[test]
fn wrapper_finds_its_node_by_id() {
    let store = NodeStore::from_loaded(vec![node(3), node(8)]);
    let mut wrapper = NodeWrapper::for_id(8, (0, 0));
    assert_eq!(wrapper.get_node(&store).unwrap().get_id(), 8);
    wrapper.set_linked_node(store.get(0));
    assert_eq!(wrapper.get_node_id(), 3);
    assert_eq!(wrapper.get_node(&store).unwrap().get_id(), 3);
    let mut orphan = NodeWrapper::relinked(99, (4, 5), &store);
    assert!(orphan.get_node(&store).is_none());
    assert!(!orphan.linked);
    assert_eq!(orphan.get_position(), (4, 5));
    assert!(NodeWrapper::relinked(8, (0, 0), &store).linked);
    orphan.set_linked_node(store.get(1));
    assert!(orphan.linked);
    assert_eq!(orphan.get_node_id(), 8);
}

#[test]
fn new_from_viewport_places_the_wrapper_where_the_position_shows() {
    let wrapper = NodeWrapper::new_from_viewport(&node(2), (100, 50), &physical(), &doubled());
    assert_eq!(wrapper.get_position(), (200, 100));
    assert_eq!(wrapper.get_node_id(), 2);
    assert!(!wrapper.selected);
}

#[test]
fn draw_caches_the_text_box_and_issues_three_requests() {
    let mut wrapper = NodeWrapper::for_id(4, (100, 50));
    let commands = wrapper.draw(&physical(), &doubled(), Point::new(80, 20));
    assert_eq!(
        *wrapper.get_cached_bounds(),
        (Rect::new(Point::new(200, 100), Point::new(280, 120)), Scale { num: 1000, den: 500 })
    );
    assert_eq!(
        commands,
        vec![
            DrawCommand::RoundedRectangle {
                rect: Rect::new(Point::new(148, 48), Point::new(332, 172)),
                radius: 40,
                color: WRAPPED_NODE_BORDER_COLOR,
            },
            DrawCommand::RoundedRectangle {
                rect: Rect::new(Point::new(160, 60), Point::new(320, 160)),
                radius: 28,
                color: WRAPPED_NODE_COLOR,
            },
            DrawCommand::Text { position: Point::new(200, 100), node_id: 4, font_size: 120, color: BLACK },
        ]
    );
    wrapper.toggle_selected();
    let selected = wrapper.draw(&physical(), &doubled(), Point::new(80, 20));
    assert_eq!(
        selected[1],
        DrawCommand::RoundedRectangle {
            rect: Rect::new(Point::new(160, 60), Point::new(320, 160)),
            radius: 28,
            color: WRAPPED_NODE_SELECTED_COLOR,
        }
    );
}
