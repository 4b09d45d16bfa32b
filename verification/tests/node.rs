use rmaps::node::{Node, NodeStore};

fn stored(id: i64, content: &str) -> Node {
    Node::restore(id, content.to_string(), "canvas".to_string())
}

#[test]
fn null_node() {
    let node = Node::null();
    assert_eq!(node.get_id(), -1);
    assert_eq!(node.get_content(), "null");
    assert_eq!(node.get_owner(), "null");
    assert!(node.get_links().is_empty());
}

#[test]
fn setters_replace_one_field() {
    let mut node = stored(4, "text");
    node.set_content("other".to_string());
    assert_eq!(node.get_content(), "other");
    assert_eq!(node.get_owner(), "canvas");
    node.set_owner("me".to_string());
    assert_eq!(node.get_owner(), "me");
    assert_eq!(node.get_content(), "other");
    assert_eq!(node.get_id(), 4);
}

#[test]
fn duplicate_keeps_everything() {
    let node = stored(9, "héllo");
    let copy = node.duplicate();
    assert_eq!(copy.get_id(), 9);
    assert_eq!(copy.get_content(), "héllo");
    assert_eq!(copy.get_owner(), "canvas");
}

#[test]
fn created_ids_increase_by_one() {
    let mut store = NodeStore::new();
    let mut ids = Vec::new();
    for i in 0..5 {
        ids.push(Node::create_and_register(format!("n{}", i), "t".to_string(), &mut store).unwrap());
    }
    assert_eq!(ids, vec![0, 1, 2, 3, 4]);
    assert_eq!(store.len(), 5);
    assert_eq!(store.get(3).get_content(), "n3");
    assert_eq!(store.get(3).get_id(), 3);
    assert_eq!(store.get(3).get_owner(), "t");
    assert_eq!(store.fresh_id(), Some(5));
}

#[test]
fn numbering_resumes_behind_the_largest_loaded_id() {
    let mut store = NodeStore::from_loaded(vec![stored(3, "a"), stored(17, "b"), stored(5, "c")]);
    assert_eq!(store.len(), 3);
    assert_eq!(store.fresh_id(), Some(18));
    let id = Node::create_and_register("d".to_string(), "t".to_string(), &mut store);
    assert_eq!(id, Some(18));
    assert_eq!(store.fresh_id(), Some(19));
    assert_eq!(store.get(3).get_id(), 18);
}

#[test]
fn numbering_starts_at_one_after_an_empty_load() {
    let store = NodeStore::from_loaded(vec![]);
    assert_eq!(store.fresh_id(), Some(1));
    let negative = NodeStore::from_loaded(vec![Node::null()]);
    assert_eq!(negative.fresh_id(), Some(1));
}

#[test]
fn ids_run_out_at_the_largest() {
    let mut store = NodeStore::from_loaded(vec![stored(i64::MAX, "last")]);
    assert_eq!(store.fresh_id(), None);
    assert_eq!(Node::create_and_register("x".to_string(), "t".to_string(), &mut store), None);
    assert_eq!(store.len(), 1);
    let mut almost = NodeStore::from_loaded(vec![stored(i64::MAX - 1, "last")]);
    assert_eq!(
        Node::create_and_register("x".to_string(), "t".to_string(), &mut almost),
        Some(i64::MAX)
    );
    assert_eq!(almost.fresh_id(), None);
}

#[test]
fn find_gives_the_first_position() {
    let store = NodeStore::from_loaded(vec![stored(3, "a"), stored(7, "b"), stored(3, "c")]);
    assert_eq!(store.find(3), Some(0));
    assert_eq!(store.find(7), Some(1));
    assert_eq!(store.find(8), None);
    assert_eq!(store.content_length(7), 1);
    assert_eq!(store.content_length(8), 0);
}

#[test]
fn remove_drops_every_node_of_the_id() {
    let mut store = NodeStore::from_loaded(vec![stored(3, "a"), stored(7, "b"), stored(3, "c")]);
    store.remove(3);
    assert_eq!(store.len(), 1);
    assert_eq!(store.get(0).get_id(), 7);
    assert_eq!(store.fresh_id(), Some(8));
    store.remove(99);
    assert_eq!(store.len(), 1);
}

#[test]
fn remove_all_drops_the_listed_ids() {
    let mut store =
        NodeStore::from_loaded(vec![stored(1, "a"), stored(2, "b"), stored(3, "c"), stored(4, "d")]);
    store.remove_all(&vec![4, 2, 9]);
    assert_eq!(store.len(), 2);
    assert_eq!(store.get(0).get_id(), 1);
    assert_eq!(store.get(1).get_id(), 3);
    store.remove_all(&vec![]);
    assert_eq!(store.len(), 2);
}

#[test]
fn set_content_at_changes_one_node() {
    let mut store = NodeStore::from_loaded(vec![stored(1, "a"), stored(2, "b")]);
    store.set_content_at(1, "changed".to_string());
    assert_eq!(store.get(0).get_content(), "a");
    assert_eq!(store.get(1).get_content(), "changed");
    assert_eq!(store.get(1).get_id(), 2);
    assert_eq!(store.get(1).get_owner(), "canvas");
}

#[test]
fn default_node_is_the_null_node() {
    let node = Node::default();
    assert_eq!(node.get_id(), -1);
    assert_eq!(node.get_content(), "null");
    assert_eq!(node.get_owner(), "null");
    assert!(node.get_links().is_empty());
}

#[test]
fn created_ids_exceed_every_loaded_id() {
    let mut store = NodeStore::from_loaded(vec![stored(40, "a"), stored(2, "b"), stored(41, "c")]);
    let mut last = 41;
    for _ in 0..10 {
        let id = Node::create_and_register("n".to_string(), "t".to_string(), &mut store).unwrap();
        assert_eq!(id, last + 1);
        assert_eq!(store.get(store.len() - 1).get_id(), id);
        last = id;
    }
    assert_eq!(store.len(), 13);
    assert_eq!(store.find(51), Some(12));
    assert_eq!(store.fresh_id(), Some(52));
}
