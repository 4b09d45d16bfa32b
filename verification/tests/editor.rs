use rmaps::draw::{DrawCommand, EDITOR_COLOR, EDITOR_SELECTION_COLOR};
use rmaps::generic_node_editor::GenericNodeEditor;
use rmaps::geometry::{Point, Rect, Scale};
use rmaps::input::Key;

fn text(s: &str) -> String {
    s.to_string()
}

#[test]
fn new_editor_puts_caret_at_end() {
    let editor = GenericNodeEditor::new(7, &text("hello"), 12);
    assert_eq!(editor.node_id, 7);
    assert_eq!(editor.cursor_index, 5);
    assert_eq!(editor.selection, None);
    assert_eq!(editor.last_blink, 12);
    assert!(!editor.selecting);
}

#[test]
fn new_editor_counts_characters_not_bytes() {
    let editor = GenericNodeEditor::new(1, &text("héllo"), 0);
    assert_eq!(editor.cursor_index, 5);
}

#[test]
fn backspace_three_times_then_insert() {
    let mut content = text("hello");
    let mut editor = GenericNodeEditor::new(1, &content, 0);
    assert_eq!(editor.cursor_index, 5);
    for _ in 0..3 {
        content = editor.insert('\u{8}', &content);
    }
    assert_eq!(content, "he");
    assert_eq!(editor.cursor_index, 2);
    content = editor.insert('X', &content);
    assert_eq!(content, "heX");
    assert_eq!(editor.cursor_index, 3);
}

#[test]
fn backspace_removes_selected_characters() {
    let mut content = text("hello");
    let mut editor = GenericNodeEditor::new(1, &content, 0);
    editor.move_cursor(-4, &content);
    assert_eq!(editor.cursor_index, 1);
    editor.handle_key_down(Key::LShift, &content, 1);
    editor.handle_key_down(Key::Right, &content, 1);
    editor.handle_key_down(Key::Right, &content, 1);
    editor.handle_key_down(Key::Right, &content, 1);
    editor.handle_key_up(Key::LShift);
    assert_eq!(editor.selection, Some((1, 4)));
    content = editor.insert('\u{8}', &content);
    assert_eq!(content, "ho");
    assert_eq!(editor.cursor_index, 1);
    assert_eq!(editor.selection, None);
}

#[test]
fn backspace_removes_selection_drawn_backwards() {
    let mut content = text("hello");
    let mut editor = GenericNodeEditor::new(1, &content, 0);
    editor.move_cursor(-1, &content);
    editor.handle_key_down(Key::RShift, &content, 1);
    editor.handle_key_down(Key::Left, &content, 1);
    editor.handle_key_down(Key::Left, &content, 1);
    assert_eq!(editor.selection, Some((4, 2)));
    assert_eq!(editor.cursor_index, 2);
    content = editor.insert('\u{8}', &content);
    assert_eq!(content, "heo");
    assert_eq!(editor.cursor_index, 2);
    assert_eq!(editor.selection, None);
}

#[test]
fn backspace_at_start_changes_nothing() {
    let content = text("abc");
    let mut editor = GenericNodeEditor::new(1, &content, 0);
    editor.move_cursor(-10, &content);
    assert_eq!(editor.cursor_index, 0);
    let after = editor.insert('\u{8}', &content);
    assert_eq!(after, "abc");
    assert_eq!(editor.cursor_index, 0);
}

#[test]
fn insert_in_the_middle() {
    let content = text("ac");
    let mut editor = GenericNodeEditor::new(1, &content, 0);
    editor.move_cursor(-1, &content);
    let after = editor.insert('b', &content);
    assert_eq!(after, "abc");
    assert_eq!(editor.cursor_index, 2);
}

#[test]
fn insert_into_empty_content() {
    let content = text("");
    let mut editor = GenericNodeEditor::new(1, &content, 0);
    let after = editor.insert('ß', &content);
    assert_eq!(after, "ß");
    assert_eq!(editor.cursor_index, 1);
}

#[test]
fn insert_clamps_a_stale_caret() {
    let mut editor = GenericNodeEditor::new(1, &text("a long content"), 0);
    let after = editor.insert('!', &text("hi"));
    assert_eq!(after, "hi!");
    assert_eq!(editor.cursor_index, 3);
}

#[test]
fn move_cursor_is_clamped() {
    let content = text("hello");
    let mut editor = GenericNodeEditor::new(1, &content, 0);
    editor.move_cursor(3, &content);
    assert_eq!(editor.cursor_index, 5);
    editor.move_cursor(-2, &content);
    assert_eq!(editor.cursor_index, 3);
    editor.move_cursor(i32::MIN, &content);
    assert_eq!(editor.cursor_index, 0);
    editor.move_cursor(i32::MAX, &content);
    assert_eq!(editor.cursor_index, 5);
}

#[test]
fn arrow_without_shift_collapses_selection() {
    let content = text("hello");
    let mut editor = GenericNodeEditor::new(1, &content, 0);
    editor.handle_key_down(Key::LShift, &content, 1);
    editor.handle_key_down(Key::Left, &content, 1);
    assert_eq!(editor.selection, Some((5, 4)));
    editor.handle_key_up(Key::LShift);
    assert!(!editor.selecting);
    assert_eq!(editor.selection, Some((5, 4)));
    editor.handle_key_down(Key::Left, &content, 2);
    assert_eq!(editor.selection, None);
    assert_eq!(editor.cursor_index, 3);
}

#[test]
fn shift_starts_selection_at_caret() {
    let content = text("hello");
    let mut editor = GenericNodeEditor::new(1, &content, 0);
    editor.handle_key_down(Key::RShift, &content, 9);
    assert!(editor.selecting);
    assert_eq!(editor.selection, Some((5, 5)));
    assert_eq!(editor.last_blink, 9);
}

#[test]
fn other_keys_only_wake_the_caret() {
    let content = text("hello");
    let mut editor = GenericNodeEditor::new(1, &content, 0);
    editor.handle_key_down(Key::LControl, &content, 4);
    editor.handle_key_down(Key::Other, &content, 5);
    assert_eq!(editor.cursor_index, 5);
    assert_eq!(editor.selection, None);
    assert_eq!(editor.last_blink, 5);
    editor.handle_key_up(Key::Other);
    assert!(!editor.selecting);
}

#[test]
fn caret_blinks_by_whole_seconds() {
    let mut editor = GenericNodeEditor::new(1, &text("x"), 10);
    assert!(editor.is_caret_visible(10));
    assert!(!editor.is_caret_visible(11));
    assert!(editor.is_caret_visible(12));
    assert!(editor.is_caret_visible(3));
    editor.handle_key_down(Key::Other, &text("x"), 11);
    assert!(editor.is_caret_visible(11));
}

#[test]
fn measured_prefixes_follow_caret_and_selection() {
    let content = text("hello");
    let mut editor = GenericNodeEditor::new(1, &content, 0);
    assert_eq!(editor.measured_prefixes(5), (5, None));
    editor.handle_key_down(Key::LShift, &content, 0);
    editor.handle_key_down(Key::Left, &content, 0);
    editor.handle_key_down(Key::Left, &content, 0);
    assert_eq!(editor.measured_prefixes(5), (3, Some(3)));
    assert_eq!(editor.measured_prefixes(2), (2, Some(2)));
}

#[test]
fn editor_draws_underline_selection_and_caret() {
    let content = text("hello");
    let mut editor = GenericNodeEditor::new(1, &content, 10);
    let bounds = (
        Rect::new(Point::new(100, 50), Point::new(180, 110)),
        Scale { num: 2, den: 1 },
    );
    let plain = editor.draw(&bounds, 80, 0, 10);
    assert_eq!(
        plain,
        vec![
            DrawCommand::Line {
                from: Point::new(100, 94),
                to: Point::new(180, 94),
                thickness: 10,
                color: EDITOR_COLOR,
            },
            DrawCommand::Line {
                from: Point::new(180, 50),
                to: Point::new(180, 110),
                thickness: 1,
                color: EDITOR_COLOR,
            },
        ]
    );
    editor.handle_key_down(Key::LShift, &content, 10);
    editor.handle_key_down(Key::Left, &content, 10);
    let marked = editor.draw(&bounds, 64, 64, 11);
    assert_eq!(
        marked,
        vec![
            DrawCommand::Line {
                from: Point::new(100, 94),
                to: Point::new(180, 94),
                thickness: 10,
                color: EDITOR_COLOR,
            },
            DrawCommand::Rectangle {
                rect: Rect::new(Point::new(164, 50), Point::new(164, 170)),
                color: EDITOR_SELECTION_COLOR,
            },
        ]
    );
}
