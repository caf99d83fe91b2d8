use tempchat::keys::{KeyCode, KeyEvent};
use tempchat::textinput::{TextInput, CURSOR_MARKER};

fn text(f: &TextInput) -> String {
    f.value().iter().collect()
}

fn focused() -> TextInput {
    let mut f = TextInput::new();
    f.set_focus(true);
    f
}

#[test]
fn insert_move_and_backspace() {
    let mut f = focused();
    f.insert('a');
    f.insert('b');
    assert_eq!(text(&f), "ab");
    assert_eq!(f.cursor(), 2);
    f.move_left();
    assert_eq!(f.cursor(), 1);
    f.delete_before_cursor();
    assert_eq!(text(&f), "b");
    assert_eq!(f.cursor(), 0);
}

#[test]
fn new_field_is_empty_and_unfocused() {
    let f = TextInput::new();
    assert_eq!(text(&f), "");
    assert_eq!(f.cursor(), 0);
    assert!(!f.is_focused());
}

#[test]
fn edge_operations_on_empty_buffer() {
    let mut f = focused();
    f.move_left();
    f.move_right();
    f.delete_before_cursor();
    assert_eq!(text(&f), "");
    assert_eq!(f.cursor(), 0);
}

#[test]
fn move_right_at_end_stays() {
    let mut f = focused();
    f.insert('x');
    f.insert('y');
    f.move_right();
    assert_eq!(f.cursor(), 2);
    assert_eq!(text(&f), "xy");
}

#[test]
fn insert_in_the_middle() {
    let mut f = focused();
    f.insert('a');
    f.insert('c');
    f.move_left();
    f.insert('b');
    assert_eq!(text(&f), "abc");
    assert_eq!(f.cursor(), 2);
}

#[test]
fn insert_then_backspace_restores() {
    let mut f = focused();
    f.insert('h');
    f.insert('i');
    f.move_left();
    f.insert('z');
    f.delete_before_cursor();
    assert_eq!(text(&f), "hi");
    assert_eq!(f.cursor(), 1);
}

#[test]
fn multibyte_characters_count_as_one() {
    let mut f = focused();
    f.insert('\u{e9}');
    f.insert('\u{4e16}');
    f.insert('x');
    assert_eq!(f.cursor(), 3);
    f.move_left();
    f.delete_before_cursor();
    assert_eq!(text(&f), "\u{e9}x");
    assert_eq!(f.cursor(), 1);
}

#[test]
fn unfocused_edits_are_ignored() {
    let mut f = focused();
    f.insert('a');
    f.set_focus(false);
    f.insert('b');
    f.delete_before_cursor();
    f.move_left();
    f.handle_event(KeyEvent::press(KeyCode::Char('c')));
    f.handle_event(KeyEvent::press(KeyCode::Backspace));
    assert_eq!(text(&f), "a");
    assert_eq!(f.cursor(), 1);
}

#[test]
fn focus_change_keeps_buffer_and_cursor() {
    let mut f = focused();
    f.insert('a');
    f.insert('b');
    f.move_left();
    f.set_focus(false);
    f.set_focus(true);
    assert_eq!(text(&f), "ab");
    assert_eq!(f.cursor(), 1);
}

#[test]
fn handle_event_dispatches_keys() {
    let mut f = focused();
    f.handle_event(KeyEvent::press(KeyCode::Char('a')));
    f.handle_event(KeyEvent::press(KeyCode::Char('b')));
    f.handle_event(KeyEvent::press(KeyCode::Left));
    f.handle_event(KeyEvent::press(KeyCode::Backspace));
    assert_eq!(text(&f), "b");
    assert_eq!(f.cursor(), 0);
    f.handle_event(KeyEvent::press(KeyCode::Right));
    assert_eq!(f.cursor(), 1);
    f.handle_event(KeyEvent::press(KeyCode::Esc));
    f.handle_event(KeyEvent::press(KeyCode::Other));
    assert_eq!(text(&f), "b");
    assert!(f.is_focused());
}

#[test]
fn display_shows_marker_only_with_focus() {
    let mut f = focused();
    f.insert('a');
    f.insert('b');
    f.move_left();
    assert_eq!(f.display_text(), vec!['a', CURSOR_MARKER, 'b']);
    f.set_focus(false);
    assert_eq!(f.display_text(), vec!['a', 'b']);
    assert_eq!(f.cursor(), 1);
    assert_eq!(text(&f), "ab");
}

#[test]
fn display_marker_at_ends() {
    let mut f = focused();
    assert_eq!(f.display_text(), vec![CURSOR_MARKER]);
    f.insert('a');
    assert_eq!(f.display_text(), vec!['a', CURSOR_MARKER]);
    f.move_left();
    assert_eq!(f.display_text(), vec![CURSOR_MARKER, 'a']);
}
