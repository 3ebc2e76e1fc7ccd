use osu_switcher::input::InputState;
use osu_switcher::key::{KeyCode, KeyInput, KeyKind};

fn typed(text: &str) -> InputState {
    let mut input = InputState::new();
    for c in text.chars() {
        input.add_char(c);
    }
    input
}

#[test]
fn insert_in_the_middle() {
    let mut input = InputState::new();
    input.add_char('a');
    input.add_char('b');
    input.move_cursor_left();
    input.add_char('X');
    assert_eq!(input.text(), "aXb");
    assert_eq!(input.position(), 2);
}

#[test]
fn backspace_at_start_changes_nothing() {
    let mut input = typed("ab");
    input.reset_cursor();
    input.delete_char();
    assert_eq!(input.text(), "ab");
    assert_eq!(input.position(), 0);
}

#[test]
fn new_line_is_empty() {
    let input = InputState::new();
    assert_eq!(input.text(), "");
    assert_eq!(input.position(), 0);
    assert_eq!(input.byte_index(), 0);
    assert!(input == InputState::default());
}

#[test]
fn typing_moves_the_cursor_behind_each_char() {
    let input = typed("osu");
    assert_eq!(input.text(), "osu");
    assert_eq!(input.position(), 3);
}

#[test]
fn cursor_counts_characters_not_bytes() {
    let mut input = typed("aé樹🎵");
    assert_eq!(input.position(), 4);
    assert_eq!(input.byte_index(), 1 + 2 + 3 + 4);
    input.move_cursor_left();
    assert_eq!(input.position(), 3);
    assert_eq!(input.byte_index(), 6);
    input.move_cursor_left();
    assert_eq!(input.byte_index(), 3);
    input.move_cursor_left();
    assert_eq!(input.byte_index(), 1);
    input.add_char('ß');
    assert_eq!(input.text(), "aßé樹🎵");
    assert_eq!(input.position(), 2);
    assert_eq!(input.byte_index(), 3);
}

#[test]
fn insert_between_wide_characters() {
    let mut input = typed("樹樹");
    input.move_cursor_left();
    input.add_char('x');
    assert_eq!(input.text(), "樹x樹");
    assert_eq!(input.position(), 2);
}

#[test]
fn delete_removes_the_character_before_the_cursor() {
    let mut input = typed("a樹b");
    input.move_cursor_left();
    input.delete_char();
    assert_eq!(input.text(), "ab");
    assert_eq!(input.position(), 1);
    input.delete_char();
    assert_eq!(input.text(), "b");
    assert_eq!(input.position(), 0);
    input.delete_char();
    assert_eq!(input.text(), "b");
    assert_eq!(input.position(), 0);
}

#[test]
fn delete_at_the_end() {
    let mut input = typed("abc");
    input.delete_char();
    assert_eq!(input.text(), "ab");
    assert_eq!(input.position(), 2);
}

#[test]
fn delete_undoes_insert() {
    let mut input = typed("héllo");
    input.move_cursor_left();
    input.move_cursor_left();
    let before = typed("héllo");
    input.add_char('Z');
    input.delete_char();
    assert_eq!(input.text(), before.text());
    assert_eq!(input.position(), 3);
}

#[test]
fn cursor_stops_at_both_ends() {
    let mut input = typed("ab");
    input.move_cursor_right();
    assert_eq!(input.position(), 2);
    input.move_cursor_left();
    input.move_cursor_left();
    input.move_cursor_left();
    assert_eq!(input.position(), 0);
    input.move_cursor_right();
    assert_eq!(input.position(), 1);
}

#[test]
fn jump_to_start_and_end() {
    let mut input = typed("a樹c");
    input.reset_cursor();
    assert_eq!(input.position(), 0);
    input.end_cursor();
    assert_eq!(input.position(), 3);
    assert_eq!(input.text(), "a樹c");
}

#[test]
fn events_edit_the_line() {
    let mut input = InputState::new();
    input.handle_event(KeyInput::press(KeyCode::Char('a')));
    input.handle_event(KeyInput { code: KeyCode::Char('b'), kind: KeyKind::Repeat, ctrl: false });
    input.handle_event(KeyInput { code: KeyCode::Char('c'), kind: KeyKind::Release, ctrl: false });
    assert_eq!(input.text(), "ab");
    input.handle_event(KeyInput::press(KeyCode::Left));
    assert_eq!(input.position(), 1);
    input.handle_event(KeyInput::press(KeyCode::Home));
    assert_eq!(input.position(), 0);
    input.handle_event(KeyInput::press(KeyCode::Right));
    assert_eq!(input.position(), 1);
    input.handle_event(KeyInput::press(KeyCode::End));
    assert_eq!(input.position(), 2);
    input.handle_event(KeyInput::press(KeyCode::Backspace));
    assert_eq!(input.text(), "a");
    assert_eq!(input.position(), 1);
}

#[test]
fn other_events_leave_the_line() {
    let mut input = typed("ab");
    input.move_cursor_left();
    for code in [KeyCode::Enter, KeyCode::Up, KeyCode::Down, KeyCode::PageUp, KeyCode::PageDown, KeyCode::Other] {
        input.handle_event(KeyInput::press(code));
    }
    assert_eq!(input.text(), "ab");
    assert_eq!(input.position(), 1);
}

#[test]
fn lines_compare_by_text_and_cursor() {
    let a = typed("ab");
    let mut b = typed("ab");
    assert!(a == b);
    b.move_cursor_left();
    assert!(a != b);
    let c = typed("ac");
    assert!(a != c);
}
