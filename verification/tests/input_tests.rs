use git_tui::input::Input;
use git_tui::keys::{Key, KeyEvent};

const SHIFT: u8 = 1;
const CONTROL: u8 = 2;

fn typed(text: &str) -> Input {
    let mut input = Input::new();
    for c in text.chars() {
        input.handle_event(&KeyEvent::plain(Key::Char(c)));
    }
    input
}

#[test]
fn new_input_is_empty() {
    let input = Input::new();
    assert_eq!(input.value, "");
    assert_eq!(input.cursor, 0);
}

#[test]
fn plain_key_has_no_modifiers() {
    let key = KeyEvent::plain(Key::Enter);
    assert_eq!(key, KeyEvent { code: Key::Enter, modifiers: 0 });
    assert_eq!(KeyEvent::new(Key::Char('u'), CONTROL), KeyEvent { code: Key::Char('u'), modifiers: 2 });
}

#[test]
fn characters_are_appended() {
    let input = typed("fix");
    assert_eq!(input.value, "fix");
    assert_eq!(input.cursor, 3);
}

#[test]
fn shifted_character_is_inserted() {
    let mut input = typed("a");
    input.handle_event(&KeyEvent::new(Key::Char('B'), SHIFT));
    assert_eq!(input.value, "aB");
    assert_eq!(input.cursor, 2);
}

#[test]
fn backspace_deletes_before_the_cursor() {
    let mut input = typed("abc");
    input.handle_event(&KeyEvent::plain(Key::Backspace));
    assert_eq!(input.value, "ab");
    assert_eq!(input.cursor, 2);
}

#[test]
fn backspace_at_the_start_changes_nothing() {
    let mut input = Input::new();
    input.handle_event(&KeyEvent::plain(Key::Backspace));
    assert_eq!(input.value, "");
    assert_eq!(input.cursor, 0);
}

#[test]
fn cursor_moves_and_insertion_in_the_middle() {
    let mut input = typed("ac");
    input.handle_event(&KeyEvent::plain(Key::Left));
    assert_eq!(input.cursor, 1);
    input.handle_event(&KeyEvent::plain(Key::Char('b')));
    assert_eq!(input.value, "abc");
    assert_eq!(input.cursor, 2);
    input.handle_event(&KeyEvent::plain(Key::Right));
    assert_eq!(input.cursor, 3);
    input.handle_event(&KeyEvent::plain(Key::Right));
    assert_eq!(input.cursor, 3);
}

#[test]
fn home_and_end_move_to_the_borders() {
    let mut input = typed("hello");
    input.handle_event(&KeyEvent::plain(Key::Home));
    assert_eq!(input.cursor, 0);
    input.handle_event(&KeyEvent::plain(Key::End));
    assert_eq!(input.cursor, 5);
}

#[test]
fn delete_removes_at_the_cursor() {
    let mut input = typed("abc");
    input.handle_event(&KeyEvent::plain(Key::Home));
    input.handle_event(&KeyEvent::plain(Key::Delete));
    assert_eq!(input.value, "bc");
    assert_eq!(input.cursor, 0);
}

#[test]
fn control_u_deletes_the_line() {
    let mut input = typed("some words");
    input.handle_event(&KeyEvent::new(Key::Char('u'), CONTROL));
    assert_eq!(input.value, "");
    assert_eq!(input.cursor, 0);
}

#[test]
fn control_w_deletes_the_previous_word() {
    let mut input = typed("first second");
    input.handle_event(&KeyEvent::new(Key::Char('w'), CONTROL));
    assert_eq!(input.value, "first ");
    assert_eq!(input.cursor, 6);
}

#[test]
fn keys_without_a_meaning_change_nothing() {
    let mut input = typed("ab");
    for code in [Key::Tab, Key::Up, Key::Down, Key::Null, Key::Enter, Key::Esc] {
        input.handle_event(&KeyEvent::plain(code));
        assert_eq!(input.value, "ab");
        assert_eq!(input.cursor, 2);
    }
}

#[test]
fn characters_beyond_ascii_count_as_one() {
    let mut input = typed("añ");
    assert_eq!(input.cursor, 2);
    input.handle_event(&KeyEvent::plain(Key::Backspace));
    assert_eq!(input.value, "a");
    assert_eq!(input.cursor, 1);
}

#[test]
fn cursor_beyond_the_text_counts_as_its_end() {
    let mut input = Input { value: "ab".to_string(), cursor: 10 };
    input.handle_event(&KeyEvent::plain(Key::Char('c')));
    assert_eq!(input.value, "abc");
    assert_eq!(input.cursor, 3);
}

#[test]
fn reset_empties_the_input() {
    let mut input = typed("draft");
    input.reset();
    assert_eq!(input.value, "");
    assert_eq!(input.cursor, 0);
}

#[test]
fn replace_puts_text_and_cursor_in_place() {
    let mut input = typed("old");
    input.replace("new text".to_string(), 4);
    assert_eq!(input.value, "new text");
    assert_eq!(input.cursor, 4);
    input.handle_event(&KeyEvent::plain(Key::Char('-')));
    assert_eq!(input.value, "new -text");
    assert_eq!(input.cursor, 5);
}
