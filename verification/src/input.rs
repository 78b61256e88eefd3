//! The one-line text buffer of the commit message. The buffer is plain data;
//! the editing itself is done by the `tui_input` crate.

use vstd::prelude::*;
use crate::keys::{Key, KeyEvent};

verus! {

/// The key code of `crossterm`. Its values are only made and handed on here.
#[verifier::external_type_specification]
#[verifier::external_body]
pub struct ExOutsideKeyCode(crossterm::event::KeyCode);

/// The text and the cursor that `tui_input`'s line editor holds after one key
/// press, given the text and the cursor it held before. The cursor counts
/// characters from the start of the text.
pub uninterp spec fn input_after_key(value: Seq<char>, cursor: nat, key: KeyEvent) -> (
    Seq<char>,
    nat,
);

/// The `crossterm::event::KeyCode` of the same name as a key of this library,
/// variant by variant, for the call of the line editor below. Nothing is
/// claimed of the result.
#[verifier::external_body]
fn outside_key_code(code: Key) -> crossterm::event::KeyCode {
    match code {
        Key::Backspace => crossterm::event::KeyCode::Backspace,
        Key::Enter => crossterm::event::KeyCode::Enter,
        Key::Left => crossterm::event::KeyCode::Left,
        Key::Right => crossterm::event::KeyCode::Right,
        Key::Up => crossterm::event::KeyCode::Up,
        Key::Down => crossterm::event::KeyCode::Down,
        Key::Home => crossterm::event::KeyCode::Home,
        Key::End => crossterm::event::KeyCode::End,
        Key::Tab => crossterm::event::KeyCode::Tab,
        Key::Delete => crossterm::event::KeyCode::Delete,
        Key::Esc => crossterm::event::KeyCode::Esc,
        Key::Char(c) => crossterm::event::KeyCode::Char(c),
        Key::Null => crossterm::event::KeyCode::Null,
    }
}

/// Runs `tui_input::backend::crossterm::EventHandler::handle_event` on a fresh
/// `tui_input::Input` that holds `value` with the cursor at `cursor` (or at the
/// end of the text, if `cursor` lies beyond it), and hands back the text and the
/// cursor it holds afterwards. The contract only gives that outcome its name: it
/// is a function of the text, the cursor and the key alone.
#[verifier::external_body]
fn handle_event(value: &str, cursor: usize, key: &KeyEvent) -> (edited: (String, usize))
    ensures
        (edited.0@, edited.1 as nat) == input_after_key(value@, cursor as nat, *key),
{
    let mut input = tui_input::Input::new(value.to_string()).with_cursor(cursor);
    let modifiers = crossterm::event::KeyModifiers::from_bits_truncate(key.modifiers);
    let event = crossterm::event::KeyEvent::new(outside_key_code(key.code), modifiers);
    tui_input::backend::crossterm::EventHandler::handle_event(
        &mut input,
        &crossterm::event::Event::Key(event),
    );
    (input.value().to_string(), input.cursor())
}

/// The text being typed, and the place of the cursor in it, counted in characters.
#[derive(Clone, Debug, PartialEq, Eq)]
pub struct Input {
    pub value: String,
    pub cursor: usize,
}

/// The mathematical content of an [`Input`].
pub struct InputView {
    pub value: Seq<char>,
    pub cursor: nat,
}

impl InputView {
    /// The buffer with nothing typed.
    pub open spec fn empty() -> InputView {
        InputView { value: Seq::empty(), cursor: 0 }
    }

    /// The buffer after the line editor has seen `key`.
    pub open spec fn after_key(self, key: KeyEvent) -> InputView {
        let edited = input_after_key(self.value, self.cursor, key);
        InputView { value: edited.0, cursor: edited.1 }
    }
}

impl View for Input {
    type V = InputView;

    open spec fn view(&self) -> InputView {
        InputView { value: self.value@, cursor: self.cursor as nat }
    }
}

impl Input {
    /// An empty buffer.
    pub fn new() -> (input: Input)
        ensures
            input@ == InputView::empty(),
    {
        Input { value: String::new(), cursor: 0 }
    }

    /// Empties the buffer.
    pub fn reset(&mut self)
        ensures
            final(self)@ == InputView::empty(),
    {
        self.value = String::new();
        self.cursor = 0;
    }

    /// Puts a text and a cursor in the place of what the buffer holds.
    pub fn replace(&mut self, value: String, cursor: usize)
        ensures
            final(self)@ == (InputView { value: value@, cursor: cursor as nat }),
    {
        self.value = value;
        self.cursor = cursor;
    }

    /// Lets the line editor apply one key press to the buffer.
    pub fn handle_event(&mut self, key: &KeyEvent)
        ensures
            final(self)@ == old(self)@.after_key(*key),
    {
        let edited = handle_event(self.value.as_str(), self.cursor, key);
        self.replace(edited.0, edited.1);
    }
}

} // verus!
