//! Key strokes as the editor reads them, and their decoding from the
//! terminal's key events.

use crossterm::event::{KeyCode, KeyEvent, KeyModifiers};
use vstd::prelude::*;

verus! {

/// The keys that the editor tells apart.
#[derive(Clone, Copy, Debug, PartialEq, Eq, Structural)]
pub enum Key {
    /// Arrow up.
    Up,
    /// Arrow down.
    Down,
    /// Arrow left.
    Left,
    /// Arrow right.
    Right,
    /// Backspace.
    Backspace,
    /// Delete.
    Delete,
    /// Enter.
    Enter,
    /// A character key.
    Char(char),
    /// Any other key.
    Other,
}

/// One key event: the key, the modifiers held with it, and whether the key
/// went down. Releases and repeats have `pressed` false.
#[derive(Clone, Copy, Debug, PartialEq, Eq, Structural)]
pub struct KeyInput {
    pub key: Key,
    pub ctrl: bool,
    pub alt: bool,
    pub pressed: bool,
}

/// A press of `key` with Control held or not, and Alt held or not.
pub open spec fn stroke(key: Key, ctrl: bool, alt: bool) -> KeyInput {
    KeyInput { key, ctrl, alt, pressed: true }
}

/// A press of the character key `c` with no modifier held.
pub open spec fn typed(c: char) -> KeyInput {
    stroke(Key::Char(c), false, false)
}

impl KeyInput {
    /// A press of `key` with no modifier held.
    pub fn press(key: Key) -> (input: KeyInput)
        ensures
            input == stroke(key, false, false),
    {
        KeyInput { key, ctrl: false, alt: false, pressed: true }
    }

    /// A press of `key` with Control held.
    pub fn ctrl(key: Key) -> (input: KeyInput)
        ensures
            input == stroke(key, true, false),
    {
        KeyInput { key, ctrl: true, alt: false, pressed: true }
    }

    /// A press of `key` with Alt held.
    pub fn alt(key: Key) -> (input: KeyInput)
        ensures
            input == stroke(key, false, true),
    {
        KeyInput { key, ctrl: false, alt: true, pressed: true }
    }

    /// The key stroke that a terminal key event stands for: its key, whether
    /// Control and Alt are held with it, and whether it is a press.
    pub fn decode(event: &KeyEvent) -> (input: KeyInput)
        ensures
            input == decoded(*event),
    {
        let key = event_key(event);
        let (ctrl, alt) = event_modifiers(event);
        let pressed = event_is_press(event);
        KeyInput { key, ctrl, alt, pressed }
    }

    /// Whether this key stroke completes the line, whatever the line is.
    pub fn submits(&self) -> (yes: bool)
        ensures
            yes == completes_line(*self),
    {
        self.pressed && matches!(self.key, Key::Enter)
    }
}

/// A key stroke completes the line when it is a press of Enter.
pub open spec fn completes_line(input: KeyInput) -> bool {
    input.pressed && input.key is Enter
}

/// The terminal's key event. Its contents are read through the three
/// functions below and nowhere else.
#[verifier::external_type_specification]
#[verifier::external_body]
pub struct ExKeyEvent(crossterm::event::KeyEvent);

/// The key that `event` holds: what `event_key` returns for it.
pub uninterp spec fn event_key_of(event: KeyEvent) -> Key;

/// Whether Control is held in `event`, and whether Alt is: what
/// `event_modifiers` returns for it.
pub uninterp spec fn event_held_of(event: KeyEvent) -> (bool, bool);

/// Whether `event` is a press: what `event_is_press` returns for it.
pub uninterp spec fn event_pressed_of(event: KeyEvent) -> bool;

/// The key stroke that `event` stands for.
pub open spec fn decoded(event: KeyEvent) -> KeyInput {
    KeyInput {
        key: event_key_of(event),
        ctrl: event_held_of(event).0,
        alt: event_held_of(event).1,
        pressed: event_pressed_of(event),
    }
}

/// Reads the field `code` of a `crossterm::event::KeyEvent` and names the
/// key, one arm for each key that the editor tells apart. The contract
/// gives the answer its name: it depends on the event alone.
#[verifier::external_body]
fn event_key(event: &KeyEvent) -> (key: Key)
    ensures
        key == event_key_of(*event),
{
    match event.code {
        KeyCode::Up => Key::Up,
        KeyCode::Down => Key::Down,
        KeyCode::Left => Key::Left,
        KeyCode::Right => Key::Right,
        KeyCode::Backspace => Key::Backspace,
        KeyCode::Delete => Key::Delete,
        KeyCode::Enter => Key::Enter,
        KeyCode::Char(c) => Key::Char(c),
        _ => Key::Other,
    }
}

/// Calls `KeyModifiers::contains` on the event's modifiers, once for
/// Control and once for Alt. The contract gives the pair of answers its
/// name: it depends on the event alone.
#[verifier::external_body]
fn event_modifiers(event: &KeyEvent) -> (held: (bool, bool))
    ensures
        held == event_held_of(*event),
{
    (event.modifiers.contains(KeyModifiers::CONTROL), event.modifiers.contains(KeyModifiers::ALT))
}

/// Calls `KeyEvent::is_press`, which tells a press from a release or a
/// repeat. The contract gives the answer its name: it depends on the event
/// alone.
#[verifier::external_body]
fn event_is_press(event: &KeyEvent) -> (pressed: bool)
    ensures
        pressed == event_pressed_of(*event),
{
    event.is_press()
}

} // verus!
