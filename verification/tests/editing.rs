use crossterm::event::{KeyCode, KeyEvent, KeyEventKind, KeyModifiers};
use prepl::{Action, Key, KeyInput, Repl};

fn e(repl: &mut Repl, code: KeyCode) {
    let _ = repl.process_event(KeyEvent::from(code));
}

fn write(repl: &mut Repl, text: &str) {
    for key in text.chars() {
        e(repl, KeyCode::Char(key));
    }
}

fn move_left(repl: &mut Repl, n: usize) {
    for _ in 0..n {
        e(repl, KeyCode::Left);
    }
}

fn move_right(repl: &mut Repl, n: usize) {
    for _ in 0..n {
        e(repl, KeyCode::Right);
    }
}

#[test]
fn hello_world() {
    let mut repl = Repl::default();
    write(&mut repl, "Hello, World!");
    assert_eq!(repl.finish_line(), "Hello, World!");
}

#[test]
fn backspace() {
    let mut repl = Repl::default();
    write(&mut repl, "Hello, World!");
    e(&mut repl, KeyCode::Backspace);
    move_left(&mut repl, 5);
    e(&mut repl, KeyCode::Backspace);
    move_left(&mut repl, 2);
    e(&mut repl, KeyCode::Backspace);
    move_right(&mut repl, 3);
    e(&mut repl, KeyCode::Delete);
    assert_eq!(repl.finish_line(), "Helo,Wrld");
}

#[test]
fn hello_world_then_enter_completes_the_line() {
    let mut repl = Repl::new();
    write(&mut repl, "Hello, World!");
    let action = repl.process_event(KeyEvent::from(KeyCode::Enter));
    assert_eq!(action, Action::Submit("Hello, World!".to_string()));
    assert_eq!(repl.before_cursor(), "");
    assert_eq!(repl.after_cursor(), "");
    assert_eq!(repl.history(), vec!["Hello, World!".to_string()]);
}

#[test]
fn new_editor_is_empty() {
    let repl = Repl::new();
    assert_eq!(repl.before_cursor(), "");
    assert_eq!(repl.after_cursor(), "");
    assert_eq!(repl.cursor(), 0);
    assert!(repl.history().is_empty());
    assert!(repl.future().is_empty());
}

#[test]
fn default_editor_is_empty() {
    let mut repl = Repl::default();
    assert_eq!(repl.cursor(), 0);
    assert!(repl.history().is_empty());
    assert!(repl.future().is_empty());
    assert_eq!(repl.finish_line(), "");
}

#[test]
fn typing_fills_the_text_before_the_cursor() {
    let mut repl = Repl::new();
    for c in "abc def, ghi".chars() {
        assert_eq!(repl.process_key(KeyInput::press(Key::Char(c))), Action::Render);
    }
    assert_eq!(repl.before_cursor(), "abc def, ghi");
    assert_eq!(repl.after_cursor(), "");
    assert_eq!(repl.cursor(), 12);
}

#[test]
fn typing_counts_characters_not_bytes() {
    let mut repl = Repl::new();
    write(&mut repl, "h\u{e9}llo \u{4e16}\u{754c}");
    assert_eq!(repl.cursor(), 8);
    assert_eq!(repl.before_cursor(), "h\u{e9}llo \u{4e16}\u{754c}");
    move_left(&mut repl, 7);
    assert_eq!(repl.before_cursor(), "h");
    assert_eq!(repl.after_cursor(), "\u{e9}llo \u{4e16}\u{754c}");
    e(&mut repl, KeyCode::Delete);
    assert_eq!(repl.finish_line(), "hllo \u{4e16}\u{754c}");
}

#[test]
fn typing_in_the_middle_inserts_at_the_cursor() {
    let mut repl = Repl::new();
    write(&mut repl, "ac");
    move_left(&mut repl, 1);
    write(&mut repl, "b");
    assert_eq!(repl.before_cursor(), "ab");
    assert_eq!(repl.after_cursor(), "c");
    assert_eq!(repl.cursor(), 2);
}

#[test]
fn backspace_undoes_typing() {
    let mut repl = Repl::new();
    write(&mut repl, "abc");
    move_left(&mut repl, 1);
    write(&mut repl, "x");
    assert_eq!(repl.before_cursor(), "abx");
    assert_eq!(repl.process_key(KeyInput::press(Key::Backspace)), Action::Render);
    assert_eq!(repl.before_cursor(), "ab");
    assert_eq!(repl.after_cursor(), "c");
}

#[test]
fn delete_undoes_typing_after_a_step_back() {
    let mut repl = Repl::new();
    write(&mut repl, "abc");
    move_left(&mut repl, 1);
    write(&mut repl, "x");
    move_left(&mut repl, 1);
    assert_eq!(repl.after_cursor(), "xc");
    assert_eq!(repl.process_key(KeyInput::press(Key::Delete)), Action::Render);
    assert_eq!(repl.before_cursor(), "ab");
    assert_eq!(repl.after_cursor(), "c");
}

#[test]
fn left_moves_one_character() {
    let mut repl = Repl::new();
    write(&mut repl, "abc");
    assert_eq!(repl.process_key(KeyInput::press(Key::Left)), Action::Render);
    assert_eq!(repl.before_cursor(), "ab");
    assert_eq!(repl.after_cursor(), "c");
    assert_eq!(repl.process_key(KeyInput::press(Key::Left)), Action::Render);
    assert_eq!(repl.before_cursor(), "a");
    assert_eq!(repl.after_cursor(), "bc");
    assert_eq!(repl.cursor(), 1);
}

#[test]
fn right_moves_one_character() {
    let mut repl = Repl::new();
    write(&mut repl, "abc");
    move_left(&mut repl, 3);
    assert_eq!(repl.after_cursor(), "abc");
    assert_eq!(repl.process_key(KeyInput::press(Key::Right)), Action::Render);
    assert_eq!(repl.before_cursor(), "a");
    assert_eq!(repl.after_cursor(), "bc");
}

#[test]
fn strokes_at_the_ends_change_nothing() {
    let mut repl = Repl::new();
    assert_eq!(repl.process_key(KeyInput::press(Key::Left)), Action::Idle);
    assert_eq!(repl.process_key(KeyInput::press(Key::Right)), Action::Idle);
    assert_eq!(repl.process_key(KeyInput::press(Key::Backspace)), Action::Idle);
    assert_eq!(repl.process_key(KeyInput::press(Key::Delete)), Action::Idle);
    write(&mut repl, "ab");
    assert_eq!(repl.process_key(KeyInput::press(Key::Right)), Action::Idle);
    assert_eq!(repl.process_key(KeyInput::press(Key::Delete)), Action::Idle);
    move_left(&mut repl, 2);
    assert_eq!(repl.process_key(KeyInput::press(Key::Left)), Action::Idle);
    assert_eq!(repl.process_key(KeyInput::press(Key::Backspace)), Action::Idle);
    assert_eq!(repl.before_cursor(), "");
    assert_eq!(repl.after_cursor(), "ab");
}

#[test]
fn releases_and_repeats_are_ignored() {
    let mut repl = Repl::new();
    let release =
        KeyEvent::new_with_kind(KeyCode::Char('a'), KeyModifiers::NONE, KeyEventKind::Release);
    let repeat =
        KeyEvent::new_with_kind(KeyCode::Char('a'), KeyModifiers::NONE, KeyEventKind::Repeat);
    let press =
        KeyEvent::new_with_kind(KeyCode::Char('a'), KeyModifiers::NONE, KeyEventKind::Press);
    assert_eq!(repl.process_event(release), Action::Idle);
    assert_eq!(repl.process_event(repeat), Action::Idle);
    assert_eq!(repl.before_cursor(), "");
    assert_eq!(repl.process_event(press), Action::Render);
    assert_eq!(repl.before_cursor(), "a");
    let enter = KeyEvent::new_with_kind(KeyCode::Enter, KeyModifiers::NONE, KeyEventKind::Release);
    assert_eq!(repl.process_event(enter), Action::Idle);
    assert_eq!(repl.before_cursor(), "a");
}

#[test]
fn a_key_input_that_is_no_press_is_ignored() {
    let mut repl = Repl::new();
    let input = KeyInput { key: Key::Char('a'), ctrl: false, alt: false, pressed: false };
    assert_eq!(repl.process_key(input), Action::Idle);
    assert_eq!(repl.before_cursor(), "");
}

#[test]
fn control_c_interrupts_and_changes_nothing() {
    let mut repl = Repl::new();
    write(&mut repl, "abc");
    move_left(&mut repl, 1);
    let event = KeyEvent::new(KeyCode::Char('c'), KeyModifiers::CONTROL);
    assert_eq!(repl.process_event(event), Action::Interrupt);
    assert_eq!(repl.before_cursor(), "ab");
    assert_eq!(repl.after_cursor(), "c");
    assert_eq!(repl.process_key(KeyInput::ctrl(Key::Char('c'))), Action::Interrupt);
}

#[test]
fn characters_with_control_or_alt_are_not_typed() {
    let mut repl = Repl::new();
    assert_eq!(repl.process_key(KeyInput::ctrl(Key::Char('x'))), Action::Idle);
    assert_eq!(repl.process_key(KeyInput::alt(Key::Char('x'))), Action::Idle);
    assert_eq!(repl.process_key(KeyInput::ctrl(Key::Char('d'))), Action::Idle);
    let both = KeyEvent::new(KeyCode::Char('x'), KeyModifiers::CONTROL | KeyModifiers::ALT);
    assert_eq!(repl.process_event(both), Action::Idle);
    assert_eq!(repl.before_cursor(), "");
    let shifted = KeyEvent::new(KeyCode::Char('X'), KeyModifiers::SHIFT);
    assert_eq!(repl.process_event(shifted), Action::Render);
    assert_eq!(repl.before_cursor(), "X");
}

#[test]
fn other_keys_are_ignored() {
    let mut repl = Repl::new();
    write(&mut repl, "ab");
    for code in [KeyCode::Tab, KeyCode::Esc, KeyCode::Home, KeyCode::End, KeyCode::F(1)] {
        assert_eq!(repl.process_event(KeyEvent::from(code)), Action::Idle);
    }
    assert_eq!(repl.process_key(KeyInput::press(Key::Other)), Action::Idle);
    assert_eq!(repl.before_cursor(), "ab");
    assert_eq!(repl.after_cursor(), "");
}

#[test]
fn key_input_builders_set_the_modifiers() {
    assert_eq!(
        KeyInput::press(Key::Up),
        KeyInput { key: Key::Up, ctrl: false, alt: false, pressed: true }
    );
    assert_eq!(
        KeyInput::ctrl(Key::Left),
        KeyInput { key: Key::Left, ctrl: true, alt: false, pressed: true }
    );
    assert_eq!(
        KeyInput::alt(Key::Char('d')),
        KeyInput { key: Key::Char('d'), ctrl: false, alt: true, pressed: true }
    );
}

#[test]
fn events_and_key_inputs_agree() {
    let codes = [
        (KeyCode::Char('a'), Key::Char('a')),
        (KeyCode::Char(' '), Key::Char(' ')),
        (KeyCode::Char('b'), Key::Char('b')),
        (KeyCode::Left, Key::Left),
        (KeyCode::Left, Key::Left),
        (KeyCode::Right, Key::Right),
        (KeyCode::Backspace, Key::Backspace),
        (KeyCode::Delete, Key::Delete),
        (KeyCode::Enter, Key::Enter),
        (KeyCode::Up, Key::Up),
        (KeyCode::Down, Key::Down),
    ];
    let mut by_event = Repl::new();
    let mut by_input = Repl::new();
    for (code, key) in codes {
        let left = by_event.process_event(KeyEvent::from(code));
        let right = by_input.process_key(KeyInput::press(key));
        assert_eq!(left, right);
        assert_eq!(by_event.before_cursor(), by_input.before_cursor());
        assert_eq!(by_event.after_cursor(), by_input.after_cursor());
        assert_eq!(by_event.history(), by_input.history());
        assert_eq!(by_event.future(), by_input.future());
    }
    assert_eq!(by_event.history(), vec!["a".to_string()]);
}

#[test]
fn finish_line_joins_both_sides_and_keeps_the_stacks() {
    let mut repl = Repl::new();
    write(&mut repl, "one");
    e(&mut repl, KeyCode::Enter);
    write(&mut repl, "two");
    move_left(&mut repl, 2);
    assert_eq!(repl.finish_line(), "two");
    assert_eq!(repl.before_cursor(), "");
    assert_eq!(repl.after_cursor(), "");
    assert_eq!(repl.history(), vec!["one".to_string()]);
    assert!(repl.future().is_empty());
}

#[test]
fn decode_reads_the_key_the_modifiers_and_the_press() {
    assert_eq!(KeyInput::decode(&KeyEvent::from(KeyCode::Up)), KeyInput::press(Key::Up));
    assert_eq!(KeyInput::decode(&KeyEvent::from(KeyCode::Char('x'))), KeyInput::press(Key::Char('x')));
    assert_eq!(KeyInput::decode(&KeyEvent::from(KeyCode::Tab)), KeyInput::press(Key::Other));
    assert_eq!(
        KeyInput::decode(&KeyEvent::new(KeyCode::Left, KeyModifiers::CONTROL)),
        KeyInput::ctrl(Key::Left)
    );
    assert_eq!(
        KeyInput::decode(&KeyEvent::new(KeyCode::Char('d'), KeyModifiers::ALT)),
        KeyInput::alt(Key::Char('d'))
    );
    assert_eq!(
        KeyInput::decode(&KeyEvent::new(KeyCode::Delete, KeyModifiers::CONTROL | KeyModifiers::ALT)),
        KeyInput { key: Key::Delete, ctrl: true, alt: true, pressed: true }
    );
    assert_eq!(
        KeyInput::decode(&KeyEvent::new(KeyCode::Enter, KeyModifiers::SHIFT | KeyModifiers::SUPER)),
        KeyInput::press(Key::Enter)
    );
    assert_eq!(
        KeyInput::decode(&KeyEvent::new_with_kind(
            KeyCode::Backspace,
            KeyModifiers::CONTROL,
            KeyEventKind::Release
        )),
        KeyInput { key: Key::Backspace, ctrl: true, alt: false, pressed: false }
    );
    assert_eq!(
        KeyInput::decode(&KeyEvent::new_with_kind(
            KeyCode::Down,
            KeyModifiers::ALT,
            KeyEventKind::Repeat
        )),
        KeyInput { key: Key::Down, ctrl: false, alt: true, pressed: false }
    );
}

#[test]
fn only_a_press_of_enter_submits() {
    assert!(KeyInput::press(Key::Enter).submits());
    assert!(KeyInput::ctrl(Key::Enter).submits());
    assert!(KeyInput::alt(Key::Enter).submits());
    assert!(!KeyInput { key: Key::Enter, ctrl: false, alt: false, pressed: false }.submits());
    assert!(!KeyInput::press(Key::Char('\n')).submits());
    assert!(!KeyInput::press(Key::Up).submits());
    assert!(!KeyInput::press(Key::Other).submits());
    let mut repl = Repl::new();
    for input in [KeyInput::ctrl(Key::Enter), KeyInput::alt(Key::Enter)] {
        assert_eq!(repl.process_key(input), Action::Submit("".to_string()));
    }
}
