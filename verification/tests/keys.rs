use neviraller::keys::{Key, KeyCode, KeyEventKind, ALT, CONTROL, NONE, SHIFT};

#[test]
fn upper_case_letter_carries_shift() {
    let without = Key::new(KeyCode::Char('G'), NONE);
    let with = Key::new(KeyCode::Char('G'), SHIFT);
    assert_eq!(without, with);
    assert_eq!(without.code(), KeyCode::Char('G'));
    assert_eq!(without.modifiers(), SHIFT);
}

#[test]
fn shift_makes_a_letter_upper_case() {
    let key = Key::new(KeyCode::Char('g'), SHIFT | CONTROL);
    assert_eq!(key.code(), KeyCode::Char('G'));
    assert_eq!(key.modifiers(), SHIFT | CONTROL);
    assert_eq!(key, Key::new(KeyCode::Char('G'), CONTROL));
}

#[test]
fn other_keys_are_kept_as_given() {
    let key = Key::new(KeyCode::Char('1'), SHIFT);
    assert_eq!(key.code(), KeyCode::Char('1'));
    assert_eq!(key.modifiers(), SHIFT);
    let enter = Key::new(KeyCode::Enter, ALT);
    assert_eq!(enter.code(), KeyCode::Enter);
    assert_eq!(enter.modifiers(), ALT);
    assert_eq!(enter.kind(), KeyEventKind::Press);
    assert_eq!(enter.state(), 0);
    let plain = Key::plain(KeyCode::Char('g'));
    assert_eq!(plain.code(), KeyCode::Char('g'));
    assert_eq!(plain.modifiers(), NONE);
    assert_ne!(plain, Key::new(KeyCode::Char('g'), SHIFT));
}

#[test]
fn kind_and_state_tell_keys_apart() {
    let press = Key::plain(KeyCode::Down);
    let release = Key::new_with_kind(KeyCode::Down, NONE, KeyEventKind::Release);
    assert_ne!(press, release);
    let keypad = Key::new_with_kind_and_state(KeyCode::Down, NONE, KeyEventKind::Press, 1);
    assert_ne!(press, keypad);
    assert_eq!(keypad.state(), 1);
}
