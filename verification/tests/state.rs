use neviraller::action::Action;
use neviraller::config::KeyBindings;
use neviraller::keys::{Key, KeyCode};
use neviraller::mode::Mode;
use neviraller::state::AppState;

fn key(c: char) -> Key {
    Key::plain(KeyCode::Char(c))
}

fn enter_and_chord() -> KeyBindings {
    let mut b = KeyBindings::new();
    assert!(b.bind(Mode::Home, vec![Key::plain(KeyCode::Enter)], Action::Select).is_ok());
    assert!(b.bind(Mode::Home, vec![key('g'), key('g')], Action::Refresh).is_ok());
    b
}

#[test]
fn single_key_fires_even_in_the_middle_of_a_chord() {
    let b = enter_and_chord();
    let mut s = AppState::new();
    assert_eq!(s.resolve_key(&b, Key::plain(KeyCode::Enter)), Some(Action::Select));
    assert!(s.pending_key_sequence.is_empty());
    assert_eq!(s.resolve_key(&b, key('g')), None);
    assert_eq!(s.pending_key_sequence, vec![key('g')]);
    assert_eq!(s.resolve_key(&b, Key::plain(KeyCode::Enter)), Some(Action::Select));
    assert!(s.pending_key_sequence.is_empty());
}

#[test]
fn chord_fires_when_typed_without_a_tick() {
    let b = enter_and_chord();
    let mut s = AppState::new();
    assert_eq!(s.resolve_key(&b, key('g')), None);
    assert_eq!(s.resolve_key(&b, key('g')), Some(Action::Refresh));
    assert!(s.pending_key_sequence.is_empty());
}

#[test]
fn tick_between_the_keys_of_a_chord_resets_it() {
    let mut b = KeyBindings::new();
    assert!(b.bind(Mode::Home, vec![key('g'), key('g')], Action::Refresh).is_ok());
    let mut s = AppState::new();
    assert_eq!(s.resolve_key(&b, key('g')), None);
    s.tick();
    assert!(s.pending_key_sequence.is_empty());
    assert_eq!(s.resolve_key(&b, key('g')), None);
    assert_eq!(s.pending_key_sequence, vec![key('g')]);
    assert_eq!(s.resolve_key(&b, key('g')), Some(Action::Refresh));
}

#[test]
fn unbound_keys_pile_up_until_the_tick() {
    let b = enter_and_chord();
    let mut s = AppState::new();
    assert_eq!(s.resolve_key(&b, key('x')), None);
    assert_eq!(s.resolve_key(&b, key('g')), None);
    assert_eq!(s.resolve_key(&b, key('g')), None);
    assert_eq!(s.pending_key_sequence, vec![key('x'), key('g'), key('g')]);
    s.tick();
    assert!(s.pending_key_sequence.is_empty());
}

#[test]
fn mode_without_bindings_clears_the_pending_keys() {
    let b = KeyBindings::new();
    let mut s = AppState::new();
    s.pending_key_sequence.push(key('x'));
    assert_eq!(s.resolve_key(&b, key('g')), None);
    assert!(s.pending_key_sequence.is_empty());
    assert_eq!(s.mode, Mode::Home);
    assert!(!s.should_quit);
    assert!(!s.should_suspend);
}
