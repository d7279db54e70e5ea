use neviraller::action::Action;
use neviraller::config::{same_keys, starts_with, BindError, KeyBindings};
use neviraller::keys::{Key, KeyCode};
use neviraller::mode::Mode;

fn key(c: char) -> Key {
    Key::plain(KeyCode::Char(c))
}

#[test]
fn bound_sequences_are_found() {
    let mut b = KeyBindings::new();
    assert_eq!(b.bind(Mode::Home, vec![Key::plain(KeyCode::Enter)], Action::Select), Ok(()));
    assert_eq!(b.bind(Mode::Home, vec![key('g'), key('g')], Action::Refresh), Ok(()));
    assert_eq!(b.len(), 2);
    assert!(b.has_mode(Mode::Home));
    assert_eq!(b.lookup(Mode::Home, &vec![Key::plain(KeyCode::Enter)]), Some(&Action::Select));
    assert_eq!(b.lookup(Mode::Home, &vec![key('g'), key('g')]), Some(&Action::Refresh));
    assert_eq!(b.lookup(Mode::Home, &vec![key('g')]), None);
    assert_eq!(b.lookup(Mode::Home, &vec![]), None);
}

#[test]
fn empty_table_has_no_mode() {
    let b = KeyBindings::new();
    assert_eq!(b.len(), 0);
    assert!(!b.has_mode(Mode::Home));
}

#[test]
fn empty_sequence_is_refused() {
    let mut b = KeyBindings::new();
    assert_eq!(b.bind(Mode::Home, vec![], Action::Quit), Err(BindError::EmptySequence));
    assert_eq!(b.len(), 0);
}

#[test]
fn second_binding_of_a_sequence_is_refused() {
    let mut b = KeyBindings::new();
    assert_eq!(b.bind(Mode::Home, vec![key('q')], Action::Quit), Ok(()));
    assert_eq!(b.bind(Mode::Home, vec![key('q')], Action::Help), Err(BindError::AlreadyBound));
    assert_eq!(b.lookup(Mode::Home, &vec![key('q')]), Some(&Action::Quit));
    assert_eq!(b.len(), 1);
}

#[test]
fn chord_with_a_key_that_is_bound_alone_is_refused() {
    let mut b = KeyBindings::new();
    assert_eq!(b.bind(Mode::Home, vec![key('g')], Action::Next), Ok(()));
    assert_eq!(
        b.bind(Mode::Home, vec![key('g'), key('g')], Action::Refresh),
        Err(BindError::Unreachable)
    );
    assert_eq!(
        b.bind(Mode::Home, vec![key('x'), key('g')], Action::Refresh),
        Err(BindError::Unreachable)
    );
    assert_eq!(b.len(), 1);
}

#[test]
fn chord_behind_a_bound_chord_is_refused() {
    let mut b = KeyBindings::new();
    assert_eq!(b.bind(Mode::Home, vec![key('g'), key('g')], Action::Refresh), Ok(()));
    assert_eq!(
        b.bind(Mode::Home, vec![key('g'), key('g'), key('x')], Action::Help),
        Err(BindError::Unreachable)
    );
    assert_eq!(b.bind(Mode::Home, vec![key('g'), key('x')], Action::Help), Ok(()));
}

#[test]
fn binding_that_would_hide_a_chord_is_refused() {
    let mut b = KeyBindings::new();
    assert_eq!(b.bind(Mode::Home, vec![key('a'), key('b'), key('c')], Action::Refresh), Ok(()));
    assert_eq!(b.bind(Mode::Home, vec![key('b')], Action::Next), Err(BindError::Shadows));
    assert_eq!(b.bind(Mode::Home, vec![key('a'), key('b')], Action::Next), Err(BindError::Shadows));
    assert_eq!(b.bind(Mode::Home, vec![key('b'), key('c')], Action::Next), Ok(()));
    assert_eq!(b.bind(Mode::Home, vec![key('z')], Action::Next), Ok(()));
    assert_eq!(b.len(), 3);
}

#[test]
fn sequences_are_compared_key_by_key() {
    assert!(same_keys(&vec![key('a'), key('b')], &vec![key('a'), key('b')]));
    assert!(!same_keys(&vec![key('a'), key('b')], &vec![key('a'), key('c')]));
    assert!(!same_keys(&vec![key('a')], &vec![key('a'), key('b')]));
    assert!(starts_with(&vec![key('a'), key('b')], &vec![key('a')]));
    assert!(!starts_with(&vec![key('a'), key('b')], &vec![key('a'), key('b')]));
    assert!(!starts_with(&vec![key('a'), key('b')], &vec![key('b')]));
}
