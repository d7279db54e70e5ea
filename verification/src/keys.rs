//! Key presses as plain values.
//!
//! A [`Key`] holds what a terminal reports of one key event. Two keys that a
//! terminal may report differently for the same press (an upper-case letter
//! with or without the shift modifier) are stored in one normal form, so that
//! field-wise equality is equality of key presses.

use vstd::prelude::*;

verus! {

/// The shift modifier bit.
pub const SHIFT: u8 = 0b0000_0001;

/// The control modifier bit.
pub const CONTROL: u8 = 0b0000_0010;

/// The alt modifier bit.
pub const ALT: u8 = 0b0000_0100;

/// The super modifier bit.
pub const SUPER: u8 = 0b0000_1000;

/// The hyper modifier bit.
pub const HYPER: u8 = 0b0001_0000;

/// The meta modifier bit.
pub const META: u8 = 0b0010_0000;

/// No modifier.
pub const NONE: u8 = 0b0000_0000;

/// Which key was pressed.
#[derive(Clone, Copy, Debug, PartialEq, Eq, Structural, Hash)]
pub enum KeyCode {
    Backspace,
    Enter,
    Left,
    Right,
    Up,
    Down,
    Home,
    End,
    PageUp,
    PageDown,
    Tab,
    BackTab,
    Delete,
    Insert,
    F(u8),
    Char(char),
    Null,
    Esc,
    CapsLock,
    ScrollLock,
    NumLock,
    PrintScreen,
    Pause,
    Menu,
    KeypadBegin,
}

/// Whether a key went down, is held, or went up.
#[derive(Clone, Copy, Debug, PartialEq, Eq, Structural, Hash)]
pub enum KeyEventKind {
    Press,
    Repeat,
    Release,
}

/// One key event in normal form.
#[derive(Clone, Copy, Debug, PartialEq, Eq, Structural, Hash)]
pub struct Key {
    code: KeyCode,
    modifiers: u8,
    kind: KeyEventKind,
    state: u8,
}

/// Whether `c` is one of the letters `A` to `Z`.
pub open spec fn is_ascii_upper(c: char) -> bool {
    'A' <= c <= 'Z'
}

/// Whether `c` is one of the letters `a` to `z`.
pub open spec fn is_ascii_lower(c: char) -> bool {
    'a' <= c <= 'z'
}

/// The upper-case form of an ASCII letter; any other character unchanged.
pub open spec fn to_ascii_upper(c: char) -> char {
    if is_ascii_lower(c) {
        ((c as u8) - 32) as char
    } else {
        c
    }
}

/// The code of a key in normal form: with shift, a letter is upper case.
pub open spec fn normal_code(code: KeyCode, modifiers: u8) -> KeyCode {
    match code {
        KeyCode::Char(c) => if !is_ascii_upper(c) && modifiers & SHIFT != 0 {
            KeyCode::Char(to_ascii_upper(c))
        } else {
            code
        },
        _ => code,
    }
}

/// The modifiers of a key in normal form: an upper-case letter carries shift.
pub open spec fn normal_modifiers(code: KeyCode, modifiers: u8) -> u8 {
    match code {
        KeyCode::Char(c) => if is_ascii_upper(c) {
            modifiers | SHIFT
        } else {
            modifiers
        },
        _ => modifiers,
    }
}

fn ascii_upper(c: char) -> (r: char)
    ensures
        r == to_ascii_upper(c),
{
    if 'a' <= c && c <= 'z' {
        ((c as u8) - 32) as char
    } else {
        c
    }
}

impl Key {
    /// The key's code.
    pub closed spec fn spec_code(&self) -> KeyCode {
        self.code
    }

    /// The key's modifier bits.
    pub closed spec fn spec_modifiers(&self) -> u8 {
        self.modifiers
    }

    /// The key's kind.
    pub closed spec fn spec_kind(&self) -> KeyEventKind {
        self.kind
    }

    /// The key's state bits.
    pub closed spec fn spec_state(&self) -> u8 {
        self.state
    }

    /// A key is determined by its four parts.
    pub broadcast proof fn lemma_parts_determine(a: Key, b: Key)
        requires
            #[trigger] a.spec_code() == #[trigger] b.spec_code(),
            a.spec_modifiers() == b.spec_modifiers(),
            a.spec_kind() == b.spec_kind(),
            a.spec_state() == b.spec_state(),
        ensures
            a == b,
    {
    }

    /// A key press with the given code and modifiers.
    pub fn new(code: KeyCode, modifiers: u8) -> (k: Key)
        ensures
            k.spec_code() == normal_code(code, modifiers),
            k.spec_modifiers() == normal_modifiers(code, modifiers),
            k.spec_kind() == KeyEventKind::Press,
            k.spec_state() == 0,
    {
        Key::new_with_kind_and_state(code, modifiers, KeyEventKind::Press, 0)
    }

    /// A key event of the given kind.
    pub fn new_with_kind(code: KeyCode, modifiers: u8, kind: KeyEventKind) -> (k: Key)
        ensures
            k.spec_code() == normal_code(code, modifiers),
            k.spec_modifiers() == normal_modifiers(code, modifiers),
            k.spec_kind() == kind,
            k.spec_state() == 0,
    {
        Key::new_with_kind_and_state(code, modifiers, kind, 0)
    }

    /// A key event with every part given.
    pub fn new_with_kind_and_state(
        code: KeyCode,
        modifiers: u8,
        kind: KeyEventKind,
        state: u8,
    ) -> (k: Key)
        ensures
            k.spec_code() == normal_code(code, modifiers),
            k.spec_modifiers() == normal_modifiers(code, modifiers),
            k.spec_kind() == kind,
            k.spec_state() == state,
    {
        match code {
            KeyCode::Char(c) => {
                if 'A' <= c && c <= 'Z' {
                    Key { code, modifiers: modifiers | SHIFT, kind, state }
                } else if modifiers & SHIFT != 0 {
                    Key { code: KeyCode::Char(ascii_upper(c)), modifiers, kind, state }
                } else {
                    Key { code, modifiers, kind, state }
                }
            },
            _ => Key { code, modifiers, kind, state },
        }
    }

    /// A press of `code` with no modifier held.
    pub fn plain(code: KeyCode) -> (k: Key)
        ensures
            k.spec_code() == normal_code(code, NONE),
            k.spec_modifiers() == normal_modifiers(code, NONE),
            k.spec_kind() == KeyEventKind::Press,
            k.spec_state() == 0,
    {
        Key::new(code, NONE)
    }

    /// The key's code.
    #[verifier::when_used_as_spec(spec_code)]
    pub fn code(&self) -> (r: KeyCode)
        ensures
            r == self.spec_code(),
    {
        self.code
    }

    /// The key's modifier bits.
    #[verifier::when_used_as_spec(spec_modifiers)]
    pub fn modifiers(&self) -> (r: u8)
        ensures
            r == self.spec_modifiers(),
    {
        self.modifiers
    }

    /// The key's kind.
    #[verifier::when_used_as_spec(spec_kind)]
    pub fn kind(&self) -> (r: KeyEventKind)
        ensures
            r == self.spec_kind(),
    {
        self.kind
    }

    /// The key's state bits.
    #[verifier::when_used_as_spec(spec_state)]
    pub fn state(&self) -> (r: u8)
        ensures
            r == self.spec_state(),
    {
        self.state
    }
}

} // verus!
