//! The names of keys, as the terminal library writes a key code out for
//! debugging.

use crate::keys::KeyCode;
use crossterm::event::KeyCode::{
    BackTab, Backspace, CapsLock, Char, Delete, Down, End, Enter, Esc, Home, Insert, KeypadBegin,
    Left, Menu, Null, NumLock, PageDown, PageUp, Pause, PrintScreen, Right, ScrollLock, Tab, Up, F,
};
use vstd::prelude::*;

verus! {

/// The name of a key: what `crossterm` writes for the key code of this kind
/// when it is formatted for debugging.
pub uninterp spec fn key_code_debug(code: KeyCode) -> Seq<char>;

/// Writes out a key code for debugging: the key code is handed to
/// `crossterm` as its own `crossterm::event::KeyCode`, variant for variant,
/// and formatted by that type's `Debug`. The text is a function of the key
/// code alone; nothing else is claimed of it.
#[verifier::external_body]
pub(crate) fn debug_text(code: KeyCode) -> (r: String)
    ensures
        r@ == key_code_debug(code),
{
    let outside = match code {
        KeyCode::Backspace => Backspace, KeyCode::Enter => Enter, KeyCode::Left => Left,
        KeyCode::Right => Right, KeyCode::Up => Up, KeyCode::Down => Down,
        KeyCode::Home => Home, KeyCode::End => End, KeyCode::PageUp => PageUp,
        KeyCode::PageDown => PageDown, KeyCode::Tab => Tab, KeyCode::BackTab => BackTab,
        KeyCode::Delete => Delete, KeyCode::Insert => Insert, KeyCode::Null => Null,
        KeyCode::Esc => Esc, KeyCode::CapsLock => CapsLock, KeyCode::ScrollLock => ScrollLock,
        KeyCode::NumLock => NumLock, KeyCode::PrintScreen => PrintScreen, KeyCode::Pause => Pause,
        KeyCode::Menu => Menu, KeyCode::KeypadBegin => KeypadBegin,
        KeyCode::F(n) => F(n), KeyCode::Char(c) => Char(c),
    };
    format!("{:?}", outside)
}

} // verus!
