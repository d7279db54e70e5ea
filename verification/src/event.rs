//! What the input source reports.

use crate::keys::Key;
use vstd::prelude::*;

verus! {

/// One normalized event of the terminal.
#[derive(Debug)]
pub enum Event {
    /// A key event.
    Key(Key),
    /// The terminal was resized to this width and height.
    Resize(u16, u16),
    /// A frame is due.
    Render,
    /// A tick of the fixed schedule.
    Tick,
    /// The input source asks the application to end.
    Quit,
    /// The terminal gained the focus.
    FocusGained,
    /// The terminal lost the focus.
    FocusLost,
    /// Text was pasted.
    Paste(String),
}

} // verus!
