//! Interaction contexts.

use vstd::prelude::*;

verus! {

/// The interaction context that selects the active key map.
#[derive(Clone, Copy, Debug, PartialEq, Eq, Structural, Hash)]
pub enum Mode {
    Home,
}

impl Default for Mode {
    fn default() -> (m: Mode)
        ensures
            m == Mode::Home,
    {
        Mode::Home
    }
}

} // verus!
