//! The line at the bottom of the screen.

use vstd::prelude::*;

verus! {

broadcast use vstd::string::group_string_axioms;

/// The footer: one line of text.
#[derive(Debug)]
pub struct Footer {
    content: String,
}

impl View for Footer {
    type V = Seq<char>;

    closed spec fn view(&self) -> Seq<char> {
        self.content@
    }
}

impl Footer {
    /// A footer that shows `content`.
    pub fn new(content: &str) -> (f: Footer)
        ensures
            f@ == content@,
    {
        Footer { content: content.to_string() }
    }

    /// The text.
    pub fn content(&self) -> (r: &str)
        ensures
            r@ == self@,
    {
        self.content.as_str()
    }
}

} // verus!
