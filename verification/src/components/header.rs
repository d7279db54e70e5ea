//! The title line at the top of the screen.

use vstd::prelude::*;

verus! {

broadcast use vstd::string::group_string_axioms;

/// The header: a title.
#[derive(Debug)]
pub struct Header {
    title: String,
}

impl View for Header {
    type V = Seq<char>;

    closed spec fn view(&self) -> Seq<char> {
        self.title@
    }
}

impl Header {
    /// A header that shows `title`.
    pub fn new(title: &str) -> (h: Header)
        ensures
            h@ == title@,
    {
        Header { title: title.to_string() }
    }

    /// The title.
    pub fn title(&self) -> (r: &str)
        ensures
            r@ == self@,
    {
        self.title.as_str()
    }
}

} // verus!
