//! The status display: a titled log of messages that scrolls to its end.

use crate::text::{count_char, count_occurrences, lemma_count_char_bounded, lemma_count_char_concat};
use vstd::prelude::*;
use vstd::string::StringExecFns;

verus! {

broadcast use vstd::string::group_string_axioms;

/// The status display.
#[derive(Debug)]
pub struct Info {
    title: String,
    content: String,
    newlines: usize,
}

/// The mathematical value of an [`Info`].
pub struct InfoView {
    pub title: Seq<char>,
    pub content: Seq<char>,
}

impl View for Info {
    type V = InfoView;

    closed spec fn view(&self) -> InfoView {
        InfoView { title: self.title@, content: self.content@ }
    }
}

/// The log after `message` was added: the message follows what was there
/// and ends its own line.
pub open spec fn appended(content: Seq<char>, message: Seq<char>) -> Seq<char> {
    content + message + seq!['\n']
}

/// The first line to show of `content` in an area of `height` rows, so that
/// the end of the log is in sight: the number of line ends beyond `height`,
/// cut to sixteen bits.
pub open spec fn scroll_offset_spec(content: Seq<char>, height: u16) -> u16 {
    let lines = count_char(content, '\n');
    let beyond: int = if lines > height {
        lines - height
    } else {
        0
    };
    (beyond % 0x1_0000) as u16
}

impl Info {
    #[verifier::type_invariant]
    spec fn valid(self) -> bool {
        self.newlines == count_char(self.content@, '\n')
    }

    /// An empty log under `title`.
    pub fn new(title: &str) -> (i: Info)
        ensures
            i@ == (InfoView { title: title@, content: Seq::empty() }),
    {
        Info { title: title.to_string(), content: String::new(), newlines: 0 }
    }

    /// Adds `new_content` to the log, as a line of its own.
    pub fn update_content(&mut self, new_content: &str)
        ensures
            final(self)@ == (InfoView {
                title: old(self)@.title,
                content: appended(old(self)@.content, new_content@),
            }),
    {
        proof {
            use_type_invariant(&*self);
        }
        let mut taken = Info { title: String::new(), content: String::new(), newlines: 0 };
        core::mem::swap(self, &mut taken);
        let title = taken.title;
        let mut content = taken.content;
        let ghost before = content@;
        content.append(new_content);
        content.append("\n");
        let length = content.as_str().unicode_len();
        let added = count_occurrences(new_content, '\n');
        proof {
            reveal_strlit("\n");
            assert("\n"@ =~= seq!['\n']);
            assert(content@ =~= appended(before, new_content@));
            lemma_count_char_concat(before, new_content@, '\n');
            lemma_count_char_concat(before + new_content@, seq!['\n'], '\n');
            assert(count_char(seq!['\n'], '\n') == 1) by {
                assert(seq!['\n'].drop_last() =~= Seq::<char>::empty());
                reveal_with_fuel(count_char, 2);
            }
            lemma_count_char_bounded(content@, '\n');
        }
        *self = Info { title, content, newlines: taken.newlines + added + 1 };
    }

    /// The title.
    pub fn title(&self) -> (r: &str)
        ensures
            r@ == self@.title,
    {
        self.title.as_str()
    }

    /// The log.
    pub fn content(&self) -> (r: &str)
        ensures
            r@ == self@.content,
    {
        self.content.as_str()
    }

    /// The first line to show in an area of `height` rows.
    pub fn scroll_offset(&self, height: u16) -> (r: u16)
        ensures
            r == scroll_offset_spec(self@.content, height),
    {
        proof {
            use_type_invariant(self);
        }
        let beyond: usize = self.newlines.saturating_sub(height as usize);
        (beyond % 0x1_0000) as u16
    }
}

} // verus!
