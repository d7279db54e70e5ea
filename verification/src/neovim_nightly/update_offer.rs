//! The answer to the offer of an update.

use crate::text::{lowercase, same_text, to_lowercase, trim, trimmed};
use vstd::prelude::*;

verus! {

/// What the user answered to the offer.
#[derive(Clone, Copy, Debug, PartialEq, Eq, Structural, Hash)]
pub enum Answer {
    /// Update.
    Yes,
    /// Do not update.
    No,
    /// Neither; the update is not made.
    Invalid,
}

/// What a typed answer means: without the white space around it and in
/// lower case, `yes` and `y` accept the offer, `no` and `n` decline it.
pub open spec fn answer_spec(input: Seq<char>) -> Answer {
    let word = lowercase(trimmed(input));
    if word == "yes"@ || word == "y"@ {
        Answer::Yes
    } else if word == "no"@ || word == "n"@ {
        Answer::No
    } else {
        Answer::Invalid
    }
}

/// What the word of an answer means, once it is trimmed and in lower case.
pub fn classify_word(word: &str) -> (a: Answer)
    ensures
        a == (if word@ == "yes"@ || word@ == "y"@ {
            Answer::Yes
        } else if word@ == "no"@ || word@ == "n"@ {
            Answer::No
        } else {
            Answer::Invalid
        }),
{
    if same_text(word, "yes") || same_text(word, "y") {
        Answer::Yes
    } else if same_text(word, "no") || same_text(word, "n") {
        Answer::No
    } else {
        Answer::Invalid
    }
}

/// What a typed answer means.
pub fn classify_answer(user_input: &str) -> (a: Answer)
    ensures
        a == answer_spec(user_input@),
{
    let word = to_lowercase(trim(user_input));
    classify_word(word.as_str())
}

} // verus!
