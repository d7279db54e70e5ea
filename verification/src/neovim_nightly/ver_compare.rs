//! The comparison of the installed version with the one that is offered.

use crate::text::{first_line, same_text, second_word, take_first_line, take_second_word};
use vstd::prelude::*;
use vstd::string::StringExecFns;

verus! {

broadcast use vstd::string::group_string_axioms;

/// Why no newer version can be reported.
#[derive(Debug)]
pub struct NeovimVersionError {
    message: String,
}

impl View for NeovimVersionError {
    type V = Seq<char>;

    closed spec fn view(&self) -> Seq<char> {
        self.message@
    }
}

impl NeovimVersionError {
    /// The error with this message.
    pub fn new(msg: &str) -> (e: NeovimVersionError)
        ensures
            e@ == msg@,
    {
        NeovimVersionError { message: msg.to_string() }
    }

    /// The message.
    pub fn message(&self) -> (r: &str)
        ensures
            r@ == self@,
    {
        self.message.as_str()
    }

    /// The message, as the error is displayed.
    pub fn to_string(&self) -> (r: String)
        ensures
            r@ == self@,
    {
        self.message.clone()
    }
}

/// The report of a newer version.
pub open spec fn newer_version_report(current: Seq<char>, offered: Seq<char>) -> Seq<char> {
    "Current installed Neovim version: "@ + current
        + "\nThere is a newer version of Neovim Nightly available: "@ + offered
}

/// What the comparison comes to, given what the installed editor prints of
/// its version and the text that names the offered version.
///
/// The installed version is the second word of the first line that the
/// editor prints; the offered version is the first line of its text. Equal
/// versions, and a version that cannot be read, are errors.
pub open spec fn check_spec(printed: Seq<char>, offered_text: Seq<char>) -> Result<
    Seq<char>,
    Seq<char>,
> {
    match first_line(printed) {
        None => Err("Failed to get the current Neovim version."@),
        Some(line) => match second_word(line) {
            None => Err("Failed to parse the current Neovim version."@),
            Some(current) => match first_line(offered_text) {
                None => Err("Failed to retrieve new version information."@),
                Some(offered) => if current == offered {
                    Err("Already up to date."@)
                } else {
                    Ok(newer_version_report(current, offered))
                },
            },
        },
    }
}

/// Compares the installed version with the offered one.
///
/// `current_version_output` is what the installed editor prints when it is
/// asked for its version; `new_version_line` is the text that names the
/// offered version.
pub fn check_neovim_version(current_version_output: &str, new_version_line: &str) -> (r: Result<
    String,
    NeovimVersionError,
>)
    ensures
        match r {
            Ok(report) => check_spec(current_version_output@, new_version_line@) == Ok::<
                Seq<char>,
                Seq<char>,
            >(report@),
            Err(e) => check_spec(current_version_output@, new_version_line@) == Err::<
                Seq<char>,
                Seq<char>,
            >(e@),
        },
{
    let current_version_line = match take_first_line(current_version_output) {
        Some(line) => line,
        None => {
            return Err(NeovimVersionError::new("Failed to get the current Neovim version."));
        },
    };
    let current_version = match take_second_word(current_version_line) {
        Some(word) => word,
        None => {
            return Err(NeovimVersionError::new("Failed to parse the current Neovim version."));
        },
    };
    let new_version = match take_first_line(new_version_line) {
        Some(line) => line,
        None => {
            return Err(NeovimVersionError::new("Failed to retrieve new version information."));
        },
    };
    if same_text(current_version, new_version) {
        Err(NeovimVersionError::new("Already up to date."))
    } else {
        let mut report = "Current installed Neovim version: ".to_string();
        report.append(current_version);
        report.append("\nThere is a newer version of Neovim Nightly available: ");
        report.append(new_version);
        Ok(report)
    }
}

} // verus!
