//! The version that the release page offers.

use crate::text::{join, joined, remove_all, texts, trim, trimmed, without};
use vstd::prelude::*;

verus! {

broadcast use vstd::string::group_string_axioms;

/// An HTML document as `scraper` holds it.
#[verifier::external_type_specification]
#[verifier::external_body]
pub struct ExHtml(scraper::Html);

/// A CSS selector as `scraper` holds it.
#[verifier::external_type_specification]
#[verifier::external_body]
pub struct ExSelector(scraper::Selector);

/// The document that `scraper` makes of an HTML text.
pub uninterp spec fn parsed_document(html: Seq<char>) -> scraper::Html;

/// The selector that `scraper` makes of a text; `None` where the text is no
/// selector.
pub uninterp spec fn parsed_selector(selector: Seq<char>) -> Option<scraper::Selector>;

/// The text nodes, in the order of the document, of the first element of a
/// document that a selector matches; `None` where it matches none.
pub uninterp spec fn first_match(document: scraper::Html, selector: scraper::Selector) -> Option<
    Seq<Seq<char>>,
>;

/// Parses an HTML text, by `scraper::Html::parse_document`. The document is
/// a function of the text alone; nothing else is claimed of it.
#[verifier::external_body]
fn parse_document(html: &str) -> (document: scraper::Html)
    ensures
        document == parsed_document(html@),
{
    scraper::Html::parse_document(html)
}

/// Parses a CSS selector, by `scraper::Selector::parse`. Whether the text
/// is a selector, and which, is a function of the text alone; nothing else
/// is claimed.
#[verifier::external_body]
fn parse_selector(selector: &str) -> (r: Option<scraper::Selector>)
    ensures
        r == parsed_selector(selector@),
{
    scraper::Selector::parse(selector).ok()
}

/// The text nodes of the first element that the selector matches, by
/// `scraper::Html::select` and `scraper::ElementRef::text`. They are a
/// function of document and selector alone; nothing else is claimed of
/// them.
#[verifier::external_body]
fn select_first(document: &scraper::Html, selector: &scraper::Selector) -> (r: Option<Vec<String>>)
    ensures
        match r {
            Some(nodes) => first_match(*document, *selector) == Some(texts(nodes@)),
            None => first_match(*document, *selector) is None,
        },
{
    let element = document.select(selector).next()?;
    Some(element.text().map(|node| node.to_string()).collect())
}

/// Why no version was read from the release page.
#[derive(Clone, Copy, Debug, PartialEq, Eq, Structural, Hash)]
pub enum ScrapError {
    /// The text that is to select the place of the version is no selector.
    Selector,
    /// The page has no element at the place of the version.
    Missing,
}

/// The selector of the place of the version on the release page.
pub open spec fn version_selector() -> Seq<char> {
    ".markdown-body pre code"@
}

/// The version that a piece of release notes names: the text without the
/// white space around it and without the name of the editor.
pub open spec fn version_spec(notes: Seq<char>) -> Seq<char> {
    without(trimmed(notes), "NVIM "@)
}

/// The view of text nodes that may be absent.
pub open spec fn nodes_view(found: Option<Vec<String>>) -> Option<Seq<Seq<char>>> {
    match found {
        Some(nodes) => Some(texts(nodes@)),
        None => None,
    }
}

/// What the search of the release page comes to, given the text nodes that
/// were found at the place of the version: the version that the nodes name
/// when they are put together, or the error that none was found.
pub open spec fn version_of(found: Option<Seq<Seq<char>>>) -> Result<Seq<char>, ScrapError> {
    match found {
        Some(nodes) => Ok(version_spec(joined(nodes, Seq::empty()))),
        None => Err(ScrapError::Missing),
    }
}

/// What the search of a page comes to.
pub open spec fn scrap_spec(html: Seq<char>) -> Result<Seq<char>, ScrapError> {
    match parsed_selector(version_selector()) {
        Some(selector) => version_of(first_match(parsed_document(html), selector)),
        None => Err(ScrapError::Selector),
    }
}

impl ScrapError {
    /// The message of the error.
    pub fn message(&self) -> (r: &'static str)
        ensures
            r@ == (match *self {
                ScrapError::Selector => "The place of the version cannot be selected"@,
                ScrapError::Missing => "Couldn't find information about new version"@,
            }),
    {
        match self {
            ScrapError::Selector => "The place of the version cannot be selected",
            ScrapError::Missing => "Couldn't find information about new version",
        }
    }
}

/// The version that is named by the text nodes found at the place of the
/// version; an error where none was found there.
pub fn version_from(found: Option<Vec<String>>) -> (r: Result<String, ScrapError>)
    ensures
        match r {
            Ok(version) => version_of(nodes_view(found)) == Ok::<Seq<char>, ScrapError>(version@),
            Err(e) => version_of(nodes_view(found)) == Err::<Seq<char>, ScrapError>(e),
        },
{
    match found {
        Some(nodes) => {
            let notes = join(&nodes, "");
            proof {
                reveal_strlit("");
                assert(""@ =~= Seq::<char>::empty());
            }
            Ok(remove_all(trim(notes.as_str()), "NVIM "))
        },
        None => Err(ScrapError::Missing),
    }
}

/// The version that the release page offers, given the page.
///
/// The version stands in the first element that the selector
/// `.markdown-body pre code` matches.
pub fn scrap(html: &str) -> (r: Result<String, ScrapError>)
    ensures
        match r {
            Ok(version) => scrap_spec(html@) == Ok::<Seq<char>, ScrapError>(version@),
            Err(e) => scrap_spec(html@) == Err::<Seq<char>, ScrapError>(e),
        },
{
    let selector = match parse_selector(".markdown-body pre code") {
        Some(selector) => selector,
        None => {
            return Err(ScrapError::Selector);
        },
    };
    let document = parse_document(html);
    version_from(select_first(&document, &selector))
}

} // verus!
