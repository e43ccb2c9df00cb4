//! The four outside engines the library builds on, each behind one function
//! from plain strings to plain strings.
//!
//! Nothing in this file is proved. Each function says of its engine only that
//! the answer depends on the arguments alone, and gives that answer a name
//! which the rest of the library reasons about.

use crate::text::occurrences;
use vstd::prelude::*;

verus! {

/// What `fancy_regex` makes of `text` when every non-overlapping match of
/// `pattern` is exchanged for `replacement`; `None` where the engine refuses
/// the pattern or gives up while matching.
pub uninterp spec fn regex_replaced(
    pattern: Seq<char>,
    text: Seq<char>,
    replacement: Seq<char>,
) -> Option<Seq<char>>;

/// The domain name of the absolute URL that `text` parses to; `None` where
/// `text` is no such URL, or the URL has no host, or its host is an IP address.
pub uninterp spec fn url_domain(text: Seq<char>) -> Option<Seq<char>>;

/// The text inside the first element named `tag` of the document that `markup`
/// parses to, nested elements included; `None` where there is no such element.
pub uninterp spec fn first_element_text(markup: Seq<char>, tag: Seq<char>) -> Option<Seq<char>>;

/// The links that `linkify` recognises in `text`, first to last.
pub uninterp spec fn links_in(text: Seq<char>) -> Seq<Seq<char>>;

/// Compiles `pattern` with `fancy_regex::Regex::new` and runs
/// `Regex::try_replacen` with no limit on the number of matches.
///
/// Trusted: the outcome is a function of the three strings. Both errors of the
/// engine, a pattern it cannot compile and a search it abandons, come back as
/// `None`; nothing is claimed about which patterns compile.
#[verifier::external_body]
pub(crate) fn regex_replace_all(pattern: &str, text: &str, replacement: &str) -> (out: Option<
    String,
>)
    ensures
        out.deep_view() == regex_replaced(pattern@, text@, replacement@),
{
    match fancy_regex::Regex::new(pattern) {
        Ok(regex) => match regex.try_replacen(text, 0, replacement) {
            Ok(replaced) => Some(replaced.into_owned()),
            Err(_) => None,
        },
        Err(_) => None,
    }
}

/// Parses `text` with `url::Url::parse` and asks the result for `Url::domain`.
///
/// Trusted: the outcome is a function of `text`. A parse error and a URL
/// without a domain both come back as `None`.
#[verifier::external_body]
pub(crate) fn domain_of_url(text: &str) -> (out: Option<String>)
    ensures
        out.deep_view() == url_domain(text@),
{
    match url::Url::parse(text) {
        Ok(parsed) => match parsed.domain() {
            Some(domain) => Some(domain.to_string()),
            None => None,
        },
        Err(_) => None,
    }
}

/// The number of bytes that `text` takes up in memory.
pub open spec fn byte_length(text: Seq<char>) -> nat {
    vstd::utf8::encode_utf8(text).len()
}

/// The longest markup, in bytes, that is handed to the markup parser. The
/// parser keeps text in buffers whose lengths it counts in 32 bits, and it may
/// write three bytes for one that it reads; a quarter of that range leaves
/// room.
pub const MARKUP_LIMIT: usize = 0x3FFF_FFFF;

/// The most `<` that markup handed to the markup parser may hold. Every
/// element that the parser opens comes from a tag that it has read, and a tag
/// begins with `<`; with the elements that it supplies of its own accord, such
/// as the rows of a table, the nesting stays within a small multiple of this
/// number. The parser's crate walks the document with one stack frame for each
/// level of nesting, so the number is kept low enough for a small stack.
pub const MARKUP_OPENINGS: usize = 200;

/// Parses `markup` with `select::document::Document::from`, takes the first
/// node that `Document::find` yields for the predicate `Name(tag)`, and reads
/// it with `Node::text`.
///
/// Trusted: the outcome is a function of the two strings. The parser takes
/// any markup, well formed or not, so there is no error to report; `None`
/// means that no element matched. Its buffers panic when they outgrow 32 bits,
/// and its walk over the parsed document overflows the stack where elements
/// are nested too deep; the precondition rules out both.
#[verifier::external_body]
pub(crate) fn text_of_first_element(markup: &str, tag: &str) -> (out: Option<String>)
    requires
        byte_length(markup@) <= MARKUP_LIMIT,
        occurrences(markup@, '<') <= MARKUP_OPENINGS,
    ensures
        out.deep_view() == first_element_text(markup@, tag@),
{
    let document = select::document::Document::from(markup);
    match document.find(select::predicate::Name(tag)).next() {
        Some(node) => Some(node.text()),
        None => None,
    }
}

/// Runs `linkify::LinkFinder::new().links(text)` to its end and copies each
/// `Link::as_str`.
///
/// Trusted: the sequence is a function of `text`.
#[verifier::external_body]
pub(crate) fn find_links(text: &str) -> (links: Vec<String>)
    ensures
        links.deep_view() == links_in(text@),
{
    let finder = linkify::LinkFinder::new();
    finder.links(text).map(|link| link.as_str().to_string()).collect()
}

} // verus!
