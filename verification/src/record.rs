//! The record kept for one bookmarked page, and how it is built from the
//! outcome of fetching that page.

use crate::adapters::{
    byte_length, first_element_text, text_of_first_element, MARKUP_LIMIT, MARKUP_OPENINGS,
};
use crate::errors::ExtractError;
use crate::text::{ration_char, rationed};
use vstd::prelude::*;
use vstd::string::*;

verus! {

/// One bookmarked page.
#[derive(Clone, Debug, PartialEq, Eq)]
pub struct Markdown {
    /// The page's title, or the URL where no title could be had.
    pub title: String,
    /// The URL, which is also the body of the stored file.
    pub content: String,
    /// Whether the page could be fetched when the bookmark was taken.
    pub available: bool,
}

/// A [`Markdown`] record with its texts as sequences of characters.
pub struct MarkdownView {
    pub title: Seq<char>,
    pub content: Seq<char>,
    pub available: bool,
}

impl View for Markdown {
    type V = MarkdownView;

    open spec fn view(&self) -> MarkdownView {
        MarkdownView { title: self.title@, content: self.content@, available: self.available }
    }
}

impl MarkdownView {
    /// A record of an unreachable page carries the URL in both of its texts.
    pub open spec fn is_consistent(self) -> bool {
        !self.available ==> self.title == self.content
    }
}

/// The name of the element whose text gives a page its title.
pub open spec fn title_tag() -> Seq<char> {
    "title"@
}

/// The part of a page that is searched for the title: the page up to the `<`
/// that would be one more than the markup parser is handed. A title stands
/// near the top of a page; the rest of the page is not parsed, however deep
/// it nests its elements.
pub open spec fn page_head(raw: Seq<char>) -> Seq<char> {
    rationed(raw, '<', MARKUP_OPENINGS as nat)
}

/// The title that a fetched page declares in its head, if it declares one
/// there. A head too long for the markup parser to take in counts as one
/// without a title.
pub open spec fn page_title(raw: Seq<char>) -> Option<Seq<char>> {
    if byte_length(page_head(raw)) <= MARKUP_LIMIT {
        first_element_text(page_head(raw), title_tag())
    } else {
        None
    }
}

/// The record of a page that was fetched: it bears the page's own title, or
/// the URL where the page declares none.
pub open spec fn record_of_page(url: Seq<char>, title: Option<Seq<char>>) -> MarkdownView {
    MarkdownView {
        title: match title {
            Some(text) => text,
            None => url,
        },
        content: url,
        available: true,
    }
}

/// The record of a page that could not be fetched.
pub open spec fn record_of_failure(url: Seq<char>) -> MarkdownView {
    MarkdownView { title: url, content: url, available: false }
}

/// The record for `url`, given the text that fetching it returned, or `None`
/// where fetching failed.
pub open spec fn record_for(url: Seq<char>, fetched: Option<Seq<char>>) -> MarkdownView {
    match fetched {
        Some(raw) => record_of_page(url, page_title(raw)),
        None => record_of_failure(url),
    }
}

/// The text that a fetch returned, or `None` where it failed; the reason for
/// a failure plays no part in the record.
pub open spec fn fetched_text(fetched: Result<String, ExtractError>) -> Option<Seq<char>> {
    match fetched {
        Ok(raw) => Some(raw@),
        Err(_) => None,
    }
}

impl Markdown {
    /// The record of a page that was fetched and declares `title`, or none.
    pub fn fetched(url: &str, title: Option<String>) -> (record: Markdown)
        ensures
            record@ == record_of_page(url@, title.deep_view()),
            record@.is_consistent(),
    {
        let title = match title {
            Some(text) => text,
            None => url.to_owned(),
        };
        Markdown { title, content: url.to_owned(), available: true }
    }

    /// The record of a page that could not be fetched.
    pub fn unavailable(url: &str) -> (record: Markdown)
        ensures
            record@ == record_of_failure(url@),
            record@.is_consistent(),
    {
        Markdown { title: url.to_owned(), content: url.to_owned(), available: false }
    }
}

/// Reads the title out of the head of a fetched page. A page without a title
/// element there is no failure: the answer is `None`. However deep the page
/// nests its elements and however long it is, the markup parser is handed no
/// more than it can take.
pub fn extract_title(raw: &str) -> (title: Option<String>)
    ensures
        title.deep_view() == page_title(raw@),
{
    let head = ration_char(raw, '<', MARKUP_OPENINGS);
    if head.as_str().as_bytes().len() > MARKUP_LIMIT {
        None
    } else {
        text_of_first_element(head.as_str(), "title")
    }
}

/// Builds the record for `url` from the outcome of fetching it. Every outcome
/// gives a record: a failed fetch gives the record of an unreachable page.
pub fn convert_url_to_markdown(url: &str, fetched: Result<String, ExtractError>) -> (record:
    Markdown)
    ensures
        record@ == record_for(url@, fetched_text(fetched)),
        record@.is_consistent(),
{
    match fetched {
        Ok(raw) => Markdown::fetched(url, extract_title(raw.as_str())),
        Err(_) => Markdown::unavailable(url),
    }
}

/// Whatever the URL and whatever came of fetching it, the record built holds
/// the URL as its content, is available exactly when the fetch succeeded, and
/// is titled by the page where the page has a title and by the URL otherwise.
pub proof fn lemma_record_is_total(url: Seq<char>, fetched: Option<Seq<char>>)
    ensures
        record_for(url, fetched).content == url,
        record_for(url, fetched).available <==> fetched is Some,
        fetched is Some && page_title(fetched->0) is Some ==> record_for(url, fetched).title
            == page_title(fetched->0)->0,
        fetched is None || page_title(fetched->0) is None ==> record_for(url, fetched).title
            == url,
{
}

/// A record built for an unreachable page has the same title and content.
pub proof fn lemma_unavailable_title_is_content(url: Seq<char>, fetched: Option<Seq<char>>)
    ensures
        record_for(url, fetched).is_consistent(),
        !record_for(url, fetched).available ==> record_for(url, fetched).title == record_for(
            url,
            fetched,
        ).content,
{
}

} // verus!
