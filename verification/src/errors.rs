//! The failures that the pipeline reports, and the text shown for each.

use vstd::prelude::*;
use vstd::string::*;

verus! {

/// Why a single URL could not be taken from the editor or the clipboard and
/// bookmarked.
#[derive(Clone, Debug, PartialEq, Eq)]
pub enum ExtractError {
    /// The URL did not parse; the parser's message is kept as it came.
    Parse(String),
    /// The URL gave nothing to bookmark.
    NoContent,
    /// The bookmark could not be stored; the text of the failure that ended
    /// the storing is kept as it came.
    Persist(String),
    /// The host could not carry out a request; its message is kept as it came.
    Fetch(String),
    /// Nothing was selected, or the clipboard held an empty text.
    NoUrlSelected,
    /// The active view is not a Markdown view.
    WrongView,
    /// The host offers no clipboard.
    NoClipboard,
    /// The clipboard holds something other than text.
    NoClipboardContent,
}

/// An [`ExtractError`] with its texts as sequences of characters.
pub enum ExtractErrorView {
    Parse(Seq<char>),
    NoContent,
    Persist(Seq<char>),
    Fetch(Seq<char>),
    NoUrlSelected,
    WrongView,
    NoClipboard,
    NoClipboardContent,
}

impl View for ExtractError {
    type V = ExtractErrorView;

    open spec fn view(&self) -> ExtractErrorView {
        match *self {
            ExtractError::Parse(detail) => ExtractErrorView::Parse(detail@),
            ExtractError::NoContent => ExtractErrorView::NoContent,
            ExtractError::Persist(detail) => ExtractErrorView::Persist(detail@),
            ExtractError::Fetch(detail) => ExtractErrorView::Fetch(detail@),
            ExtractError::NoUrlSelected => ExtractErrorView::NoUrlSelected,
            ExtractError::WrongView => ExtractErrorView::WrongView,
            ExtractError::NoClipboard => ExtractErrorView::NoClipboard,
            ExtractError::NoClipboardContent => ExtractErrorView::NoClipboardContent,
        }
    }
}

impl ExtractErrorView {
    /// The text shown to the user for this failure.
    pub open spec fn message(self) -> Seq<char> {
        match self {
            ExtractErrorView::Parse(detail) => "url did not parse. "@ + detail,
            ExtractErrorView::NoContent => "url had not content"@,
            ExtractErrorView::Persist(detail) => detail,
            ExtractErrorView::Fetch(detail) => "fetch error `"@ + detail + "`"@,
            ExtractErrorView::NoUrlSelected => "select a url to bookmark"@,
            ExtractErrorView::WrongView => "expected view to be MarkdownView but was not"@,
            ExtractErrorView::NoClipboard => "no clipboard available"@,
            ExtractErrorView::NoClipboardContent => "no url in clipboard"@,
        }
    }

    /// The failure that stands for a request the host could not carry out:
    /// the host's own message where it gave one, after a fixed prefix.
    pub open spec fn of_host_failure(detail: Option<Seq<char>>) -> ExtractErrorView {
        match detail {
            Some(text) => ExtractErrorView::Fetch("fetch error "@ + text),
            None => ExtractErrorView::Fetch("fetch error"@),
        }
    }
}

impl ExtractError {
    /// The text shown to the user for this failure.
    pub fn message(&self) -> (text: String)
        ensures
            text@ == self@.message(),
    {
        match self {
            ExtractError::Parse(detail) => "url did not parse. ".to_owned().concat(detail.as_str()),
            ExtractError::NoContent => "url had not content".to_owned(),
            ExtractError::Persist(detail) => detail.clone(),
            ExtractError::Fetch(detail) => "fetch error `".to_owned().concat(
                detail.as_str(),
            ).concat("`"),
            ExtractError::NoUrlSelected => "select a url to bookmark".to_owned(),
            ExtractError::WrongView => "expected view to be MarkdownView but was not".to_owned(),
            ExtractError::NoClipboard => "no clipboard available".to_owned(),
            ExtractError::NoClipboardContent => "no url in clipboard".to_owned(),
        }
    }

    /// Turns a request that the host could not carry out into a failure of
    /// the pipeline. `detail` is the host's message, if it gave one.
    pub fn from_host_failure(detail: Option<String>) -> (error: ExtractError)
        ensures
            error@ == ExtractErrorView::of_host_failure(detail.deep_view()),
    {
        match detail {
            Some(text) => ExtractError::Fetch("fetch error ".to_owned().concat(text.as_str())),
            None => ExtractError::Fetch("fetch error".to_owned()),
        }
    }
}


/// Why a bookmark could not be stored, or a batch of them not finished.
#[derive(Clone, Debug, PartialEq, Eq)]
pub enum PersistMarkdownError {
    /// No document is open.
    NoActiveFile,
    /// The host reported an error; its message is kept as it came.
    JsError(String),
    /// The host failed without a message, or answered out of turn.
    UnknownJsError,
    /// A URL was expected.
    UnknownSyntax,
    /// Taking the URL failed before anything was stored.
    Parse(ExtractError),
}

/// A [`PersistMarkdownError`] with its texts as sequences of characters.
pub enum PersistMarkdownErrorView {
    NoActiveFile,
    JsError(Seq<char>),
    UnknownJsError,
    UnknownSyntax,
    Parse(ExtractErrorView),
}

impl View for PersistMarkdownError {
    type V = PersistMarkdownErrorView;

    open spec fn view(&self) -> PersistMarkdownErrorView {
        match *self {
            PersistMarkdownError::NoActiveFile => PersistMarkdownErrorView::NoActiveFile,
            PersistMarkdownError::JsError(detail) => PersistMarkdownErrorView::JsError(detail@),
            PersistMarkdownError::UnknownJsError => PersistMarkdownErrorView::UnknownJsError,
            PersistMarkdownError::UnknownSyntax => PersistMarkdownErrorView::UnknownSyntax,
            PersistMarkdownError::Parse(inner) => PersistMarkdownErrorView::Parse(inner@),
        }
    }
}

impl PersistMarkdownErrorView {
    /// The text shown to the user for this failure.
    pub open spec fn message(self) -> Seq<char> {
        match self {
            PersistMarkdownErrorView::NoActiveFile =>
                "expected to have a file open but none were active"@,
            PersistMarkdownErrorView::JsError(detail) => "unexpected error `"@ + detail + "`"@,
            PersistMarkdownErrorView::UnknownJsError => "unknown error from js"@,
            PersistMarkdownErrorView::UnknownSyntax => "unknown syntax expected a url"@,
            PersistMarkdownErrorView::Parse(inner) => "error extracting content. "@
                + inner.message(),
        }
    }

    /// The failure that stands for a request the host could not carry out.
    pub open spec fn of_host_failure(detail: Option<Seq<char>>) -> PersistMarkdownErrorView {
        match detail {
            Some(text) => PersistMarkdownErrorView::JsError(text),
            None => PersistMarkdownErrorView::UnknownJsError,
        }
    }
}

impl PersistMarkdownError {
    /// The text shown to the user for this failure.
    pub fn message(&self) -> (text: String)
        ensures
            text@ == self@.message(),
    {
        match self {
            PersistMarkdownError::NoActiveFile =>
                "expected to have a file open but none were active".to_owned(),
            PersistMarkdownError::JsError(detail) => "unexpected error `".to_owned().concat(
                detail.as_str(),
            ).concat("`"),
            PersistMarkdownError::UnknownJsError => "unknown error from js".to_owned(),
            PersistMarkdownError::UnknownSyntax => "unknown syntax expected a url".to_owned(),
            PersistMarkdownError::Parse(inner) => {
                let detail = inner.message();
                "error extracting content. ".to_owned().concat(detail.as_str())
            },
        }
    }

    /// Turns a request that the host could not carry out into a failure of
    /// the pipeline. `detail` is the host's message, if it gave one.
    pub fn from_host_failure(detail: Option<String>) -> (error: PersistMarkdownError)
        ensures
            error@ == PersistMarkdownErrorView::of_host_failure(detail.deep_view()),
    {
        match detail {
            Some(text) => PersistMarkdownError::JsError(text),
            None => PersistMarkdownError::UnknownJsError,
        }
    }

    /// Wraps a failure to take the URL.
    pub fn from_extract(inner: ExtractError) -> (error: PersistMarkdownError)
        ensures
            error@ == PersistMarkdownErrorView::Parse(inner@),
    {
        PersistMarkdownError::Parse(inner)
    }
}

/// What can be wrong with the front matter of a document.
#[derive(Clone, Copy, Debug, PartialEq, Eq, Structural)]
pub enum FrontmatterError {
    /// The root of the front matter is not a mapping.
    NotHash,
    /// The mapping has no key `link`.
    NoLink,
    /// The document has no front matter.
    NoYaml,
    /// The value under `link` is not a string.
    LinkNotString,
}

impl FrontmatterError {
    /// The text shown to the user for this failure.
    pub open spec fn message_text(self) -> Seq<char> {
        match self {
            FrontmatterError::NotHash => "root document not a hash"@,
            FrontmatterError::NoLink => "key link not available"@,
            FrontmatterError::NoYaml => "no frontmatter found in document"@,
            FrontmatterError::LinkNotString => "link expected to be string type"@,
        }
    }

    /// The text shown to the user for this failure.
    pub fn message(&self) -> (text: String)
        ensures
            text@ == self.message_text(),
    {
        match self {
            FrontmatterError::NotHash => "root document not a hash".to_owned(),
            FrontmatterError::NoLink => "key link not available".to_owned(),
            FrontmatterError::NoYaml => "no frontmatter found in document".to_owned(),
            FrontmatterError::LinkNotString => "link expected to be string type".to_owned(),
        }
    }
}

/// Why the settings page could not be shown.
#[derive(Clone, Debug, PartialEq, Eq)]
pub enum SettingPageError {
    /// The settings could not be loaded; the cause is kept as text.
    Transform(String),
}

impl SettingPageError {
    /// The text shown to the user for this failure.
    pub open spec fn message_text(self) -> Seq<char> {
        match self {
            SettingPageError::Transform(cause) => "error loading settings. "@ + cause@,
        }
    }

    /// The text shown to the user for this failure.
    pub fn message(&self) -> (text: String)
        ensures
            text@ == self.message_text(),
    {
        match self {
            SettingPageError::Transform(cause) => "error loading settings. ".to_owned().concat(
                cause.as_str(),
            ),
        }
    }
}

/// The notice shown when a command fails: the failure's own text after a fixed
/// prefix.
pub open spec fn failure_notice_text(message: Seq<char>) -> Seq<char> {
    "error: "@ + message
}

/// The notice shown when a command fails with the given message.
pub fn failure_notice(message: &str) -> (notice: String)
    ensures
        notice@ == failure_notice_text(message@),
{
    "error: ".to_owned().concat(message)
}

} // verus!
