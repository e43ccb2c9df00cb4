//! The words in which the library and its host application talk: what the
//! library asks the host to do, and what the host reports back.
//!
//! The library never reads a document, fetches a page or touches a file. It
//! decides what is to happen next and hands that out as a [`Request`]; the
//! host carries the request out and comes back with an [`Event`].

use vstd::prelude::*;

verus! {

/// What occupies a path in the store.
#[derive(Clone, Copy, Debug, PartialEq, Eq, Structural)]
pub enum EntryKind {
    /// A plain file.
    File,
    /// Anything else, such as a folder.
    Other,
}

/// One operation that the host carries out for the library.
#[derive(Clone, Debug, PartialEq, Eq)]
pub enum Request {
    /// Read the text of the active document.
    ReadDocument,
    /// Look for the active Markdown view.
    FindMarkdownView,
    /// Read the text selected in the editor.
    ReadSelection,
    /// Read the text on the clipboard.
    ReadClipboard,
    /// Fetch the page at `url`, once.
    Fetch { url: String },
    /// Create the folder at `path` unless it is there already.
    MakeFolder { path: String },
    /// Say what, if anything, is at `path`.
    Lookup { path: String },
    /// Create a file at `path` that holds `body`.
    Create { path: String, body: String },
}

/// A [`Request`] with its texts as sequences of characters.
pub enum RequestView {
    ReadDocument,
    FindMarkdownView,
    ReadSelection,
    ReadClipboard,
    Fetch { url: Seq<char> },
    MakeFolder { path: Seq<char> },
    Lookup { path: Seq<char> },
    Create { path: Seq<char>, body: Seq<char> },
}

impl View for Request {
    type V = RequestView;

    open spec fn view(&self) -> RequestView {
        match *self {
            Request::ReadDocument => RequestView::ReadDocument,
            Request::FindMarkdownView => RequestView::FindMarkdownView,
            Request::ReadSelection => RequestView::ReadSelection,
            Request::ReadClipboard => RequestView::ReadClipboard,
            Request::Fetch { url } => RequestView::Fetch { url: url@ },
            Request::MakeFolder { path } => RequestView::MakeFolder { path: path@ },
            Request::Lookup { path } => RequestView::Lookup { path: path@ },
            Request::Create { path, body } => RequestView::Create { path: path@, body: body@ },
        }
    }
}

/// What the host reports back to the library.
#[derive(Clone, Debug, PartialEq, Eq)]
pub enum Event {
    /// The request was carried out and there is nothing to report.
    Done,
    /// The request was carried out and gave this text.
    Text(String),
    /// What the request asked for is not there.
    Absent,
    /// The path that was looked up holds an entry of this kind.
    Entry(EntryKind),
    /// The request gave something other than text.
    NotText,
    /// The platform failed; `Some` holds its message where it gave one.
    Failed(Option<String>),
}

/// An [`Event`] with its texts as sequences of characters.
pub enum EventView {
    Done,
    Text(Seq<char>),
    Absent,
    Entry(EntryKind),
    NotText,
    Failed(Option<Seq<char>>),
}

impl View for Event {
    type V = EventView;

    open spec fn view(&self) -> EventView {
        match *self {
            Event::Done => EventView::Done,
            Event::Text(text) => EventView::Text(text@),
            Event::Absent => EventView::Absent,
            Event::Entry(kind) => EventView::Entry(kind),
            Event::NotText => EventView::NotText,
            Event::Failed(detail) => EventView::Failed(detail.deep_view()),
        }
    }
}

/// Where a protocol stands after a step: waiting for the host to carry out a
/// request, or at its end. A protocol that has ended has no state left to go
/// on from.
#[derive(Clone, Debug, PartialEq, Eq)]
pub enum Step<S, T, E> {
    /// The host carries out `request` and comes back with an event, which is
    /// handed to the protocol together with `state`.
    Ask { state: S, request: Request },
    /// The protocol has ended well.
    Finish(T),
    /// The protocol has ended with a failure.
    Fail(E),
}

/// A [`Step`] with its parts as mathematical values.
pub enum StepView<S, T, E> {
    Ask { state: S, request: RequestView },
    Finish(T),
    Fail(E),
}

impl<S: View, T: View, E: View> View for Step<S, T, E> {
    type V = StepView<S::V, T::V, E::V>;

    open spec fn view(&self) -> StepView<S::V, T::V, E::V> {
        match *self {
            Step::Ask { state, request } => StepView::Ask { state: state@, request: request@ },
            Step::Finish(result) => StepView::Finish(result@),
            Step::Fail(error) => StepView::Fail(error@),
        }
    }
}

} // verus!
