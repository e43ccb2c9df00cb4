//! Storing one bookmark: the protocol between the library and the store, step
//! by step.

use crate::errors::{PersistMarkdownError, PersistMarkdownErrorView};
use crate::filename::{filename_of, markdown_to_filename};
use crate::host::{EntryKind, Event, EventView, Request, RequestView, Step, StepView};
use crate::record::{Markdown, MarkdownView};
use crate::settings::Settings;
use vstd::prelude::*;
use vstd::string::*;

verus! {

/// The file that holds a bookmark.
#[derive(Clone, Debug, PartialEq, Eq)]
pub struct MarkdownFile {
    /// The title of the bookmark that the file holds.
    pub title: String,
    /// The path of the file in the store.
    pub file: String,
}

/// A [`MarkdownFile`] with its texts as sequences of characters.
pub struct MarkdownFileView {
    pub title: Seq<char>,
    pub file: Seq<char>,
}

impl View for MarkdownFile {
    type V = MarkdownFileView;

    open spec fn view(&self) -> MarkdownFileView {
        MarkdownFileView { title: self.title@, file: self.file@ }
    }
}

/// Which answer of the store the protocol is waiting for.
#[derive(Clone, Copy, Debug, PartialEq, Eq, Structural)]
pub enum PersistState {
    /// The folder is being made.
    MakingFolder,
    /// The bookmark's path is being looked up.
    LookingUp,
    /// The bookmark's file is being created.
    Creating,
}

impl View for PersistState {
    type V = PersistState;

    open spec fn view(&self) -> PersistState {
        *self
    }
}

/// A step of the protocol that stores one bookmark.
pub type PersistStep = Step<PersistState, MarkdownFile, PersistMarkdownError>;

/// A [`PersistStep`] with its parts as mathematical values.
pub type PersistStepView = StepView<PersistState, MarkdownFileView, PersistMarkdownErrorView>;

/// The path of a record's file below `folder`.
pub open spec fn bookmark_path(folder: Seq<char>, record: MarkdownView) -> Seq<char> {
    folder + "/"@ + filename_of(record)
}

/// The file that holds a record below `folder`.
pub open spec fn bookmark_file(folder: Seq<char>, record: MarkdownView) -> MarkdownFileView {
    MarkdownFileView { title: record.title, file: bookmark_path(folder, record) }
}

/// How the protocol starts: the folder is made, which is no error where it
/// exists already.
pub open spec fn persist_first(folder: Seq<char>) -> PersistStepView {
    StepView::Ask {
        state: PersistState::MakingFolder,
        request: RequestView::MakeFolder { path: folder },
    }
}

/// How the protocol goes on from `state` when the store reports `event`.
///
/// Once the folder is made, the record's path is looked up. A plain file there
/// is the bookmark, taken some time before: it is used as it is and nothing is
/// written. Where the path is free, or taken by something that is no plain
/// file, a file with the URL as its body is created. A failure of the platform
/// ends the protocol with that failure; an answer out of turn ends it as an
/// unknown failure.
pub open spec fn persist_next(
    folder: Seq<char>,
    state: PersistState,
    event: EventView,
    record: MarkdownView,
) -> PersistStepView {
    let path = bookmark_path(folder, record);
    let create = StepView::Ask {
        state: PersistState::Creating,
        request: RequestView::Create { path, body: record.content },
    };
    let finish = StepView::Finish(bookmark_file(folder, record));
    match (state, event) {
        (_, EventView::Failed(detail)) => StepView::Fail(
            PersistMarkdownErrorView::of_host_failure(detail),
        ),
        (PersistState::MakingFolder, EventView::Done) => StepView::Ask {
            state: PersistState::LookingUp,
            request: RequestView::Lookup { path },
        },
        (PersistState::LookingUp, EventView::Entry(EntryKind::File)) => finish,
        (PersistState::LookingUp, EventView::Entry(EntryKind::Other)) => create,
        (PersistState::LookingUp, EventView::Absent) => create,
        (PersistState::Creating, EventView::Done) => finish,
        _ => StepView::Fail(PersistMarkdownErrorView::UnknownJsError),
    }
}

/// The end of the protocol after an answer out of turn.
fn confused() -> (step: PersistStep)
    ensures
        step@ == StepView::<
            PersistState,
            MarkdownFileView,
            PersistMarkdownErrorView,
        >::Fail(PersistMarkdownErrorView::UnknownJsError),
{
    Step::Fail(PersistMarkdownError::UnknownJsError)
}

/// The end of the protocol after a failure of the platform.
fn failed(detail: Option<String>) -> (step: PersistStep)
    ensures
        step@ == StepView::<PersistState, MarkdownFileView, PersistMarkdownErrorView>::Fail(
            PersistMarkdownErrorView::of_host_failure(detail.deep_view()),
        ),
{
    Step::Fail(PersistMarkdownError::from_host_failure(detail))
}

/// The path of the bookmark below the folder that the settings name.
fn path_of(settings: &Settings, md: &Markdown) -> (path: String)
    ensures
        path@ == bookmark_path(settings.folder(), md@),
{
    let name = markdown_to_filename(md);
    settings.bookmark_path().concat("/").concat(name.as_str())
}

/// The end of the protocol with the bookmark's file.
fn finish(settings: &Settings, md: &Markdown) -> (step: PersistStep)
    ensures
        step@ == StepView::<PersistState, MarkdownFileView, PersistMarkdownErrorView>::Finish(
            bookmark_file(settings.folder(), md@),
        ),
{
    Step::Finish(MarkdownFile { title: md.title.clone(), file: path_of(settings, md) })
}

/// The request for a new file that holds the URL.
fn create(settings: &Settings, md: &Markdown) -> (step: PersistStep)
    ensures
        step@ == (StepView::<PersistState, MarkdownFileView, PersistMarkdownErrorView>::Ask {
            state: PersistState::Creating,
            request: RequestView::Create {
                path: bookmark_path(settings.folder(), md@),
                body: md@.content,
            },
        }),
{
    Step::Ask {
        state: PersistState::Creating,
        request: Request::Create { path: path_of(settings, md), body: md.content.clone() },
    }
}

/// Starts the storing of a bookmark in the folder that the settings name.
pub fn persist_begin(settings: &Settings) -> (step: PersistStep)
    ensures
        step@ == persist_first(settings.folder()),
{
    Step::Ask {
        state: PersistState::MakingFolder,
        request: Request::MakeFolder { path: settings.bookmark_path() },
    }
}

/// Takes the storing of `md` one step further: from the answer that was
/// awaited and the answer that came to what happens next.
pub fn persist_markdown(settings: &Settings, state: PersistState, event: Event, md: &Markdown) -> (step:
    PersistStep)
    ensures
        step@ == persist_next(settings.folder(), state, event@, md@),
{
    match event {
        Event::Failed(detail) => failed(detail),
        Event::Done => match state {
            PersistState::MakingFolder => Step::Ask {
                state: PersistState::LookingUp,
                request: Request::Lookup { path: path_of(settings, md) },
            },
            PersistState::Creating => finish(settings, md),
            PersistState::LookingUp => confused(),
        },
        Event::Entry(kind) => match (state, kind) {
            (PersistState::LookingUp, EntryKind::File) => finish(settings, md),
            (PersistState::LookingUp, EntryKind::Other) => create(settings, md),
            _ => confused(),
        },
        Event::Absent => match state {
            PersistState::LookingUp => create(settings, md),
            _ => confused(),
        },
        _ => confused(),
    }
}

} // verus!
