//! Bookmarking one URL: fetch the page, build its record, store the record.

use crate::errors::{ExtractError, PersistMarkdownError, PersistMarkdownErrorView};
use crate::host::{Event, EventView, Request, RequestView, Step, StepView};
use crate::persist::{
    persist_begin, persist_first, persist_markdown, persist_next, MarkdownFile, MarkdownFileView,
    PersistState, PersistStep, PersistStepView,
};
use crate::record::{convert_url_to_markdown, record_for, Markdown, MarkdownView};
use crate::settings::Settings;
use vstd::prelude::*;
use vstd::string::*;

verus! {

/// Which answer of the host the bookmarking of one URL is waiting for.
#[derive(Clone, Debug, PartialEq, Eq)]
pub enum CaptureState {
    /// The page at `url` is being fetched.
    Fetching { url: String },
    /// `record` is being stored, and the store's protocol stands at `store`.
    Persisting { record: Markdown, store: PersistState },
}

/// A [`CaptureState`] with its parts as mathematical values.
pub enum CaptureStateView {
    Fetching { url: Seq<char> },
    Persisting { record: MarkdownView, store: PersistState },
}

impl View for CaptureState {
    type V = CaptureStateView;

    open spec fn view(&self) -> CaptureStateView {
        match *self {
            CaptureState::Fetching { url } => CaptureStateView::Fetching { url: url@ },
            CaptureState::Persisting { record, store } => CaptureStateView::Persisting {
                record: record@,
                store,
            },
        }
    }
}

/// The URL that is being bookmarked.
pub open spec fn captured_url(state: CaptureStateView) -> Seq<char> {
    match state {
        CaptureStateView::Fetching { url } => url,
        CaptureStateView::Persisting { record, .. } => record.content,
    }
}

impl CaptureState {
    /// The URL that is being bookmarked.
    pub fn url(&self) -> (url: String)
        ensures
            url@ == captured_url(self@),
    {
        match self {
            CaptureState::Fetching { url } => url.clone(),
            CaptureState::Persisting { record, .. } => record.content.clone(),
        }
    }
}

/// A step of the protocol that bookmarks one URL.
pub type CaptureStep = Step<CaptureState, MarkdownFile, PersistMarkdownError>;

/// A [`CaptureStep`] with its parts as mathematical values.
pub type CaptureStepView = StepView<CaptureStateView, MarkdownFileView, PersistMarkdownErrorView>;

/// How the protocol starts: the page is fetched.
pub open spec fn capture_first(url: Seq<char>) -> CaptureStepView {
    StepView::Ask { state: CaptureStateView::Fetching { url }, request: RequestView::Fetch { url } }
}

/// The text that a fetch has returned. Whatever else the host reports counts
/// as a failed fetch.
pub open spec fn fetch_outcome(event: EventView) -> Option<Seq<char>> {
    match event {
        EventView::Text(raw) => Some(raw),
        _ => None,
    }
}

/// A step of the store's protocol, as a step of the bookmarking of `record`.
pub open spec fn storing(record: MarkdownView, inner: PersistStepView) -> CaptureStepView {
    match inner {
        StepView::Ask { state, request } => StepView::Ask {
            state: CaptureStateView::Persisting { record, store: state },
            request,
        },
        StepView::Finish(file) => StepView::Finish(file),
        StepView::Fail(error) => StepView::Fail(error),
    }
}

/// How the protocol goes on from `state` when the host reports `event`.
///
/// Whatever the fetch has come to, a record is built and its storing starts:
/// a page that cannot be reached is bookmarked as unreachable. From then on
/// the store's protocol decides, and its end is the end of this one.
pub open spec fn capture_next(folder: Seq<char>, state: CaptureStateView, event: EventView) -> CaptureStepView {
    match state {
        CaptureStateView::Fetching { url } => storing(
            record_for(url, fetch_outcome(event)),
            persist_first(folder),
        ),
        CaptureStateView::Persisting { record, store } => storing(
            record,
            persist_next(folder, store, event, record),
        ),
    }
}

/// A step of the store's protocol, as a step of the bookmarking of `record`.
fn lift(record: Markdown, inner: PersistStep) -> (step: CaptureStep)
    ensures
        step@ == storing(record@, inner@),
{
    match inner {
        Step::Ask { state, request } => Step::Ask {
            state: CaptureState::Persisting { record, store: state },
            request,
        },
        Step::Finish(file) => Step::Finish(file),
        Step::Fail(error) => Step::Fail(error),
    }
}

/// Starts the bookmarking of `url`.
pub fn capture_begin(url: String) -> (step: CaptureStep)
    ensures
        step@ == capture_first(url@),
{
    let request = Request::Fetch { url: url.clone() };
    Step::Ask { state: CaptureState::Fetching { url }, request }
}

/// Takes the bookmarking of one URL one step further.
pub fn capture_url(settings: &Settings, state: CaptureState, event: Event) -> (step: CaptureStep)
    ensures
        step@ == capture_next(settings.folder(), state@, event@),
{
    match state {
        CaptureState::Fetching { url } => {
            let fetched = match event {
                Event::Text(raw) => Ok(raw),
                Event::Failed(detail) => Err(ExtractError::from_host_failure(detail)),
                _ => Err(ExtractError::NoContent),
            };
            let record = convert_url_to_markdown(url.as_str(), fetched);
            lift(record, persist_begin(settings))
        },
        CaptureState::Persisting { record, store } => {
            let inner = persist_markdown(settings, store, event, &record);
            lift(record, inner)
        },
    }
}

/// No outcome of a fetch ends the bookmarking of a URL: whatever the host
/// reports, the record for that outcome is built and the store is asked to
/// make the folder.
pub proof fn lemma_fetch_never_fails(folder: Seq<char>, url: Seq<char>, event: EventView)
    ensures
        capture_next(folder, CaptureStateView::Fetching { url }, event) == (StepView::<
            CaptureStateView,
            MarkdownFileView,
            PersistMarkdownErrorView,
        >::Ask {
            state: CaptureStateView::Persisting {
                record: record_for(url, fetch_outcome(event)),
                store: PersistState::MakingFolder,
            },
            request: RequestView::MakeFolder { path: folder },
        }),
        !(event is Text) ==> !record_for(url, fetch_outcome(event)).available,
{
}

/// As long as the bookmarking of a URL goes on, it is the bookmarking of that
/// URL.
pub proof fn lemma_capture_keeps_its_url(folder: Seq<char>, state: CaptureStateView, event: EventView)
    ensures
        capture_next(folder, state, event) matches StepView::Ask { state: awaited, .. }
            ==> captured_url(awaited) == captured_url(state),
{
}

} // verus!
