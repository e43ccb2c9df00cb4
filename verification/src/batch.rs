//! Bookmarking every link of the active document, one after the other.

use crate::adapters::links_in;
use crate::capture::{
    capture_next, capture_url, captured_url, CaptureState, CaptureStateView,
};
use crate::errors::{PersistMarkdownError, PersistMarkdownErrorView};
use crate::host::{Event, EventView, Request, RequestView, Step, StepView};
use crate::scan::scan_links;
use crate::settings::Settings;
use std::collections::VecDeque;
use vstd::prelude::*;
use vstd::string::*;

verus! {

/// Which answer of the host the batch is waiting for.
#[derive(Clone, Debug, PartialEq, Eq)]
pub enum BatchState {
    /// The active document is being read.
    Reading,
    /// One link is being bookmarked; `pending` holds the links after it, in
    /// the order in which the document has them.
    Capturing { capture: CaptureState, pending: VecDeque<String> },
}

/// A [`BatchState`] with its parts as mathematical values.
pub enum BatchStateView {
    Reading,
    Capturing { capture: CaptureStateView, pending: Seq<Seq<char>> },
}

impl View for BatchState {
    type V = BatchStateView;

    open spec fn view(&self) -> BatchStateView {
        match *self {
            BatchState::Reading => BatchStateView::Reading,
            BatchState::Capturing { capture, pending } => BatchStateView::Capturing {
                capture: capture@,
                pending: pending.deep_view(),
            },
        }
    }
}

/// One step of the batch: what the user is told, if anything, and where the
/// batch stands.
#[derive(Clone, Debug, PartialEq, Eq)]
pub struct BatchStep {
    /// The notices to show, in this order, before anything else is done.
    pub notices: Vec<String>,
    /// Where the batch stands.
    pub next: Step<BatchState, (), PersistMarkdownError>,
}

/// A [`BatchStep`] with its parts as mathematical values.
pub struct BatchStepView {
    pub notices: Seq<Seq<char>>,
    pub next: StepView<BatchStateView, (), PersistMarkdownErrorView>,
}

impl View for BatchStep {
    type V = BatchStepView;

    open spec fn view(&self) -> BatchStepView {
        BatchStepView { notices: self.notices.deep_view(), next: self.next@ }
    }
}

/// The notice of progress on a link, shown before the link is bookmarked and
/// again when its bookmark is stored.
pub open spec fn progress_notice(url: Seq<char>) -> Seq<char> {
    "bookmarking: "@ + url
}

/// The notice shown when every link has been bookmarked.
pub open spec fn completion_notice() -> Seq<char> {
    "bookmarking complete"@
}

/// A step that tells the user nothing.
pub open spec fn quietly(next: StepView<BatchStateView, (), PersistMarkdownErrorView>) -> BatchStepView {
    BatchStepView { notices: Seq::empty(), next }
}

/// How the batch starts: the active document is read.
pub open spec fn batch_first() -> BatchStepView {
    quietly(StepView::Ask { state: BatchStateView::Reading, request: RequestView::ReadDocument })
}

/// What the batch does with the links that are left: it announces the first
/// and has its page fetched, or, where none is left, announces the end.
pub open spec fn batch_onward(pending: Seq<Seq<char>>) -> BatchStepView {
    if pending.len() == 0 {
        BatchStepView { notices: seq![completion_notice()], next: StepView::Finish(()) }
    } else {
        let url = pending.first();
        BatchStepView {
            notices: seq![progress_notice(url)],
            next: StepView::Ask {
                state: BatchStateView::Capturing {
                    capture: CaptureStateView::Fetching { url },
                    pending: pending.drop_first(),
                },
                request: RequestView::Fetch { url },
            },
        }
    }
}

/// The step after the bookmark of `url` has been stored: the user is told of
/// the progress on `url`, and the batch goes on with the links that are left.
pub open spec fn batch_stored(url: Seq<char>, pending: Seq<Seq<char>>) -> BatchStepView {
    BatchStepView {
        notices: seq![progress_notice(url)] + batch_onward(pending).notices,
        next: batch_onward(pending).next,
    }
}

/// How the batch goes on from `state` when the host reports `event`.
///
/// Without an active document the batch fails at once. With one, its links
/// are bookmarked in the order in which they appear, each to its end before
/// the next begins, and the user is told of each link before it is fetched
/// and again when it is stored. A link that cannot be stored ends the batch
/// with that failure, and the links after it are not touched.
pub open spec fn batch_next(folder: Seq<char>, state: BatchStateView, event: EventView) -> BatchStepView {
    match state {
        BatchStateView::Reading => match event {
            EventView::Text(text) => batch_onward(links_in(text)),
            EventView::Absent => quietly(StepView::Fail(PersistMarkdownErrorView::NoActiveFile)),
            EventView::Failed(detail) => quietly(
                StepView::Fail(PersistMarkdownErrorView::of_host_failure(detail)),
            ),
            _ => quietly(StepView::Fail(PersistMarkdownErrorView::UnknownJsError)),
        },
        BatchStateView::Capturing { capture, pending } => match capture_next(
            folder,
            capture,
            event,
        ) {
            StepView::Ask { state, request } => quietly(
                StepView::Ask {
                    state: BatchStateView::Capturing { capture: state, pending },
                    request,
                },
            ),
            StepView::Finish(_) => batch_stored(captured_url(capture), pending),
            StepView::Fail(error) => quietly(StepView::Fail(error)),
        },
    }
}

/// A step that tells the user nothing.
fn quiet(next: Step<BatchState, (), PersistMarkdownError>) -> (step: BatchStep)
    ensures
        step@ == quietly(next@),
{
    let notices: Vec<String> = Vec::new();
    assert(notices.deep_view() =~= Seq::<Seq<char>>::empty());
    BatchStep { notices, next }
}

/// The links as a queue, the first at the front.
fn queue_of(links: Vec<String>) -> (queue: VecDeque<String>)
    ensures
        queue.deep_view() == links.deep_view(),
{
    let ghost all = links@;
    let mut rest = links;
    let mut queue: VecDeque<String> = VecDeque::new();
    while rest.len() > 0
        invariant
            rest@ + queue@ == all,
        decreases rest@.len(),
    {
        match rest.pop() {
            Some(link) => {
                queue.push_front(link);
                assert(rest@ + queue@ =~= all);
            },
            None => {},
        }
    }
    queue
}

/// Takes the next link off the queue and starts on it, or ends the batch.
fn onward(pending: VecDeque<String>) -> (step: BatchStep)
    ensures
        step@ == batch_onward(pending.deep_view()),
{
    let mut pending = pending;
    let ghost before = pending.deep_view();
    match pending.pop_front() {
        Some(url) => {
            assert(pending.deep_view() =~= before.drop_first());
            let mut notices = Vec::new();
            notices.push(progress(url.as_str()));
            let request = Request::Fetch { url: url.clone() };
            proof {
                assert(notices.deep_view() =~= seq![progress_notice(url@)]);
            }
            BatchStep {
                notices,
                next: Step::Ask {
                    state: BatchState::Capturing { capture: CaptureState::Fetching { url }, pending },
                    request,
                },
            }
        },
        None => {
            let mut notices = Vec::new();
            notices.push("bookmarking complete".to_owned());
            proof {
                assert(notices.deep_view() =~= seq![completion_notice()]);
            }
            BatchStep { notices, next: Step::Finish(()) }
        },
    }
}

/// The notice of progress on `url`.
fn progress(url: &str) -> (notice: String)
    ensures
        notice@ == progress_notice(url@),
{
    "bookmarking: ".to_owned().concat(url)
}

/// Goes on after the bookmark of `url` has been stored.
fn stored(url: String, pending: VecDeque<String>) -> (step: BatchStep)
    ensures
        step@ == batch_stored(url@, pending.deep_view()),
{
    let ghost ahead = pending.deep_view();
    let following = onward(pending);
    let mut notices = Vec::new();
    notices.push(progress(url.as_str()));
    let mut later = following.notices;
    let ghost rest = later.deep_view();
    notices.append(&mut later);
    proof {
        assert(notices.deep_view() =~= seq![progress_notice(url@)] + rest);
    }
    BatchStep { notices, next: following.next }
}

/// Starts the bookmarking of every link of the active document.
pub fn bookmark_all_links_begin() -> (step: BatchStep)
    ensures
        step@ == batch_first(),
{
    quiet(Step::Ask { state: BatchState::Reading, request: Request::ReadDocument })
}

/// Takes the batch one step further: from the answer that was awaited and the
/// answer that came to what happens next.
pub fn bookmark_all_links(settings: &Settings, state: BatchState, event: Event) -> (step:
    BatchStep)
    ensures
        step@ == batch_next(settings.folder(), state@, event@),
{
    match state {
        BatchState::Reading => match event {
            Event::Text(text) => onward(queue_of(scan_links(text.as_str()))),
            Event::Absent => quiet(Step::Fail(PersistMarkdownError::NoActiveFile)),
            Event::Failed(detail) => quiet(
                Step::Fail(PersistMarkdownError::from_host_failure(detail)),
            ),
            _ => quiet(Step::Fail(PersistMarkdownError::UnknownJsError)),
        },
        BatchState::Capturing { capture, pending } => {
            let url = capture.url();
            match capture_url(settings, capture, event) {
                Step::Ask { state, request } => quiet(
                    Step::Ask {
                        state: BatchState::Capturing { capture: state, pending },
                        request,
                    },
                ),
                Step::Finish(_) => stored(url, pending),
                Step::Fail(error) => quiet(Step::Fail(error)),
            }
        },
    }
}

} // verus!
