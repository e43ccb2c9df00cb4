//! Whole runs of the protocols, whatever the host reports.
//!
//! Nothing here runs. A run is what the steps of a protocol come to when the
//! host's reports are given in advance, as a sequence; the laws below hold of
//! every such sequence, so of every host.

use crate::adapters::links_in;
use crate::batch::{
    batch_first, batch_next, batch_onward, batch_stored, completion_notice, progress_notice,
    BatchStateView, BatchStepView,
};
use crate::capture::{capture_next, captured_url, CaptureStateView};
use crate::errors::PersistMarkdownErrorView;
use crate::host::{EntryKind, EventView, RequestView, StepView};
use crate::persist::{bookmark_path, persist_first, persist_next, PersistStepView};
use crate::record::MarkdownView;
use vstd::prelude::*;

verus! {

/// The requests that the storing of `record` makes from `step` on, with
/// `events` as the store's reports in the order in which they come.
pub open spec fn persist_requests_from(
    folder: Seq<char>,
    record: MarkdownView,
    step: PersistStepView,
    events: Seq<EventView>,
) -> Seq<RequestView>
    decreases events.len(),
{
    match step {
        StepView::Ask { state, request } => if events.len() == 0 {
            seq![request]
        } else {
            seq![request] + persist_requests_from(
                folder,
                record,
                persist_next(folder, state, events.first(), record),
                events.drop_first(),
            )
        },
        _ => Seq::empty(),
    }
}

/// The requests that the storing of `record` makes from its start.
pub open spec fn persist_requests(
    folder: Seq<char>,
    record: MarkdownView,
    events: Seq<EventView>,
) -> Seq<RequestView> {
    persist_requests_from(folder, record, persist_first(folder), events)
}

/// However the store behaves, the storing of a bookmark asks for the folder,
/// then for the lookup of the bookmark's path, then for the file, each only
/// once the request before it has been answered well, and for nothing else.
/// The file is asked for only where the lookup has found the path free or
/// taken by something that is no plain file; its body is the URL.
pub proof fn lemma_persist_keeps_its_order(
    folder: Seq<char>,
    record: MarkdownView,
    events: Seq<EventView>,
)
    ensures
        ({
            let path = bookmark_path(folder, record);
            let requests = persist_requests(folder, record, events);
            let plan = seq![
                RequestView::MakeFolder { path: folder },
                RequestView::Lookup { path },
                RequestView::Create { path, body: record.content },
            ];
            let made = events.len() > 0 && events[0] is Done;
            let free = events.len() > 1 && (events[1] is Absent || events[1] == EventView::Entry(
                EntryKind::Other,
            ));
            &&& requests.is_prefix_of(plan)
            &&& requests.len() >= 1
            &&& requests.len() >= 2 <==> made
            &&& requests.len() == 3 <==> made && free
        }),
{
    reveal_with_fuel(persist_requests_from, 4);
    if events.len() > 1 {
        assert(events.drop_first().first() == events[1]);
    }
}

/// What a run of the batch has come to.
pub struct BatchRun {
    /// The requests that were made, first to last.
    pub requests: Seq<RequestView>,
    /// The notices that were shown, first to last.
    pub notices: Seq<Seq<char>>,
    /// Where the batch stood when the run stopped.
    pub last: StepView<BatchStateView, (), PersistMarkdownErrorView>,
}

/// Runs the batch on from `step`, with `events` as the host's reports in the
/// order in which they come. The run stops where the batch ends, or where it
/// waits for a report and none is left.
pub open spec fn batch_run_from(folder: Seq<char>, step: BatchStepView, events: Seq<EventView>) -> BatchRun
    decreases events.len(),
{
    match step.next {
        StepView::Ask { state, request } => if events.len() == 0 {
            BatchRun { requests: seq![request], notices: step.notices, last: step.next }
        } else {
            let rest = batch_run_from(
                folder,
                batch_next(folder, state, events.first()),
                events.drop_first(),
            );
            BatchRun {
                requests: seq![request] + rest.requests,
                notices: step.notices + rest.notices,
                last: rest.last,
            }
        },
        _ => BatchRun { requests: Seq::empty(), notices: step.notices, last: step.next },
    }
}

/// Runs the batch from its start.
pub open spec fn batch_run(folder: Seq<char>, events: Seq<EventView>) -> BatchRun {
    batch_run_from(folder, batch_first(), events)
}

/// The URLs that a run has asked to fetch, in the order of the requests.
pub open spec fn fetched_urls(requests: Seq<RequestView>) -> Seq<Seq<char>>
    decreases requests.len(),
{
    if requests.len() == 0 {
        Seq::empty()
    } else {
        let rest = fetched_urls(requests.drop_first());
        match requests.first() {
            RequestView::Fetch { url } => seq![url] + rest,
            _ => rest,
        }
    }
}

/// Two notices of progress for each of `urls`, in their order: the one shown
/// before a link is fetched and the one shown when its bookmark is stored.
pub open spec fn told_twice(urls: Seq<Seq<char>>) -> Seq<Seq<char>>
    decreases urls.len(),
{
    if urls.len() == 0 {
        Seq::empty()
    } else {
        seq![progress_notice(urls.first()), progress_notice(urls.first())] + told_twice(
            urls.drop_first(),
        )
    }
}

/// What the user has been told once the batch has started on `urls`. A batch
/// that has ended well has told of every link twice and then of its end. One
/// that has not has told twice of every link but the last, and of the last
/// once: its bookmark is not stored.
pub open spec fn told(urls: Seq<Seq<char>>, finished: bool) -> Seq<Seq<char>> {
    if finished {
        told_twice(urls) + seq![completion_notice()]
    } else if urls.len() == 0 {
        Seq::empty()
    } else {
        told_twice(urls.drop_last()) + seq![progress_notice(urls.last())]
    }
}

/// The links of the document that the host has handed over: those of the
/// text that its first report holds, and none where it holds no text.
pub open spec fn document_links(events: Seq<EventView>) -> Seq<Seq<char>> {
    if events.len() > 0 && events.first() is Text {
        links_in(events.first()->Text_0)
    } else {
        Seq::empty()
    }
}

/// The links that a step in the middle of the batch still has before it: the
/// link whose fetch it asks for, if it asks for one, and the pending ones.
spec fn ahead(capture: CaptureStateView, pending: Seq<Seq<char>>) -> Seq<Seq<char>> {
    match capture {
        CaptureStateView::Fetching { url } => seq![url] + pending,
        CaptureStateView::Persisting { .. } => pending,
    }
}

/// The links that a run from a step in the middle of the batch has started on:
/// the link that the step is about, and those that the run has fetched after
/// it.
spec fn started(capture: CaptureStateView, urls: Seq<Seq<char>>) -> Seq<Seq<char>> {
    match capture {
        CaptureStateView::Fetching { .. } => urls,
        CaptureStateView::Persisting { record, .. } => seq![record.content] + urls,
    }
}

/// What holds of every step that the batch hands out while a link is being
/// bookmarked: where it waits for a page, it has asked for that page, and
/// where it waits for the store, it has asked for no page.
spec fn in_step(step: BatchStepView) -> bool {
    &&& step.next matches StepView::Ask { state, request }
    &&& state matches BatchStateView::Capturing { capture, pending }
    &&& match capture {
        CaptureStateView::Fetching { url } => request == (RequestView::Fetch { url }),
        CaptureStateView::Persisting { .. } => !(request is Fetch),
    }
}

/// The length of a sequence of doubled notices.
proof fn lemma_told_twice_len(urls: Seq<Seq<char>>)
    ensures
        told_twice(urls).len() == 2 * urls.len(),
    decreases urls.len(),
{
    if urls.len() > 0 {
        lemma_told_twice_len(urls.drop_first());
    }
}

/// What has been told of a link and the links after it, by what has been told
/// of the links after it.
proof fn lemma_told_unfolds(url: Seq<char>, later: Seq<Seq<char>>, finished: bool)
    ensures
        later.len() > 0 ==> told(seq![url] + later, finished) == seq![
            progress_notice(url),
            progress_notice(url),
        ] + told(later, finished),
        later.len() == 0 && finished ==> told(seq![url] + later, finished) == seq![
            progress_notice(url),
            progress_notice(url),
            completion_notice(),
        ],
        later.len() == 0 && !finished ==> told(seq![url] + later, finished) == seq![
            progress_notice(url),
        ],
{
    let all = seq![url] + later;
    assert(all.drop_first() =~= later);
    reveal_with_fuel(told_twice, 2);
    if later.len() > 0 {
        assert(all.drop_last().drop_first() =~= later.drop_last());
    }
}

/// A run from a step differs from the run from the same step without its
/// notices in those notices alone.
proof fn lemma_notices_come_first(folder: Seq<char>, step: BatchStepView, events: Seq<EventView>)
    ensures
        ({
            let run = batch_run_from(folder, step, events);
            let bare = batch_run_from(
                folder,
                BatchStepView { notices: Seq::empty(), next: step.next },
                events,
            );
            &&& run.requests == bare.requests
            &&& run.last == bare.last
            &&& run.notices == step.notices + bare.notices
        }),
{
}

/// A run that starts with `pending` before it fetches those links in their
/// order, up to the point where it stops, and tells of them as it goes.
proof fn lemma_run_from_onward(folder: Seq<char>, pending: Seq<Seq<char>>, events: Seq<EventView>)
    ensures
        ({
            let run = batch_run_from(folder, batch_onward(pending), events);
            let urls = fetched_urls(run.requests);
            &&& urls.is_prefix_of(pending)
            &&& run.last is Finish ==> urls == pending
            &&& run.notices == told(urls, run.last is Finish)
        }),
    decreases events.len(), 1int,
{
    let step = batch_onward(pending);
    let run = batch_run_from(folder, step, events);
    if pending.len() > 0 {
        lemma_run_in_step(folder, step, events);
        let urls = fetched_urls(run.requests);
        lemma_told_unfolds(urls.first(), urls.drop_first(), run.last is Finish);
    }
}

/// The heart of the matter: a run from the middle of the batch fetches the
/// links that the step has before it, in their order and without a gap, up to
/// the point where it stops, and tells of each link once more when its
/// bookmark is stored.
proof fn lemma_run_in_step(folder: Seq<char>, step: BatchStepView, events: Seq<EventView>)
    requires
        in_step(step),
    ensures
        ({
            let run = batch_run_from(folder, step, events);
            let urls = fetched_urls(run.requests);
            let capture = step.next->Ask_state->Capturing_capture;
            let pending = step.next->Ask_state->Capturing_pending;
            &&& urls.is_prefix_of(ahead(capture, pending))
            &&& capture is Fetching ==> urls.len() > 0
            &&& run.last is Finish ==> urls == ahead(capture, pending)
            &&& run.notices == step.notices + told(
                started(capture, urls),
                run.last is Finish,
            ).drop_first()
        }),
    decreases events.len(), 0int,
{
    let run = batch_run_from(folder, step, events);
    let request = step.next->Ask_request;
    let capture = step.next->Ask_state->Capturing_capture;
    let pending = step.next->Ask_state->Capturing_pending;
    let url = captured_url(capture);
    let own: Seq<Seq<char>> = if capture is Fetching {
        seq![url]
    } else {
        Seq::empty()
    };
    assert(fetched_urls(seq![request]) =~= own) by {
        reveal_with_fuel(fetched_urls, 2);
    }
    if events.len() == 0 {
        lemma_told_unfolds(url, Seq::empty(), false);
    } else {
        let following = batch_next(folder, step.next->Ask_state, events.first());
        let rest = batch_run_from(folder, following, events.drop_first());
        let later = fetched_urls(rest.requests);
        assert((seq![request] + rest.requests).drop_first() =~= rest.requests);
        match capture_next(folder, capture, events.first()) {
            StepView::Ask { .. } => {
                lemma_run_in_step(folder, following, events.drop_first());
            },
            StepView::Finish(_) => {
                lemma_run_from_onward(folder, pending, events.drop_first());
                lemma_notices_come_first(folder, following, events.drop_first());
                lemma_notices_come_first(folder, batch_onward(pending), events.drop_first());
                lemma_told_unfolds(url, later, run.last is Finish);
            },
            StepView::Fail(_) => {
                lemma_told_unfolds(url, Seq::empty(), false);
            },
        }
    }
}

/// However the host behaves, the batch fetches the links of the document in
/// the order in which they appear, with none left out and none fetched twice,
/// up to the point where the run stops. The user is told of the progress on
/// each link before it is fetched and again when its bookmark is stored, so a
/// run that ends well has fetched every link, has told of each twice, and
/// closes with the notice of completion. Without a document the batch asks
/// for nothing but the document and shows nothing.
pub proof fn lemma_batch_follows_the_links(folder: Seq<char>, events: Seq<EventView>)
    ensures
        ({
            let run = batch_run(folder, events);
            let urls = fetched_urls(run.requests);
            &&& run.requests.len() > 0
            &&& run.requests.first() == RequestView::ReadDocument
            &&& urls.is_prefix_of(document_links(events))
            &&& run.last is Finish ==> urls == document_links(events)
            &&& run.notices == told(urls, run.last is Finish)
            &&& run.last is Finish ==> run.notices.len() == 2 * document_links(events).len() + 1
            &&& events.len() == 0 || !(events.first() is Text) ==> run.requests == seq![
                RequestView::ReadDocument,
            ] && run.notices.len() == 0 && !(run.last is Finish)
        }),
{
    let run = batch_run(folder, events);
    let read = RequestView::ReadDocument;
    reveal_with_fuel(fetched_urls, 2);
    lemma_told_twice_len(fetched_urls(run.requests));
    if events.len() > 0 {
        let following = batch_next(folder, BatchStateView::Reading, events.first());
        let rest = batch_run_from(folder, following, events.drop_first());
        assert((seq![read] + rest.requests).drop_first() =~= rest.requests);
        if events.first() is Text {
            lemma_run_from_onward(folder, document_links(events), events.drop_first());
        }
    }
}

} // verus!
