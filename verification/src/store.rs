//! A store that always answers faithfully, as a mathematical value, and what
//! bookmarking does to it.
//!
//! Nothing here runs. The model says what the protocols for storing a
//! bookmark, for bookmarking a URL and for bookmarking every link of a
//! document come to once every request is carried out and the store never
//! fails, and the laws below are proved of it: a bookmark is written once and
//! found again, and what has been bookmarked stays as it is.

use crate::adapters::links_in;
use crate::batch::{batch_first, batch_next, batch_onward, BatchStateView, BatchStepView};
use crate::capture::{
    capture_first, capture_next, fetch_outcome, CaptureStateView, CaptureStepView,
};
use crate::errors::PersistMarkdownErrorView;
use crate::host::{EntryKind, EventView, RequestView, StepView};
use crate::persist::{
    bookmark_file, bookmark_path, persist_first, persist_next, MarkdownFileView, PersistState,
    PersistStepView,
};
use crate::record::{record_for, MarkdownView};
use crate::runs::fetched_urls;
use vstd::prelude::*;

verus! {

/// What a path of the model holds.
pub enum Stored {
    /// A plain file with this body.
    File { body: Seq<char> },
    /// Something that is no plain file.
    Other,
}

impl Stored {
    /// The kind that a lookup reports for this entry.
    pub open spec fn kind(self) -> EntryKind {
        match self {
            Stored::File { .. } => EntryKind::File,
            Stored::Other => EntryKind::Other,
        }
    }
}

/// The store after it has carried out `request`.
pub open spec fn store_after(store: Map<Seq<char>, Stored>, request: RequestView) -> Map<
    Seq<char>,
    Stored,
> {
    match request {
        RequestView::MakeFolder { path } => if store.dom().contains(path) {
            store
        } else {
            store.insert(path, Stored::Other)
        },
        RequestView::Create { path, body } => store.insert(path, Stored::File { body }),
        _ => store,
    }
}

/// What the store reports back on `request`.
pub open spec fn store_reply(store: Map<Seq<char>, Stored>, request: RequestView) -> EventView {
    match request {
        RequestView::MakeFolder { .. } => EventView::Done,
        RequestView::Create { .. } => EventView::Done,
        RequestView::Lookup { path } => if store.dom().contains(path) {
            EventView::Entry(store[path].kind())
        } else {
            EventView::Absent
        },
        _ => EventView::Absent,
    }
}

/// Where a run of the protocol has ended.
pub struct PersistRun {
    /// The store as the run has left it.
    pub store: Map<Seq<char>, Stored>,
    /// The requests that were made, first to last.
    pub requests: Seq<RequestView>,
    /// The step at which the run has stopped.
    pub outcome: PersistStepView,
}

/// Runs the protocol on from `step`, for at most `rounds` requests.
pub open spec fn persist_run_from(
    store: Map<Seq<char>, Stored>,
    folder: Seq<char>,
    record: MarkdownView,
    step: PersistStepView,
    rounds: nat,
) -> PersistRun
    decreases rounds,
{
    if rounds > 0 && step is Ask {
        let request = step->request;
        let next = persist_next(folder, step->state, store_reply(store, request), record);
        let rest = persist_run_from(
            store_after(store, request),
            folder,
            record,
            next,
            (rounds - 1) as nat,
        );
        PersistRun {
            store: rest.store,
            requests: seq![request] + rest.requests,
            outcome: rest.outcome,
        }
    } else {
        PersistRun { store, requests: Seq::empty(), outcome: step }
    }
}

/// Stores `record` below `folder`, from the first request to the last. The
/// protocol never makes more than three requests.
pub open spec fn persist_run(
    store: Map<Seq<char>, Stored>,
    folder: Seq<char>,
    record: MarkdownView,
) -> PersistRun {
    persist_run_from(store, folder, record, persist_first(folder), 3)
}

/// Whether a run has created a file.
pub open spec fn has_created(requests: Seq<RequestView>) -> bool {
    exists|i: int| 0 <= i < requests.len() && #[trigger] requests[i] is Create
}

/// A bookmark's path differs from the folder that it lies in.
pub proof fn lemma_path_is_below_folder(folder: Seq<char>, record: MarkdownView)
    ensures
        bookmark_path(folder, record) != folder,
{
    reveal_strlit("/");
}

/// Storing a bookmark in a faithful store ends well, with the bookmark's file
/// as its result and a plain file at the bookmark's path. Where a plain file
/// was there before, nothing is written and the file stays as it was. Where
/// the path was free or held something else, one file is created, and its body
/// is the URL.
pub proof fn lemma_persist_run(store: Map<Seq<char>, Stored>, folder: Seq<char>, record: MarkdownView)
    ensures
        ({
            let path = bookmark_path(folder, record);
            let run = persist_run(store, folder, record);
            let reused = store.dom().contains(path) && store[path] is File;
            &&& run.outcome == StepView::<
                PersistState,
                MarkdownFileView,
                PersistMarkdownErrorView,
            >::Finish(bookmark_file(folder, record))
            &&& run.store.dom().contains(path)
            &&& run.store[path] is File
            &&& reused ==> run.store[path] == store[path] && !has_created(run.requests)
            &&& !reused ==> run.store[path] == (Stored::File { body: record.content })
                && has_created(run.requests)
        }),
{
    reveal_with_fuel(persist_run_from, 4);
    lemma_path_is_below_folder(folder, record);
    let path = bookmark_path(folder, record);
    let run = persist_run(store, folder, record);
    if !(store.dom().contains(path) && store[path] is File) {
        assert(run.requests[2] is Create);
    }
}

/// Bookmarking the same page twice leaves the store as bookmarking it once
/// does: the second run finds the file of the first, hands out the same
/// result, writes nothing and leaves every path as it was.
pub proof fn lemma_persist_twice(store: Map<Seq<char>, Stored>, folder: Seq<char>, record: MarkdownView)
    ensures
        ({
            let first = persist_run(store, folder, record);
            let second = persist_run(first.store, folder, record);
            &&& second.store == first.store
            &&& second.outcome == first.outcome
            &&& !has_created(second.requests)
        }),
{
    reveal_with_fuel(persist_run_from, 4);
    lemma_path_is_below_folder(folder, record);
    lemma_persist_run(store, folder, record);
    lemma_persist_run(persist_run(store, folder, record).store, folder, record);
}

/// What fetching `url` reports where `pages` holds the pages that can be
/// reached: the page, or a failure without a message.
pub open spec fn fetch_reply(pages: Map<Seq<char>, Seq<char>>, url: Seq<char>) -> EventView {
    if pages.dom().contains(url) {
        EventView::Text(pages[url])
    } else {
        EventView::Failed(None)
    }
}

/// Where a run of the bookmarking of one URL has ended.
pub struct CaptureRun {
    /// The store as the run has left it.
    pub store: Map<Seq<char>, Stored>,
    /// The requests that were made, first to last.
    pub requests: Seq<RequestView>,
    /// The step at which the run has stopped.
    pub outcome: CaptureStepView,
}

/// Runs the bookmarking of one URL on from `step`, for at most `rounds`
/// requests, against the pages that can be reached and a faithful store.
pub open spec fn capture_run_from(
    pages: Map<Seq<char>, Seq<char>>,
    store: Map<Seq<char>, Stored>,
    folder: Seq<char>,
    step: CaptureStepView,
    rounds: nat,
) -> CaptureRun
    decreases rounds,
{
    if rounds > 0 && step is Ask {
        let request = step->request;
        let reply = match request {
            RequestView::Fetch { url } => fetch_reply(pages, url),
            _ => store_reply(store, request),
        };
        let rest = capture_run_from(
            pages,
            store_after(store, request),
            folder,
            capture_next(folder, step->state, reply),
            (rounds - 1) as nat,
        );
        CaptureRun {
            store: rest.store,
            requests: seq![request] + rest.requests,
            outcome: rest.outcome,
        }
    } else {
        CaptureRun { store, requests: Seq::empty(), outcome: step }
    }
}

/// Bookmarks `url`, from the fetch to the last request to the store. The
/// protocol never makes more than four requests.
pub open spec fn capture_run(
    pages: Map<Seq<char>, Seq<char>>,
    store: Map<Seq<char>, Stored>,
    folder: Seq<char>,
    url: Seq<char>,
) -> CaptureRun {
    capture_run_from(pages, store, folder, capture_first(url), 4)
}

/// The record that bookmarking `url` builds, given the pages that can be
/// reached.
pub open spec fn record_in(pages: Map<Seq<char>, Seq<char>>, url: Seq<char>) -> MarkdownView {
    record_for(url, fetch_outcome(fetch_reply(pages, url)))
}

/// Bookmarking a URL fetches its page once and then stores the record of
/// what the fetch came to, as [`persist_run`] stores it; a page that cannot
/// be reached is bookmarked all the same.
pub proof fn lemma_capture_run(
    pages: Map<Seq<char>, Seq<char>>,
    store: Map<Seq<char>, Stored>,
    folder: Seq<char>,
    url: Seq<char>,
)
    ensures
        ({
            let run = capture_run(pages, store, folder, url);
            let stored = persist_run(store, folder, record_in(pages, url));
            &&& run.store == stored.store
            &&& run.requests == seq![RequestView::Fetch { url }] + stored.requests
            &&& run.outcome == StepView::<
                CaptureStateView,
                MarkdownFileView,
                PersistMarkdownErrorView,
            >::Finish(bookmark_file(folder, record_in(pages, url)))
        }),
{
    reveal_with_fuel(capture_run_from, 5);
    reveal_with_fuel(persist_run_from, 4);
    lemma_path_is_below_folder(folder, record_in(pages, url));
    lemma_persist_run(store, folder, record_in(pages, url));
}

/// Bookmarking the same URL twice, with the same pages in reach, leaves one
/// file at the bookmark's path: the second run finds the file of the first,
/// hands out the same result, creates nothing and leaves the store as it was.
pub proof fn lemma_capture_twice(
    pages: Map<Seq<char>, Seq<char>>,
    store: Map<Seq<char>, Stored>,
    folder: Seq<char>,
    url: Seq<char>,
)
    ensures
        ({
            let path = bookmark_path(folder, record_in(pages, url));
            let first = capture_run(pages, store, folder, url);
            let second = capture_run(pages, first.store, folder, url);
            &&& first.store.dom().contains(path)
            &&& first.store[path] is File
            &&& second.store == first.store
            &&& second.outcome == first.outcome
            &&& !has_created(second.requests)
        }),
{
    let record = record_in(pages, url);
    lemma_capture_run(pages, store, folder, url);
    lemma_persist_run(store, folder, record);
    let first = capture_run(pages, store, folder, url);
    lemma_capture_run(pages, first.store, folder, url);
    lemma_persist_twice(store, folder, record);
    let again = persist_run(first.store, folder, record);
    let second = capture_run(pages, first.store, folder, url);
    if has_created(second.requests) {
        let i = choose|i: int|
            0 <= i < second.requests.len() && #[trigger] second.requests[i] is Create;
        assert(again.requests[i - 1] is Create);
    }
}

/// Where a run of the batch has ended.
pub struct BatchStoreRun {
    /// The store as the run has left it.
    pub store: Map<Seq<char>, Stored>,
    /// The requests that were made, first to last.
    pub requests: Seq<RequestView>,
    /// Where the batch stood when the run stopped.
    pub last: StepView<BatchStateView, (), PersistMarkdownErrorView>,
}

/// What the host reports on `request` where `document` is the text of the
/// active document, if there is one, `pages` holds the pages that can be
/// reached, and `store` is a faithful store.
pub open spec fn host_reply(
    document: Option<Seq<char>>,
    pages: Map<Seq<char>, Seq<char>>,
    store: Map<Seq<char>, Stored>,
    request: RequestView,
) -> EventView {
    match request {
        RequestView::ReadDocument => match document {
            Some(text) => EventView::Text(text),
            None => EventView::Absent,
        },
        RequestView::Fetch { url } => fetch_reply(pages, url),
        _ => store_reply(store, request),
    }
}

/// Runs the batch on from `step`, for at most `rounds` requests.
pub open spec fn batch_store_run_from(
    document: Option<Seq<char>>,
    pages: Map<Seq<char>, Seq<char>>,
    store: Map<Seq<char>, Stored>,
    folder: Seq<char>,
    step: BatchStepView,
    rounds: nat,
) -> BatchStoreRun
    decreases rounds,
{
    if rounds > 0 && step.next is Ask {
        let request = step.next->Ask_request;
        let rest = batch_store_run_from(
            document,
            pages,
            store_after(store, request),
            folder,
            batch_next(folder, step.next->Ask_state, host_reply(document, pages, store, request)),
            (rounds - 1) as nat,
        );
        BatchStoreRun {
            store: rest.store,
            requests: seq![request] + rest.requests,
            last: rest.last,
        }
    } else {
        BatchStoreRun { store, requests: Seq::empty(), last: step.next }
    }
}

/// The store after `links` have been bookmarked one after the other.
pub open spec fn store_after_links(
    pages: Map<Seq<char>, Seq<char>>,
    store: Map<Seq<char>, Stored>,
    folder: Seq<char>,
    links: Seq<Seq<char>>,
) -> Map<Seq<char>, Stored>
    decreases links.len(),
{
    if links.len() == 0 {
        store
    } else {
        store_after_links(
            pages,
            capture_run(pages, store, folder, links.first()).store,
            folder,
            links.drop_first(),
        )
    }
}

/// The requests that bookmarking `links` one after the other makes.
pub open spec fn requests_for_links(
    pages: Map<Seq<char>, Seq<char>>,
    store: Map<Seq<char>, Stored>,
    folder: Seq<char>,
    links: Seq<Seq<char>>,
) -> Seq<RequestView>
    decreases links.len(),
{
    if links.len() == 0 {
        Seq::empty()
    } else {
        let first = capture_run(pages, store, folder, links.first());
        first.requests + requests_for_links(pages, first.store, folder, links.drop_first())
    }
}

/// The batch, with `pending` before it, does what bookmarking the links one
/// after the other does, and ends well.
proof fn lemma_batch_store_run_onward(
    document: Option<Seq<char>>,
    pages: Map<Seq<char>, Seq<char>>,
    store: Map<Seq<char>, Stored>,
    folder: Seq<char>,
    pending: Seq<Seq<char>>,
    rounds: nat,
)
    requires
        rounds >= 4 * pending.len(),
    ensures
        ({
            let run = batch_store_run_from(
                document,
                pages,
                store,
                folder,
                batch_onward(pending),
                rounds,
            );
            &&& run.last is Finish
            &&& run.store == store_after_links(pages, store, folder, pending)
            &&& run.requests == requests_for_links(pages, store, folder, pending)
        }),
    decreases pending.len(),
{
    if pending.len() > 0 {
        let url = pending.first();
        let record = record_in(pages, url);
        let first = capture_run(pages, store, folder, url);
        lemma_capture_run(pages, store, folder, url);
        lemma_persist_run(store, folder, record);
        lemma_path_is_below_folder(folder, record);
        reveal_with_fuel(batch_store_run_from, 5);
        reveal_with_fuel(capture_run_from, 5);
        reveal_with_fuel(persist_run_from, 4);
        lemma_batch_store_run_onward(
            document,
            pages,
            first.store,
            folder,
            pending.drop_first(),
            (rounds - first.requests.len()) as nat,
        );
    }
}

/// Whether `path` holds a plain file.
pub open spec fn is_filed(store: Map<Seq<char>, Stored>, path: Seq<char>) -> bool {
    store.dom().contains(path) && store[path] is File
}

/// Whether every one of `links` has its bookmark in the store.
pub open spec fn all_filed(
    pages: Map<Seq<char>, Seq<char>>,
    store: Map<Seq<char>, Stored>,
    folder: Seq<char>,
    links: Seq<Seq<char>>,
) -> bool {
    forall|i: int|
        0 <= i < links.len() ==> is_filed(
            store,
            bookmark_path(folder, record_in(pages, #[trigger] links[i])),
        )
}

/// Bookmarking a URL leaves every plain file of the store as it was.
pub proof fn lemma_capture_keeps_files(
    pages: Map<Seq<char>, Seq<char>>,
    store: Map<Seq<char>, Stored>,
    folder: Seq<char>,
    url: Seq<char>,
    path: Seq<char>,
)
    requires
        is_filed(store, path),
    ensures
        is_filed(capture_run(pages, store, folder, url).store, path),
        capture_run(pages, store, folder, url).store[path] == store[path],
{
    reveal_with_fuel(capture_run_from, 5);
    lemma_path_is_below_folder(folder, record_in(pages, url));
    lemma_capture_run(pages, store, folder, url);
}

/// Bookmarking links one after the other leaves every plain file of the
/// store as it was.
pub proof fn lemma_links_keep_files(
    pages: Map<Seq<char>, Seq<char>>,
    store: Map<Seq<char>, Stored>,
    folder: Seq<char>,
    links: Seq<Seq<char>>,
    path: Seq<char>,
)
    requires
        is_filed(store, path),
    ensures
        is_filed(store_after_links(pages, store, folder, links), path),
        store_after_links(pages, store, folder, links)[path] == store[path],
    decreases links.len(),
{
    if links.len() > 0 {
        lemma_capture_keeps_files(pages, store, folder, links.first(), path);
        lemma_links_keep_files(
            pages,
            capture_run(pages, store, folder, links.first()).store,
            folder,
            links.drop_first(),
            path,
        );
    }
}

/// Once links have been bookmarked one after the other, each has its
/// bookmark in the store.
pub proof fn lemma_links_are_filed(
    pages: Map<Seq<char>, Seq<char>>,
    store: Map<Seq<char>, Stored>,
    folder: Seq<char>,
    links: Seq<Seq<char>>,
)
    ensures
        all_filed(pages, store_after_links(pages, store, folder, links), folder, links),
    decreases links.len(),
{
    if links.len() > 0 {
        let first = capture_run(pages, store, folder, links.first());
        let after = store_after_links(pages, store, folder, links);
        lemma_capture_twice(pages, store, folder, links.first());
        lemma_links_are_filed(pages, first.store, folder, links.drop_first());
        assert forall|i: int| 0 <= i < links.len() implies is_filed(
            after,
            bookmark_path(folder, record_in(pages, #[trigger] links[i])),
        ) by {
            if i == 0 {
                lemma_links_keep_files(
                    pages,
                    first.store,
                    folder,
                    links.drop_first(),
                    bookmark_path(folder, record_in(pages, links[0])),
                );
            } else {
                assert(links.drop_first()[i - 1] == links[i]);
            }
        }
    }
}

/// Where each of the links has its bookmark in the store already,
/// bookmarking them again creates no file and leaves the store as it is.
pub proof fn lemma_filed_links_are_reused(
    pages: Map<Seq<char>, Seq<char>>,
    store: Map<Seq<char>, Stored>,
    folder: Seq<char>,
    links: Seq<Seq<char>>,
)
    requires
        all_filed(pages, store, folder, links),
        store.dom().contains(folder) || links.len() == 0,
    ensures
        store_after_links(pages, store, folder, links) == store,
        !has_created(requests_for_links(pages, store, folder, links)),
    decreases links.len(),
{
    if links.len() > 0 {
        let url = links.first();
        let record = record_in(pages, url);
        let first = capture_run(pages, store, folder, url);
        lemma_capture_run(pages, store, folder, url);
        lemma_persist_run(store, folder, record);
        reveal_with_fuel(persist_run_from, 4);
        assert(first.store =~= store);
        assert forall|i: int| 0 <= i < links.drop_first().len() implies is_filed(
            store,
            bookmark_path(folder, record_in(pages, #[trigger] links.drop_first()[i])),
        ) by {
            assert(links.drop_first()[i] == links[i + 1]);
        }
        lemma_filed_links_are_reused(pages, store, folder, links.drop_first());
        let rest = requests_for_links(pages, store, folder, links.drop_first());
        let all = requests_for_links(pages, store, folder, links);
        if has_created(all) {
            let i = choose|i: int| 0 <= i < all.len() && #[trigger] all[i] is Create;
            if i < first.requests.len() {
                assert(persist_run(store, folder, record).requests[i - 1] is Create);
            } else {
                assert(rest[i - first.requests.len()] is Create);
            }
        }
    }
}

/// How many requests a batch over `links` makes at most.
pub open spec fn enough_rounds(links: Seq<Seq<char>>) -> nat {
    1 + 4 * links.len()
}

/// Runs the batch from its start to its end.
pub open spec fn batch_store_run(
    document: Seq<char>,
    pages: Map<Seq<char>, Seq<char>>,
    store: Map<Seq<char>, Stored>,
    folder: Seq<char>,
) -> BatchStoreRun {
    batch_store_run_from(
        Some(document),
        pages,
        store,
        folder,
        batch_first(),
        enough_rounds(links_in(document)),
    )
}

/// The pages that a run over two stretches of requests has asked for are
/// those of the first stretch and then those of the second.
pub proof fn lemma_fetched_urls_add(first: Seq<RequestView>, second: Seq<RequestView>)
    ensures
        fetched_urls(first + second) == fetched_urls(first) + fetched_urls(second),
    decreases first.len(),
{
    if first.len() == 0 {
        assert(first + second =~= second);
    } else {
        assert((first + second).drop_first() =~= first.drop_first() + second);
        lemma_fetched_urls_add(first.drop_first(), second);
    }
}

/// Bookmarking a URL asks for one page, the page at that URL, and asks for
/// it once.
pub proof fn lemma_capture_fetches_once(
    pages: Map<Seq<char>, Seq<char>>,
    store: Map<Seq<char>, Stored>,
    folder: Seq<char>,
    url: Seq<char>,
)
    ensures
        fetched_urls(capture_run(pages, store, folder, url).requests) == seq![url],
{
    let record = record_in(pages, url);
    lemma_capture_run(pages, store, folder, url);
    lemma_persist_run(store, folder, record);
    lemma_path_is_below_folder(folder, record);
    reveal_with_fuel(persist_run_from, 4);
    reveal_with_fuel(fetched_urls, 5);
    let stored = persist_run(store, folder, record).requests;
    assert(fetched_urls(stored) =~= Seq::empty());
    lemma_fetched_urls_add(seq![RequestView::Fetch { url }], stored);
}

/// Bookmarking links one after the other asks for the page of each link,
/// once, in the order of the links.
pub proof fn lemma_links_are_fetched_in_order(
    pages: Map<Seq<char>, Seq<char>>,
    store: Map<Seq<char>, Stored>,
    folder: Seq<char>,
    links: Seq<Seq<char>>,
)
    ensures
        fetched_urls(requests_for_links(pages, store, folder, links)) == links,
    decreases links.len(),
{
    if links.len() > 0 {
        let first = capture_run(pages, store, folder, links.first());
        let rest = requests_for_links(pages, first.store, folder, links.drop_first());
        lemma_capture_fetches_once(pages, store, folder, links.first());
        lemma_links_are_fetched_in_order(pages, first.store, folder, links.drop_first());
        lemma_fetched_urls_add(first.requests, rest);
    }
}

/// A batch over a document, in a faithful store, ends well; it reads the
/// document and then does what bookmarking its links one after the other does,
/// so it asks for the page of each link of the document, once and in the
/// order of the links; and when it has ended, every link of the document has
/// its bookmark in the store, reachable or not.
pub proof fn lemma_batch_files_every_link(
    document: Seq<char>,
    pages: Map<Seq<char>, Seq<char>>,
    store: Map<Seq<char>, Stored>,
    folder: Seq<char>,
)
    ensures
        ({
            let links = links_in(document);
            let run = batch_store_run(document, pages, store, folder);
            &&& run.last is Finish
            &&& run.store == store_after_links(pages, store, folder, links)
            &&& run.requests == seq![RequestView::ReadDocument] + requests_for_links(
                pages,
                store,
                folder,
                links,
            )
            &&& fetched_urls(run.requests) == links
            &&& all_filed(pages, run.store, folder, links)
        }),
{
    let links = links_in(document);
    reveal_with_fuel(batch_store_run_from, 2);
    lemma_links_are_fetched_in_order(pages, store, folder, links);
    lemma_fetched_urls_add(
        seq![RequestView::ReadDocument],
        requests_for_links(pages, store, folder, links),
    );
    assert(fetched_urls(seq![RequestView::ReadDocument]) =~= Seq::empty()) by {
        reveal_with_fuel(fetched_urls, 2);
    }
    lemma_batch_store_run_onward(
        Some(document),
        pages,
        store,
        folder,
        links,
        (enough_rounds(links) - 1) as nat,
    );
    lemma_links_are_filed(pages, store, folder, links);
}

/// A second batch over the same document, with the same pages in reach,
/// creates no file and leaves the store as the first batch has left it.
pub proof fn lemma_batch_twice(
    document: Seq<char>,
    pages: Map<Seq<char>, Seq<char>>,
    store: Map<Seq<char>, Stored>,
    folder: Seq<char>,
)
    ensures
        ({
            let first = batch_store_run(document, pages, store, folder);
            let second = batch_store_run(document, pages, first.store, folder);
            &&& second.last is Finish
            &&& second.store == first.store
            &&& !has_created(second.requests)
        }),
{
    let links = links_in(document);
    lemma_batch_files_every_link(document, pages, store, folder);
    let first = batch_store_run(document, pages, store, folder);
    lemma_batch_files_every_link(document, pages, first.store, folder);
    let second = batch_store_run(document, pages, first.store, folder);
    if links.len() > 0 {
        lemma_folder_is_made(pages, store, folder, links);
    }
    lemma_filed_links_are_reused(pages, first.store, folder, links);
    let again = requests_for_links(pages, first.store, folder, links);
    if has_created(second.requests) {
        let i = choose|i: int|
            0 <= i < second.requests.len() && #[trigger] second.requests[i] is Create;
        assert(again[i - 1] is Create);
    }
}

/// Once a link has been bookmarked the folder is in the store, and stays.
proof fn lemma_folder_is_made(
    pages: Map<Seq<char>, Seq<char>>,
    store: Map<Seq<char>, Stored>,
    folder: Seq<char>,
    links: Seq<Seq<char>>,
)
    requires
        links.len() > 0 || store.dom().contains(folder),
    ensures
        store_after_links(pages, store, folder, links).dom().contains(folder),
    decreases links.len(),
{
    if links.len() > 0 {
        let first = capture_run(pages, store, folder, links.first());
        reveal_with_fuel(capture_run_from, 5);
        lemma_path_is_below_folder(folder, record_in(pages, links.first()));
        lemma_folder_is_made(pages, first.store, folder, links.drop_first());
    }
}

} // verus!
