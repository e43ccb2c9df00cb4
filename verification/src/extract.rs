//! Bookmarking the URL that the user has selected, or that the clipboard
//! holds.

use crate::capture::{
    capture_begin, capture_first, capture_next, capture_url, CaptureState, CaptureStateView,
    CaptureStep, CaptureStepView,
};
use crate::errors::{ExtractError, ExtractErrorView};
use crate::host::{Event, EventView, Request, RequestView, Step, StepView};
use crate::settings::Settings;
use vstd::prelude::*;
use vstd::string::*;

verus! {

/// Which answer of the host the command is waiting for.
#[derive(Clone, Debug, PartialEq, Eq)]
pub enum ExtractState {
    /// The active Markdown view is being looked for.
    FindingView,
    /// The selection or the clipboard is being read.
    ReadingText,
    /// The URL is being bookmarked.
    Capturing(CaptureState),
}

/// An [`ExtractState`] with its parts as mathematical values.
pub enum ExtractStateView {
    FindingView,
    ReadingText,
    Capturing(CaptureStateView),
}

impl View for ExtractState {
    type V = ExtractStateView;

    open spec fn view(&self) -> ExtractStateView {
        match *self {
            ExtractState::FindingView => ExtractStateView::FindingView,
            ExtractState::ReadingText => ExtractStateView::ReadingText,
            ExtractState::Capturing(capture) => ExtractStateView::Capturing(capture@),
        }
    }
}

/// A step of the command.
pub type ExtractStep = Step<ExtractState, (), ExtractError>;

/// An [`ExtractStep`] with its parts as mathematical values.
pub type ExtractStepView = StepView<ExtractStateView, (), ExtractErrorView>;

/// What reading the clipboard has come to: its text, or the reason why there
/// is none.
pub open spec fn clipboard_text(event: EventView) -> Result<Seq<char>, ExtractErrorView> {
    match event {
        EventView::Text(text) => Ok(text),
        EventView::Absent => Err(ExtractErrorView::NoClipboard),
        EventView::Failed(detail) => Err(ExtractErrorView::of_host_failure(detail)),
        _ => Err(ExtractErrorView::NoClipboardContent),
    }
}

/// What reading the selection has come to.
pub open spec fn selection_text(event: EventView) -> Result<Seq<char>, ExtractErrorView> {
    match event {
        EventView::Text(text) => Ok(text),
        _ => Err(ExtractErrorView::NoUrlSelected),
    }
}

/// A step of the bookmarking of the URL, as a step of the command. The
/// command has no result of its own. Whatever keeps the bookmark from being
/// stored ends the command with a failure that carries the text of that
/// failure, the platform's own message included.
pub open spec fn capturing(inner: CaptureStepView) -> ExtractStepView {
    match inner {
        StepView::Ask { state, request } => StepView::Ask {
            state: ExtractStateView::Capturing(state),
            request,
        },
        StepView::Finish(_) => StepView::Finish(()),
        StepView::Fail(error) => StepView::Fail(ExtractErrorView::Persist(error.message())),
    }
}

/// How the command starts: the active Markdown view is looked for.
pub open spec fn extract_first() -> ExtractStepView {
    StepView::Ask { state: ExtractStateView::FindingView, request: RequestView::FindMarkdownView }
}

/// What the command does with the text that it has read: an empty text ends
/// it, any other text is taken for the URL to bookmark.
pub open spec fn extract_text(text: Result<Seq<char>, ExtractErrorView>) -> ExtractStepView {
    match text {
        Ok(url) => if url.len() == 0 {
            StepView::Fail(ExtractErrorView::NoUrlSelected)
        } else {
            capturing(capture_first(url))
        },
        Err(error) => StepView::Fail(error),
    }
}

/// How the command goes on from `state` when the host reports `event`.
///
/// Without a Markdown view the command fails. With one, the text comes from
/// the clipboard where `use_clipboard` holds and from the selection where it
/// does not. Until a URL is in hand nothing has been asked of the store or
/// of the network.
pub open spec fn extract_next(
    folder: Seq<char>,
    use_clipboard: bool,
    state: ExtractStateView,
    event: EventView,
) -> ExtractStepView {
    match state {
        ExtractStateView::FindingView => match event {
            EventView::Done => StepView::Ask {
                state: ExtractStateView::ReadingText,
                request: if use_clipboard {
                    RequestView::ReadClipboard
                } else {
                    RequestView::ReadSelection
                },
            },
            _ => StepView::Fail(ExtractErrorView::WrongView),
        },
        ExtractStateView::ReadingText => extract_text(
            if use_clipboard {
                clipboard_text(event)
            } else {
                selection_text(event)
            },
        ),
        ExtractStateView::Capturing(capture) => capturing(capture_next(folder, capture, event)),
    }
}

/// Tells the text on the clipboard from the reasons why there is none.
pub fn read_clipboard(event: Event) -> (text: Result<String, ExtractError>)
    ensures
        match text {
            Ok(url) => clipboard_text(event@) == Ok::<Seq<char>, ExtractErrorView>(url@),
            Err(error) => clipboard_text(event@) == Err::<Seq<char>, ExtractErrorView>(error@),
        },
{
    match event {
        Event::Text(text) => Ok(text),
        Event::Absent => Err(ExtractError::NoClipboard),
        Event::Failed(detail) => Err(ExtractError::from_host_failure(detail)),
        _ => Err(ExtractError::NoClipboardContent),
    }
}

/// Tells the selected text from an answer that holds none.
pub fn read_selection(event: Event) -> (text: Result<String, ExtractError>)
    ensures
        match text {
            Ok(url) => selection_text(event@) == Ok::<Seq<char>, ExtractErrorView>(url@),
            Err(error) => selection_text(event@) == Err::<Seq<char>, ExtractErrorView>(error@),
        },
{
    match event {
        Event::Text(text) => Ok(text),
        _ => Err(ExtractError::NoUrlSelected),
    }
}

/// A step of the bookmarking of the URL, as a step of the command.
fn lift(inner: CaptureStep) -> (step: ExtractStep)
    ensures
        step@ == capturing(inner@),
{
    match inner {
        Step::Ask { state, request } => Step::Ask { state: ExtractState::Capturing(state), request },
        Step::Finish(_) => Step::Finish(()),
        Step::Fail(error) => Step::Fail(ExtractError::Persist(error.message())),
    }
}

/// Starts the command.
pub fn extract_begin() -> (step: ExtractStep)
    ensures
        step@ == extract_first(),
{
    Step::Ask { state: ExtractState::FindingView, request: Request::FindMarkdownView }
}

/// Takes the command one step further: from the answer that was awaited and
/// the answer that came to what happens next.
pub fn extract_url(settings: &Settings, use_clipboard: bool, state: ExtractState, event: Event) -> (step:
    ExtractStep)
    ensures
        step@ == extract_next(settings.folder(), use_clipboard, state@, event@),
{
    match state {
        ExtractState::FindingView => match event {
            Event::Done => Step::Ask {
                state: ExtractState::ReadingText,
                request: if use_clipboard {
                    Request::ReadClipboard
                } else {
                    Request::ReadSelection
                },
            },
            _ => Step::Fail(ExtractError::WrongView),
        },
        ExtractState::ReadingText => {
            let text = if use_clipboard {
                read_clipboard(event)
            } else {
                read_selection(event)
            };
            match text {
                Ok(url) => if url.as_str().is_empty() {
                    Step::Fail(ExtractError::NoUrlSelected)
                } else {
                    lift(capture_begin(url))
                },
                Err(error) => Step::Fail(error),
            }
        },
        ExtractState::Capturing(capture) => lift(capture_url(settings, capture, event)),
    }
}

/// Until a URL is in hand the command touches neither the network nor the
/// store: it ends with a failure, or asks for the text to read, or, once the
/// text is there and not empty, asks for the page at that very text.
pub proof fn lemma_nothing_happens_without_a_url(
    folder: Seq<char>,
    use_clipboard: bool,
    state: ExtractStateView,
    event: EventView,
)
    requires
        state is FindingView || state is ReadingText,
    ensures
        match extract_next(folder, use_clipboard, state, event) {
            StepView::Ask { state: awaited, request } => {
                ||| state is FindingView && awaited is ReadingText && request == if use_clipboard {
                    RequestView::ReadClipboard
                } else {
                    RequestView::ReadSelection
                }
                ||| state is ReadingText && event is Text && event->Text_0.len() > 0 && request
                    == (RequestView::Fetch { url: event->Text_0 })
            },
            StepView::Finish(_) => false,
            StepView::Fail(_) => true,
        },
{
}

/// Until a URL is in hand the settings play no part: whatever folder they
/// name, the command takes the same step. A host may load them once the
/// command has started on the URL.
pub proof fn lemma_settings_wait_for_the_url(
    folder: Seq<char>,
    other: Seq<char>,
    use_clipboard: bool,
    state: ExtractStateView,
    event: EventView,
)
    requires
        state is FindingView || state is ReadingText,
    ensures
        extract_next(folder, use_clipboard, state, event) == extract_next(
            other,
            use_clipboard,
            state,
            event,
        ),
{
}

/// A failure to store the bookmark ends the command with a failure of the
/// same text. Where the platform has failed with a message, the text holds
/// that message as it came.
pub proof fn lemma_storing_failure_keeps_its_text(
    folder: Seq<char>,
    use_clipboard: bool,
    capture: CaptureStateView,
    event: EventView,
)
    requires
        capture_next(folder, capture, event) is Fail,
    ensures
        extract_next(folder, use_clipboard, ExtractStateView::Capturing(capture), event) is Fail,
        extract_next(
            folder,
            use_clipboard,
            ExtractStateView::Capturing(capture),
            event,
        )->Fail_0.message() == capture_next(folder, capture, event)->Fail_0.message(),
        event matches EventView::Failed(Some(text)) ==> extract_next(
            folder,
            use_clipboard,
            ExtractStateView::Capturing(capture),
            event,
        )->Fail_0.message() == "unexpected error `"@ + text + "`"@,
{
}

} // verus!
