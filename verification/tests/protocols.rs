use std::collections::{HashMap, HashSet};

use url_bookmarks::batch::{bookmark_all_links, bookmark_all_links_begin, BatchState, BatchStep};
use url_bookmarks::capture::{capture_begin, capture_url, CaptureState};
use url_bookmarks::errors::{ExtractError, PersistMarkdownError};
use url_bookmarks::extract::{
    extract_begin, extract_url, read_clipboard, read_selection, ExtractState,
};
use url_bookmarks::host::{EntryKind, Event, Request, Step};
use url_bookmarks::persist::{
    persist_begin, persist_markdown, MarkdownFile, PersistState, PersistStep,
};
use url_bookmarks::record::Markdown;
use url_bookmarks::settings::Settings;

/// What a path of the pretended store holds.
#[derive(Clone, Debug, PartialEq)]
enum Entry {
    File(String),
    Folder,
}

/// A host that lives in memory and keeps a log of what it was asked.
#[derive(Default)]
struct Host {
    document: Option<String>,
    markdown_view: bool,
    selection: String,
    clipboard: Option<Event>,
    pages: HashMap<String, String>,
    entries: HashMap<String, Entry>,
    refuses_folder: Option<Option<String>>,
    refuses_create: HashSet<String>,
    log: Vec<Request>,
}

impl Host {
    fn perform(&mut self, request: &Request) -> Event {
        self.log.push(request.clone());
        match request {
            Request::ReadDocument => match &self.document {
                Some(text) => Event::Text(text.clone()),
                None => Event::Absent,
            },
            Request::FindMarkdownView => {
                if self.markdown_view {
                    Event::Done
                } else {
                    Event::Absent
                }
            }
            Request::ReadSelection => Event::Text(self.selection.clone()),
            Request::ReadClipboard => self.clipboard.clone().unwrap_or(Event::Absent),
            Request::Fetch { url } => match self.pages.get(url) {
                Some(page) => Event::Text(page.clone()),
                None => Event::Failed(Some("connection refused".to_string())),
            },
            Request::MakeFolder { path } => match &self.refuses_folder {
                Some(detail) => Event::Failed(detail.clone()),
                None => {
                    self.entries.entry(path.clone()).or_insert(Entry::Folder);
                    Event::Done
                }
            },
            Request::Lookup { path } => match self.entries.get(path) {
                Some(Entry::File(_)) => Event::Entry(EntryKind::File),
                Some(Entry::Folder) => Event::Entry(EntryKind::Other),
                None => Event::Absent,
            },
            Request::Create { path, body } => {
                if self.refuses_create.contains(path) {
                    Event::Failed(Some(format!("cannot create {}", path)))
                } else {
                    self.entries.insert(path.clone(), Entry::File(body.clone()));
                    Event::Done
                }
            }
        }
    }

    fn files(&self) -> Vec<(String, String)> {
        let mut files: Vec<(String, String)> = self
            .entries
            .iter()
            .filter_map(|(path, entry)| match entry {
                Entry::File(body) => Some((path.clone(), body.clone())),
                Entry::Folder => None,
            })
            .collect();
        files.sort();
        files
    }

    fn fetched(&self) -> Vec<String> {
        self.log
            .iter()
            .filter_map(|request| match request {
                Request::Fetch { url } => Some(url.clone()),
                _ => None,
            })
            .collect()
    }

    fn created(&self) -> Vec<String> {
        self.log
            .iter()
            .filter_map(|request| match request {
                Request::Create { path, .. } => Some(path.clone()),
                _ => None,
            })
            .collect()
    }
}

fn page(title: &str) -> String {
    format!("<html><head><title>{}</title></head><body></body></html>", title)
}

fn bookmark_of(title: &str, url: &str, available: bool) -> Markdown {
    Markdown { title: title.to_string(), content: url.to_string(), available }
}

fn persist(host: &mut Host, settings: &Settings, md: &Markdown) -> Result<MarkdownFile, PersistMarkdownError> {
    let mut step: PersistStep = persist_begin(settings);
    loop {
        match step {
            Step::Ask { state, request } => {
                let event = host.perform(&request);
                step = persist_markdown(settings, state, event, md);
            }
            Step::Finish(file) => return Ok(file),
            Step::Fail(error) => return Err(error),
        }
    }
}

fn run_batch(host: &mut Host, settings: &Settings) -> (Vec<String>, Result<(), PersistMarkdownError>) {
    let mut notices = Vec::new();
    let mut step: BatchStep = bookmark_all_links_begin();
    loop {
        notices.append(&mut step.notices);
        match step.next {
            Step::Ask { state, request } => {
                let event = host.perform(&request);
                step = bookmark_all_links(settings, state, event);
            }
            Step::Finish(()) => return (notices, Ok(())),
            Step::Fail(error) => return (notices, Err(error)),
        }
    }
}

fn run_extract(host: &mut Host, settings: &Settings, use_clipboard: bool) -> Result<(), ExtractError> {
    let mut step = extract_begin();
    loop {
        match step {
            Step::Ask { state, request } => {
                let event = host.perform(&request);
                step = extract_url(settings, use_clipboard, state, event);
            }
            Step::Finish(()) => return Ok(()),
            Step::Fail(error) => return Err(error),
        }
    }
}

#[test]
fn persist_starts_with_the_folder() {
    let settings = Settings::new();
    assert_eq!(
        persist_begin(&settings),
        Step::Ask {
            state: PersistState::MakingFolder,
            request: Request::MakeFolder { path: "bookmarks".to_string() },
        }
    );
}

#[test]
fn persist_looks_up_the_path_below_the_folder() {
    let settings = Settings { bookmark_path: Some("notes/links".to_string()) };
    let md = bookmark_of("Example Page", "https://example.com/page", true);
    assert_eq!(
        persist_markdown(&settings, PersistState::MakingFolder, Event::Done, &md),
        Step::Ask {
            state: PersistState::LookingUp,
            request: Request::Lookup {
                path: "notes/links/example_com.Example Page.md".to_string(),
            },
        }
    );
}

#[test]
fn persist_creates_a_file_where_the_path_is_free() {
    let settings = Settings::new();
    let md = bookmark_of("Example Page", "https://example.com/page", true);
    assert_eq!(
        persist_markdown(&settings, PersistState::LookingUp, Event::Absent, &md),
        Step::Ask {
            state: PersistState::Creating,
            request: Request::Create {
                path: "bookmarks/example_com.Example Page.md".to_string(),
                body: "https://example.com/page".to_string(),
            },
        }
    );
}

#[test]
fn persist_creates_a_file_where_the_path_holds_a_folder() {
    let settings = Settings::new();
    let md = bookmark_of("Example Page", "https://example.com/page", true);
    let step = persist_markdown(&settings, PersistState::LookingUp, Event::Entry(EntryKind::Other), &md);
    assert_eq!(
        step,
        Step::Ask {
            state: PersistState::Creating,
            request: Request::Create {
                path: "bookmarks/example_com.Example Page.md".to_string(),
                body: "https://example.com/page".to_string(),
            },
        }
    );
}

#[test]
fn persist_reuses_a_file_that_is_there() {
    let settings = Settings::new();
    let md = bookmark_of("Example Page", "https://example.com/page", true);
    assert_eq!(
        persist_markdown(&settings, PersistState::LookingUp, Event::Entry(EntryKind::File), &md),
        Step::Finish(MarkdownFile {
            title: "Example Page".to_string(),
            file: "bookmarks/example_com.Example Page.md".to_string(),
        })
    );
}

#[test]
fn persist_ends_once_the_file_is_created() {
    let settings = Settings::new();
    let md = bookmark_of("https://dead.example/", "https://dead.example/", false);
    assert_eq!(
        persist_markdown(&settings, PersistState::Creating, Event::Done, &md),
        Step::Finish(MarkdownFile {
            title: "https://dead.example/".to_string(),
            file: "bookmarks/UNAVAILABLE_dead_example.httpsdeadexample.md".to_string(),
        })
    );
}

#[test]
fn persist_passes_on_the_platform_message() {
    let settings = Settings::new();
    let md = bookmark_of("t", "u", true);
    for state in [PersistState::MakingFolder, PersistState::LookingUp, PersistState::Creating] {
        assert_eq!(
            persist_markdown(&settings, state, Event::Failed(Some("disk full".to_string())), &md),
            Step::Fail(PersistMarkdownError::JsError("disk full".to_string()))
        );
        assert_eq!(
            persist_markdown(&settings, state, Event::Failed(None), &md),
            Step::Fail(PersistMarkdownError::UnknownJsError)
        );
    }
}

#[test]
fn persist_takes_an_answer_out_of_turn_for_an_unknown_failure() {
    let settings = Settings::new();
    let md = bookmark_of("t", "u", true);
    let unknown: PersistStep = Step::Fail(PersistMarkdownError::UnknownJsError);
    assert_eq!(persist_markdown(&settings, PersistState::MakingFolder, Event::Absent, &md), unknown);
    assert_eq!(
        persist_markdown(&settings, PersistState::MakingFolder, Event::Entry(EntryKind::File), &md),
        unknown
    );
    assert_eq!(persist_markdown(&settings, PersistState::LookingUp, Event::Done, &md), unknown);
    assert_eq!(persist_markdown(&settings, PersistState::LookingUp, Event::NotText, &md), unknown);
    assert_eq!(persist_markdown(&settings, PersistState::Creating, Event::Absent, &md), unknown);
    assert_eq!(
        persist_markdown(&settings, PersistState::Creating, Event::Text("x".to_string()), &md),
        unknown
    );
}

#[test]
fn persist_into_an_empty_store() {
    let mut host = Host::default();
    let settings = Settings::new();
    let md = bookmark_of("Example Page", "https://example.com/page", true);
    let file = persist(&mut host, &settings, &md).unwrap();
    assert_eq!(file.title, "Example Page");
    assert_eq!(file.file, "bookmarks/example_com.Example Page.md");
    assert_eq!(host.entries.get("bookmarks"), Some(&Entry::Folder));
    assert_eq!(
        host.files(),
        vec![(
            "bookmarks/example_com.Example Page.md".to_string(),
            "https://example.com/page".to_string()
        )]
    );
    assert_eq!(
        host.log,
        vec![
            Request::MakeFolder { path: "bookmarks".to_string() },
            Request::Lookup { path: "bookmarks/example_com.Example Page.md".to_string() },
            Request::Create {
                path: "bookmarks/example_com.Example Page.md".to_string(),
                body: "https://example.com/page".to_string(),
            },
        ]
    );
}

#[test]
fn persisting_twice_leaves_one_file() {
    let mut host = Host::default();
    let settings = Settings::new();
    let md = bookmark_of("Example Page", "https://example.com/page", true);
    let first = persist(&mut host, &settings, &md).unwrap();
    let after_first = host.entries.clone();
    let second = persist(&mut host, &settings, &md).unwrap();
    assert_eq!(first, second);
    assert_eq!(host.entries, after_first);
    assert_eq!(host.files().len(), 1);
    assert_eq!(host.created(), vec!["bookmarks/example_com.Example Page.md"]);
}

#[test]
fn persisting_keeps_the_body_of_a_file_that_is_there() {
    let mut host = Host::default();
    let path = "bookmarks/example_com.Example Page.md".to_string();
    host.entries.insert(path.clone(), Entry::File("edited by hand".to_string()));
    let settings = Settings::new();
    let md = bookmark_of("Example Page", "https://example.com/page", true);
    persist(&mut host, &settings, &md).unwrap();
    assert_eq!(host.entries.get(&path), Some(&Entry::File("edited by hand".to_string())));
    assert!(host.created().is_empty());
}

#[test]
fn persisting_over_a_folder_creates_the_file_anyway() {
    let mut host = Host::default();
    let path = "bookmarks/example_com.Example Page.md".to_string();
    host.entries.insert(path.clone(), Entry::Folder);
    let settings = Settings::new();
    let md = bookmark_of("Example Page", "https://example.com/page", true);
    persist(&mut host, &settings, &md).unwrap();
    assert_eq!(host.created(), vec![path.clone()]);
    assert_eq!(host.entries.get(&path), Some(&Entry::File("https://example.com/page".to_string())));
}

#[test]
fn persisting_fails_where_the_folder_cannot_be_made() {
    let mut host = Host::default();
    host.refuses_folder = Some(Some("read-only vault".to_string()));
    let settings = Settings::new();
    let md = bookmark_of("t", "https://example.com/", true);
    assert_eq!(
        persist(&mut host, &settings, &md),
        Err(PersistMarkdownError::JsError("read-only vault".to_string()))
    );
    assert_eq!(host.log, vec![Request::MakeFolder { path: "bookmarks".to_string() }]);
    assert!(host.files().is_empty());
}

#[test]
fn capture_fetches_first() {
    assert_eq!(
        capture_begin("https://example.com/page".to_string()),
        Step::Ask {
            state: CaptureState::Fetching { url: "https://example.com/page".to_string() },
            request: Request::Fetch { url: "https://example.com/page".to_string() },
        }
    );
}

#[test]
fn capture_builds_the_record_from_the_page() {
    let settings = Settings::new();
    let state = CaptureState::Fetching { url: "https://example.com/page".to_string() };
    assert_eq!(
        capture_url(&settings, state, Event::Text(page("Example Page"))),
        Step::Ask {
            state: CaptureState::Persisting {
                record: bookmark_of("Example Page", "https://example.com/page", true),
                store: PersistState::MakingFolder,
            },
            request: Request::MakeFolder { path: "bookmarks".to_string() },
        }
    );
}

#[test]
fn capture_goes_on_whatever_the_fetch_came_to() {
    let settings = Settings::new();
    let events = [
        Event::Failed(Some("dns".to_string())),
        Event::Failed(None),
        Event::NotText,
        Event::Absent,
        Event::Done,
        Event::Entry(EntryKind::File),
    ];
    for event in events {
        let state = CaptureState::Fetching { url: "https://dead.example/".to_string() };
        assert_eq!(
            capture_url(&settings, state, event),
            Step::Ask {
                state: CaptureState::Persisting {
                    record: bookmark_of("https://dead.example/", "https://dead.example/", false),
                    store: PersistState::MakingFolder,
                },
                request: Request::MakeFolder { path: "bookmarks".to_string() },
            }
        );
    }
}

#[test]
fn capture_ends_with_the_stored_file() {
    let settings = Settings::new();
    let state = CaptureState::Persisting {
        record: bookmark_of("Example Page", "https://example.com/page", true),
        store: PersistState::Creating,
    };
    assert_eq!(
        capture_url(&settings, state, Event::Done),
        Step::Finish(MarkdownFile {
            title: "Example Page".to_string(),
            file: "bookmarks/example_com.Example Page.md".to_string(),
        })
    );
}

#[test]
fn batch_reads_the_document_first() {
    let step = bookmark_all_links_begin();
    assert!(step.notices.is_empty());
    assert_eq!(step.next, Step::Ask { state: BatchState::Reading, request: Request::ReadDocument });
}

#[test]
fn batch_without_a_document_fails_and_writes_nothing() {
    let mut host = Host::default();
    let settings = Settings::new();
    let (notices, outcome) = run_batch(&mut host, &settings);
    assert_eq!(outcome, Err(PersistMarkdownError::NoActiveFile));
    assert!(notices.is_empty());
    assert_eq!(host.log, vec![Request::ReadDocument]);
    assert!(host.entries.is_empty());
}

#[test]
fn batch_fails_where_the_document_cannot_be_read() {
    let settings = Settings::new();
    let step = bookmark_all_links(&settings, BatchState::Reading, Event::Failed(Some("gone".to_string())));
    assert!(step.notices.is_empty());
    assert_eq!(step.next, Step::Fail(PersistMarkdownError::JsError("gone".to_string())));
    let step = bookmark_all_links(&settings, BatchState::Reading, Event::NotText);
    assert_eq!(step.next, Step::Fail(PersistMarkdownError::UnknownJsError));
}

#[test]
fn batch_over_a_document_without_links_only_announces_the_end() {
    let mut host = Host::default();
    host.document = Some("no links in here".to_string());
    let settings = Settings::new();
    let (notices, outcome) = run_batch(&mut host, &settings);
    assert_eq!(outcome, Ok(()));
    assert_eq!(notices, vec!["bookmarking complete"]);
    assert_eq!(host.log, vec![Request::ReadDocument]);
}

#[test]
fn batch_bookmarks_every_link_in_order() {
    let mut host = Host::default();
    host.document = Some(
        "see https://one.example/a, https://dead.example/ and https://two.example/b".to_string(),
    );
    host.pages.insert("https://one.example/a".to_string(), page("One"));
    host.pages.insert("https://two.example/b".to_string(), page("Two: the sequel"));
    let settings = Settings { bookmark_path: Some("saved".to_string()) };
    let (notices, outcome) = run_batch(&mut host, &settings);
    assert_eq!(outcome, Ok(()));
    assert_eq!(
        notices,
        vec![
            "bookmarking: https://one.example/a",
            "bookmarking: https://one.example/a",
            "bookmarking: https://dead.example/",
            "bookmarking: https://dead.example/",
            "bookmarking: https://two.example/b",
            "bookmarking: https://two.example/b",
            "bookmarking complete",
        ]
    );
    assert_eq!(
        host.fetched(),
        vec!["https://one.example/a", "https://dead.example/", "https://two.example/b"]
    );
    assert_eq!(
        host.created(),
        vec![
            "saved/one_example.One.md",
            "saved/UNAVAILABLE_dead_example.httpsdeadexample.md",
            "saved/two_example.Two the sequel.md",
        ]
    );
    assert_eq!(
        host.files(),
        vec![
            (
                "saved/UNAVAILABLE_dead_example.httpsdeadexample.md".to_string(),
                "https://dead.example/".to_string()
            ),
            ("saved/one_example.One.md".to_string(), "https://one.example/a".to_string()),
            (
                "saved/two_example.Two the sequel.md".to_string(),
                "https://two.example/b".to_string()
            ),
        ]
    );
}

#[test]
fn batch_stops_at_the_link_that_cannot_be_stored() {
    let mut host = Host::default();
    host.document = Some(
        "1. https://one.example/a\n2. https://two.example/b\n3. https://three.example/c\n"
            .to_string(),
    );
    host.pages.insert("https://one.example/a".to_string(), page("One"));
    host.pages.insert("https://two.example/b".to_string(), page("Two"));
    host.pages.insert("https://three.example/c".to_string(), page("Three"));
    host.refuses_create.insert("bookmarks/two_example.Two.md".to_string());
    let settings = Settings::new();
    let (notices, outcome) = run_batch(&mut host, &settings);
    assert_eq!(
        outcome,
        Err(PersistMarkdownError::JsError("cannot create bookmarks/two_example.Two.md".to_string()))
    );
    assert_eq!(
        notices,
        vec![
            "bookmarking: https://one.example/a",
            "bookmarking: https://one.example/a",
            "bookmarking: https://two.example/b",
        ]
    );
    assert_eq!(host.fetched(), vec!["https://one.example/a", "https://two.example/b"]);
    assert_eq!(
        host.files(),
        vec![("bookmarks/one_example.One.md".to_string(), "https://one.example/a".to_string())]
    );
}

#[test]
fn batch_run_twice_adds_nothing() {
    let mut host = Host::default();
    host.document = Some("https://one.example/a https://one.example/a".to_string());
    host.pages.insert("https://one.example/a".to_string(), page("One"));
    let settings = Settings::new();
    assert_eq!(run_batch(&mut host, &settings).1, Ok(()));
    assert_eq!(host.created(), vec!["bookmarks/one_example.One.md"]);
    let files = host.files();
    assert_eq!(run_batch(&mut host, &settings).1, Ok(()));
    assert_eq!(host.files(), files);
    assert_eq!(host.created(), vec!["bookmarks/one_example.One.md"]);
}

#[test]
fn extract_looks_for_the_view_first() {
    assert_eq!(
        extract_begin(),
        Step::Ask { state: ExtractState::FindingView, request: Request::FindMarkdownView }
    );
}

#[test]
fn extract_without_a_markdown_view_fails() {
    let mut host = Host::default();
    let settings = Settings::new();
    assert_eq!(run_extract(&mut host, &settings, false), Err(ExtractError::WrongView));
    assert_eq!(run_extract(&mut host, &settings, true), Err(ExtractError::WrongView));
    assert_eq!(host.log, vec![Request::FindMarkdownView, Request::FindMarkdownView]);
}

#[test]
fn extract_reads_the_source_that_the_command_names() {
    let settings = Settings::new();
    assert_eq!(
        extract_url(&settings, false, ExtractState::FindingView, Event::Done),
        Step::Ask { state: ExtractState::ReadingText, request: Request::ReadSelection }
    );
    assert_eq!(
        extract_url(&settings, true, ExtractState::FindingView, Event::Done),
        Step::Ask { state: ExtractState::ReadingText, request: Request::ReadClipboard }
    );
}

#[test]
fn extract_of_an_empty_selection_fails_without_side_effects() {
    let mut host = Host::default();
    host.markdown_view = true;
    let settings = Settings::new();
    assert_eq!(run_extract(&mut host, &settings, false), Err(ExtractError::NoUrlSelected));
    assert_eq!(host.log, vec![Request::FindMarkdownView, Request::ReadSelection]);
    assert!(host.entries.is_empty());
}

#[test]
fn extract_of_an_empty_clipboard_fails() {
    let mut host = Host::default();
    host.markdown_view = true;
    host.clipboard = Some(Event::Text(String::new()));
    let settings = Settings::new();
    assert_eq!(run_extract(&mut host, &settings, true), Err(ExtractError::NoUrlSelected));
}

#[test]
fn extract_without_a_clipboard_fails() {
    let mut host = Host::default();
    host.markdown_view = true;
    let settings = Settings::new();
    assert_eq!(run_extract(&mut host, &settings, true), Err(ExtractError::NoClipboard));
    assert_eq!(host.log, vec![Request::FindMarkdownView, Request::ReadClipboard]);
}

#[test]
fn extract_of_a_clipboard_without_text_fails() {
    let mut host = Host::default();
    host.markdown_view = true;
    host.clipboard = Some(Event::NotText);
    let settings = Settings::new();
    assert_eq!(run_extract(&mut host, &settings, true), Err(ExtractError::NoClipboardContent));
}

#[test]
fn extract_of_a_clipboard_that_cannot_be_read_fails() {
    let mut host = Host::default();
    host.markdown_view = true;
    host.clipboard = Some(Event::Failed(Some("denied".to_string())));
    let settings = Settings::new();
    assert_eq!(
        run_extract(&mut host, &settings, true),
        Err(ExtractError::Fetch("fetch error denied".to_string()))
    );
}

#[test]
fn extract_bookmarks_the_selected_url() {
    let mut host = Host::default();
    host.markdown_view = true;
    host.selection = "https://example.com/page".to_string();
    host.pages.insert("https://example.com/page".to_string(), page("Example Page"));
    let settings = Settings::new();
    assert_eq!(run_extract(&mut host, &settings, false), Ok(()));
    assert_eq!(
        host.files(),
        vec![(
            "bookmarks/example_com.Example Page.md".to_string(),
            "https://example.com/page".to_string()
        )]
    );
    assert_eq!(host.fetched(), vec!["https://example.com/page"]);
}

#[test]
fn extract_bookmarks_the_url_on_the_clipboard_even_if_unreachable() {
    let mut host = Host::default();
    host.markdown_view = true;
    host.clipboard = Some(Event::Text("https://dead.example/".to_string()));
    let settings = Settings::new();
    assert_eq!(run_extract(&mut host, &settings, true), Ok(()));
    assert_eq!(
        host.files(),
        vec![(
            "bookmarks/UNAVAILABLE_dead_example.httpsdeadexample.md".to_string(),
            "https://dead.example/".to_string()
        )]
    );
}

#[test]
fn extract_hands_on_the_failure_to_store() {
    let mut host = Host::default();
    host.markdown_view = true;
    host.selection = "https://example.com/page".to_string();
    host.refuses_folder = Some(None);
    let settings = Settings::new();
    assert_eq!(
        run_extract(&mut host, &settings, false),
        Err(ExtractError::Persist("unknown error from js".to_string()))
    );
    host.refuses_folder = Some(Some("read-only vault".to_string()));
    let failure = run_extract(&mut host, &settings, false).unwrap_err();
    assert_eq!(failure, ExtractError::Persist("unexpected error `read-only vault`".to_string()));
    assert_eq!(failure.message(), "unexpected error `read-only vault`");
    host.refuses_folder = None;
    host.log.clear();
    host.refuses_create.insert("bookmarks/UNAVAILABLE_example_com.httpsexamplecompage.md".to_string());
    assert_eq!(
        run_extract(&mut host, &settings, false),
        Err(ExtractError::Persist(
            "unexpected error `cannot create bookmarks/UNAVAILABLE_example_com.httpsexamplecompage.md`"
                .to_string()
        ))
    );
    assert!(host.files().is_empty());
}

#[test]
fn extract_takes_the_same_steps_whatever_the_settings_until_the_url_is_there() {
    let plain = Settings::new();
    let other = Settings { bookmark_path: Some("elsewhere".to_string()) };
    for use_clipboard in [false, true] {
        for event in [Event::Done, Event::Absent, Event::Text("https://example.com/".to_string())] {
            assert_eq!(
                extract_url(&plain, use_clipboard, ExtractState::FindingView, event.clone()),
                extract_url(&other, use_clipboard, ExtractState::FindingView, event.clone())
            );
            assert_eq!(
                extract_url(&plain, use_clipboard, ExtractState::ReadingText, event.clone()),
                extract_url(&other, use_clipboard, ExtractState::ReadingText, event)
            );
        }
    }
}

#[test]
fn batch_tells_of_one_link_before_and_after() {
    let mut host = Host::default();
    host.document = Some("only https://one.example/a here".to_string());
    host.pages.insert("https://one.example/a".to_string(), page("One"));
    let settings = Settings::new();
    let (notices, outcome) = run_batch(&mut host, &settings);
    assert_eq!(outcome, Ok(()));
    assert_eq!(
        notices,
        vec![
            "bookmarking: https://one.example/a",
            "bookmarking: https://one.example/a",
            "bookmarking complete",
        ]
    );
}

#[test]
fn batch_tells_of_a_stored_link_in_the_step_that_starts_the_next() {
    let settings = Settings::new();
    let mut pending = std::collections::VecDeque::new();
    pending.push_back("https://two.example/b".to_string());
    let state = BatchState::Capturing {
        capture: CaptureState::Persisting {
            record: bookmark_of("One", "https://one.example/a", true),
            store: PersistState::Creating,
        },
        pending,
    };
    let step = bookmark_all_links(&settings, state, Event::Done);
    assert_eq!(
        step.notices,
        vec!["bookmarking: https://one.example/a", "bookmarking: https://two.example/b"]
    );
    assert_eq!(
        step.next,
        Step::Ask {
            state: BatchState::Capturing {
                capture: CaptureState::Fetching { url: "https://two.example/b".to_string() },
                pending: std::collections::VecDeque::new(),
            },
            request: Request::Fetch { url: "https://two.example/b".to_string() },
        }
    );
}

#[test]
fn clipboard_answers_are_told_apart() {
    assert_eq!(read_clipboard(Event::Text("u".to_string())), Ok("u".to_string()));
    assert_eq!(read_clipboard(Event::Absent), Err(ExtractError::NoClipboard));
    assert_eq!(read_clipboard(Event::NotText), Err(ExtractError::NoClipboardContent));
    assert_eq!(read_clipboard(Event::Done), Err(ExtractError::NoClipboardContent));
    assert_eq!(
        read_clipboard(Event::Entry(EntryKind::Other)),
        Err(ExtractError::NoClipboardContent)
    );
    assert_eq!(
        read_clipboard(Event::Failed(None)),
        Err(ExtractError::Fetch("fetch error".to_string()))
    );
}

#[test]
fn selection_answers_are_told_apart() {
    assert_eq!(read_selection(Event::Text("u".to_string())), Ok("u".to_string()));
    assert_eq!(read_selection(Event::Text(String::new())), Ok(String::new()));
    assert_eq!(read_selection(Event::Absent), Err(ExtractError::NoUrlSelected));
    assert_eq!(read_selection(Event::Failed(None)), Err(ExtractError::NoUrlSelected));
}
