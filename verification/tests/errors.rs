use url_bookmarks::errors::{
    failure_notice, ExtractError, FrontmatterError, PersistMarkdownError, SettingPageError,
};

#[test]
fn extract_error_messages() {
    assert_eq!(
        ExtractError::Parse("relative URL without a base".to_string()).message(),
        "url did not parse. relative URL without a base"
    );
    assert_eq!(ExtractError::NoContent.message(), "url had not content");
    assert_eq!(
        ExtractError::Persist("unexpected error `disk full`".to_string()).message(),
        "unexpected error `disk full`"
    );
    assert_eq!(ExtractError::Fetch("timeout".to_string()).message(), "fetch error `timeout`");
    assert_eq!(ExtractError::NoUrlSelected.message(), "select a url to bookmark");
    assert_eq!(
        ExtractError::WrongView.message(),
        "expected view to be MarkdownView but was not"
    );
    assert_eq!(ExtractError::NoClipboard.message(), "no clipboard available");
    assert_eq!(ExtractError::NoClipboardContent.message(), "no url in clipboard");
}

#[test]
fn extract_error_from_a_host_failure() {
    assert_eq!(
        ExtractError::from_host_failure(Some("net down".to_string())),
        ExtractError::Fetch("fetch error net down".to_string())
    );
    assert_eq!(ExtractError::from_host_failure(None), ExtractError::Fetch("fetch error".to_string()));
    assert_eq!(
        ExtractError::from_host_failure(Some("net down".to_string())).message(),
        "fetch error `fetch error net down`"
    );
}

#[test]
fn persist_error_messages() {
    assert_eq!(
        PersistMarkdownError::NoActiveFile.message(),
        "expected to have a file open but none were active"
    );
    assert_eq!(
        PersistMarkdownError::JsError("Error: boom".to_string()).message(),
        "unexpected error `Error: boom`"
    );
    assert_eq!(PersistMarkdownError::UnknownJsError.message(), "unknown error from js");
    assert_eq!(PersistMarkdownError::UnknownSyntax.message(), "unknown syntax expected a url");
    assert_eq!(
        PersistMarkdownError::Parse(ExtractError::NoContent).message(),
        "error extracting content. url had not content"
    );
}

#[test]
fn persist_error_from_a_host_failure() {
    assert_eq!(
        PersistMarkdownError::from_host_failure(Some("Error: boom".to_string())),
        PersistMarkdownError::JsError("Error: boom".to_string())
    );
    assert_eq!(PersistMarkdownError::from_host_failure(None), PersistMarkdownError::UnknownJsError);
}

#[test]
fn persist_error_wraps_an_extract_error() {
    assert_eq!(
        PersistMarkdownError::from_extract(ExtractError::WrongView),
        PersistMarkdownError::Parse(ExtractError::WrongView)
    );
}

#[test]
fn frontmatter_error_messages() {
    assert_eq!(FrontmatterError::NotHash.message(), "root document not a hash");
    assert_eq!(FrontmatterError::NoLink.message(), "key link not available");
    assert_eq!(FrontmatterError::NoYaml.message(), "no frontmatter found in document");
    assert_eq!(FrontmatterError::LinkNotString.message(), "link expected to be string type");
}

#[test]
fn setting_page_error_message() {
    assert_eq!(
        SettingPageError::Transform("no data".to_string()).message(),
        "error loading settings. no data"
    );
}

#[test]
fn failure_notice_puts_the_prefix_in_front() {
    assert_eq!(failure_notice("no url in clipboard"), "error: no url in clipboard");
    assert_eq!(failure_notice(""), "error: ");
}
