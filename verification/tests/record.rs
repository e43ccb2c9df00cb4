use url_bookmarks::errors::ExtractError;
use url_bookmarks::record::{convert_url_to_markdown, extract_title, Markdown};

const PAGE: &str =
    "<html><head><title>Example Page</title></head><body><h1>Hello</h1></body></html>";

#[test]
fn title_of_a_page() {
    assert_eq!(extract_title(PAGE), Some("Example Page".to_string()));
}

#[test]
fn title_is_the_first_of_several() {
    let page = "<html><head><title>First</title><title>Second</title></head></html>";
    assert_eq!(extract_title(page), Some("First".to_string()));
}

#[test]
fn title_may_be_empty() {
    assert_eq!(extract_title("<title></title>"), Some(String::new()));
}

#[test]
fn page_without_title_has_none() {
    assert_eq!(extract_title("<html><body><p>no heading here</p></body></html>"), None);
    assert_eq!(extract_title(""), None);
    assert_eq!(extract_title("just words"), None);
}

#[test]
fn broken_markup_is_read_as_far_as_it_goes() {
    assert_eq!(extract_title("<html><head><title>Cut off"), Some("Cut off".to_string()));
    assert_eq!(extract_title("<<<>>> </title> <b"), None);
}

#[test]
fn record_of_a_fetched_page_with_title() {
    let md = convert_url_to_markdown("https://example.com/page", Ok(PAGE.to_string()));
    assert_eq!(
        md,
        Markdown {
            title: "Example Page".to_string(),
            content: "https://example.com/page".to_string(),
            available: true,
        }
    );
}

#[test]
fn record_of_a_fetched_page_without_title() {
    let md = convert_url_to_markdown("https://example.com/raw", Ok("<p>text</p>".to_string()));
    assert_eq!(md.title, "https://example.com/raw");
    assert_eq!(md.content, "https://example.com/raw");
    assert!(md.available);
}

#[test]
fn record_of_an_unreachable_page() {
    let failure = ExtractError::Fetch("fetch error timeout".to_string());
    let md = convert_url_to_markdown("https://dead.example/", Err(failure));
    assert_eq!(
        md,
        Markdown {
            title: "https://dead.example/".to_string(),
            content: "https://dead.example/".to_string(),
            available: false,
        }
    );
}

#[test]
fn record_does_not_depend_on_the_kind_of_failure() {
    let first = convert_url_to_markdown("u", Err(ExtractError::NoContent));
    let second = convert_url_to_markdown("u", Err(ExtractError::Fetch(String::new())));
    assert_eq!(first, second);
}

#[test]
fn unavailable_records_repeat_the_url() {
    for url in ["", "x", "https://example.org/a b", "mailto:a@b.example"] {
        let md = convert_url_to_markdown(url, Err(ExtractError::NoContent));
        assert!(!md.available);
        assert_eq!(md.title, md.content);
        assert_eq!(md.content, url);
    }
}

#[test]
fn constructors_follow_the_table() {
    let titled = Markdown::fetched("u", Some("t".to_string()));
    assert_eq!((titled.title.as_str(), titled.content.as_str(), titled.available), ("t", "u", true));
    let untitled = Markdown::fetched("u", None);
    assert_eq!(
        (untitled.title.as_str(), untitled.content.as_str(), untitled.available),
        ("u", "u", true)
    );
    let dead = Markdown::unavailable("u");
    assert_eq!((dead.title.as_str(), dead.content.as_str(), dead.available), ("u", "u", false));
}

fn repeated(piece: &str, times: usize) -> String {
    let mut text = String::new();
    for _ in 0..times {
        text.push_str(piece);
    }
    text
}

#[test]
fn title_is_found_however_deep_the_page_nests() {
    let divs = format!("<title>Deep</title>{}", repeated("<div>", 200_000));
    assert_eq!(extract_title(&divs), Some("Deep".to_string()));
    let tables = format!("<title>Deep</title>{}", repeated("<table><td>", 100_000));
    assert_eq!(extract_title(&tables), Some("Deep".to_string()));
    let marked = format!("<title>Deep</title>{}", repeated("<b><i><u><p>", 50_000));
    assert_eq!(extract_title(&marked), Some("Deep".to_string()));
}

#[test]
fn page_that_nests_without_end_and_has_no_title_has_none() {
    assert_eq!(extract_title(&repeated("<div>", 200_000)), None);
    assert_eq!(extract_title(&repeated("<table><tr><td>", 70_000)), None);
}

#[test]
fn title_is_looked_for_in_the_head_of_the_page() {
    let early = format!("{}<title>Early</title>{}", repeated("<meta>", 150), repeated("<p>x</p>", 5_000));
    assert_eq!(extract_title(&early), Some("Early".to_string()));
    let late = format!("{}<title>Late</title>", repeated("<p>x</p>", 150));
    assert_eq!(extract_title(&late), None);
}

#[test]
fn record_of_a_deeply_nested_page_is_built() {
    let page = format!("<title>Deep</title>{}", repeated("<div>", 100_000));
    let md = convert_url_to_markdown("https://example.com/deep", Ok(page));
    assert_eq!(md.title, "Deep");
    assert!(md.available);
}
