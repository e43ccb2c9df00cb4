use url_bookmarks::scan::scan_links;

#[test]
fn links_come_in_order_of_appearance() {
    let text = "first https://one.example/a then http://two.example/b?c=d, last https://three.example";
    assert_eq!(
        scan_links(text),
        vec!["https://one.example/a", "http://two.example/b?c=d", "https://three.example"]
    );
}

#[test]
fn a_link_that_appears_twice_is_listed_twice() {
    let text = "https://example.com/x and again https://example.com/x";
    assert_eq!(scan_links(text), vec!["https://example.com/x", "https://example.com/x"]);
}

#[test]
fn text_without_links_gives_none() {
    assert!(scan_links("").is_empty());
    assert!(scan_links("nothing to see here, not even example.com").is_empty());
}

#[test]
fn links_inside_markdown_are_found() {
    let text = "- [a page](https://example.com/page)\n- <https://example.org/>\n";
    assert_eq!(scan_links(text), vec!["https://example.com/page", "https://example.org/"]);
}

#[test]
fn mail_addresses_count_as_links() {
    assert_eq!(scan_links("write to someone@example.org today"), vec!["someone@example.org"]);
}

#[test]
fn scanning_again_gives_the_same_links() {
    let text = "a https://example.com/1 b https://example.com/2";
    assert_eq!(scan_links(text), scan_links(text));
}
