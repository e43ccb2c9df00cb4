use url_bookmarks::settings::{Settings, DEFAULT_BOOKMARK_PATH};

#[test]
fn the_default_folder() {
    assert_eq!(DEFAULT_BOOKMARK_PATH, "bookmarks");
    assert_eq!(Settings::new().bookmark_path(), "bookmarks");
    assert_eq!(Settings::new().bookmark_path, None);
}

#[test]
fn the_folder_that_the_user_chose() {
    let mut settings = Settings::new();
    settings.set_bookmark_path("reading/list".to_string());
    assert_eq!(settings.bookmark_path(), "reading/list");
    assert_eq!(settings.bookmark_path, Some("reading/list".to_string()));
}

#[test]
fn an_empty_choice_is_a_choice() {
    let settings = Settings { bookmark_path: Some(String::new()) };
    assert_eq!(settings.bookmark_path(), "");
}
