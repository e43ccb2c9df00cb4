//! What the user has configured.

use vstd::prelude::*;
use vstd::string::*;

verus! {

/// The folder that takes the bookmarks where none is configured.
pub const DEFAULT_BOOKMARK_PATH: &'static str = "bookmarks";

/// The plugin's settings.
#[derive(Clone, Debug, PartialEq, Eq)]
pub struct Settings {
    /// The folder that takes the bookmarks, if the user has chosen one.
    pub bookmark_path: Option<String>,
}

impl Settings {
    /// The folder that takes the bookmarks: the user's choice, or the default.
    pub open spec fn folder(self) -> Seq<char> {
        match self.bookmark_path {
            Some(path) => path@,
            None => DEFAULT_BOOKMARK_PATH@,
        }
    }

    /// Settings with nothing configured.
    pub fn new() -> (settings: Settings)
        ensures
            settings.bookmark_path is None,
            settings.folder() == DEFAULT_BOOKMARK_PATH@,
    {
        Settings { bookmark_path: None }
    }

    /// The folder that takes the bookmarks: the user's choice, or the default.
    pub fn bookmark_path(&self) -> (path: String)
        ensures
            path@ == self.folder(),
    {
        match &self.bookmark_path {
            Some(path) => path.clone(),
            None => DEFAULT_BOOKMARK_PATH.to_owned(),
        }
    }

    /// Records the folder that the user has typed in.
    pub fn set_bookmark_path(&mut self, value: String)
        ensures
            final(self).bookmark_path == Some(value),
            final(self).folder() == value@,
    {
        self.bookmark_path = Some(value);
    }
}

} // verus!
