//! The commands that the library offers to its host: what each is called, and
//! what the user is told when one fails.

use crate::errors::{
    failure_notice, failure_notice_text, ExtractError, PersistMarkdownError,
};
use vstd::prelude::*;
use vstd::string::*;

verus! {

/// The identifier and the display name of a command.
pub struct CommandView {
    pub id: Seq<char>,
    pub name: Seq<char>,
}

/// What a command reports to the host once it has run: nothing where it went
/// well, and the notice to show where it failed.
pub open spec fn reported(failure: Option<Seq<char>>) -> Result<(), Seq<char>> {
    match failure {
        None => Ok(()),
        Some(message) => Err(failure_notice_text(message)),
    }
}

/// The notice of a report, if it holds one.
pub open spec fn notice_of(report: Result<(), String>) -> Result<(), Seq<char>> {
    match report {
        Ok(_) => Ok(()),
        Err(notice) => Err(notice@),
    }
}

/// The command that bookmarks every link of the active document.
#[derive(Clone, Debug, PartialEq, Eq)]
pub struct BookmarkAllLinksCommand {
    id: String,
    name: String,
}

impl View for BookmarkAllLinksCommand {
    type V = CommandView;

    closed spec fn view(&self) -> CommandView {
        CommandView { id: self.id@, name: self.name@ }
    }
}

impl BookmarkAllLinksCommand {
    /// The identifier under which the host knows the command.
    pub fn id(&self) -> (id: String)
        ensures
            id@ == self@.id,
    {
        self.id.clone()
    }

    /// Gives the command another identifier.
    pub fn set_id(&mut self, id: &str)
        ensures
            final(self)@ == (CommandView { id: id@, name: old(self)@.name }),
    {
        self.id = id.to_owned();
    }

    /// The name under which the command is shown.
    pub fn name(&self) -> (name: String)
        ensures
            name@ == self@.name,
    {
        self.name.clone()
    }

    /// Gives the command another name.
    pub fn set_name(&mut self, name: &str)
        ensures
            final(self)@ == (CommandView { id: old(self)@.id, name: name@ }),
    {
        self.name = name.to_owned();
    }

    /// What the command reports once the batch has ended with `outcome`.
    pub fn callback(&self, outcome: Result<(), PersistMarkdownError>) -> (report: Result<
        (),
        String,
    >)
        ensures
            notice_of(report) == reported(
                match outcome {
                    Ok(_) => None,
                    Err(error) => Some(error@.message()),
                },
            ),
    {
        match outcome {
            Ok(_) => Ok(()),
            Err(error) => {
                let message = error.message();
                Err(failure_notice(message.as_str()))
            },
        }
    }
}

/// The command that bookmarks every link of the active document, under its
/// usual identifier and name.
#[allow(non_snake_case)]
pub fn command_bookmarkAllLinks() -> (command: BookmarkAllLinksCommand)
    ensures
        command@ == (CommandView { id: "bookmarkAllLinks"@, name: "Bookmark All Links"@ }),
{
    BookmarkAllLinksCommand {
        id: "bookmarkAllLinks".to_owned(),
        name: "Bookmark All Links".to_owned(),
    }
}

/// A command that bookmarks one URL, taken from the selection or from the
/// clipboard.
#[derive(Clone, Debug, PartialEq, Eq)]
pub struct ExtractCommand {
    use_clipboard: bool,
    id: String,
    name: String,
}

impl View for ExtractCommand {
    type V = CommandView;

    closed spec fn view(&self) -> CommandView {
        CommandView { id: self.id@, name: self.name@ }
    }
}

impl ExtractCommand {
    /// Whether the command takes its URL from the clipboard.
    pub closed spec fn reads_clipboard(&self) -> bool {
        self.use_clipboard
    }

    /// Whether the command takes its URL from the clipboard rather than from
    /// the selection.
    pub fn use_clipboard(&self) -> (flag: bool)
        ensures
            flag == self.reads_clipboard(),
    {
        self.use_clipboard
    }

    /// The identifier under which the host knows the command.
    pub fn id(&self) -> (id: String)
        ensures
            id@ == self@.id,
    {
        self.id.clone()
    }

    /// Gives the command another identifier.
    pub fn set_id(&mut self, id: &str)
        ensures
            final(self)@ == (CommandView { id: id@, name: old(self)@.name }),
            final(self).reads_clipboard() == old(self).reads_clipboard(),
    {
        self.id = id.to_owned();
    }

    /// The name under which the command is shown.
    pub fn name(&self) -> (name: String)
        ensures
            name@ == self@.name,
    {
        self.name.clone()
    }

    /// Gives the command another name.
    pub fn set_name(&mut self, name: &str)
        ensures
            final(self)@ == (CommandView { id: old(self)@.id, name: name@ }),
            final(self).reads_clipboard() == old(self).reads_clipboard(),
    {
        self.name = name.to_owned();
    }

    /// What the command reports once it has ended with `outcome`.
    pub fn callback(&self, outcome: Result<(), ExtractError>) -> (report: Result<(), String>)
        ensures
            notice_of(report) == reported(
                match outcome {
                    Ok(_) => None,
                    Err(error) => Some(error@.message()),
                },
            ),
    {
        match outcome {
            Ok(_) => Ok(()),
            Err(error) => {
                let message = error.message();
                Err(failure_notice(message.as_str()))
            },
        }
    }
}

/// The command that bookmarks the selected URL.
pub fn command_extract_url() -> (command: ExtractCommand)
    ensures
        command@ == (CommandView { id: "extract-url"@, name: "Extract"@ }),
        !command.reads_clipboard(),
{
    ExtractCommand {
        id: "extract-url".to_owned(),
        name: "Extract".to_owned(),
        use_clipboard: false,
    }
}

/// The command that bookmarks the URL on the clipboard.
pub fn command_import_url() -> (command: ExtractCommand)
    ensures
        command@ == (CommandView { id: "import-url"@, name: "Import From Clipboard"@ }),
        command.reads_clipboard(),
{
    ExtractCommand {
        id: "import-url".to_owned(),
        name: "Import From Clipboard".to_owned(),
        use_clipboard: true,
    }
}

} // verus!
