//! Finding the links in a text.

use crate::adapters::{find_links, links_in};
use vstd::prelude::*;

verus! {

/// The links in `text`, in the order in which they appear; a link that
/// appears twice is listed twice. Scanning the same text again gives the same
/// links, and a text without links gives none.
pub fn scan_links(text: &str) -> (links: Vec<String>)
    ensures
        links.deep_view() == links_in(text@),
{
    find_links(text)
}

} // verus!
