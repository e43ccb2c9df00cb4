//! The name of the file that holds a bookmark: a function of the record alone.

use crate::adapters::{domain_of_url, regex_replace_all, regex_replaced, url_domain};
use crate::record::{Markdown, MarkdownView};
use crate::text::{flat, flatten, is_flat, lemma_flat_is_flat, replace_char, with_char_replaced};
use vstd::prelude::*;
use vstd::string::*;

verus! {

/// Matches one character that a file name may not carry over from a title:
/// anything but a Latin letter, a digit, a hyphen or white space.
pub const TITLE_PATTERN: &'static str = "[^a-zA-Z0-9\\-\\s]";

/// The title after the pattern engine has taken out every match of
/// [`TITLE_PATTERN`]. Where the engine gives no answer the title stays as it is.
pub open spec fn stripped_title(title: Seq<char>) -> Seq<char> {
    match regex_replaced(TITLE_PATTERN@, title, Seq::empty()) {
        Some(stripped) => stripped,
        None => title,
    }
}

/// The part of a title that goes into a file name: stripped, and without line
/// feeds. Whatever the pattern engine has left of it, no `/` goes into the
/// name.
pub open spec fn sanitized_title(title: Seq<char>) -> Seq<char> {
    flat(stripped_title(title))
}

/// The domain of a URL as it goes into a file name: as the URL parser gives
/// it, but for a `/` or a line feed, which no name takes.
pub open spec fn filed_domain(content: Seq<char>) -> Option<Seq<char>> {
    match url_domain(content) {
        Some(domain) => Some(flat(domain)),
        None => None,
    }
}

/// A domain name with its dots turned into underscores.
pub open spec fn domain_label(domain: Seq<char>) -> Seq<char> {
    with_char_replaced(domain, '.', '_')
}

/// The file name made of a sanitized title, the domain where there is one, and
/// the mark of an unreachable page.
pub open spec fn composed_filename(
    clean_title: Seq<char>,
    domain: Option<Seq<char>>,
    available: bool,
) -> Seq<char> {
    let stem = match domain {
        Some(name) => domain_label(name) + "."@ + clean_title,
        None => clean_title,
    };
    if available {
        stem + ".md"@
    } else {
        "UNAVAILABLE_"@ + stem + ".md"@
    }
}

/// The file name of a record.
pub open spec fn filename_of(record: MarkdownView) -> Seq<char> {
    composed_filename(sanitized_title(record.title), filed_domain(record.content), record.available)
}

/// Takes out of a title what a file name may not hold. The pattern engine
/// does the stripping; that neither a `/` nor a line feed is left does not
/// rest on it.
pub fn sanitize_title(title: &str) -> (clean: String)
    ensures
        clean@ == sanitized_title(title@),
        is_flat(clean@),
{
    let stripped = match regex_replace_all(TITLE_PATTERN, title, "") {
        Some(text) => text,
        None => title.to_owned(),
    };
    proof {
        reveal_strlit("");
        assert(""@ =~= Seq::<char>::empty());
    }
    flatten(stripped.as_str())
}

/// Puts a file name together from its parts. A domain, where there is one,
/// always goes in front of the title, so that pages with the same title on
/// different sites get different names; an empty title is kept as it is.
pub fn filename_from_parts(clean_title: &str, domain: Option<&str>, available: bool) -> (name:
    String)
    ensures
        name@ == composed_filename(clean_title@, domain.deep_view(), available),
{
    let stem = match domain {
        Some(host) => replace_char(host, '.', '_').concat(".").concat(clean_title),
        None => clean_title.to_owned(),
    };
    if available {
        stem.concat(".md")
    } else {
        let name = "UNAVAILABLE_".to_owned().concat(stem.as_str()).concat(".md");
        name
    }
}

/// Derives the file name of a record. The name holds no `/` and no line
/// feed, so the file lies in the folder of the bookmarks and nowhere else,
/// whatever the title and the URL are and whatever the engines make of them.
pub fn markdown_to_filename(md: &Markdown) -> (name: String)
    ensures
        name@ == filename_of(md@),
        is_flat(name@),
{
    let clean = sanitize_title(md.title.as_str());
    match domain_of_url(md.content.as_str()) {
        Some(domain) => {
            let host = flatten(domain.as_str());
            proof {
                lemma_composed_is_flat(clean@, Some(host@), md.available);
            }
            filename_from_parts(clean.as_str(), Some(host.as_str()), md.available)
        },
        None => {
            proof {
                lemma_composed_is_flat(clean@, None, md.available);
            }
            filename_from_parts(clean.as_str(), None, md.available)
        },
    }
}

/// A name put together from parts without `/` and line feed has neither.
pub proof fn lemma_composed_is_flat(title: Seq<char>, domain: Option<Seq<char>>, available: bool)
    requires
        is_flat(title),
        domain matches Some(name) ==> is_flat(name),
    ensures
        is_flat(composed_filename(title, domain, available)),
{
    reveal_strlit("UNAVAILABLE_");
    reveal_strlit(".");
    reveal_strlit(".md");
    let name = composed_filename(title, domain, available);
    let label = match domain {
        Some(host) => domain_label(host),
        None => Seq::empty(),
    };
    let mark: int = if available {
        0
    } else {
        "UNAVAILABLE_"@.len() as int
    };
    let front: int = if domain is Some {
        (label.len() + 1) as int
    } else {
        0
    };
    assert forall|i: int| 0 <= i < label.len() implies label[i] != '/' && label[i] != '\n' by {
        assert(domain->0.contains(domain->0[i]));
    }
    assert forall|i: int| 0 <= i < name.len() implies name[i] != '/' && name[i] != '\n' by {
        if mark <= i < mark + label.len() {
            assert(name[i] == label[i - mark]);
        } else if mark + front <= i < mark + front + title.len() {
            assert(title.contains(title[i - mark - front]));
        }
    }
}

/// The name of every record can stand inside the folder of the bookmarks.
pub proof fn lemma_filename_is_flat(record: MarkdownView)
    ensures
        is_flat(filename_of(record)),
{
    lemma_flat_is_flat(stripped_title(record.title));
    if url_domain(record.content) is Some {
        lemma_flat_is_flat(url_domain(record.content)->0);
    }
    lemma_composed_is_flat(
        sanitized_title(record.title),
        filed_domain(record.content),
        record.available,
    );
}

/// Records that agree in title, content and availability get the same name,
/// however often and wherever the name is derived.
pub proof fn lemma_filename_is_deterministic(first: Markdown, second: Markdown)
    requires
        first.title@ == second.title@,
        first.content@ == second.content@,
        first.available == second.available,
    ensures
        filename_of(first@) == filename_of(second@),
{
}

/// The name of an unreachable page is the name that the page would have if
/// it could be reached, with the mark in front of it.
pub proof fn lemma_unavailable_is_marked(title: Seq<char>, domain: Option<Seq<char>>)
    ensures
        composed_filename(title, domain, false) == "UNAVAILABLE_"@ + composed_filename(
            title,
            domain,
            true,
        ),
{
}

/// Pages with the same title get different names where their domains differ
/// in more than the place of dots and underscores.
pub proof fn lemma_domains_keep_names_apart(
    title: Seq<char>,
    first: Seq<char>,
    second: Seq<char>,
    available: bool,
)
    requires
        domain_label(first) != domain_label(second),
    ensures
        composed_filename(title, Some(first), available) != composed_filename(
            title,
            Some(second),
            available,
        ),
{
    let one = composed_filename(title, Some(first), available);
    let other = composed_filename(title, Some(second), available);
    let mark: Seq<char> = if available {
        Seq::empty()
    } else {
        "UNAVAILABLE_"@
    };
    let tail = "."@ + title + ".md"@;
    if one == other {
        let a = domain_label(first);
        let b = domain_label(second);
        assert(other.len() == mark.len() + b.len() + tail.len());
        assert forall|i: int| 0 <= i < a.len() implies a[i] == b[i] by {
            assert(other[mark.len() + i] == b[i]);
        }
        assert(a =~= b);
    }
}

} // verus!
