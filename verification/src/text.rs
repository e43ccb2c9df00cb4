//! Small operations on strings, character by character.

use vstd::prelude::*;

verus! {

/// Appends one character to a string.
///
/// Trusted: `String::push` of the standard library adds exactly `c` at the end
/// and leaves what came before untouched.
#[verifier::external_body]
fn push_char(s: &mut String, c: char)
    ensures
        final(s)@ == old(s)@.push(c),
{
    s.push(c);
}

/// Holds of every character but `unwanted`.
pub open spec fn differs_from(unwanted: char) -> spec_fn(char) -> bool {
    |c: char| c != unwanted
}

/// The text without any occurrence of `unwanted`.
pub open spec fn without_char(text: Seq<char>, unwanted: char) -> Seq<char> {
    text.filter(differs_from(unwanted))
}

/// The text with every `from` exchanged for `to`.
pub open spec fn with_char_replaced(text: Seq<char>, from: char, to: char) -> Seq<char> {
    text.map_values(|c: char| if c == from { to } else { c })
}

/// Nothing that was taken out is left behind.
pub proof fn lemma_without_char_has_none(text: Seq<char>, unwanted: char)
    ensures
        !without_char(text, unwanted).contains(unwanted),
{
    let kept = without_char(text, unwanted);
    assert forall|i: int| 0 <= i < kept.len() implies kept[i] != unwanted by {
        text.lemma_filter_pred(differs_from(unwanted), i);
    }
}

/// Drops every occurrence of `unwanted` and keeps all other characters in order.
pub fn remove_char(text: &str, unwanted: char) -> (out: String)
    ensures
        out@ == without_char(text@, unwanted),
        !out@.contains(unwanted),
{
    let mut out = String::new();
    for c in it: text.chars()
        invariant
            it.seq() == text@,
            out@ == without_char(text@.take(it.index() as int), unwanted),
    {
        proof {
            reveal(Seq::filter);
            assert(text@.take(it.index() + 1).drop_last() =~= text@.take(it.index() as int));
        }
        if c != unwanted {
            push_char(&mut out, c);
        }
    }
    proof {
        assert(text@.take(text@.len() as int) =~= text@);
        lemma_without_char_has_none(text@, unwanted);
    }
    out
}

/// Exchanges every `from` for `to`; the length and all other characters stay.
pub fn replace_char(text: &str, from: char, to: char) -> (out: String)
    ensures
        out@ == with_char_replaced(text@, from, to),
{
    let mut out = String::new();
    for c in it: text.chars()
        invariant
            it.seq() == text@,
            out@ == with_char_replaced(text@.take(it.index() as int), from, to),
    {
        let d = if c == from { to } else { c };
        push_char(&mut out, d);
    }
    out
}

/// How often `c` occurs in `text`.
pub open spec fn occurrences(text: Seq<char>, c: char) -> nat
    decreases text.len(),
{
    if text.len() == 0 {
        0
    } else {
        occurrences(text.drop_last(), c) + if text.last() == c {
            1nat
        } else {
            0nat
        }
    }
}

/// The length of the longest piece at the front of `text` in which `c`
/// occurs at most `limit` times.
pub open spec fn rationed_len(text: Seq<char>, c: char, limit: nat) -> nat
    decreases text.len(),
{
    if text.len() == 0 {
        0
    } else {
        let before = rationed_len(text.drop_last(), c, limit);
        if before == text.len() - 1 && (text.last() != c || occurrences(text.drop_last(), c)
            < limit) {
            text.len()
        } else {
            before
        }
    }
}

/// The longest piece at the front of `text` in which `c` occurs at most
/// `limit` times: the text up to the occurrence that would be one too many.
pub open spec fn rationed(text: Seq<char>, c: char, limit: nat) -> Seq<char> {
    text.take(rationed_len(text, c, limit) as int)
}

/// Cuts `text` off before the occurrence of `c` that would be one more than
/// `limit`; a text with fewer occurrences stays whole.
pub fn ration_char(text: &str, c: char, limit: usize) -> (out: String)
    ensures
        out@ == rationed(text@, c, limit as nat),
        occurrences(out@, c) <= limit,
{
    let mut out = String::new();
    let mut whole = true;
    let mut count: usize = 0;
    for x in it: text.chars()
        invariant
            it.seq() == text@,
            rationed_len(text@.take(it.index() as int), c, limit as nat) <= it.index(),
            out@ == text@.take(rationed_len(text@.take(it.index() as int), c, limit as nat) as int),
            whole <==> rationed_len(text@.take(it.index() as int), c, limit as nat) == it.index(),
            count == occurrences(out@, c),
            count <= limit,
    {
        proof {
            assert(text@.take(it.index() + 1).drop_last() =~= text@.take(it.index() as int));
        }
        if whole && (x != c || count < limit) {
            push_char(&mut out, x);
            if x == c {
                count += 1;
            }
            proof {
                assert(out@ =~= text@.take(it.index() + 1));
                assert(out@.drop_last() =~= text@.take(it.index() as int));
            }
        } else {
            whole = false;
        }
    }
    proof {
        assert(text@.take(text@.len() as int) =~= text@);
    }
    out
}

/// Whether a text can stand inside the name of a file: it holds no `/`,
/// which would lead into another folder, and no line feed.
pub open spec fn is_flat(text: Seq<char>) -> bool {
    !text.contains('/') && !text.contains('\n')
}

/// The text without line feeds and without `/`.
pub open spec fn flat(text: Seq<char>) -> Seq<char> {
    without_char(without_char(text, '\n'), '/')
}

/// Taking a character out of a text brings no other character in.
pub proof fn lemma_without_char_adds_none(text: Seq<char>, unwanted: char, other: char)
    requires
        !text.contains(other),
    ensures
        !without_char(text, unwanted).contains(other),
{
    let kept = without_char(text, unwanted);
    if kept.contains(other) {
        text.lemma_filter_contains_rev(differs_from(unwanted), other);
    }
}

/// What is left of a text once line feeds and `/` are taken out can stand
/// inside the name of a file.
pub proof fn lemma_flat_is_flat(text: Seq<char>)
    ensures
        is_flat(flat(text)),
{
    lemma_without_char_has_none(text, '\n');
    lemma_without_char_adds_none(without_char(text, '\n'), '/', '\n');
    lemma_without_char_has_none(without_char(text, '\n'), '/');
}

/// Takes line feeds and `/` out of a text.
pub fn flatten(text: &str) -> (out: String)
    ensures
        out@ == flat(text@),
        is_flat(out@),
{
    let lines_joined = remove_char(text, '\n');
    proof {
        lemma_flat_is_flat(text@);
    }
    remove_char(lines_joined.as_str(), '/')
}

} // verus!
