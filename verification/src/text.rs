//! Tests on the text of a fragment.
//!
//! A fragment counts as present only if something is left of it once its
//! blank characters are taken away. The fragment itself is never altered.

use vstd::prelude::*;

verus! {

/// The characters that count as whitespace in a block: space, tab, line feed
/// and carriage return.
pub open spec fn is_whitespace(c: char) -> bool {
    c == ' ' || c == '\t' || c == '\n' || c == '\r'
}

/// `text` with every whitespace character removed.
pub open spec fn without_whitespace(text: Seq<char>) -> Seq<char> {
    text.filter(|c: char| !is_whitespace(c))
}

/// `text` with every space removed.
pub open spec fn without_spaces(text: Seq<char>) -> Seq<char> {
    text.filter(|c: char| c != ' ')
}

/// Filtering leaves something exactly when some element passes the filter.
pub proof fn filter_leaves_something<A>(s: Seq<A>, keep: spec_fn(A) -> bool)
    ensures
        s.filter(keep).len() > 0 <==> exists|i: int| 0 <= i < s.len() && keep(#[trigger] s[i]),
{
    if s.filter(keep).len() > 0 {
        let kept = s.filter(keep)[0];
        assert(s.filter(keep).contains(kept));
        s.lemma_filter_contains_rev(keep, kept);
        s.lemma_filter_pred(keep, 0);
        let i = choose|i: int| 0 <= i < s.len() && s[i] == kept;
        assert(keep(s[i]));
    }
    if exists|i: int| 0 <= i < s.len() && keep(#[trigger] s[i]) {
        let i = choose|i: int| 0 <= i < s.len() && keep(#[trigger] s[i]);
        s.lemma_filter_contains(keep, i);
    }
}

/// Whether anything but whitespace stands in `text`.
pub fn has_visible_text(text: &str) -> (found: bool)
    ensures
        found == (without_whitespace(text@).len() > 0),
{
    let mut found = false;
    for c in it: text.chars()
        invariant
            it.seq() == text@,
            found == exists|i: int| 0 <= i < it.index() && !is_whitespace(#[trigger] text@[i]),
    {
        if !(c == ' ' || c == '\t' || c == '\n' || c == '\r') {
            found = true;
        }
    }
    proof {
        filter_leaves_something(text@, |c: char| !is_whitespace(c));
    }
    found
}

/// Whether anything but spaces stands in `text`.
pub fn has_more_than_spaces(text: &str) -> (found: bool)
    ensures
        found == (without_spaces(text@).len() > 0),
{
    let mut found = false;
    for c in it: text.chars()
        invariant
            it.seq() == text@,
            found == exists|i: int| 0 <= i < it.index() && #[trigger] text@[i] != ' ',
    {
        if c != ' ' {
            found = true;
        }
    }
    proof {
        filter_leaves_something(text@, |c: char| c != ' ');
    }
    found
}

} // verus!
