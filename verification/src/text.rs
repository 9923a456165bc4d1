//! The text that a label is placed with: the draft, or a placeholder where the draft is blank.

use vstd::prelude::*;

verus! {

/// Whether `c` has the Unicode `White_Space` property, as `char::is_whitespace` reports it.
pub uninterp spec fn white_space(c: char) -> bool;

/// Calls `char::is_whitespace`.
///
/// Trusted: the answer depends on the character alone, so it is given the name
/// [`white_space`]; nothing is claimed about which characters count as white space.
#[verifier::external_body]
fn char_is_whitespace(c: char) -> (ws: bool)
    ensures
        ws == white_space(c),
{
    c.is_whitespace()
}

/// A text with nothing to show: it is empty or every character of it is white space.
pub open spec fn blank(s: Seq<char>) -> bool {
    forall|i: int| 0 <= i < s.len() ==> white_space(#[trigger] s[i])
}

/// The text shown where the draft is blank.
pub open spec fn placeholder() -> Seq<char> {
    "Text"@
}

/// The text of a label placed while `draft` is the draft.
pub open spec fn label_text(draft: Seq<char>) -> Seq<char> {
    if blank(draft) {
        placeholder()
    } else {
        draft
    }
}

/// Decides whether `s` is blank.
pub fn is_blank(s: &str) -> (b: bool)
    ensures
        b == blank(s@),
{
    for c in it: s.chars()
        invariant
            it.seq() == s@,
            forall|j: int| 0 <= j < it.index() ==> white_space(#[trigger] s@[j]),
    {
        if !char_is_whitespace(c) {
            return false;
        }
    }
    true
}

/// The label text for a draft already known to be blank or not: the placeholder or a copy of
/// the draft.
pub fn choose_label(draft_is_blank: bool, draft: &String) -> (text: String)
    ensures
        text@ == if draft_is_blank { placeholder() } else { draft@ },
{
    if draft_is_blank {
        "Text".to_string()
    } else {
        draft.clone()
    }
}

/// The text of a label placed while `draft` is the draft.
pub fn label_for(draft: &String) -> (text: String)
    ensures
        text@ == label_text(draft@),
{
    let b = is_blank(draft.as_str());
    choose_label(b, draft)
}

} // verus!
