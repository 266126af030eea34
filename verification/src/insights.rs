//! How the entries that a search found are shown: the first few of them,
//! each by the beginning of its text, and a count of the rest.

use crate::text::{from_chars, slice_chars, to_chars};
use vstd::prelude::*;

verus! {

/// How many of the entries found are shown.
pub const PREVIEW_ENTRIES: usize = 3;

/// How many characters of an entry are shown.
pub const PREVIEW_CHARS: usize = 100;

/// The first `limit` characters of `text`: all of it where it is no longer.
pub open spec fn prefix_of(text: Seq<char>, limit: nat) -> Seq<char> {
    if text.len() <= limit {
        text
    } else {
        text.take(limit as int)
    }
}

/// The beginning of `text` that is shown: its first hundred characters.
pub fn preview_text(text: &str) -> (r: String)
    ensures
        r@ == prefix_of(text@, PREVIEW_CHARS as nat),
{
    let chars = to_chars(text);
    if chars.len() <= PREVIEW_CHARS {
        from_chars(&chars)
    } else {
        let head = slice_chars(&chars, 0, PREVIEW_CHARS);
        from_chars(&head)
    }
}

/// How many of `total` entries are shown: the first three, or all where
/// there are fewer.
pub fn shown_entries(total: usize) -> (r: usize)
    ensures
        r == if total <= PREVIEW_ENTRIES { total } else { PREVIEW_ENTRIES },
{
    if total <= PREVIEW_ENTRIES {
        total
    } else {
        PREVIEW_ENTRIES
    }
}

/// How many of `total` entries are left out, to be told as "and so many
/// more".
pub fn hidden_entries(total: usize) -> (r: usize)
    ensures
        r == if total <= PREVIEW_ENTRIES { 0 } else { total - PREVIEW_ENTRIES },
{
    if total <= PREVIEW_ENTRIES {
        0
    } else {
        total - PREVIEW_ENTRIES
    }
}

} // verus!
