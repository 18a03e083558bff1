//! Small helpers on strings and their character sequences.

use vstd::prelude::*;

verus! {

/// `text` is the one-character string made of `c`.
pub open spec fn spells(text: Seq<char>, c: char) -> bool {
    text.len() == 1 && text[0] == c
}

/// `part` occurs in `text` as a contiguous run of characters.
pub open spec fn occurs_in(part: Seq<char>, text: Seq<char>) -> bool {
    exists|at: int|
        0 <= at && at + part.len() <= text.len() && #[trigger] text.subrange(at, at + part.len())
            == part
}

/// The character that `text` consists of, if it consists of exactly one.
pub fn single_char(text: &str) -> (only: Option<char>)
    ensures
        match only {
            Some(c) => spells(text@, c),
            None => text@.len() != 1,
        },
{
    if text.unicode_len() != 1 {
        return None;
    }
    Some(text.get_char(0))
}

} // verus!
