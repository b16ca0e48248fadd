//! Lengths of texts.

use vstd::prelude::*;

verus! {

/// How many bytes a text takes when stored.
pub open spec fn stored_len(text: Seq<char>) -> nat {
    vstd::utf8::encode_utf8(text).len()
}

/// Whether `text` takes at most `limit` bytes when stored.
pub fn within_bytes(text: &str, limit: usize) -> (within: bool)
    ensures
        within == (stored_len(text@) <= limit),
{
    text.as_bytes().len() <= limit
}

/// Whether `text` has at most `limit` characters.
pub fn within_chars(text: &str, limit: usize) -> (within: bool)
    ensures
        within == (text@.len() <= limit),
{
    let mut count: usize = 0;
    let mut over = false;
    for c in it: text.chars()
        invariant
            it.seq() == text@,
            count <= limit,
            !over ==> count == it.index(),
            over <==> it.index() > limit,
    {
        if count < limit {
            count += 1;
        } else {
            over = true;
        }
    }
    !over
}

} // verus!
