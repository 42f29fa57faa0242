//! Lengths of the text fields of records.

use vstd::prelude::*;

verus! {

/// The length of a text as it is stored: the number of bytes of its UTF-8
/// encoding. For a text of ASCII characters this is their number.
pub open spec fn byte_len(text: Seq<char>) -> nat {
    vstd::utf8::encode_utf8(text).len()
}

/// Whether a text is present and takes at most `max` bytes.
pub open spec fn fits(text: Seq<char>, max: nat) -> bool {
    0 < byte_len(text) <= max
}

/// The stored length of `text`.
pub fn stored_len(text: &String) -> (n: usize)
    ensures
        n == byte_len(text@),
{
    text.as_str().as_bytes().len()
}

/// Whether `text` stands for `given`: the given text itself, or an empty text
/// where none is given.
pub open spec fn stands_for(text: String, given: Option<String>) -> bool {
    match given {
        Some(t) => text == t,
        None => text@ == Seq::<char>::empty(),
    }
}

/// The given text, or an empty one where none is given.
pub fn text_or_empty(given: Option<String>) -> (text: String)
    ensures
        stands_for(text, given),
{
    match given {
        Some(t) => t,
        None => String::new(),
    }
}

} // verus!
