//! Length of text.

use vstd::prelude::*;
use vstd::utf8::{encode_utf8, is_ascii_chars, is_ascii_chars_encode_utf8};

verus! {

/// The length of `s`: the number of bytes of its UTF-8 encoding. For text
/// made of ASCII characters only, this is the number of characters.
pub fn calculate_length(s: &String) -> (len: usize)
    ensures
        len == encode_utf8(s@).len(),
        is_ascii_chars(s@) ==> len == s@.len(),
{
    proof {
        if is_ascii_chars(s@) {
            is_ascii_chars_encode_utf8(s@);
        }
    }
    s.as_str().as_bytes().len()
}

} // verus!
