//! Finding the first lowercase `a` of a text, byte by byte.

use vstd::prelude::*;
use vstd::string::StringSliceAdditionalSpecFns;
use vstd::utf8::{encode_utf8, is_ascii_chars, is_ascii_chars_encode_utf8};

verus! {

/// The byte that is searched for: ASCII lowercase `a`.
pub const LOWER_A: u8 = 0x61;

/// The answer for a text without any lowercase `a`.
pub const NOT_FOUND: usize = 23;

/// `i` is the position of the first `a` among `bytes`.
pub open spec fn is_first_a(bytes: Seq<u8>, i: int) -> bool {
    &&& 0 <= i < bytes.len()
    &&& bytes[i] == LOWER_A
    &&& forall|j: int| 0 <= j < i ==> bytes[j] != LOWER_A
}

/// The zero-based byte position of the first lowercase `a` in `s`, or
/// [`NOT_FOUND`] when `s` holds none.
///
/// A text whose first `a` sits at position 23 gives the same answer as one
/// without an `a`; the two are told apart by the text, not by the result.
pub fn first_a_index(s: &str) -> (index: usize)
    ensures
        s.spec_bytes().contains(LOWER_A) ==> is_first_a(s.spec_bytes(), index as int),
        !s.spec_bytes().contains(LOWER_A) ==> index == NOT_FOUND,
{
    let bytes = s.as_bytes();
    let mut i: usize = 0;
    while i < bytes.len()
        invariant
            bytes@ == s.spec_bytes(),
            i <= bytes@.len(),
            forall|j: int| 0 <= j < i ==> bytes@[j] != LOWER_A,
        decreases bytes@.len() - i,
    {
        if bytes[i] == LOWER_A {
            return i;
        }
        i = i + 1;
    }
    NOT_FOUND
}

/// `i` is the position of the first `a` among the characters of `text`.
pub open spec fn is_first_a_char(text: Seq<char>, i: int) -> bool {
    &&& 0 <= i < text.len()
    &&& text[i] == 'a'
    &&& forall|j: int| 0 <= j < i ==> text[j] != 'a'
}

/// In a text of ASCII characters only, bytes and characters line up, so the
/// byte position that [`first_a_index`] reports is also the character
/// position, and an `a` is found among the bytes exactly when the text has one.
pub proof fn lemma_ascii_positions_agree(text: Seq<char>)
    requires
        is_ascii_chars(text),
    ensures
        forall|i: int| is_first_a(encode_utf8(text), i) <==> is_first_a_char(text, i),
        encode_utf8(text).contains(LOWER_A) <==> text.contains('a'),
{
    let bytes = encode_utf8(text);
    is_ascii_chars_encode_utf8(text);
    assert forall|i: int| 0 <= i < text.len() implies (bytes[i] == LOWER_A <==> text[i] == 'a') by {
        assert(text[i] as u8 == bytes[i]);
    }
}

} // verus!
