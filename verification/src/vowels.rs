//! Counting the vowels of a text.

use vstd::prelude::*;
use vstd::utf8::encode_utf8;

verus! {

/// The ten letters that count as vowels: `a e i o u`, in lower or upper case.
pub open spec fn is_vowel(c: char) -> bool {
    c == 'a' || c == 'e' || c == 'i' || c == 'o' || c == 'u' || c == 'A' || c == 'E' || c == 'I'
        || c == 'O' || c == 'U'
}

/// How many characters of `text` are vowels.
pub open spec fn vowel_count(text: Seq<char>) -> nat {
    text.filter(|c: char| is_vowel(c)).len()
}

/// Decides whether one character is a vowel.
pub fn is_vowel_char(c: char) -> (yes: bool)
    ensures
        yes == is_vowel(c),
{
    c == 'a' || c == 'e' || c == 'i' || c == 'o' || c == 'u' || c == 'A' || c == 'E' || c == 'I'
        || c == 'O' || c == 'U'
}

/// Counts the vowels of `s`, in the full range of a machine word.
pub fn tally_vowels(s: &str) -> (total: usize)
    ensures
        total == vowel_count(s@),
{
    // The tally never passes the number of characters read, which never
    // passes the number of bytes, and that is a `usize`.
    let byte_len: usize = s.as_bytes().len();
    proof {
        lemma_chars_within_bytes(s@);
    }
    let mut total: usize = 0;
    for c in it: s.chars()
        invariant
            it.seq() == s@,
            s@.len() <= byte_len,
            total <= it.index(),
            total == vowel_count(s@.take(it.index())),
    {
        proof {
            lemma_vowel_count_push(s@.take(it.index()), c);
            assert(s@.take(it.index()).push(c) =~= s@.take(it.index() + 1));
        }
        if is_vowel_char(c) {
            total = total + 1;
        }
    }
    assert(s@.take(s@.len() as int) =~= s@);
    total
}

/// Counts the vowels of `s` as a 32-bit number.
///
/// The count itself has to fit: a text with more than `u32::MAX` vowels is
/// outside this function's domain (see [`tally_vowels`] for the full range).
pub fn count_vowels(s: &str) -> (count: u32)
    requires
        vowel_count(s@) <= u32::MAX,
    ensures
        count == vowel_count(s@),
{
    let total: usize = tally_vowels(s);
    let narrowed: Result<u32, core::num::TryFromIntError> = total.try_into();
    narrowed.unwrap()
}

/// The worked example: the vowels of `aeiou`, all five of them.
pub fn run() -> (count: u32)
    ensures
        count == 5,
{
    proof {
        reveal_strlit("aeiou");
        reveal_with_fuel(Seq::filter, 6);
    }
    count_vowels("aeiou")
}

/// Appending one character raises the count by one exactly when it is a vowel.
pub proof fn lemma_vowel_count_push(text: Seq<char>, c: char)
    ensures
        vowel_count(text.push(c)) == vowel_count(text) + if is_vowel(c) { 1nat } else { 0nat },
{
    reveal(Seq::filter);
    assert(text.push(c).drop_last() =~= text);
}

/// Counting is additive: a joined text holds the vowels of both its parts.
pub proof fn lemma_vowel_count_concat(a: Seq<char>, b: Seq<char>)
    ensures
        vowel_count(a + b) == vowel_count(a) + vowel_count(b),
{
    Seq::filter_distributes_over_add(a, b, |c: char| is_vowel(c));
}

/// The lower-case form of an ASCII capital; every other character is itself.
pub open spec fn ascii_lower(c: char) -> char {
    if 'A' <= c <= 'Z' {
        ((c as u8) + 32) as char
    } else {
        c
    }
}

/// Two texts of the same length whose characters agree up to ASCII case.
pub open spec fn same_up_to_case(a: Seq<char>, b: Seq<char>) -> bool {
    &&& a.len() == b.len()
    &&& forall|i: int| 0 <= i < a.len() ==> ascii_lower(a[i]) == ascii_lower(b[i])
}

/// Counting ignores case: texts that differ only in the case of their
/// letters hold the same number of vowels.
pub proof fn lemma_vowel_count_ignores_case(a: Seq<char>, b: Seq<char>)
    requires
        same_up_to_case(a, b),
    ensures
        vowel_count(a) == vowel_count(b),
    decreases a.len(),
{
    if a.len() > 0 {
        let last = a.len() - 1;
        lemma_vowel_count_ignores_case(a.drop_last(), b.drop_last());
        lemma_vowel_count_push(a.drop_last(), a[last]);
        lemma_vowel_count_push(b.drop_last(), b[last]);
        assert(a.drop_last().push(a[last]) =~= a);
        assert(b.drop_last().push(b[last]) =~= b);
    }
}

/// A text never holds fewer bytes than characters.
proof fn lemma_chars_within_bytes(text: Seq<char>)
    ensures
        text.len() <= encode_utf8(text).len(),
    decreases text.len(),
{
    if text.len() > 0 {
        lemma_chars_within_bytes(text.drop_first());
    }
}

} // verus!
