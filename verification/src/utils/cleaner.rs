use crate::dictionary::byte_len;
use vstd::prelude::*;
use vstd::string::StrSliceExecFns;

verus! {

/// The words that stay when a raw dictionary is cleaned for words of up to
/// `word_length` bytes: those that are short enough and hold no hyphen.
pub open spec fn is_kept(word: Seq<char>, word_length: nat) -> bool {
    byte_len(word) <= word_length && !word.contains('-')
}

/// Whether `word` holds a hyphen.
fn has_hyphen(word: &str) -> (found: bool)
    ensures
        found == word@.contains('-'),
{
    let length = word.unicode_len();
    let mut i: usize = 0;
    while i < length
        invariant
            length == word@.len(),
            i <= length,
            forall|j: int| 0 <= j < i ==> word@[j] != '-',
        decreases length - i,
    {
        if word.get_char(i) == '-' {
            return true;
        }
        i += 1;
    }
    false
}

/// Whether `word` stays in a dictionary cleaned for words of up to `word_length` bytes.
pub fn keeps_word(word: &str, word_length: usize) -> (kept: bool)
    ensures
        kept == is_kept(word@, word_length as nat),
{
    word.as_bytes().len() <= word_length && !has_hyphen(word)
}

} // verus!
