use crate::dictionary::{byte_len, Dictionary};
use crate::utils::errors::SelectionError;
use rand::seq::SliceRandom;
use vstd::prelude::*;

verus! {

/// Whether the dictionary has a word that takes exactly `word_length` bytes.
pub open spec fn has_word_of_length(entries: Map<Seq<char>, Seq<char>>, word_length: nat) -> bool {
    exists|word: Seq<char>| #[trigger] entries.contains_key(word) && byte_len(word) == word_length
}

/// `SliceRandom::choose` on the words, with the thread's random generator:
/// nothing for an empty list, else one of the list's words. Which one is
/// left open, and may differ from call to call.
#[verifier::external_body]
fn choose_word<'a>(words: &'a Vec<String>) -> (choice: Option<&'a String>)
    ensures
        choice is None <==> words@.len() == 0,
        choice matches Some(word) ==> exists|i: int|
            0 <= i < words@.len() && #[trigger] words@[i]@ == word@,
{
    words.choose(&mut rand::thread_rng())
}

/// Turns the word that was drawn into the word with its definition.
///
/// Nothing drawn means that there was nothing to draw from; a word that the
/// dictionary does not hold has no definition.
pub fn entry_for(dictionary: &Dictionary, choice: Option<&String>) -> (entry: Result<
    (String, String),
    SelectionError,
>)
    ensures
        match choice {
            None => entry == Err::<(String, String), SelectionError>(
                SelectionError::EmptyDictionary,
            ),
            Some(word) => if dictionary@.contains_key(word@) {
                entry matches Ok(pair) && pair.0@ == word@ && pair.1@ == dictionary@[word@]
            } else {
                entry == Err::<(String, String), SelectionError>(
                    SelectionError::MissingDefinition,
                )
            },
        },
{
    match choice {
        None => Err(SelectionError::EmptyDictionary),
        Some(word) => match dictionary.get(word.as_str()) {
            Some(definition) => Ok((word.clone(), definition.clone())),
            None => Err(SelectionError::MissingDefinition),
        },
    }
}

/// Draws a word of exactly `word_length` bytes at random, with its definition.
///
/// Fails with `EmptyDictionary` exactly when the dictionary has no such word.
/// Which of the words comes out is left to chance.
pub fn pick_random_word(dictionary: &Dictionary, word_length: usize) -> (entry: Result<
    (String, String),
    SelectionError,
>)
    requires
        dictionary.wf(),
    ensures
        entry is Ok <==> has_word_of_length(dictionary@, word_length as nat),
        match entry {
            Ok(pair) => dictionary@.contains_key(pair.0@) && byte_len(pair.0@) == word_length
                && pair.1@ == dictionary@[pair.0@],
            Err(error) => error == SelectionError::EmptyDictionary,
        },
{
    let words = dictionary.words_of_length(word_length);
    let choice = choose_word(&words);
    proof {
        if has_word_of_length(dictionary@, word_length as nat) {
            let word = choose|word: Seq<char>| #[trigger]
                dictionary@.contains_key(word) && byte_len(word) == word_length;
            assert(exists|i: int| 0 <= i < words@.len() && #[trigger] words@[i]@ == word);
        }
        if let Some(word) = choice {
            let i = choose|i: int| 0 <= i < words@.len() && #[trigger] words@[i]@ == word@;
            assert(dictionary@.contains_key(words@[i]@));
        }
    }
    entry_for(dictionary, choice)
}

} // verus!
