use crate::dictionary::Dictionary;
use crate::states::LetterState;
use vstd::prelude::*;
use vstd::string::StrSliceExecFns;

verus! {

/// The number of letters in a word of the game.
pub const WORD_LENGTH: usize = 5;

/// The number of guesses a player has.
pub const MAX_ATTEMPTS: usize = 6;

/// What an unfilled slot of the current guess holds.
pub const EMPTY_SLOT: char = ' ';

/// Whether `letter` is one of `A` to `Z`.
pub open spec fn is_upper(letter: char) -> bool {
    'A' <= letter && letter <= 'Z'
}

/// Whether `letter` is one of `a` to `z`.
pub open spec fn is_lower(letter: char) -> bool {
    'a' <= letter && letter <= 'z'
}

/// The upper-case form of an ASCII letter; any other character is left as it is.
pub open spec fn upper_of(letter: char) -> char {
    if is_lower(letter) {
        ((letter as int) - 32) as char
    } else {
        letter
    }
}

/// The lower-case form of an ASCII letter; any other character is left as it is.
pub open spec fn lower_of(letter: char) -> char {
    if is_upper(letter) {
        ((letter as int) + 32) as char
    } else {
        letter
    }
}

/// `word` with each of its ASCII letters in lower case.
pub open spec fn lowercase(word: Seq<char>) -> Seq<char> {
    Seq::new(word.len(), |i: int| lower_of(word[i]))
}

/// Whether `letter` is one of `a` to `z` or `A` to `Z`.
pub fn is_letter(letter: char) -> (yes: bool)
    ensures
        yes == (is_upper(letter) || is_lower(letter)),
{
    ('A' <= letter && letter <= 'Z') || ('a' <= letter && letter <= 'z')
}

/// The upper-case form of a letter.
pub fn to_upper(letter: char) -> (upper: char)
    ensures
        upper == upper_of(letter),
        is_upper(letter) || is_lower(letter) ==> is_upper(upper),
{
    if 'a' <= letter && letter <= 'z' {
        ((letter as u8) - 32u8) as char
    } else {
        letter
    }
}

/// The lower-case form of a letter.
pub fn to_lower(letter: char) -> (lower: char)
    ensures
        lower == lower_of(letter),
        is_upper(letter) || is_lower(letter) ==> is_lower(lower),
{
    if 'A' <= letter && letter <= 'Z' {
        ((letter as u8) + 32u8) as char
    } else {
        letter
    }
}

/// `String::push`: the text afterwards is the text before with `letter` at its end.
#[verifier::external_body]
fn push_char(text: &mut String, letter: char)
    ensures
        final(text)@ == old(text)@.push(letter),
{
    text.push(letter)
}

/// The guess as a lower-case string, the form in which the dictionary holds its words.
pub fn lowercase_word(guess: &[char; 5]) -> (word: String)
    ensures
        word@ == lowercase(guess@),
{
    let mut word = String::new();
    let mut i: usize = 0;
    while i < 5
        invariant
            i <= 5,
            word@.len() == i,
            forall|j: int| 0 <= j < i ==> word@[j] == lower_of(guess@[j]),
        decreases 5 - i,
    {
        push_char(&mut word, to_lower(guess[i]));
        i += 1;
    }
    assert(word@ =~= lowercase(guess@));
    word
}

/// The guess as text, just as it was typed: unfilled slots are spaces.
pub fn guess_text(guess: &[char; 5]) -> (text: String)
    ensures
        text@ == guess@,
{
    let mut text = String::new();
    let mut i: usize = 0;
    while i < 5
        invariant
            i <= 5,
            text@.len() == i,
            forall|j: int| 0 <= j < i ==> text@[j] == guess@[j],
        decreases 5 - i,
    {
        push_char(&mut text, guess[i]);
        i += 1;
    }
    assert(text@ =~= guess@);
    text
}

/// Whether `word` ends with `suffix`.
pub open spec fn ends_with(word: Seq<char>, suffix: Seq<char>) -> bool {
    suffix.len() <= word.len() && word.subrange(word.len() - suffix.len(), word.len() as int)
        == suffix
}

/// `word` without its last `suffix.len()` characters.
pub open spec fn without_suffix(word: Seq<char>, suffix: Seq<char>) -> Seq<char> {
    word.subrange(0, word.len() - suffix.len())
}

/// Whether `word` is `suffix` appended to an entry of the dictionary.
pub open spec fn is_entry_with_suffix(
    entries: Map<Seq<char>, Seq<char>>,
    word: Seq<char>,
    suffix: Seq<char>,
) -> bool {
    ends_with(word, suffix) && entries.contains_key(without_suffix(word, suffix))
}

/// The words a player may guess: the entries of the dictionary, and each entry
/// followed by `s`, `es`, `ed` or `ing`.
pub open spec fn is_valid(entries: Map<Seq<char>, Seq<char>>, word: Seq<char>) -> bool {
    ||| entries.contains_key(word)
    ||| is_entry_with_suffix(entries, word, seq!['s'])
    ||| is_entry_with_suffix(entries, word, seq!['e', 's'])
    ||| is_entry_with_suffix(entries, word, seq!['e', 'd'])
    ||| is_entry_with_suffix(entries, word, seq!['i', 'n', 'g'])
}

/// `word` without `suffix`, if it ends with it.
pub fn strip_suffix<'a>(word: &'a str, suffix: &str) -> (base: Option<&'a str>)
    ensures
        match base {
            Some(rest) => ends_with(word@, suffix@) && rest@ == without_suffix(word@, suffix@),
            None => !ends_with(word@, suffix@),
        },
{
    let length = word.unicode_len();
    let tail = suffix.unicode_len();
    if tail > length {
        return None;
    }
    let start = length - tail;
    let mut i: usize = 0;
    while i < tail
        invariant
            length == word@.len(),
            tail == suffix@.len(),
            tail <= length,
            start == length - tail,
            i <= tail,
            forall|j: int| 0 <= j < i ==> word@[start + j] == suffix@[j],
        decreases tail - i,
    {
        if word.get_char(start + i) != suffix.get_char(i) {
            assert(word@.subrange(start as int, length as int)[i as int] != suffix@[i as int]);
            return None;
        }
        i += 1;
    }
    assert(word@.subrange(start as int, length as int) =~= suffix@);
    Some(word.substring_char(0, start))
}

/// Whether `word` is `suffix` appended to an entry of the dictionary.
fn has_entry_with_suffix(dictionary: &Dictionary, word: &str, suffix: &str) -> (found: bool)
    ensures
        found == is_entry_with_suffix(dictionary@, word@, suffix@),
{
    match strip_suffix(word, suffix) {
        Some(base) => dictionary.contains_key(base),
        None => false,
    }
}

/// Whether the dictionary lets a player guess `word`.
pub fn is_valid_word(word: &str, dictionary: &Dictionary) -> (valid: bool)
    ensures
        valid == is_valid(dictionary@, word@),
{
    proof {
        reveal_strlit("s");
        reveal_strlit("es");
        reveal_strlit("ed");
        reveal_strlit("ing");
        assert("s"@ =~= seq!['s']);
        assert("es"@ =~= seq!['e', 's']);
        assert("ed"@ =~= seq!['e', 'd']);
        assert("ing"@ =~= seq!['i', 'n', 'g']);
    }
    dictionary.contains_key(word) || has_entry_with_suffix(dictionary, word, "s")
        || has_entry_with_suffix(dictionary, word, "es") || has_entry_with_suffix(
        dictionary,
        word,
        "ed",
    ) || has_entry_with_suffix(dictionary, word, "ing")
}

/// Whether position `i` of the guess holds the letter that the target holds there.
pub open spec fn correct_at(target: Seq<char>, guess: Seq<char>, i: int) -> bool {
    0 <= i < guess.len() && i < target.len() && guess[i] == target[i]
}

/// Whether the letter at position `i` of the guess stands somewhere in the
/// target at a position that the guess did not get right.
pub open spec fn present_at(target: Seq<char>, guess: Seq<char>, i: int) -> bool {
    exists|j: int|
        0 <= j < target.len() && target[j] == guess[i] && !#[trigger] correct_at(target, guess, j)
}

/// The feedback for position `i` of the guess: exact matches first, then
/// letters that the target still has to offer, and `Wrong` for the rest.
pub open spec fn letter_feedback(target: Seq<char>, guess: Seq<char>, i: int) -> LetterState {
    if correct_at(target, guess, i) {
        LetterState::Correct
    } else if present_at(target, guess, i) {
        LetterState::Present
    } else {
        LetterState::Wrong
    }
}

/// The feedback for a whole guess, position by position.
pub open spec fn feedback(target: Seq<char>, guess: Seq<char>) -> Seq<LetterState> {
    Seq::new(guess.len(), |i: int| letter_feedback(target, guess, i))
}

/// Whether every position is `Correct`.
pub open spec fn all_correct(states: Seq<LetterState>) -> bool {
    forall|i: int| 0 <= i < states.len() ==> states[i] == LetterState::Correct
}

/// Whether `letter` stands in the target at a position that the guess did not get right.
fn is_present(target: &Vec<char>, guess: &[char; 5], letter: char) -> (found: bool)
    ensures
        found == exists|j: int|
            0 <= j < target@.len() && target@[j] == letter && !#[trigger] correct_at(
                target@,
                guess@,
                j,
            ),
{
    let mut j: usize = 0;
    while j < target.len()
        invariant
            j <= target@.len(),
            forall|k: int|
                0 <= k < j ==> !(target@[k] == letter && !#[trigger] correct_at(
                    target@,
                    guess@,
                    k,
                )),
        decreases target@.len() - j,
    {
        if target[j] == letter && !(j < 5 && guess[j] == target[j]) {
            assert(!correct_at(target@, guess@, j as int));
            return true;
        }
        j += 1;
    }
    false
}

/// Scores a guess against the target.
pub fn evaluate_guess(target: &Vec<char>, guess: &[char; 5]) -> (states: [LetterState; 5])
    ensures
        states@ == feedback(target@, guess@),
{
    let mut states = [LetterState::Wrong;5];
    let mut i: usize = 0;
    while i < 5
        invariant
            i <= 5,
            forall|k: int| 0 <= k < i ==> states@[k] == letter_feedback(target@, guess@, k),
        decreases 5 - i,
    {
        if i < target.len() && guess[i] == target[i] {
            states[i] = LetterState::Correct;
        } else if is_present(target, guess, guess[i]) {
            states[i] = LetterState::Present;
        } else {
            states[i] = LetterState::Wrong;
        }
        i += 1;
    }
    assert(states@ =~= feedback(target@, guess@));
    states
}

/// Whether a row of feedback is `Correct` throughout.
pub fn is_all_correct(states: &[LetterState; 5]) -> (yes: bool)
    ensures
        yes == all_correct(states@),
{
    let mut i: usize = 0;
    while i < 5
        invariant
            i <= 5,
            forall|k: int| 0 <= k < i ==> states@[k] == LetterState::Correct,
        decreases 5 - i,
    {
        if states[i] != LetterState::Correct {
            return false;
        }
        i += 1;
    }
    true
}

/// What is known before the first guess: each of the 26 letters, `Unknown`.
pub open spec fn initial_alphabet() -> Map<char, LetterState> {
    Map::new(|letter: char| is_upper(letter), |letter: char| LetterState::Unknown)
}

/// The one place that decides what a new observation does to what was known
/// of a letter: the newest observation stands, whatever was known before.
pub open spec fn merged(known: LetterState, observed: LetterState) -> LetterState {
    observed
}

/// What is known after `letter` was observed as `observed`. A character
/// outside the alphabet changes nothing.
pub open spec fn learn_letter(
    alphabet: Map<char, LetterState>,
    letter: char,
    observed: LetterState,
) -> Map<char, LetterState> {
    if alphabet.contains_key(letter) {
        alphabet.insert(letter, merged(alphabet[letter], observed))
    } else {
        alphabet
    }
}

/// What is known after the first `count` positions of a guess were observed, in order.
pub open spec fn learn_row(
    alphabet: Map<char, LetterState>,
    letters: Seq<char>,
    states: Seq<LetterState>,
    count: nat,
) -> Map<char, LetterState>
    decreases count,
{
    if count == 0 {
        alphabet
    } else {
        learn_letter(
            learn_row(alphabet, letters, states, (count - 1) as nat),
            letters[count - 1],
            states[count - 1],
        )
    }
}

/// What is known after the first `count` guesses of a history.
pub open spec fn knowledge(
    letters: Seq<Seq<char>>,
    states: Seq<Seq<LetterState>>,
    count: nat,
) -> Map<char, LetterState>
    decreases count,
{
    if count == 0 {
        initial_alphabet()
    } else {
        learn_row(
            knowledge(letters, states, (count - 1) as nat),
            letters[count - 1],
            states[count - 1],
            letters[count - 1].len(),
        )
    }
}

/// The alphabet that a table of 26 states stands for, `A` first.
pub open spec fn alphabet_of(table: Seq<LetterState>) -> Map<char, LetterState> {
    Map::new(|letter: char| is_upper(letter), |letter: char| table[letter as int - 'A' as int])
}

/// See [`merged`].
pub fn merge_state(known: LetterState, observed: LetterState) -> (state: LetterState)
    ensures
        state == merged(known, observed),
{
    observed
}

/// Records the feedback of one accepted guess in the alphabet overview.
pub fn update_alphabet_state(
    table: &mut [LetterState; 26],
    letters: &[char; 5],
    states: &[LetterState; 5],
)
    ensures
        alphabet_of(final(table)@) == learn_row(alphabet_of(old(table)@), letters@, states@, 5),
{
    let mut i: usize = 0;
    while i < 5
        invariant
            i <= 5,
            alphabet_of(table@) == learn_row(alphabet_of(old(table)@), letters@, states@, i as nat),
        decreases 5 - i,
    {
        let letter = letters[i];
        let ghost before = table@;
        if 'A' <= letter && letter <= 'Z' {
            let slot = (letter as usize) - 65;
            table[slot] = merge_state(table[slot], states[i]);
            assert(alphabet_of(table@) =~= learn_letter(alphabet_of(before), letter, states@[i as int]));
        } else {
            assert(!alphabet_of(before).contains_key(letter));
        }
        i += 1;
    }
}

} // verus!
