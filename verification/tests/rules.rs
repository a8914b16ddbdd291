use rusty_wordle::dictionary::Dictionary;
use rusty_wordle::rules::{
    evaluate_guess, guess_text, is_all_correct, is_letter, is_valid_word, lowercase_word,
    merge_state, strip_suffix, to_lower, to_upper, update_alphabet_state, EMPTY_SLOT,
    MAX_ATTEMPTS, WORD_LENGTH,
};
use rusty_wordle::states::{GameState, LetterState};
use rusty_wordle::utils::cleaner::keeps_word;
use rusty_wordle::utils::errors::{DictionaryError, SelectionError};

const C: LetterState = LetterState::Correct;
const P: LetterState = LetterState::Present;
const W: LetterState = LetterState::Wrong;
const U: LetterState = LetterState::Unknown;

fn letters(word: &str) -> [char; 5] {
    let mut slots = [' '; 5];
    for (slot, letter) in slots.iter_mut().zip(word.chars()) {
        *slot = letter;
    }
    slots
}

fn score(target: &str, guess: &str) -> [LetterState; 5] {
    let target: Vec<char> = target.chars().collect();
    evaluate_guess(&target, &letters(guess))
}

#[test]
fn constants_of_the_game() {
    assert_eq!(WORD_LENGTH, 5);
    assert_eq!(MAX_ATTEMPTS, 6);
    assert_eq!(EMPTY_SLOT, ' ');
}

#[test]
fn feedback_speed_erase() {
    assert_eq!(score("SPEED", "ERASE"), [P, W, W, P, P]);
}

#[test]
fn feedback_all_correct() {
    assert_eq!(score("CRANE", "CRANE"), [C, C, C, C, C]);
    assert!(is_all_correct(&score("CRANE", "CRANE")));
}

#[test]
fn feedback_nothing_in_common() {
    assert_eq!(score("CRANE", "BLILY"), [W, W, W, W, W]);
    assert!(!is_all_correct(&score("CRANE", "BLILY")));
}

#[test]
fn feedback_repeated_letter_used_up_by_exact_match() {
    // the only A of the target is matched where it stands
    assert_eq!(score("CRANE", "AXAXX"), [W, W, C, W, W]);
}

#[test]
fn feedback_repeated_letter_with_one_left_over() {
    // the first E is matched; the last one finds the E in the middle
    assert_eq!(score("EAEBB", "EXXXE"), [C, W, W, W, P]);
}

#[test]
fn feedback_repeated_letters_each_find_the_unmatched_one() {
    assert_eq!(score("SPEED", "EEXXX"), [P, P, W, W, W]);
    assert_eq!(score("SPEED", "EEEXX"), [P, P, C, W, W]);
    assert_eq!(score("SPEED", "XXEEE"), [W, W, C, C, W]);
}

#[test]
fn feedback_against_a_short_or_long_target() {
    assert_eq!(score("", "CRANE"), [W, W, W, W, W]);
    assert_eq!(score("CRA", "CRANE"), [C, C, C, W, W]);
    assert_eq!(score("CRANES", "CRANE"), [C, C, C, C, C]);
    assert_eq!(score("CRANES", "SCRAN"), [P, P, P, P, P]);
}

#[test]
fn all_correct_needs_every_position() {
    assert!(is_all_correct(&[C, C, C, C, C]));
    assert!(!is_all_correct(&[C, C, C, C, P]));
    assert!(!is_all_correct(&[W, C, C, C, C]));
    assert!(!is_all_correct(&[C, C, U, C, C]));
}

#[test]
fn letters_and_their_cases() {
    assert!(is_letter('a') && is_letter('z') && is_letter('A') && is_letter('Z'));
    assert!(!is_letter('@') && !is_letter('[') && !is_letter('`') && !is_letter('{'));
    assert!(!is_letter('1') && !is_letter(' ') && !is_letter('é'));
    assert_eq!(to_upper('a'), 'A');
    assert_eq!(to_upper('z'), 'Z');
    assert_eq!(to_upper('Q'), 'Q');
    assert_eq!(to_upper('1'), '1');
    assert_eq!(to_upper('é'), 'é');
    assert_eq!(to_lower('A'), 'a');
    assert_eq!(to_lower('Z'), 'z');
    assert_eq!(to_lower('q'), 'q');
    assert_eq!(to_lower(' '), ' ');
}

#[test]
fn guess_as_text() {
    assert_eq!(lowercase_word(&letters("CRANE")), "crane");
    assert_eq!(lowercase_word(&letters("AB")), "ab   ");
    assert_eq!(guess_text(&letters("CRANE")), "CRANE");
    assert_eq!(guess_text(&letters("AB")), "AB   ");
}

#[test]
fn strip_suffix_takes_the_end_off() {
    assert_eq!(strip_suffix("boats", "s"), Some("boat"));
    assert_eq!(strip_suffix("boxes", "es"), Some("box"));
    assert_eq!(strip_suffix("going", "ing"), Some("go"));
    assert_eq!(strip_suffix("ing", "ing"), Some(""));
    assert_eq!(strip_suffix("boat", ""), Some("boat"));
    assert_eq!(strip_suffix("boat", "s"), None);
    assert_eq!(strip_suffix("s", "es"), None);
    assert_eq!(strip_suffix("sing", "ings"), None);
    assert_eq!(strip_suffix("étés", "s"), Some("été"));
}

#[test]
fn valid_words_are_entries_with_or_without_a_suffix() {
    let mut dictionary = Dictionary::new();
    dictionary.insert("boat".to_string(), "a small vessel".to_string());
    dictionary.insert("wish".to_string(), "a desire".to_string());
    assert!(is_valid_word("boat", &dictionary));
    assert!(is_valid_word("boats", &dictionary));
    assert!(is_valid_word("wishes", &dictionary));
    assert!(is_valid_word("wished", &dictionary));
    assert!(is_valid_word("wishing", &dictionary));
    assert!(!is_valid_word("boots", &dictionary));
    assert!(!is_valid_word("wishly", &dictionary));
    assert!(!is_valid_word("swish", &dictionary));
    assert!(!is_valid_word("boatsed", &dictionary));
}

#[test]
fn the_newest_observation_stands() {
    assert_eq!(merge_state(U, W), W);
    assert_eq!(merge_state(C, W), W);
    assert_eq!(merge_state(W, C), C);
    assert_eq!(merge_state(C, P), P);
}

#[test]
fn alphabet_table_takes_a_row() {
    let mut table = [U; 26];
    update_alphabet_state(&mut table, &letters("CACHE"), &[C, P, W, W, C]);
    assert_eq!(table[0], P);
    assert_eq!(table[2], W);
    assert_eq!(table[4], C);
    assert_eq!(table[7], W);
    assert_eq!(table[1], U);
    assert_eq!(table.iter().filter(|state| **state != U).count(), 4);
}

#[test]
fn alphabet_table_skips_what_is_no_capital() {
    let mut table = [U; 26];
    update_alphabet_state(&mut table, &['a', ' ', '1', 'é', 'Z'], &[C, C, C, C, P]);
    assert_eq!(table[25], P);
    assert_eq!(table.iter().filter(|state| **state != U).count(), 1);
}

#[test]
fn cleaning_keeps_short_words_without_hyphen() {
    assert!(keeps_word("crane", 5));
    assert!(keeps_word("boat", 5));
    assert!(keeps_word("", 5));
    assert!(!keeps_word("cranes", 5));
    assert!(!keeps_word("co-op", 5));
    assert!(!keeps_word("-", 5));
    assert!(keeps_word("cranes", 6));
    // length is counted in bytes
    assert!(keeps_word("été", 5));
    assert!(!keeps_word("étés", 5));
    assert!(!keeps_word("a", 0));
    assert!(keeps_word("", 0));
}

#[test]
fn outcomes_as_text() {
    assert_eq!(GameState::CorrectGuess.message(), "The guess was accepted");
    assert_eq!(GameState::WrongGuess.message(), "The guess was not accepted");
    assert_eq!(GameState::Won.message(), "You won!");
    assert_eq!(GameState::Lost.message(), "You lost :(");
}

#[test]
fn errors_as_text() {
    assert_eq!(DictionaryError::PathError.message(), "Dictionary Error: Path Error");
    assert_eq!(DictionaryError::ParseError.message(), "Dictionary Error: Parse Error");
    assert_eq!(DictionaryError::DownloadError.message(), "Dictionary Error: Download Error");
    assert_eq!(SelectionError::EmptyDictionary.message(), "The dictionary is empty.");
    assert_eq!(
        SelectionError::MissingDefinition.message(),
        "The selected word does not have a definition."
    );
}
