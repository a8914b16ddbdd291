use crate::dictionary::Dictionary;
use crate::model::{
    blank_guess, lemma_backspace_keeps_invariant, lemma_fresh_game, lemma_letter_keeps_invariant,
    lemma_submit_keeps_invariant, GameView,
};
use crate::rules::{
    alphabet_of, evaluate_guess, initial_alphabet, is_all_correct, is_letter, is_valid,
    is_valid_word, lowercase_word, to_upper, update_alphabet_state, EMPTY_SLOT, MAX_ATTEMPTS,
    WORD_LENGTH,
};
use crate::states::{GameState, LetterState};
use vstd::prelude::*;
use vstd::string::StrSliceExecFns;

verus! {

/// The upper-case form of a text as `str::to_uppercase` gives it: Unicode's
/// mapping, which depends on nothing but the text.
pub uninterp spec fn uppercase_of(word: Seq<char>) -> Seq<char>;

/// `str::to_uppercase`. Nothing is claimed of the result but that it is the
/// upper-case form of `word`, named [`uppercase_of`].
#[verifier::external_body]
fn to_uppercase(word: &str) -> (upper: String)
    ensures
        upper@ == uppercase_of(word@),
{
    word.to_uppercase()
}

/// The characters of a text, in order.
fn chars_of(text: &str) -> (letters: Vec<char>)
    ensures
        letters@ == text@,
{
    let length = text.unicode_len();
    let mut letters: Vec<char> = Vec::new();
    let mut i: usize = 0;
    while i < length
        invariant
            length == text@.len(),
            i <= length,
            letters@.len() == i,
            forall|j: int| 0 <= j < i ==> letters@[j] == text@[j],
        decreases length - i,
    {
        letters.push(text.get_char(i));
        i += 1;
    }
    assert(letters@ =~= text@);
    letters
}

/// One change to the guess being typed.
#[derive(Debug, Clone, Copy, PartialEq, Eq, Structural)]
pub enum GuessEdit {
    /// A key with a character on it.
    Letter(char),
    /// The backspace key.
    Backspace,
}

/// The guess engine: the hidden word, the guess being typed, the accepted
/// guesses with their feedback, and what is known of each letter.
pub struct WordleGame {
    word: String,
    letters: Vec<char>,
    current_guess: [char; 5],
    cursor: usize,
    current_row: usize,
    guesses: Vec<[LetterState; 5]>,
    guesses_letters: Vec<[char; 5]>,
    alphabet: [LetterState; 26],
}

impl View for WordleGame {
    type V = GameView;

    closed spec fn view(&self) -> GameView {
        GameView {
            target: self.word@,
            current_guess: self.current_guess@,
            cursor: self.cursor as int,
            letters: Seq::new(self.guesses_letters@.len(), |k: int| self.guesses_letters@[k]@),
            states: Seq::new(self.guesses@.len(), |k: int| self.guesses@[k]@),
            attempts: self.current_row as nat,
            alphabet: alphabet_of(self.alphabet@),
        }
    }
}

impl WordleGame {
    /// The engine's copy of the word's letters agrees with the word.
    pub closed spec fn consistent(&self) -> bool {
        self.letters@ == self.word@
    }

    /// The engine is in a state that a game can be in.
    pub open spec fn wf(&self) -> bool {
        self.consistent() && self@.inv()
    }

    /// Starts a game on `word`, which is kept in upper case.
    pub fn new(word: String) -> (game: Self)
        ensures
            game.wf(),
            game@ == GameView::fresh(uppercase_of(word@)),
    {
        let upper = to_uppercase(word.as_str());
        let letters = chars_of(upper.as_str());
        let game = WordleGame {
            word: upper,
            letters,
            current_guess: [EMPTY_SLOT;5],
            cursor: 0,
            current_row: 0,
            guesses: Vec::new(),
            guesses_letters: Vec::new(),
            alphabet: [LetterState::Unknown;26],
        };
        proof {
            let fresh = GameView::fresh(uppercase_of(word@));
            assert(game@.current_guess =~= fresh.current_guess);
            assert(game@.letters =~= fresh.letters);
            assert(game@.states =~= fresh.states);
            assert(game@.alphabet =~= fresh.alphabet);
            lemma_fresh_game(uppercase_of(word@));
        }
        game
    }

    /// The hidden word, in upper case.
    pub fn word(&self) -> (word: &String)
        ensures
            word@ == self@.target,
    {
        &self.word
    }

    /// The guess being typed; an unfilled slot holds a space.
    pub fn current_guess(&self) -> (guess: &[char; 5])
        ensures
            guess@ == self@.current_guess,
    {
        &self.current_guess
    }

    /// The slot that the next letter goes to.
    pub fn cursor(&self) -> (cursor: usize)
        ensures
            cursor == self@.cursor,
    {
        self.cursor
    }

    /// The number of accepted guesses.
    pub fn current_row(&self) -> (row: usize)
        ensures
            row == self@.attempts,
    {
        self.current_row
    }

    /// The feedback for each accepted guess, oldest first.
    pub fn guesses(&self) -> (rows: &Vec<[LetterState; 5]>)
        ensures
            rows@.len() == self@.states.len(),
            forall|k: int| 0 <= k < rows@.len() ==> #[trigger] rows@[k]@ == self@.states[k],
    {
        &self.guesses
    }

    /// The accepted guesses, oldest first.
    pub fn guesses_letters(&self) -> (rows: &Vec<[char; 5]>)
        ensures
            rows@.len() == self@.letters.len(),
            forall|k: int| 0 <= k < rows@.len() ==> #[trigger] rows@[k]@ == self@.letters[k],
    {
        &self.guesses_letters
    }

    /// What is known of `letter`: its last feedback, `Unknown` before it was
    /// tried, and nothing for a character that is not one of `A` to `Z`.
    pub fn letter_state(&self, letter: char) -> (state: Option<LetterState>)
        ensures
            match state {
                Some(known) => self@.alphabet.contains_key(letter) && known
                    == self@.alphabet[letter],
                None => !self@.alphabet.contains_key(letter),
            },
    {
        if 'A' <= letter && letter <= 'Z' {
            Some(self.alphabet[(letter as usize) - 65])
        } else {
            None
        }
    }

    /// Whether the last accepted guess was the word.
    pub fn is_won(&self) -> (won: bool)
        ensures
            won == self@.is_won(),
    {
        let rows = self.guesses.len();
        rows > 0 && is_all_correct(&self.guesses[rows - 1])
    }

    /// Whether the game has ended: won, or out of attempts.
    pub fn is_over(&self) -> (over: bool)
        ensures
            over == self@.is_over(),
    {
        self.current_row >= MAX_ATTEMPTS || self.is_won()
    }

    /// Whether every slot of the current guess is filled.
    pub fn is_complete(&self) -> (complete: bool)
        ensures
            complete == self@.is_complete(),
    {
        let mut i: usize = 0;
        while i < 5
            invariant
                i <= 5,
                forall|j: int| 0 <= j < i ==> self.current_guess@[j] != EMPTY_SLOT,
            decreases 5 - i,
        {
            if self.current_guess[i] == EMPTY_SLOT {
                assert(self@.current_guess[i as int] == EMPTY_SLOT);
                return false;
            }
            i += 1;
        }
        true
    }

    /// Puts a letter into the slot under the cursor and moves the cursor on;
    /// a character that is no letter is ignored.
    fn type_letter(&mut self, letter: char)
        requires
            old(self).wf(),
        ensures
            final(self).wf(),
            final(self)@ == old(self)@.after_letter(letter),
    {
        if is_letter(letter) {
            self.current_guess[self.cursor] = to_upper(letter);
            if self.cursor < WORD_LENGTH - 1 {
                self.cursor += 1;
            }
        }
        proof {
            lemma_letter_keeps_invariant(old(self)@, letter);
            assert(self@ =~= old(self)@.after_letter(letter));
        }
    }

    /// Empties the slot under the cursor, or, where that is empty already,
    /// steps back and empties the slot before it.
    fn backspace(&mut self)
        requires
            old(self).wf(),
        ensures
            final(self).wf(),
            final(self)@ == old(self)@.after_backspace(),
    {
        if self.current_guess[self.cursor] != EMPTY_SLOT {
            self.current_guess[self.cursor] = EMPTY_SLOT;
        } else if self.cursor > 0 {
            self.cursor -= 1;
            self.current_guess[self.cursor] = EMPTY_SLOT;
        }
        proof {
            lemma_backspace_keeps_invariant(old(self)@);
            assert(self@ =~= old(self)@.after_backspace());
        }
    }

    /// Applies one edit to the guess being typed. Nothing else of the game changes.
    pub fn edit_current_guess(&mut self, edit: GuessEdit)
        requires
            old(self).wf(),
        ensures
            final(self).wf(),
            final(self)@ == match edit {
                GuessEdit::Letter(letter) => old(self)@.after_letter(letter),
                GuessEdit::Backspace => old(self)@.after_backspace(),
            },
    {
        match edit {
            GuessEdit::Letter(letter) => self.type_letter(letter),
            GuessEdit::Backspace => self.backspace(),
        }
    }

    /// Whether the dictionary lets a player guess `word`: it is an entry, or
    /// an entry followed by `s`, `es`, `ed` or `ing`.
    pub fn is_valid_word(&self, word: String, dictionary: &Dictionary) -> (valid: bool)
        ensures
            valid == is_valid(dictionary@, word@),
    {
        is_valid_word(word.as_str(), dictionary)
    }

    /// Submits the current guess.
    ///
    /// A game that is over reports how it ended (`Lost` once the attempts are
    /// used up, else `Won`) and stays as it is. An incomplete guess, or one
    /// that the dictionary does not know, is turned down with `WrongGuess`,
    /// and nothing changes. Any other guess is accepted: it joins the history
    /// with its feedback, uses one attempt, updates the alphabet, and leaves
    /// an empty guess behind; the result is `Won` if it was the word, `Lost`
    /// if it was the last attempt, and `CorrectGuess` otherwise.
    pub fn submit_guess(&mut self, dictionary: &Dictionary) -> (outcome: GameState)
        requires
            old(self).wf(),
        ensures
            final(self).wf(),
            outcome == old(self)@.outcome(dictionary@),
            final(self)@ == old(self)@.after_submit(dictionary@),
            outcome == GameState::WrongGuess ==> final(self)@ == old(self)@,
            old(self)@.is_over() ==> final(self)@ == old(self)@,
            !old(self)@.is_over() && !old(self)@.is_complete() ==> outcome
                == GameState::WrongGuess,
            old(self)@.accepts(dictionary@) ==> {
                &&& outcome != GameState::WrongGuess
                &&& final(self)@.attempts == old(self)@.attempts + 1
                &&& final(self)@.letters == old(self)@.letters.push(old(self)@.current_guess)
                &&& final(self)@.current_guess == blank_guess()
            },
    {
        let ghost before = self@;
        proof {
            lemma_submit_keeps_invariant(before, dictionary@);
        }
        if self.current_row >= MAX_ATTEMPTS {
            return GameState::Lost;
        }
        if self.is_won() {
            return GameState::Won;
        }
        if !self.is_complete() {
            return GameState::WrongGuess;
        }
        let guess = lowercase_word(&self.current_guess);
        if !self.is_valid_word(guess, dictionary) {
            return GameState::WrongGuess;
        }
        let letters = self.current_guess;
        let guess_state = evaluate_guess(&self.letters, &letters);
        self.guesses_letters.push(letters);
        self.guesses.push(guess_state);
        update_alphabet_state(&mut self.alphabet, &letters, &guess_state);
        self.current_row += 1;
        self.current_guess = [EMPTY_SLOT;5];
        self.cursor = 0;
        proof {
            let after = before.after_submit(dictionary@);
            assert(self@.current_guess =~= after.current_guess);
            assert(self@.letters =~= after.letters);
            assert(self@.states =~= after.states);
            assert(self@.alphabet == after.alphabet);
            assert(self@ == after);
        }
        if is_all_correct(&guess_state) {
            GameState::Won
        } else if self.current_row >= MAX_ATTEMPTS {
            GameState::Lost
        } else {
            GameState::CorrectGuess
        }
    }
}

} // verus!
