use crate::rules::{
    all_correct, feedback, initial_alphabet, is_lower, is_upper, is_valid, knowledge, learn_letter,
    learn_row, lowercase, upper_of, EMPTY_SLOT, MAX_ATTEMPTS, WORD_LENGTH,
};
use crate::states::{GameState, LetterState};
use vstd::prelude::*;

verus! {

/// A guess with nothing typed yet.
pub open spec fn blank_guess() -> Seq<char> {
    Seq::new(5, |i: int| EMPTY_SLOT)
}

/// A word that can stand in the history: five upper-case letters.
pub open spec fn is_guess_word(word: Seq<char>) -> bool {
    word.len() == 5 && forall|i: int| 0 <= i < 5 ==> is_upper(#[trigger] word[i])
}

/// The state of a game as mathematics: what the engine's contracts speak of.
#[verifier::ext_equal]
pub struct GameView {
    /// The hidden word, in upper case.
    pub target: Seq<char>,
    /// The five slots of the guess being typed; an unfilled slot holds a space.
    pub current_guess: Seq<char>,
    /// The slot that the next letter goes to.
    pub cursor: int,
    /// The accepted guesses, oldest first.
    pub letters: Seq<Seq<char>>,
    /// The feedback for each accepted guess.
    pub states: Seq<Seq<LetterState>>,
    /// The number of accepted guesses.
    pub attempts: nat,
    /// The last feedback seen for each of the 26 letters.
    pub alphabet: Map<char, LetterState>,
}

impl GameView {
    /// A game that has just begun.
    pub open spec fn fresh(target: Seq<char>) -> GameView {
        GameView {
            target,
            current_guess: blank_guess(),
            cursor: 0,
            letters: Seq::empty(),
            states: Seq::empty(),
            attempts: 0,
            alphabet: initial_alphabet(),
        }
    }

    /// What holds of every game, whatever was typed and submitted.
    pub open spec fn inv(self) -> bool {
        &&& self.current_guess.len() == 5
        &&& 0 <= self.cursor < 5
        &&& forall|i: int|
            0 <= i < 5 ==> #[trigger] self.current_guess[i] == EMPTY_SLOT || is_upper(
                self.current_guess[i],
            )
        &&& forall|i: int| 0 <= i < self.cursor ==> #[trigger] self.current_guess[i] != EMPTY_SLOT
        &&& forall|i: int| self.cursor < i < 5 ==> #[trigger] self.current_guess[i] == EMPTY_SLOT
        &&& self.cursor < 4 ==> self.current_guess[self.cursor] == EMPTY_SLOT
        &&& self.attempts == self.letters.len()
        &&& self.attempts == self.states.len()
        &&& self.attempts <= MAX_ATTEMPTS
        &&& forall|k: int|
            0 <= k < self.letters.len() ==> is_guess_word(#[trigger] self.letters[k])
        &&& forall|k: int|
            0 <= k < self.states.len() ==> #[trigger] self.states[k] == feedback(
                self.target,
                self.letters[k],
            )
        &&& forall|k: int|
            0 <= k < self.states.len() - 1 ==> !all_correct(#[trigger] self.states[k])
        &&& self.alphabet == knowledge(self.letters, self.states, self.attempts)
    }

    /// Whether every slot of the current guess is filled.
    pub open spec fn is_complete(self) -> bool {
        forall|i: int|
            0 <= i < self.current_guess.len() ==> #[trigger] self.current_guess[i] != EMPTY_SLOT
    }

    /// Whether the last accepted guess was the word.
    pub open spec fn is_won(self) -> bool {
        self.states.len() > 0 && all_correct(self.states.last())
    }

    /// Whether all attempts are used up.
    pub open spec fn is_exhausted(self) -> bool {
        self.attempts >= MAX_ATTEMPTS
    }

    /// Whether the game has ended, one way or the other.
    pub open spec fn is_over(self) -> bool {
        self.is_exhausted() || self.is_won()
    }

    /// Whether a submission now would be accepted: the game is still on, the
    /// guess is complete, and the dictionary knows it.
    pub open spec fn accepts(self, entries: Map<Seq<char>, Seq<char>>) -> bool {
        !self.is_over() && self.is_complete() && is_valid(entries, lowercase(self.current_guess))
    }

    /// What a submission now reports.
    pub open spec fn outcome(self, entries: Map<Seq<char>, Seq<char>>) -> GameState {
        if self.is_exhausted() {
            GameState::Lost
        } else if self.is_won() {
            GameState::Won
        } else if !self.accepts(entries) {
            GameState::WrongGuess
        } else if all_correct(feedback(self.target, self.current_guess)) {
            GameState::Won
        } else if self.attempts + 1 >= MAX_ATTEMPTS {
            GameState::Lost
        } else {
            GameState::CorrectGuess
        }
    }

    /// The game after a submission: an accepted guess joins the history with
    /// its feedback, counts as an attempt, teaches the alphabet, and leaves
    /// an empty guess behind; anything else changes nothing.
    pub open spec fn after_submit(self, entries: Map<Seq<char>, Seq<char>>) -> GameView {
        if self.accepts(entries) {
            let row = feedback(self.target, self.current_guess);
            GameView {
                target: self.target,
                current_guess: blank_guess(),
                cursor: 0,
                letters: self.letters.push(self.current_guess),
                states: self.states.push(row),
                attempts: self.attempts + 1,
                alphabet: learn_row(self.alphabet, self.current_guess, row, 5),
            }
        } else {
            self
        }
    }

    /// The game after a key with `letter` on it: a letter goes, in upper case,
    /// into the slot under the cursor, and the cursor moves on unless it is on
    /// the last slot; any other character changes nothing.
    pub open spec fn after_letter(self, letter: char) -> GameView {
        if is_upper(letter) || is_lower(letter) {
            GameView {
                current_guess: self.current_guess.update(self.cursor, upper_of(letter)),
                cursor: if self.cursor < WORD_LENGTH - 1 {
                    self.cursor + 1
                } else {
                    self.cursor
                },
                ..self
            }
        } else {
            self
        }
    }

    /// The game after backspace: a filled slot under the cursor is emptied and
    /// the cursor stays; on an empty slot the cursor steps back, if it can,
    /// and the slot it comes to is emptied.
    pub open spec fn after_backspace(self) -> GameView {
        if self.current_guess[self.cursor] != EMPTY_SLOT {
            GameView { current_guess: self.current_guess.update(self.cursor, EMPTY_SLOT), ..self }
        } else if self.cursor > 0 {
            GameView {
                current_guess: self.current_guess.update(self.cursor - 1, EMPTY_SLOT),
                cursor: self.cursor - 1,
                ..self
            }
        } else {
            self
        }
    }
}

/// What is known after `count` guesses does not depend on the guesses that came later.
pub proof fn lemma_knowledge_ignores_later_guesses(
    letters: Seq<Seq<char>>,
    states: Seq<Seq<LetterState>>,
    guess: Seq<char>,
    row: Seq<LetterState>,
    count: nat,
)
    requires
        count <= letters.len(),
        count <= states.len(),
    ensures
        knowledge(letters.push(guess), states.push(row), count) == knowledge(
            letters,
            states,
            count,
        ),
    decreases count,
{
    if count > 0 {
        lemma_knowledge_ignores_later_guesses(letters, states, guess, row, (count - 1) as nat);
    }
}

/// A new game meets the invariant.
pub proof fn lemma_fresh_game(target: Seq<char>)
    ensures
        GameView::fresh(target).inv(),
        !GameView::fresh(target).is_over(),
{
}

/// Typing a letter keeps the invariant, and touches nothing but the current guess and the cursor.
pub proof fn lemma_letter_keeps_invariant(game: GameView, letter: char)
    requires
        game.inv(),
    ensures
        game.after_letter(letter).inv(),
        game.after_letter(letter).letters == game.letters,
        game.after_letter(letter).states == game.states,
        game.after_letter(letter).attempts == game.attempts,
        game.after_letter(letter).alphabet == game.alphabet,
        game.after_letter(letter).target == game.target,
{
}

/// Backspace keeps the invariant, and touches nothing but the current guess and the cursor.
pub proof fn lemma_backspace_keeps_invariant(game: GameView)
    requires
        game.inv(),
    ensures
        game.after_backspace().inv(),
        game.after_backspace().letters == game.letters,
        game.after_backspace().states == game.states,
        game.after_backspace().attempts == game.attempts,
        game.after_backspace().alphabet == game.alphabet,
        game.after_backspace().target == game.target,
{
}

/// The cursor stands on the first unfilled slot, as long as there is one; a
/// guess is complete exactly when the cursor stands on the last slot and
/// that slot is filled.
pub proof fn lemma_cursor_is_first_empty_slot(game: GameView)
    requires
        game.inv(),
    ensures
        !game.is_complete() ==> game.current_guess[game.cursor] == EMPTY_SLOT,
        forall|i: int| 0 <= i < game.cursor ==> game.current_guess[i] != EMPTY_SLOT,
        game.is_complete() <==> game.cursor == WORD_LENGTH - 1 && game.current_guess[game.cursor]
            != EMPTY_SLOT,
{
    if game.current_guess[game.cursor] != EMPTY_SLOT {
        assert forall|i: int| 0 <= i < game.current_guess.len() implies #[trigger]
            game.current_guess[i] != EMPTY_SLOT by {
            if i < game.cursor {
            } else {
                assert(i == game.cursor);
            }
        }
    }
}

/// A submission keeps the invariant.
pub proof fn lemma_submit_keeps_invariant(game: GameView, entries: Map<Seq<char>, Seq<char>>)
    requires
        game.inv(),
    ensures
        game.after_submit(entries).inv(),
{
    if game.accepts(entries) {
        let next = game.after_submit(entries);
        let row = feedback(game.target, game.current_guess);
        assert(is_guess_word(game.current_guess)) by {
            assert forall|i: int| 0 <= i < 5 implies is_upper(
                #[trigger] game.current_guess[i],
            ) by {
                assert(game.current_guess[i] != EMPTY_SLOT);
            }
        }
        assert forall|k: int| 0 <= k < next.states.len() - 1 implies !all_correct(
            #[trigger] next.states[k],
        ) by {
            if k == game.states.len() - 1 {
                assert(next.states[k] == game.states.last());
            } else {
                assert(next.states[k] == game.states[k]);
            }
        }
        lemma_knowledge_ignores_later_guesses(
            game.letters,
            game.states,
            game.current_guess,
            row,
            game.attempts,
        );
    }
}

/// An incomplete guess is turned down: while the game is on, a submission
/// with an unfilled slot reports `WrongGuess` and changes nothing, so no
/// attempt is used.
pub proof fn lemma_incomplete_guess_is_rejected(
    game: GameView,
    entries: Map<Seq<char>, Seq<char>>,
)
    requires
        game.inv(),
        !game.is_over(),
        !game.is_complete(),
    ensures
        game.outcome(entries) == GameState::WrongGuess,
        game.after_submit(entries) == game,
        game.after_submit(entries).attempts == game.attempts,
{
}

/// A guess that the dictionary does not know is turned down in the same way.
pub proof fn lemma_unknown_word_is_rejected(game: GameView, entries: Map<Seq<char>, Seq<char>>)
    requires
        game.inv(),
        !game.is_over(),
        !is_valid(entries, lowercase(game.current_guess)),
    ensures
        game.outcome(entries) == GameState::WrongGuess,
        game.after_submit(entries) == game,
{
}

/// An accepted guess is recorded: the history grows by exactly that guess
/// and its feedback, one attempt is used, and the current guess is empty again.
pub proof fn lemma_accepted_guess_is_recorded(game: GameView, entries: Map<Seq<char>, Seq<char>>)
    requires
        game.inv(),
        game.accepts(entries),
    ensures
        game.outcome(entries) != GameState::WrongGuess,
        game.after_submit(entries).letters.len() == game.letters.len() + 1,
        game.after_submit(entries).states.len() == game.states.len() + 1,
        game.after_submit(entries).attempts == game.attempts + 1,
        game.after_submit(entries).letters.last() == game.current_guess,
        game.after_submit(entries).states.last() == feedback(game.target, game.current_guess),
        game.after_submit(entries).current_guess == blank_guess(),
        forall|i: int| 0 <= i < 5 ==> game.after_submit(entries).current_guess[i] == EMPTY_SLOT,
{
}

/// The outcome tells whether the guess was accepted: `WrongGuess` is
/// reported exactly when a game that is still on turns the guess down.
pub proof fn lemma_outcome_tells_acceptance(game: GameView, entries: Map<Seq<char>, Seq<char>>)
    requires
        game.inv(),
    ensures
        game.outcome(entries) == GameState::WrongGuess <==> !game.is_over() && !game.accepts(
            entries,
        ),
        game.outcome(entries) == GameState::CorrectGuess ==> game.accepts(entries),
        game.after_submit(entries) != game ==> game.accepts(entries),
{
}

/// Rejection is idempotent: a submission that reports `WrongGuess` leaves the
/// game as it was, so submitting again reports `WrongGuess` again and still
/// changes nothing.
pub proof fn lemma_rejection_is_idempotent(game: GameView, entries: Map<Seq<char>, Seq<char>>)
    requires
        game.inv(),
        game.outcome(entries) == GameState::WrongGuess,
    ensures
        game.after_submit(entries) == game,
        game.after_submit(entries).outcome(entries) == GameState::WrongGuess,
        game.after_submit(entries).after_submit(entries) == game,
{
}

/// A game that is over stays as it is: a further submission changes nothing
/// and reports how the game ended.
pub proof fn lemma_finished_game_is_final(game: GameView, entries: Map<Seq<char>, Seq<char>>)
    requires
        game.inv(),
        game.is_over(),
    ensures
        game.after_submit(entries) == game,
        game.is_exhausted() ==> game.outcome(entries) == GameState::Lost,
        !game.is_exhausted() ==> game.outcome(entries) == GameState::Won,
{
}

/// The history only grows: what was recorded before a submission is still
/// there after it, unchanged and in the same place.
pub proof fn lemma_history_is_kept(game: GameView, entries: Map<Seq<char>, Seq<char>>)
    requires
        game.inv(),
    ensures
        game.after_submit(entries).letters.len() >= game.letters.len(),
        forall|k: int|
            0 <= k < game.letters.len() ==> game.after_submit(entries).letters[k]
                == game.letters[k] && game.after_submit(entries).states[k] == game.states[k],
{
}

/// The outcome of an accepted guess says where the game stands afterwards:
/// `Won` when the guess was the word, `Lost` when it was not and was the
/// last attempt, `CorrectGuess` when the game goes on.
pub proof fn lemma_outcome_matches_state(game: GameView, entries: Map<Seq<char>, Seq<char>>)
    requires
        game.inv(),
        game.accepts(entries),
    ensures
        game.outcome(entries) == GameState::Won <==> game.after_submit(entries).is_won(),
        game.outcome(entries) == GameState::Lost <==> game.after_submit(entries).is_exhausted()
            && !game.after_submit(entries).is_won(),
        game.outcome(entries) == GameState::CorrectGuess <==> !game.after_submit(
            entries,
        ).is_over(),
{
    let next = game.after_submit(entries);
    assert(next.states.last() == feedback(game.target, game.current_guess));
}

/// The alphabet always holds exactly the 26 letters.
pub proof fn lemma_alphabet_is_the_26_letters(game: GameView)
    requires
        game.inv(),
    ensures
        forall|letter: char| game.alphabet.contains_key(letter) <==> is_upper(letter),
{
    lemma_knowledge_domain(game.letters, game.states, game.attempts);
}

/// Learning never adds or removes a letter.
pub proof fn lemma_learn_row_domain(
    alphabet: Map<char, LetterState>,
    letters: Seq<char>,
    states: Seq<LetterState>,
    count: nat,
)
    ensures
        learn_row(alphabet, letters, states, count).dom() == alphabet.dom(),
    decreases count,
{
    if count > 0 {
        lemma_learn_row_domain(alphabet, letters, states, (count - 1) as nat);
        let before = learn_row(alphabet, letters, states, (count - 1) as nat);
        assert(learn_letter(before, letters[count - 1], states[count - 1]).dom() =~= before.dom());
    }
}

/// What is known of a history is known of the 26 letters, and of nothing else.
pub proof fn lemma_knowledge_domain(
    letters: Seq<Seq<char>>,
    states: Seq<Seq<LetterState>>,
    count: nat,
)
    ensures
        forall|letter: char|
            knowledge(letters, states, count).contains_key(letter) <==> is_upper(letter),
    decreases count,
{
    if count > 0 {
        lemma_knowledge_domain(letters, states, (count - 1) as nat);
        lemma_learn_row_domain(
            knowledge(letters, states, (count - 1) as nat),
            letters[count - 1],
            states[count - 1],
            letters[count - 1].len(),
        );
    }
}

} // verus!
