use vstd::prelude::*;

verus! {

/// What is known about one letter.
///
/// - `Correct`: in the word, and in this place.
/// - `Present`: in the word, but not in this place.
/// - `Wrong`: not in the word.
/// - `Unknown`: not tried yet (only the alphabet overview uses it).
#[derive(Debug, Clone, Copy, PartialEq, Eq, Structural)]
pub enum LetterState {
    Correct,
    Present,
    Wrong,
    Unknown,
}

/// How a submission ended.
///
/// - `CorrectGuess`: the guess was accepted, but it was not the word.
/// - `WrongGuess`: the guess was rejected; nothing changed.
/// - `Won`: the guess was the word.
/// - `Lost`: all attempts are used up.
#[derive(Debug, Clone, Copy, PartialEq, Eq, Structural)]
pub enum GameState {
    CorrectGuess,
    WrongGuess,
    Won,
    Lost,
}

impl GameState {
    /// The sentence shown to the player for this outcome.
    pub open spec fn message_text(self) -> Seq<char> {
        match self {
            GameState::CorrectGuess => "The guess was accepted"@,
            GameState::WrongGuess => "The guess was not accepted"@,
            GameState::Won => "You won!"@,
            GameState::Lost => "You lost :("@,
        }
    }

    /// Renders the outcome as text.
    pub fn message(&self) -> (text: String)
        ensures
            text@ == self.message_text(),
    {
        match self {
            GameState::CorrectGuess => "The guess was accepted".to_string(),
            GameState::WrongGuess => "The guess was not accepted".to_string(),
            GameState::Won => "You won!".to_string(),
            GameState::Lost => "You lost :(".to_string(),
        }
    }
}

} // verus!
