use crate::dictionary::{byte_len, Dictionary};
use crate::game_logic::{uppercase_of, GuessEdit, WordleGame};
use crate::model::GameView;
use crate::rules::{guess_text, is_letter, is_lower, is_upper, MAX_ATTEMPTS, WORD_LENGTH};
use crate::states::GameState;
use crate::utils::errors::SelectionError;
use crate::utils::selector::{has_word_of_length, pick_random_word};
use vstd::prelude::*;
use vstd::string::StringExecFns;

verus! {

/// The keys that the game listens to.
#[derive(Debug, Clone, Copy, PartialEq, Eq, Structural)]
pub enum Key {
    A,
    B,
    C,
    D,
    E,
    F,
    G,
    H,
    I,
    J,
    K,
    L,
    M,
    N,
    O,
    P,
    Q,
    R,
    S,
    T,
    U,
    V,
    W,
    X,
    Y,
    Z,
    Enter,
    Backspace,
    Space,
    Semicolon,
    /// Any key that the game has no use for.
    Other,
}

/// The character that stands for a key: its letter for a letter key, and a
/// digit for each key with an action (`1` submit, `2` delete, `3` new game,
/// `4` show the word).
pub open spec fn key_char(key: Key) -> Option<char> {
    match key {
        Key::A => Some('A'),
        Key::B => Some('B'),
        Key::C => Some('C'),
        Key::D => Some('D'),
        Key::E => Some('E'),
        Key::F => Some('F'),
        Key::G => Some('G'),
        Key::H => Some('H'),
        Key::I => Some('I'),
        Key::J => Some('J'),
        Key::K => Some('K'),
        Key::L => Some('L'),
        Key::M => Some('M'),
        Key::N => Some('N'),
        Key::O => Some('O'),
        Key::P => Some('P'),
        Key::Q => Some('Q'),
        Key::R => Some('R'),
        Key::S => Some('S'),
        Key::T => Some('T'),
        Key::U => Some('U'),
        Key::V => Some('V'),
        Key::W => Some('W'),
        Key::X => Some('X'),
        Key::Y => Some('Y'),
        Key::Z => Some('Z'),
        Key::Enter => Some('1'),
        Key::Backspace => Some('2'),
        Key::Space => Some('3'),
        Key::Semicolon => Some('4'),
        Key::Other => None,
    }
}

/// A session as mathematics: the game with what the front end shows beside it.
#[verifier::ext_equal]
pub struct SessionView {
    /// The word to guess, as it was drawn.
    pub word: Seq<char>,
    /// Its definition.
    pub definition: Seq<char>,
    /// The game on that word.
    pub game: GameView,
    /// How the last submission ended, if there was one in this game.
    pub game_state: Option<GameState>,
    /// The last guess that was turned down, as it was typed.
    pub last_guessed_word: Option<Seq<char>>,
    /// The dictionary.
    pub entries: Map<Seq<char>, Seq<char>>,
}

impl SessionView {
    /// A session that has just begun on `word`.
    pub open spec fn started(
        word: Seq<char>,
        definition: Seq<char>,
        entries: Map<Seq<char>, Seq<char>>,
    ) -> SessionView {
        SessionView {
            word,
            definition,
            game: GameView::fresh(uppercase_of(word)),
            game_state: None,
            last_guessed_word: None,
            entries,
        }
    }

    /// What holds of every session: its game is a game on its word.
    pub open spec fn inv(self) -> bool {
        self.game.inv() && self.game.target == uppercase_of(self.word)
    }

    /// The session after the current guess was submitted: the game moves as
    /// the engine says, the outcome is remembered, and a guess that was
    /// turned down is remembered too.
    pub open spec fn after_submit(self) -> SessionView {
        let outcome = self.game.outcome(self.entries);
        SessionView {
            game: self.game.after_submit(self.entries),
            game_state: Some(outcome),
            last_guessed_word: if outcome == GameState::WrongGuess {
                Some(self.game.current_guess)
            } else {
                self.last_guessed_word
            },
            ..self
        }
    }

    /// The session after a new game began on `word`: a fresh game, no
    /// outcome yet; the dictionary stays, and so does the last guess that was
    /// turned down.
    pub open spec fn restarted(self, word: Seq<char>) -> SessionView {
        SessionView {
            word,
            definition: self.entries[word],
            game: GameView::fresh(uppercase_of(word)),
            game_state: None,
            ..self
        }
    }

    /// Whether a new game may begin on `word`: it is an entry of the right length.
    pub open spec fn offers(self, word: Seq<char>) -> bool {
        self.entries.contains_key(word) && byte_len(word) == WORD_LENGTH
    }

    /// The session after a letter key, while there are attempts left.
    pub open spec fn after_letter(self, letter: char) -> SessionView {
        SessionView { game: self.game.after_letter(letter), ..self }
    }

    /// The session after backspace.
    pub open spec fn after_backspace(self) -> SessionView {
        SessionView { game: self.game.after_backspace(), ..self }
    }
}

/// The text of a line, if there is one.
pub open spec fn line_text(line: Option<String>) -> Option<Seq<char>> {
    match line {
        Some(text) => Some(text@),
        None => None,
    }
}

/// What a failed restart prints.
pub open spec fn restart_failure_text(error: SelectionError) -> Seq<char> {
    "Error: "@ + error.message_text()
}

/// A session of the game as a front end drives it: the game, the word with
/// its definition, the dictionary, and what the last submission came to.
pub struct MyEguiApp {
    word: String,
    definition: String,
    game_logic: WordleGame,
    game_state: Option<GameState>,
    last_guessed_word: Option<String>,
    dictionary: Dictionary,
}

impl View for MyEguiApp {
    type V = SessionView;

    closed spec fn view(&self) -> SessionView {
        SessionView {
            word: self.word@,
            definition: self.definition@,
            game: self.game_logic@,
            game_state: self.game_state,
            last_guessed_word: line_text(self.last_guessed_word),
            entries: self.dictionary@,
        }
    }
}

impl MyEguiApp {
    /// The parts of the session fit together.
    pub closed spec fn consistent(&self) -> bool {
        self.game_logic.wf() && self.dictionary.wf()
    }

    /// The session is in a state that a session can be in.
    pub open spec fn wf(&self) -> bool {
        self.consistent() && self@.inv()
    }

    /// Begins a session on `word`.
    pub fn new(word: String, definition: String, dict: Dictionary) -> (app: Self)
        requires
            dict.wf(),
        ensures
            app.wf(),
            app@ == SessionView::started(word@, definition@, dict@),
    {
        MyEguiApp {
            word: word.clone(),
            definition,
            game_logic: WordleGame::new(word),
            game_state: None,
            last_guessed_word: None,
            dictionary: dict,
        }
    }

    /// The word to guess, as it was drawn.
    pub fn word(&self) -> (word: &String)
        ensures
            word@ == self@.word,
    {
        &self.word
    }

    /// The definition of the word to guess.
    pub fn definition(&self) -> (definition: &String)
        ensures
            definition@ == self@.definition,
    {
        &self.definition
    }

    /// The game.
    pub fn game_logic(&self) -> (game: &WordleGame)
        ensures
            game@ == self@.game,
            self.wf() ==> game.wf(),
    {
        &self.game_logic
    }

    /// How the last submission ended, if there was one in this game.
    pub fn game_state(&self) -> (state: Option<GameState>)
        ensures
            state == self@.game_state,
    {
        self.game_state
    }

    /// The last guess that was turned down, as it was typed.
    pub fn last_guessed_word(&self) -> (guess: Option<String>)
        ensures
            line_text(guess) == self@.last_guessed_word,
    {
        self.last_guessed_word.clone()
    }

    /// The dictionary.
    pub fn dictionary(&self) -> (dictionary: &Dictionary)
        ensures
            dictionary@ == self@.entries,
            self.wf() ==> dictionary.wf(),
    {
        &self.dictionary
    }

    /// Begins a new game on a word drawn at random from the dictionary.
    ///
    /// Fails, and changes nothing, exactly when the dictionary has no word of
    /// the game's length.
    pub fn new_game(&mut self) -> (started: Result<(), SelectionError>)
        requires
            old(self).wf(),
        ensures
            final(self).wf(),
            started is Ok <==> has_word_of_length(old(self)@.entries, WORD_LENGTH as nat),
            match started {
                Ok(_) => old(self)@.offers(final(self)@.word) && final(self)@ == old(
                    self,
                )@.restarted(final(self)@.word),
                Err(error) => error == SelectionError::EmptyDictionary && final(self)@ == old(
                    self,
                )@,
            },
    {
        match pick_random_word(&self.dictionary, WORD_LENGTH) {
            Ok((new_word, new_definition)) => {
                self.word = new_word.clone();
                self.definition = new_definition;
                self.game_logic = WordleGame::new(new_word);
                self.game_state = None;
                assert(self@ =~= old(self)@.restarted(self@.word));
                Ok(())
            },
            Err(error) => Err(error),
        }
    }

    /// The character that stands for a key.
    pub fn key_to_char(&self, key: &Key) -> (code: Option<char>)
        ensures
            code == key_char(*key),
    {
        match key {
            Key::A => Some('A'),
            Key::B => Some('B'),
            Key::C => Some('C'),
            Key::D => Some('D'),
            Key::E => Some('E'),
            Key::F => Some('F'),
            Key::G => Some('G'),
            Key::H => Some('H'),
            Key::I => Some('I'),
            Key::J => Some('J'),
            Key::K => Some('K'),
            Key::L => Some('L'),
            Key::M => Some('M'),
            Key::N => Some('N'),
            Key::O => Some('O'),
            Key::P => Some('P'),
            Key::Q => Some('Q'),
            Key::R => Some('R'),
            Key::S => Some('S'),
            Key::T => Some('T'),
            Key::U => Some('U'),
            Key::V => Some('V'),
            Key::W => Some('W'),
            Key::X => Some('X'),
            Key::Y => Some('Y'),
            Key::Z => Some('Z'),
            // digits stand for enter, backspace and space
            Key::Enter => Some('1'),
            Key::Backspace => Some('2'),
            Key::Space => Some('3'),
            // for quick cheating
            Key::Semicolon => Some('4'),
            Key::Other => None,
        }
    }

    /// Submits the current guess and remembers how that ended.
    pub fn submit_guess(&mut self) -> (outcome: GameState)
        requires
            old(self).wf(),
        ensures
            final(self).wf(),
            outcome == old(self)@.game.outcome(old(self)@.entries),
            final(self)@ == old(self)@.after_submit(),
    {
        let typed = guess_text(self.game_logic.current_guess());
        let outcome = self.game_logic.submit_guess(&self.dictionary);
        self.game_state = Some(outcome);
        if outcome == GameState::WrongGuess {
            self.last_guessed_word = Some(typed);
        }
        assert(self@ =~= old(self)@.after_submit());
        outcome
    }

    /// Reacts to one key press, and returns the line to print, if the key calls for one.
    ///
    /// - A letter key types its letter, as long as attempts are left.
    /// - Enter submits the guess; a guess that is turned down prints the outcome.
    /// - Backspace deletes.
    /// - Space begins a new game; if no word can be drawn, the session stays
    ///   as it is and the failure is printed.
    /// - Semicolon prints the word.
    /// - Any other key does nothing.
    pub fn handle_keyboard_input(&mut self, key: &Key) -> (line: Option<String>)
        requires
            old(self).wf(),
        ensures
            final(self).wf(),
            match key_char(*key) {
                None => final(self)@ == old(self)@ && line is None,
                Some(code) => if (is_upper(code) || is_lower(code)) && old(self)@.game.attempts
                    < MAX_ATTEMPTS {
                    final(self)@ == old(self)@.after_letter(code) && line is None
                } else if code == '1' {
                    &&& final(self)@ == old(self)@.after_submit()
                    &&& line_text(line) == if old(self)@.game.outcome(old(self)@.entries)
                        == GameState::WrongGuess {
                        Some(GameState::WrongGuess.message_text())
                    } else {
                        None
                    }
                } else if code == '2' {
                    final(self)@ == old(self)@.after_backspace() && line is None
                } else if code == '3' {
                    if has_word_of_length(old(self)@.entries, WORD_LENGTH as nat) {
                        &&& old(self)@.offers(final(self)@.word)
                        &&& final(self)@ == old(self)@.restarted(final(self)@.word)
                        &&& line is None
                    } else {
                        &&& final(self)@ == old(self)@
                        &&& line_text(line) == Some(
                            restart_failure_text(SelectionError::EmptyDictionary),
                        )
                    }
                } else if code == '4' {
                    final(self)@ == old(self)@ && line_text(line) == Some(old(self)@.word)
                } else {
                    final(self)@ == old(self)@ && line is None
                },
            },
    {
        let code = match self.key_to_char(key) {
            Some(code) => code,
            None => {
                return None;
            },
        };
        if is_letter(code) && self.game_logic.current_row() < MAX_ATTEMPTS {
            self.game_logic.edit_current_guess(GuessEdit::Letter(code));
            assert(self@ =~= old(self)@.after_letter(code));
            None
        } else if code == '1' {
            match self.submit_guess() {
                GameState::WrongGuess => Some(GameState::WrongGuess.message()),
                _ => None,
            }
        } else if code == '2' {
            self.game_logic.edit_current_guess(GuessEdit::Backspace);
            assert(self@ =~= old(self)@.after_backspace());
            None
        } else if code == '3' {
            match self.new_game() {
                Ok(_) => None,
                Err(error) => Some("Error: ".to_string().concat(error.message().as_str())),
            }
        } else if code == '4' {
            Some(self.word.clone())
        } else {
            None
        }
    }
}

} // verus!
