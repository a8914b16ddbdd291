//! A word-guessing game: a hidden five-letter word, six attempts, and
//! per-letter feedback after every accepted guess.
//!
//! - [`rules`]: which words may be guessed, how a guess is scored, and what
//!   a score teaches about the alphabet.
//! - [`model`]: the state of a game as mathematics, its transitions, and the
//!   laws they obey.
//! - [`game_logic`]: the guess engine.
//! - [`dictionary`]: the word list that guesses are checked against.
//! - [`app`]: the session that a front end drives with key presses.
//! - [`utils`]: drawing a word at random, the rule for cleaning a raw
//!   dictionary, and the errors of both.

pub mod app;
pub mod dictionary;
pub mod game_logic;
pub mod model;
pub mod rules;
pub mod states;
pub mod utils;
