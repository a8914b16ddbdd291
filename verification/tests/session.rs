use rusty_wordle::app::{Key, MyEguiApp};
use rusty_wordle::dictionary::Dictionary;
use rusty_wordle::states::{GameState, LetterState};

fn sample() -> Dictionary {
    let mut dictionary = Dictionary::new();
    dictionary.insert("crane".to_string(), "a tall bird".to_string());
    dictionary.insert("boxer".to_string(), "one who boxes".to_string());
    dictionary.insert("boat".to_string(), "a small vessel".to_string());
    dictionary
}

fn session() -> MyEguiApp {
    MyEguiApp::new("crane".to_string(), "a tall bird".to_string(), sample())
}

fn press(app: &mut MyEguiApp, keys: &[Key]) -> Vec<Option<String>> {
    keys.iter().map(|key| app.handle_keyboard_input(key)).collect()
}

const BOXER: [Key; 5] = [Key::B, Key::O, Key::X, Key::E, Key::R];
const CRANE: [Key; 5] = [Key::C, Key::R, Key::A, Key::N, Key::E];

#[test]
fn a_session_begins_with_a_fresh_game() {
    let app = session();
    assert_eq!(app.word(), "crane");
    assert_eq!(app.definition(), "a tall bird");
    assert_eq!(app.game_state(), None);
    assert_eq!(app.last_guessed_word(), None);
    assert_eq!(app.game_logic().word(), "CRANE");
    assert_eq!(app.game_logic().current_row(), 0);
    assert!(app.dictionary().contains_key("boat"));
}

#[test]
fn keys_stand_for_characters() {
    let app = session();
    assert_eq!(app.key_to_char(&Key::A), Some('A'));
    assert_eq!(app.key_to_char(&Key::M), Some('M'));
    assert_eq!(app.key_to_char(&Key::Z), Some('Z'));
    assert_eq!(app.key_to_char(&Key::Enter), Some('1'));
    assert_eq!(app.key_to_char(&Key::Backspace), Some('2'));
    assert_eq!(app.key_to_char(&Key::Space), Some('3'));
    assert_eq!(app.key_to_char(&Key::Semicolon), Some('4'));
    assert_eq!(app.key_to_char(&Key::Other), None);
    let all = [
        Key::A, Key::B, Key::C, Key::D, Key::E, Key::F, Key::G, Key::H, Key::I, Key::J, Key::K,
        Key::L, Key::M, Key::N, Key::O, Key::P, Key::Q, Key::R, Key::S, Key::T, Key::U, Key::V,
        Key::W, Key::X, Key::Y, Key::Z,
    ];
    let typed: String = all.iter().map(|key| app.key_to_char(key).unwrap()).collect();
    assert_eq!(typed, "ABCDEFGHIJKLMNOPQRSTUVWXYZ");
}

#[test]
fn letter_keys_type_and_backspace_deletes() {
    let mut app = session();
    assert_eq!(press(&mut app, &[Key::B, Key::O, Key::A]), vec![None, None, None]);
    assert_eq!(app.game_logic().current_guess(), &['B', 'O', 'A', ' ', ' ']);
    assert_eq!(press(&mut app, &[Key::Backspace]), vec![None]);
    assert_eq!(app.game_logic().current_guess(), &['B', 'O', ' ', ' ', ' ']);
    assert_eq!(app.game_logic().cursor(), 2);
    assert_eq!(press(&mut app, &[Key::Other]), vec![None]);
    assert_eq!(app.game_logic().current_guess(), &['B', 'O', ' ', ' ', ' ']);
    assert_eq!(app.game_state(), None);
}

#[test]
fn enter_submits_and_remembers_the_outcome() {
    let mut app = session();
    press(&mut app, &BOXER);
    assert_eq!(press(&mut app, &[Key::Enter]), vec![None]);
    assert_eq!(app.game_state(), Some(GameState::CorrectGuess));
    assert_eq!(app.last_guessed_word(), None);
    assert_eq!(app.game_logic().current_row(), 1);
    assert_eq!(app.game_logic().letter_state('E'), Some(LetterState::Present));
    press(&mut app, &CRANE);
    assert_eq!(press(&mut app, &[Key::Enter]), vec![None]);
    assert_eq!(app.game_state(), Some(GameState::Won));
    assert!(app.game_logic().is_won());
}

#[test]
fn a_guess_that_is_turned_down_is_remembered_and_reported() {
    let mut app = session();
    press(&mut app, &[Key::B, Key::O]);
    assert_eq!(
        press(&mut app, &[Key::Enter]),
        vec![Some("The guess was not accepted".to_string())]
    );
    assert_eq!(app.game_state(), Some(GameState::WrongGuess));
    assert_eq!(app.last_guessed_word(), Some("BO   ".to_string()));
    assert_eq!(app.game_logic().current_row(), 0);
    assert_eq!(app.game_logic().current_guess(), &['B', 'O', ' ', ' ', ' ']);
    press(&mut app, &[Key::X, Key::E, Key::R]);
    assert_eq!(app.submit_guess(), GameState::CorrectGuess);
    assert_eq!(app.game_state(), Some(GameState::CorrectGuess));
    assert_eq!(app.last_guessed_word(), Some("BO   ".to_string()));
}

#[test]
fn semicolon_shows_the_word() {
    let mut app = session();
    press(&mut app, &[Key::B]);
    assert_eq!(press(&mut app, &[Key::Semicolon]), vec![Some("crane".to_string())]);
    assert_eq!(app.game_logic().current_guess(), &['B', ' ', ' ', ' ', ' ']);
    assert_eq!(app.game_state(), None);
}

#[test]
fn typing_stops_when_the_attempts_are_used_up() {
    let mut app = session();
    for _ in 0..6 {
        press(&mut app, &BOXER);
        press(&mut app, &[Key::Enter]);
    }
    assert_eq!(app.game_state(), Some(GameState::Lost));
    assert_eq!(app.game_logic().current_row(), 6);
    assert_eq!(press(&mut app, &CRANE), vec![None, None, None, None, None]);
    assert_eq!(app.game_logic().current_guess(), &[' '; 5]);
    assert_eq!(press(&mut app, &[Key::Enter]), vec![None]);
    assert_eq!(app.game_state(), Some(GameState::Lost));
    assert_eq!(app.game_logic().current_row(), 6);
}

#[test]
fn space_begins_a_new_game() {
    let mut app = session();
    press(&mut app, &BOXER);
    press(&mut app, &[Key::Enter, Key::B]);
    assert_eq!(press(&mut app, &[Key::Space]), vec![None]);
    assert!(["crane", "boxer"].contains(&app.word().as_str()));
    assert_eq!(app.dictionary().get(app.word()), Some(app.definition()));
    assert_eq!(app.game_logic().word(), &app.word().to_uppercase());
    assert_eq!(app.game_logic().current_row(), 0);
    assert_eq!(app.game_logic().current_guess(), &[' '; 5]);
    assert_eq!(app.game_logic().letter_state('B'), Some(LetterState::Unknown));
    assert_eq!(app.game_state(), None);
}

#[test]
fn new_game_draws_from_the_dictionary() {
    let mut app = session();
    assert_eq!(app.new_game(), Ok(()));
    assert!(["crane", "boxer"].contains(&app.word().as_str()));
    assert_eq!(app.dictionary().get(app.word()), Some(app.definition()));
}

#[test]
fn new_game_without_a_word_changes_nothing() {
    let mut dictionary = Dictionary::new();
    dictionary.insert("boat".to_string(), "a small vessel".to_string());
    let mut app = MyEguiApp::new("crane".to_string(), "a tall bird".to_string(), dictionary);
    press(&mut app, &[Key::B, Key::O]);
    assert_eq!(
        press(&mut app, &[Key::Space]),
        vec![Some("Error: The dictionary is empty.".to_string())]
    );
    assert_eq!(app.word(), "crane");
    assert_eq!(app.definition(), "a tall bird");
    assert_eq!(app.game_logic().current_guess(), &['B', 'O', ' ', ' ', ' ']);
    assert_eq!(app.new_game(), Err(rusty_wordle::utils::errors::SelectionError::EmptyDictionary));
}
