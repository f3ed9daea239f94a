use wordle::GameState;
use wordle::GameStatus;
use wordle::GameUpdateResult;
use wordle::Guess;
use wordle::GuessRow;
use wordle::GuessedLetter;
use wordle::LetterState;

fn setup() -> GameState {
    GameState::new("test", 3)
}

#[test]
fn should_not_allow_to_commit_if_not_all_letters_are_provided() {
    let mut state = setup();
    state.push_letter('t');
    state.push_letter('e');
    state.push_letter('s');
    let result = state.commit_guess();
    assert_eq!(result, GameUpdateResult::InvalidInput);
}

#[test]
fn should_not_allow_to_delete_letters_if_fields_are_empty() {
    let mut state = setup();
    let result = state.pop_letter();
    assert_eq!(result, GameUpdateResult::InvalidInput);
}

#[test]
fn should_not_allow_to_add_letters_if_fields_are_full() {
    let mut state = setup();
    state.push_letter('x');
    state.push_letter('x');
    state.push_letter('x');
    let pre = state.push_letter('x');
    let post = state.push_letter('x');
    assert_eq!(pre, GameUpdateResult::Accepted);
    assert_eq!(post, GameUpdateResult::InvalidInput);
}

#[test]
fn correctly_mark_letters() {
    let mut state = setup();
    state.push_letter('t');
    state.push_letter('e');
    state.push_letter('x');
    state.push_letter('s');
    state.commit_guess();
    assert_eq!(
        state.get(0).letters(),
        vec![
            GuessedLetter::new('t', LetterState::RightPosition),
            GuessedLetter::new('e', LetterState::RightPosition),
            GuessedLetter::new('x', LetterState::NotOccurring),
            GuessedLetter::new('s', LetterState::WrongPosition)
        ]
    );

    assert_eq!(state.letters().state('t'), LetterState::RightPosition);
    assert_eq!(state.letters().state('e'), LetterState::RightPosition);
    assert_eq!(state.letters().state('x'), LetterState::NotOccurring);
    assert_eq!(state.letters().state('s'), LetterState::WrongPosition);
    assert_eq!(state.letters().state('u'), LetterState::NotChecked);
}

#[test]
fn should_allow_to_win_game() {
    let mut state = setup();
    state.push_letter('t');
    state.push_letter('e');
    state.push_letter('s');
    state.commit_guess();
    let mut state = setup();
    state.push_letter('t');
    state.push_letter('e');
    state.push_letter('s');
    state.push_letter('t');
    let result = state.commit_guess();
    assert_eq!(result, GameUpdateResult::Accepted);
    assert_eq!(state.status(), GameStatus::Won);
}

#[test]
fn should_allow_to_lose_game() {
    let mut state = GameState::new("test", 1);
    state.push_letter('x');
    state.push_letter('e');
    state.push_letter('x');
    state.push_letter('t');
    let result = state.commit_guess();
    assert_eq!(result, GameUpdateResult::Accepted);
    assert_eq!(state.status(), GameStatus::Lost);
}

#[test]
fn rejected_commit_appends_no_guess() {
    let mut state = setup();
    state.push_letter('t');
    let result = state.commit_guess();
    assert_eq!(result, GameUpdateResult::InvalidInput);
    assert!(matches!(state.get(0), GuessRow::Pending(_)));
    assert_eq!(state.status(), GameStatus::Pending);
}

#[test]
fn commit_after_filling_the_last_letter_wins() {
    let mut state = setup();
    state.push_letter('t');
    state.push_letter('e');
    state.push_letter('s');
    assert_eq!(state.commit_guess(), GameUpdateResult::InvalidInput);
    assert_eq!(state.push_letter('t'), GameUpdateResult::Accepted);
    assert_eq!(state.commit_guess(), GameUpdateResult::Accepted);
    assert_eq!(state.status(), GameStatus::Won);
}

#[test]
fn losing_game_marks_tracker_from_the_final_guess() {
    let mut state = GameState::new("test", 1);
    state.push_letter('x');
    state.push_letter('e');
    state.push_letter('x');
    state.push_letter('t');
    assert_eq!(state.commit_guess(), GameUpdateResult::Accepted);
    assert_eq!(state.status(), GameStatus::Lost);
    assert_eq!(state.letters().state('x'), LetterState::NotOccurring);
    assert_eq!(state.letters().state('e'), LetterState::RightPosition);
    assert_eq!(state.letters().state('t'), LetterState::RightPosition);
}

#[test]
fn win_on_final_attempt_takes_precedence_over_loss() {
    let mut state = GameState::new("test", 1);
    state.push_letter('t');
    state.push_letter('e');
    state.push_letter('s');
    state.push_letter('t');
    let result = state.commit_guess();
    assert_eq!(result, GameUpdateResult::Accepted);
    assert_eq!(state.status(), GameStatus::Won);
}

#[test]
fn commit_with_no_pending_guess_reports_game_finished() {
    let mut state = GameState::new("test", 1);
    state.push_letter('t');
    state.push_letter('e');
    state.push_letter('s');
    state.push_letter('t');
    state.commit_guess();
    assert_eq!(state.commit_guess(), GameUpdateResult::GameFinished);
    assert_eq!(state.push_letter('a'), GameUpdateResult::InvalidInput);
    assert_eq!(state.pop_letter(), GameUpdateResult::InvalidInput);
}

#[test]
fn non_alphabetic_characters_are_rejected() {
    let mut state = setup();
    assert_eq!(state.push_letter('1'), GameUpdateResult::InvalidInput);
    assert_eq!(state.push_letter(' '), GameUpdateResult::InvalidInput);
    assert_eq!(state.push_letter('!'), GameUpdateResult::InvalidInput);
    assert_eq!(state.push_letter('a'), GameUpdateResult::Accepted);
}

#[test]
fn get_answers_every_row_after_resolution() {
    let mut state = GameState::new("test", 1);
    state.push_letter('x');
    state.push_letter('e');
    state.push_letter('x');
    state.push_letter('t');
    state.commit_guess();
    assert!(matches!(state.get(0), GuessRow::Completed(_)));
    assert!(matches!(state.get(1), GuessRow::Empty));
    assert!(matches!(state.get(2), GuessRow::Empty));
    assert!(!state.get(0).is_pending());
    assert_eq!(state.get(7).letters(), Vec::new());
}

#[test]
fn get_shows_completed_then_pending_then_empty_rows() {
    let mut state = setup();
    state.push_letter('t');
    state.push_letter('e');
    state.push_letter('s');
    state.push_letter('s');
    state.commit_guess();
    state.push_letter('a');
    assert!(matches!(state.get(0), GuessRow::Completed(_)));
    let row = state.get(1);
    assert!(row.is_pending());
    assert_eq!(
        row.letters(),
        vec![GuessedLetter::new('a', LetterState::NotChecked)]
    );
    assert!(matches!(state.get(2), GuessRow::Empty));
}

#[test]
fn repeated_guess_letter_is_marked_without_frequency_capping() {
    let mut state = GameState::new("ab", 1);
    state.push_letter('b');
    state.push_letter('b');
    state.commit_guess();
    assert_eq!(
        state.get(0).letters(),
        vec![
            GuessedLetter::new('b', LetterState::WrongPosition),
            GuessedLetter::new('b', LetterState::RightPosition)
        ]
    );
}

#[test]
fn right_position_is_sticky_across_guesses() {
    let mut state = setup();
    state.push_letter('t');
    state.push_letter('e');
    state.push_letter('s');
    state.push_letter('s');
    state.commit_guess();
    assert_eq!(state.letters().state('s'), LetterState::RightPosition);
    state.push_letter('s');
    state.push_letter('e');
    state.push_letter('t');
    state.push_letter('s');
    state.commit_guess();
    assert_eq!(state.letters().state('s'), LetterState::RightPosition);
}

#[test]
fn target_word_and_max_tries_are_exposed() {
    let state = setup();
    assert_eq!(state.target_word().as_str(), "test");
    assert_eq!(state.max_tries(), 3);
    assert_eq!(state.status(), GameStatus::Pending);
}
