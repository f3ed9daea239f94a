use wordle::GameUpdateResult;
use wordle::Guess;
use wordle::GuessedLetter;
use wordle::LetterState;
use wordle::PendingGuess;

#[test]
fn evaluator_is_deterministic_across_calls() {
    let mut first = PendingGuess::new(String::from("test"));
    let mut second = PendingGuess::new(String::from("test"));
    for c in ['t', 'a', 's', 'e'] {
        first.push_letter(c);
        second.push_letter(c);
    }
    let one = first.complete();
    let two = second.complete();
    assert_eq!(one.letters(), two.letters());
    let again = first.complete();
    assert_eq!(one.letters(), again.letters());
}

#[test]
fn complete_grades_each_position() {
    let mut guess = PendingGuess::new(String::from("test"));
    guess.push_letter('t');
    guess.push_letter('a');
    guess.push_letter('s');
    guess.push_letter('e');
    let completed = guess.complete();
    assert_eq!(
        completed.letters(),
        vec![
            GuessedLetter::new('t', LetterState::RightPosition),
            GuessedLetter::new('a', LetterState::NotOccurring),
            GuessedLetter::new('s', LetterState::RightPosition),
            GuessedLetter::new('e', LetterState::WrongPosition)
        ]
    );
    assert!(!completed.is_all_correct());
    assert!(!completed.is_pending());
}

#[test]
fn complete_on_the_target_word_is_all_correct() {
    let mut guess = PendingGuess::new(String::from("ab"));
    guess.push_letter('a');
    guess.push_letter('b');
    let completed = guess.complete();
    assert!(completed.is_all_correct());
}

#[test]
fn pending_guess_tracks_fullness() {
    let mut guess = PendingGuess::new(String::from("ab"));
    assert!(!guess.full());
    assert_eq!(guess.push_letter('a'), GameUpdateResult::Accepted);
    assert_eq!(guess.push_letter('b'), GameUpdateResult::Accepted);
    assert!(guess.full());
    assert_eq!(guess.push_letter('c'), GameUpdateResult::InvalidInput);
    assert!(guess.full());
    assert_eq!(guess.pop_letter(), GameUpdateResult::Accepted);
    assert!(!guess.full());
}

#[test]
fn pop_on_empty_pending_guess_is_rejected() {
    let mut guess = PendingGuess::new(String::from("ab"));
    assert_eq!(guess.pop_letter(), GameUpdateResult::InvalidInput);
    assert_eq!(guess.letters(), Vec::new());
    assert!(guess.is_pending());
}

#[test]
fn pending_letters_carry_no_grade() {
    let mut guess = PendingGuess::new(String::from("ab"));
    guess.push_letter('x');
    assert_eq!(
        guess.letters(),
        vec![GuessedLetter::new('x', LetterState::NotChecked)]
    );
}

#[test]
fn an_empty_row_shows_no_letters() {
    let row = wordle::EmptyGuess;
    assert!(!row.is_pending());
    assert_eq!(row.letters(), Vec::new());
}

#[test]
fn non_alphabetic_characters_are_rejected_by_the_pending_guess() {
    let mut guess = PendingGuess::new(String::from("ab"));
    assert_eq!(guess.push_letter('1'), GameUpdateResult::InvalidInput);
    assert_eq!(guess.push_letter('!'), GameUpdateResult::InvalidInput);
    assert_eq!(guess.letters(), Vec::new());
    assert_eq!(guess.push_letter('a'), GameUpdateResult::Accepted);
}
