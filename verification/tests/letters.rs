use wordle::GuessedLetter;
use wordle::LetterState;
use wordle::Letters;

#[test]
fn every_letter_starts_unchecked() {
    let letters = Letters::new();
    for c in 'a'..='z' {
        assert_eq!(letters.state(c), LetterState::NotChecked);
    }
}

#[test]
fn characters_outside_the_alphabet_read_as_unchecked() {
    let letters = Letters::new();
    assert_eq!(letters.state('A'), LetterState::NotChecked);
    assert_eq!(letters.state('1'), LetterState::NotChecked);
    assert_eq!(letters.state(' '), LetterState::NotChecked);
}

#[test]
fn update_overwrites_non_right_states() {
    let mut letters = Letters::new();
    letters.update('a', LetterState::WrongPosition);
    assert_eq!(letters.state('a'), LetterState::WrongPosition);
    letters.update('a', LetterState::NotOccurring);
    assert_eq!(letters.state('a'), LetterState::NotOccurring);
}

#[test]
fn update_never_downgrades_right_position() {
    let mut letters = Letters::new();
    letters.update('b', LetterState::RightPosition);
    letters.update('b', LetterState::WrongPosition);
    assert_eq!(letters.state('b'), LetterState::RightPosition);
    letters.update('b', LetterState::NotOccurring);
    assert_eq!(letters.state('b'), LetterState::RightPosition);
}

#[test]
fn update_many_applies_letters_in_order() {
    let mut letters = Letters::new();
    letters.update_many(&vec![
        GuessedLetter::new('c', LetterState::WrongPosition),
        GuessedLetter::new('c', LetterState::NotOccurring),
        GuessedLetter::new('d', LetterState::RightPosition),
        GuessedLetter::new('d', LetterState::WrongPosition),
    ]);
    assert_eq!(letters.state('c'), LetterState::NotOccurring);
    assert_eq!(letters.state('d'), LetterState::RightPosition);
}

#[test]
fn cloned_tracker_reports_the_same_states() {
    let mut letters = Letters::new();
    letters.update('e', LetterState::RightPosition);
    let copy = letters.clone();
    assert_eq!(copy.state('e'), LetterState::RightPosition);
    assert_eq!(copy.state('f'), LetterState::NotChecked);
}

#[test]
fn letter_state_defaults_to_not_checked() {
    assert_eq!(LetterState::default(), LetterState::NotChecked);
    let g = GuessedLetter::default();
    assert_eq!(g.value, ' ');
    assert_eq!(g.state, LetterState::NotChecked);
}
