//! Game-state engine for a terminal word-guessing game.
//!
//! A player has a bounded number of attempts to guess a hidden target word.
//! After each committed attempt every letter is graded against the target,
//! and a per-alphabet-letter tracker aggregates the best grade seen so far.
//! This crate holds the verified core: the guess lifecycle, the evaluator,
//! the letter tracker and the win/loss state machine. Rendering, key-event
//! polling and the word fetch live outside it.

mod game_manager;
mod game_state;
mod guess;
mod letters;

pub use game_manager::GameManager;
pub use game_manager::GameManagerState;
pub use game_manager::MAX_TRIES;
pub use game_state::GameModel;
pub use game_state::GameState;
pub use game_state::GameStatus;
pub use game_state::GameUpdateResult;
pub use game_state::commit_step;
pub use game_state::init_model;
pub use game_state::initial_letter_state;
pub use game_state::lemma_commit_not_full_rejected;
pub use game_state::lemma_loss_boundary;
pub use game_state::lemma_pop_empty_rejected;
pub use game_state::lemma_push_capacity;
pub use game_state::lemma_win_precedence;
pub use game_state::model_wf;
pub use game_state::pop_step;
pub use game_state::push_step;
pub use guess::CompletedGuess;
pub use guess::EmptyGuess;
pub use guess::Guess;
pub use guess::GuessRow;
pub use guess::PendingGuess;
pub use guess::all_right;
pub use guess::eval_letter;
pub use guess::eval_seq;
pub use guess::lemma_evaluator_deterministic;
pub use guess::lemma_pending_row_letters;
pub use guess::pending_letters;
pub use guess::ungraded;
pub use letters::ALPHABET_LEN;
pub use letters::GuessedLetter;
pub use letters::LetterState;
pub use letters::Letters;
pub use letters::is_alphabetic_beyond_ascii;
pub use letters::is_alphabetic_char;
pub use letters::is_ascii_lowercase_letter;
pub use letters::is_ascii_uppercase_letter;
pub use letters::is_tracked_letter;
pub use letters::lemma_right_position_sticky;
pub use letters::letter_index;
pub use letters::spec_state;
pub use letters::spec_update;
pub use letters::spec_update_many;
