//! The session around one game: loading a target word from the outside
//! provider, playing, or resting in failure until an explicit restart.

use vstd::prelude::*;

use crate::game_state::GameState;
use crate::game_state::init_model;

verus! {

/// Attempts allowed per game.
pub const MAX_TRIES: u8 = 6;

/// The outer session state: waiting for a word, failed to get one, or
/// playing a game. Transitions replace the whole variant.
pub enum GameManagerState {
    Loading,
    Failure(String),
    Playing(GameState),
}

/// Owns the session. A fresh target word comes from the outside provider;
/// its outcome, word or no word, is handed in by the caller.
pub struct GameManager {
    pub state: GameManagerState,
}

impl GameManager {
    pub fn new() -> (r: Self)
        ensures
            r.state is Loading,
    {
        Self { state: GameManagerState::Loading }
    }

    /// Starts over from the outcome of the outside word fetch: a fetched
    /// word starts play with a fresh game on that word; no word leaves the
    /// session in failure with a fixed message. The previous session state,
    /// whatever it was, is discarded wholesale.
    pub fn restart(&mut self, fetched: Option<String>)
        ensures
            fetched matches Some(word) ==> (final(self).state matches GameManagerState::Playing(g)
                && g.wf() && g@ == init_model(word@, MAX_TRIES as int)),
            fetched is None ==> (final(self).state matches GameManagerState::Failure(m) && m@
                == "Failed to fetch your word"@),
    {
        match fetched {
            Some(word) => {
                self.state = GameManagerState::Playing(GameState::new(word.as_str(), MAX_TRIES));
            },
            None => {
                self.state = GameManagerState::Failure(
                    String::from_str("Failed to fetch your word"),
                );
            },
        }
    }
}

} // verus!
