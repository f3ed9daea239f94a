//! The game-state engine: target word, committed guesses, the pending guess,
//! the keyboard tracker and the win/loss state machine.

use vstd::prelude::*;

use crate::guess::CompletedGuess;
use crate::guess::Guess;
use crate::guess::GuessRow;
use crate::guess::PendingGuess;
use crate::guess::all_right;
use crate::guess::eval_seq;
use crate::guess::lemma_pending_row_letters;
use crate::guess::pending_letters;
use crate::letters::ALPHABET_LEN;
use crate::letters::is_alphabetic_char;
use crate::letters::LetterState;
use crate::letters::Letters;
use crate::letters::spec_update_many;

verus! {

/// Where the game stands: still being played, or resolved one way.
#[derive(Clone, Copy, Debug, PartialEq, Eq, Structural)]
pub enum GameStatus {
    Pending,
    Won,
    Lost,
}

/// Outcome of one input operation on the game state.
#[derive(Clone, Copy, Debug, PartialEq, Eq, Structural)]
pub enum GameUpdateResult {
    Accepted,
    GameFinished,
    InvalidInput,
}

/// Everything the game state means, as mathematical values: the target word,
/// the scored guesses in order, the characters of the row being typed, the
/// keyboard tracker, the attempt limit and the status.
#[verifier::ext_equal]
pub struct GameModel {
    pub target: Seq<char>,
    pub guesses: Seq<Seq<crate::letters::GuessedLetter>>,
    pub pending: Option<Seq<char>>,
    pub tracker: Seq<LetterState>,
    pub max_tries: int,
    pub status: GameStatus,
}

/// The invariants the engine keeps: the attempt list never outgrows the
/// limit, a row is being typed exactly while the game is unresolved, an
/// unresolved game still has attempts left, the typed row and every scored
/// guess fit the target word, and the tracker covers the alphabet.
pub open spec fn model_wf(m: GameModel) -> bool {
    &&& m.tracker.len() == ALPHABET_LEN
    &&& 1 <= m.max_tries <= u8::MAX
    &&& m.guesses.len() <= m.max_tries
    &&& (m.pending is Some <==> m.status == GameStatus::Pending)
    &&& (m.status == GameStatus::Pending ==> m.guesses.len() < m.max_tries)
    &&& (m.pending is Some ==> m.pending.unwrap().len() <= m.target.len())
    &&& forall|i: int|
        0 <= i < m.guesses.len() ==> (#[trigger] m.guesses[i]).len() == m.target.len()
}

/// A freshly started game: nothing guessed, nothing typed, nothing tracked.
pub open spec fn init_model(target: Seq<char>, max_tries: int) -> GameModel {
    GameModel {
        target,
        guesses: Seq::empty(),
        pending: Some(Seq::empty()),
        tracker: Seq::new(ALPHABET_LEN as nat, |i: int| initial_letter_state(i)),
        max_tries,
        status: GameStatus::Pending,
    }
}

/// Before any guess is scored every letter is ungraded.
pub open spec fn initial_letter_state(i: int) -> LetterState {
    LetterState::NotChecked
}

/// What typing one character does: rejected while no row is being typed,
/// when the character is not alphabetic, or when the row is already full;
/// otherwise the character lands at the end of the row.
pub open spec fn push_step(m: GameModel, c: char) -> (GameModel, GameUpdateResult) {
    match m.pending {
        Some(p) => {
            if is_alphabetic_char(c) && p.len() < m.target.len() {
                (GameModel { pending: Some(p.push(c)), ..m }, GameUpdateResult::Accepted)
            } else {
                (m, GameUpdateResult::InvalidInput)
            }
        },
        None => (m, GameUpdateResult::InvalidInput),
    }
}

/// What deleting one character does: rejected while no row is being typed or
/// the row is empty; otherwise the last character leaves the row.
pub open spec fn pop_step(m: GameModel) -> (GameModel, GameUpdateResult) {
    match m.pending {
        Some(p) => {
            if p.len() > 0 {
                (GameModel { pending: Some(p.drop_last()), ..m }, GameUpdateResult::Accepted)
            } else {
                (m, GameUpdateResult::InvalidInput)
            }
        },
        None => (m, GameUpdateResult::InvalidInput),
    }
}

/// What committing the typed row does. With the game resolved it reports so;
/// a row with letters missing is rejected untouched. A full row is graded
/// and appended, and its grades merge into the tracker. A fully-correct row
/// wins — checked first, so a correct final attempt wins rather than loses.
/// Otherwise, spending the last attempt loses; either way the typed row is
/// cleared. With attempts left, a fresh empty row is started.
pub open spec fn commit_step(m: GameModel) -> (GameModel, GameUpdateResult) {
    match m.pending {
        None => (m, GameUpdateResult::GameFinished),
        Some(p) => {
            if p.len() != m.target.len() {
                (m, GameUpdateResult::InvalidInput)
            } else {
                let graded = eval_seq(p, m.target);
                let merged = spec_update_many(m.tracker, graded);
                let appended = m.guesses.push(graded);
                if all_right(graded) {
                    (
                        GameModel {
                            guesses: appended,
                            tracker: merged,
                            pending: None,
                            status: GameStatus::Won,
                            ..m
                        },
                        GameUpdateResult::Accepted,
                    )
                } else if appended.len() == m.max_tries {
                    (
                        GameModel {
                            guesses: appended,
                            tracker: merged,
                            pending: None,
                            status: GameStatus::Lost,
                            ..m
                        },
                        GameUpdateResult::Accepted,
                    )
                } else {
                    (
                        GameModel {
                            guesses: appended,
                            tracker: merged,
                            pending: Some(Seq::empty()),
                            ..m
                        },
                        GameUpdateResult::Accepted,
                    )
                }
            }
        },
    }
}

/// One running game: the hidden target word, the scored guesses so far, the
/// row being typed, the keyboard tracker, the attempt limit and the status.
pub struct GameState {
    target_word: String,
    guesses: Vec<CompletedGuess>,
    pending_guess: Option<PendingGuess>,
    letters: Letters,
    max_tries: u8,
    status: GameStatus,
}

impl View for GameState {
    type V = GameModel;

    closed spec fn view(&self) -> GameModel {
        GameModel {
            target: self.target_word@,
            guesses: self.guesses@.map_values(|g: CompletedGuess| g@),
            pending: match self.pending_guess {
                Some(p) => Some(p@),
                None => None,
            },
            tracker: self.letters@,
            max_tries: self.max_tries as int,
            status: self.status,
        }
    }
}

impl GameState {
    /// The model invariants hold, and the typed row is bound to this game's
    /// target word.
    pub closed spec fn wf(&self) -> bool {
        &&& model_wf(self@)
        &&& match self.pending_guess {
            Some(p) => p.wf() && p.target() == self.target_word@,
            None => true,
        }
    }

    /// A well-formed game satisfies the model invariants.
    pub proof fn lemma_wf_model(&self)
        requires
            self.wf(),
        ensures
            model_wf(self@),
    {
    }

    pub fn new(target_word: &str, max_tries: u8) -> (r: Self)
        requires
            1 <= max_tries,
        ensures
            r.wf(),
            r@ == init_model(target_word@, max_tries as int),
    {
        let r = Self {
            target_word: String::from_str(target_word),
            guesses: Vec::new(),
            pending_guess: Some(PendingGuess::new(String::from_str(target_word))),
            letters: Letters::new(),
            max_tries,
            status: GameStatus::Pending,
        };
        proof {
            assert(r@.guesses =~= init_model(target_word@, max_tries as int).guesses);
            assert(r@.tracker =~= init_model(target_word@, max_tries as int).tracker);
            assert(r@.pending.unwrap() =~= Seq::<char>::empty());
            assert(r@ =~~= init_model(target_word@, max_tries as int));
        }
        r
    }

    pub fn status(&self) -> (r: GameStatus)
        ensures
            r == self@.status,
    {
        self.status
    }

    pub fn max_tries(&self) -> (r: u8)
        ensures
            r as int == self@.max_tries,
    {
        self.max_tries
    }

    pub fn target_word(&self) -> (r: &String)
        ensures
            r@ == self@.target,
    {
        &self.target_word
    }

    pub fn letters(&self) -> (r: &Letters)
        ensures
            r@ == self@.tracker,
    {
        &self.letters
    }

    /// The row being typed, while the game is unresolved.
    pub fn current_guess(&self) -> (r: Option<&PendingGuess>)
        ensures
            match r {
                Some(p) => self@.pending == Some(p@),
                None => self@.pending is None,
            },
    {
        self.pending_guess.as_ref()
    }

    /// Types one character into the current row.
    pub fn push_letter(&mut self, letter: char) -> (r: GameUpdateResult)
        requires
            old(self).wf(),
        ensures
            final(self).wf(),
            final(self)@ == push_step(old(self)@, letter).0,
            r == push_step(old(self)@, letter).1,
    {
        match &mut self.pending_guess {
            Some(guess) => guess.push_letter(letter),
            _ => GameUpdateResult::InvalidInput,
        }
    }

    /// Deletes the last character of the current row.
    pub fn pop_letter(&mut self) -> (r: GameUpdateResult)
        requires
            old(self).wf(),
        ensures
            final(self).wf(),
            final(self)@ == pop_step(old(self)@).0,
            r == pop_step(old(self)@).1,
    {
        match &mut self.pending_guess {
            Some(guess) => guess.pop_letter(),
            _ => GameUpdateResult::InvalidInput,
        }
    }

    /// Commits the current row: grades it, merges the grades into the
    /// tracker, appends it, and resolves the game when it is won or the
    /// attempts are spent.
    pub fn commit_guess(&mut self) -> (r: GameUpdateResult)
        requires
            old(self).wf(),
        ensures
            final(self).wf(),
            final(self)@ == commit_step(old(self)@).0,
            r == commit_step(old(self)@).1,
    {
        match &self.pending_guess {
            None => GameUpdateResult::GameFinished,
            Some(guess) => {
                if !guess.full() {
                    GameUpdateResult::InvalidInput
                } else {
                    let committed = guess.complete();
                    let all_correct = committed.is_all_correct();
                    let ghost graded = eval_seq(old(self)@.pending.unwrap(), old(self)@.target);
                    proof {
                        committed.lemma_letters_field();
                        assert(committed@ == graded);
                    }
                    self.letters.update_many(&committed.letters);
                    self.guesses.push(committed);
                    proof {
                        assert(self.guesses@.map_values(|g: CompletedGuess| g@) =~= old(
                            self,
                        ).guesses@.map_values(|g: CompletedGuess| g@).push(graded));
                    }
                    if all_correct {
                        self.pending_guess = None;
                        self.status = GameStatus::Won;
                        proof {
                            assert(final(self)@ =~~= commit_step(old(self)@).0);
                        }
                        GameUpdateResult::Accepted
                    } else if self.guesses.len() == self.max_tries as usize {
                        self.pending_guess = None;
                        self.status = GameStatus::Lost;
                        proof {
                            assert(final(self)@ =~~= commit_step(old(self)@).0);
                        }
                        GameUpdateResult::Accepted
                    } else {
                        self.pending_guess = Some(PendingGuess::new(self.target_word.clone()));
                        proof {
                            assert(final(self)@.pending.unwrap() =~= Seq::<char>::empty());
                            assert(final(self)@ =~~= commit_step(old(self)@).0);
                        }
                        GameUpdateResult::Accepted
                    }
                }
            },
        }
    }

    /// Read access to one board row: the scored guess at that index if one
    /// exists, the row being typed right after the scored ones, and a blank
    /// row anywhere past that. Total: any index answers with a row.
    pub fn get(&self, i: usize) -> (row: GuessRow)
        requires
            self.wf(),
        ensures
            i < self@.guesses.len() ==> row is Completed && row.letters_view()
                == self@.guesses[i as int],
            i == self@.guesses.len() && self@.pending is Some ==> row is Pending
                && row.letters_view() == pending_letters(self@.pending.unwrap()),
            i > self@.guesses.len() || (i == self@.guesses.len() && self@.pending is None)
                ==> row is Empty,
    {
        if i < self.guesses.len() {
            GuessRow::Completed(self.guesses[i].letters())
        } else {
            match &self.pending_guess {
                Some(guess) => {
                    if i == self.guesses.len() {
                        proof {
                            lemma_pending_row_letters(guess);
                        }
                        GuessRow::Pending(guess.letters())
                    } else {
                        GuessRow::Empty
                    }
                },
                None => GuessRow::Empty,
            }
        }
    }
}

/// Committing while letters are still missing is rejected: the result is
/// `InvalidInput` and nothing changes — in particular no guess is appended.
pub proof fn lemma_commit_not_full_rejected(m: GameModel)
    requires
        model_wf(m),
        m.pending is Some,
        m.pending.unwrap().len() < m.target.len(),
    ensures
        commit_step(m).1 == GameUpdateResult::InvalidInput,
        commit_step(m).0 == m,
{
}

/// Deleting from an empty row is rejected: the result is `InvalidInput` and
/// nothing changes — in particular the row's length stays zero.
pub proof fn lemma_pop_empty_rejected(m: GameModel)
    requires
        m.pending matches Some(p) && p.len() == 0,
    ensures
        pop_step(m).1 == GameUpdateResult::InvalidInput,
        pop_step(m).0 == m,
{
}

/// Typing alphabetic characters succeeds up to the length of the target
/// word; one more is rejected and leaves the row unchanged.
pub proof fn lemma_push_capacity(m: GameModel, c: char)
    requires
        m.pending is Some,
    ensures
        is_alphabetic_char(c) && m.pending.unwrap().len() < m.target.len() ==> push_step(m, c).1
            == GameUpdateResult::Accepted && push_step(m, c).0.pending == Some(
            m.pending.unwrap().push(c),
        ),
        m.pending.unwrap().len() == m.target.len() ==> push_step(m, c).1
            == GameUpdateResult::InvalidInput && push_step(m, c).0 == m,
{
}

/// Win precedence: committing a fully-correct row yields `Won`, even on the
/// final allowed attempt — the win is checked before the attempt limit.
pub proof fn lemma_win_precedence(m: GameModel)
    requires
        model_wf(m),
        m.pending matches Some(p) && p.len() == m.target.len() && all_right(
            eval_seq(p, m.target),
        ),
    ensures
        commit_step(m).1 == GameUpdateResult::Accepted,
        commit_step(m).0.status == GameStatus::Won,
        commit_step(m).0.pending is None,
        commit_step(m).0.guesses == m.guesses.push(eval_seq(m.pending.unwrap(), m.target)),
{
}

/// Loss boundary: committing a full but not fully-correct row on the last
/// allowed attempt yields `Lost` and clears the typed row.
pub proof fn lemma_loss_boundary(m: GameModel)
    requires
        model_wf(m),
        m.pending matches Some(p) && p.len() == m.target.len() && !all_right(
            eval_seq(p, m.target),
        ),
        m.guesses.len() + 1 == m.max_tries,
    ensures
        commit_step(m).1 == GameUpdateResult::Accepted,
        commit_step(m).0.status == GameStatus::Lost,
        commit_step(m).0.pending is None,
        commit_step(m).0.guesses == m.guesses.push(eval_seq(m.pending.unwrap(), m.target)),
{
}

} // verus!
