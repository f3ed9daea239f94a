//! Guess rows: the in-progress pending guess, the scored completed guess,
//! and the evaluator that grades a full guess against the target word.

use vstd::prelude::*;

use crate::game_state::GameUpdateResult;
use crate::letters::GuessedLetter;
use crate::letters::LetterState;
use crate::letters::char_is_alphabetic;
use crate::letters::is_alphabetic_char;

verus! {

/// Grade of one typed character against the target word: the position itself
/// wins, any occurrence elsewhere counts as `WrongPosition`, otherwise the
/// letter does not occur. Repeated guessed letters are graded independently,
/// without capping by how often the letter occurs in the target.
pub open spec fn eval_letter(c: char, i: int, target: Seq<char>) -> GuessedLetter {
    if c == target[i] {
        GuessedLetter { value: c, state: LetterState::RightPosition }
    } else if target.contains(c) {
        GuessedLetter { value: c, state: LetterState::WrongPosition }
    } else {
        GuessedLetter { value: c, state: LetterState::NotOccurring }
    }
}

/// Position-by-position grading of a full guess against the target word.
pub open spec fn eval_seq(typed: Seq<char>, target: Seq<char>) -> Seq<GuessedLetter> {
    Seq::new(typed.len(), |i: int| eval_letter(typed[i], i, target))
}

/// Every letter of a scored guess sits in the right position.
pub open spec fn all_right(gs: Seq<GuessedLetter>) -> bool {
    forall|i: int| 0 <= i < gs.len() ==> gs[i].state == LetterState::RightPosition
}

/// A typed character as a pending row shows it: not yet graded.
pub open spec fn ungraded(c: char) -> GuessedLetter {
    GuessedLetter { value: c, state: LetterState::NotChecked }
}

/// The letters a pending guess shows: the typed characters, none graded yet.
pub open spec fn pending_letters(typed: Seq<char>) -> Seq<GuessedLetter> {
    Seq::new(typed.len(), |i: int| ungraded(typed[i]))
}

/// The evaluator is a pure function: equal guesses against equal targets are
/// graded identically, position by position.
pub proof fn lemma_evaluator_deterministic(
    typed1: Seq<char>,
    target1: Seq<char>,
    typed2: Seq<char>,
    target2: Seq<char>,
)
    requires
        typed1 == typed2,
        target1 == target2,
    ensures
        eval_seq(typed1, target1) == eval_seq(typed2, target2),
{
}

/// Uniform read access to one guess row, however far it has come.
pub trait Guess {
    /// The letters the row shows.
    spec fn letters_view(&self) -> Seq<GuessedLetter>;

    /// Whether the row is still being typed.
    spec fn pending_view(&self) -> bool;

    fn is_pending(&self) -> (r: bool)
        ensures
            r == self.pending_view(),
    ;

    fn letters(&self) -> (v: Vec<GuessedLetter>)
        ensures
            v@ == self.letters_view(),
    ;
}

/// Copies a row of letters; letters are plain values.
fn copy_letters(v: &Vec<GuessedLetter>) -> (r: Vec<GuessedLetter>)
    ensures
        r@ == v@,
{
    let mut r: Vec<GuessedLetter> = Vec::new();
    let n = v.len();
    let mut i: usize = 0;
    while i < n
        invariant
            i <= n,
            n == v@.len(),
            r@ =~= v@.take(i as int),
        decreases n - i,
    {
        r.push(v[i]);
        i = i + 1;
    }
    proof {
        assert(r@ =~= v@);
    }
    r
}

/// A row no guess has reached yet: shown blank.
pub struct EmptyGuess;

impl Guess for EmptyGuess {
    open spec fn letters_view(&self) -> Seq<GuessedLetter> {
        Seq::empty()
    }

    open spec fn pending_view(&self) -> bool {
        false
    }

    fn is_pending(&self) -> (r: bool) {
        false
    }

    fn letters(&self) -> (v: Vec<GuessedLetter>) {
        let v: Vec<GuessedLetter> = Vec::new();
        proof {
            assert(v@ =~= Seq::<GuessedLetter>::empty());
        }
        v
    }
}

/// A finalized, scored guess row; immutable once created.
pub struct CompletedGuess {
    pub(crate) letters: Vec<GuessedLetter>,
}

impl View for CompletedGuess {
    type V = Seq<GuessedLetter>;

    closed spec fn view(&self) -> Seq<GuessedLetter> {
        self.letters@
    }
}

impl Guess for CompletedGuess {
    open spec fn letters_view(&self) -> Seq<GuessedLetter> {
        self@
    }

    open spec fn pending_view(&self) -> bool {
        false
    }

    fn is_pending(&self) -> (r: bool) {
        false
    }

    fn letters(&self) -> (v: Vec<GuessedLetter>) {
        copy_letters(&self.letters)
    }
}

impl CompletedGuess {
    /// A completed row shows exactly its scored letters.
    pub(crate) proof fn lemma_letters_field(&self)
        ensures
            self.letters@ == self@,
    {
    }

    pub fn is_all_correct(&self) -> (r: bool)
        ensures
            r == all_right(self@),
    {
        let n = self.letters.len();
        let mut i: usize = 0;
        while i < n
            invariant
                i <= n,
                n == self@.len(),
                forall|j: int| 0 <= j < i ==> self@[j].state == LetterState::RightPosition,
            decreases n - i,
        {
            match self.letters[i].state {
                LetterState::RightPosition => {},
                _ => {
                    return false;
                },
            }
            i = i + 1;
        }
        true
    }
}

/// The in-progress guess row: the characters typed so far, bound to the
/// session's target word and never longer than it.
pub struct PendingGuess {
    letters: Vec<GuessedLetter>,
    target_word: String,
}

impl View for PendingGuess {
    type V = Seq<char>;

    closed spec fn view(&self) -> Seq<char> {
        self.letters@.map_values(|g: GuessedLetter| g.value)
    }
}

impl Guess for PendingGuess {
    closed spec fn letters_view(&self) -> Seq<GuessedLetter> {
        self.letters@
    }

    open spec fn pending_view(&self) -> bool {
        true
    }

    fn is_pending(&self) -> (r: bool) {
        true
    }

    fn letters(&self) -> (v: Vec<GuessedLetter>) {
        copy_letters(&self.letters)
    }
}

/// A well-formed pending row shows exactly its typed characters, ungraded.
pub proof fn lemma_pending_row_letters(p: &PendingGuess)
    requires
        p.wf(),
    ensures
        p.letters_view() == pending_letters(p@),
{
    assert(p@.len() == p.letters@.len());
    assert forall|i: int| 0 <= i < p.letters@.len() implies p.letters@[i] == pending_letters(
        p@,
    )[i] by {
        assert(p.letters@[i].state == LetterState::NotChecked);
        assert(p@[i] == p.letters@[i].value);
    }
    assert(p.letters@ =~= pending_letters(p@));
}

impl PendingGuess {
    /// The target word this guess is graded against.
    pub closed spec fn target(&self) -> Seq<char> {
        self.target_word@
    }

    /// The typed row never outgrows the target word, and letters typed into a
    /// pending guess carry no grade yet.
    pub closed spec fn wf(&self) -> bool {
        &&& self.letters@.len() <= self.target_word@.len()
        &&& forall|i: int|
            0 <= i < self.letters@.len() ==> self.letters@[i].state == LetterState::NotChecked
    }

    pub fn new(target_word: String) -> (r: Self)
        ensures
            r.wf(),
            r@ == Seq::<char>::empty(),
            r.target() == target_word@,
    {
        let r = Self { letters: Vec::new(), target_word };
        proof {
            assert(r@ =~= Seq::<char>::empty());
        }
        r
    }

    /// True once every position of the target word has a typed letter.
    pub fn full(&self) -> (r: bool)
        requires
            self.wf(),
        ensures
            r == (self@.len() == self.target().len()),
    {
        self.letters.len() == self.target_word.as_str().unicode_len()
    }

    /// Appends one typed character, still ungraded; a character that is not
    /// alphabetic, or a row that is already full, rejects it.
    pub fn push_letter(&mut self, letter: char) -> (r: GameUpdateResult)
        requires
            old(self).wf(),
        ensures
            final(self).wf(),
            final(self).target() == old(self).target(),
            !is_alphabetic_char(letter) || old(self)@.len() == old(self).target().len() ==> r
                == GameUpdateResult::InvalidInput && final(self)@ == old(self)@,
            is_alphabetic_char(letter) && old(self)@.len() < old(self).target().len() ==> r
                == GameUpdateResult::Accepted && final(self)@ == old(self)@.push(letter),
    {
        if !char_is_alphabetic(letter) {
            GameUpdateResult::InvalidInput
        } else if self.letters.len() == self.target_word.as_str().unicode_len() {
            GameUpdateResult::InvalidInput
        } else {
            self.letters.push(GuessedLetter::new(letter, LetterState::default()));
            proof {
                assert(self@ =~= old(self)@.push(letter));
            }
            GameUpdateResult::Accepted
        }
    }

    /// Removes the last typed character; an empty row rejects it.
    pub fn pop_letter(&mut self) -> (r: GameUpdateResult)
        requires
            old(self).wf(),
        ensures
            final(self).wf(),
            final(self).target() == old(self).target(),
            old(self)@.len() == 0 ==> r == GameUpdateResult::InvalidInput
                && final(self)@ == old(self)@,
            old(self)@.len() > 0 ==> r == GameUpdateResult::Accepted
                && final(self)@ == old(self)@.drop_last(),
    {
        if self.letters.len() > 0 {
            self.letters.pop();
            proof {
                assert(self@ =~= old(self)@.drop_last());
            }
            GameUpdateResult::Accepted
        } else {
            GameUpdateResult::InvalidInput
        }
    }

    /// Grades the full row against the target word. Pure: the row itself is
    /// untouched, and the result is a function of the typed characters and
    /// the target word alone.
    pub fn complete(&self) -> (c: CompletedGuess)
        requires
            self.wf(),
            self@.len() == self.target().len(),
        ensures
            c@ == eval_seq(self@, self.target()),
    {
        let mut letters: Vec<GuessedLetter> = Vec::new();
        let target = self.target_word.as_str();
        let n = self.letters.len();
        let mut i: usize = 0;
        while i < n
            invariant
                i <= n,
                n == self@.len(),
                n == self.target().len(),
                n == self.letters@.len(),
                target@ == self.target(),
                forall|j: int| 0 <= j < n ==> self@[j] == self.letters@[j].value,
                letters@ =~= eval_seq(self@, self.target()).take(i as int),
            decreases n - i,
        {
            let c = self.letters[i].value;
            let t = target.get_char(i);
            let graded = if c == t {
                GuessedLetter::new(c, LetterState::RightPosition)
            } else if contains_char(target, c) {
                GuessedLetter::new(c, LetterState::WrongPosition)
            } else {
                GuessedLetter::new(c, LetterState::NotOccurring)
            };
            letters.push(graded);
            i = i + 1;
        }
        proof {
            assert(letters@ =~= eval_seq(self@, self.target()));
        }
        CompletedGuess { letters }
    }
}

/// Whether the word holds the character at any position.
fn contains_char(s: &str, c: char) -> (r: bool)
    ensures
        r == s@.contains(c),
{
    let n = s.unicode_len();
    let mut i: usize = 0;
    while i < n
        invariant
            i <= n,
            n == s@.len(),
            forall|j: int| 0 <= j < i ==> s@[j] != c,
        decreases n - i,
    {
        if s.get_char(i) == c {
            return true;
        }
        i = i + 1;
    }
    false
}

/// One row of the guess board, as the presentation reads it: a finished row,
/// the row being typed, or a row no guess has reached.
pub enum GuessRow {
    Empty,
    Pending(Vec<GuessedLetter>),
    Completed(Vec<GuessedLetter>),
}

impl Guess for GuessRow {
    open spec fn letters_view(&self) -> Seq<GuessedLetter> {
        match self {
            GuessRow::Empty => Seq::empty(),
            GuessRow::Pending(v) => v@,
            GuessRow::Completed(v) => v@,
        }
    }

    open spec fn pending_view(&self) -> bool {
        self is Pending
    }

    fn is_pending(&self) -> (r: bool) {
        match self {
            GuessRow::Pending(_) => true,
            _ => false,
        }
    }

    fn letters(&self) -> (v: Vec<GuessedLetter>) {
        match self {
            GuessRow::Empty => {
                let v: Vec<GuessedLetter> = Vec::new();
                proof {
                    assert(v@ =~= Seq::<GuessedLetter>::empty());
                }
                v
            },
            GuessRow::Pending(v) => copy_letters(v),
            GuessRow::Completed(v) => copy_letters(v),
        }
    }
}

} // verus!
