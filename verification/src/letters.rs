//! Per-letter feedback grades and the keyboard letter tracker.

use vstd::prelude::*;

verus! {

/// Feedback grade for a single guessed letter.
#[derive(Clone, Copy, Debug, PartialEq, Eq, Structural)]
pub enum LetterState {
    RightPosition,
    WrongPosition,
    NotChecked,
    NotOccurring,
}

impl Default for LetterState {
    fn default() -> (r: Self)
        ensures
            r == LetterState::NotChecked,
    {
        LetterState::NotChecked
    }
}

/// A typed character together with its feedback grade.
#[derive(Clone, Copy, Debug, PartialEq, Eq)]
pub struct GuessedLetter {
    pub value: char,
    pub state: LetterState,
}

impl GuessedLetter {
    pub fn new(value: char, state: LetterState) -> (r: Self)
        ensures
            r == (GuessedLetter { value, state }),
    {
        Self { value, state }
    }
}

impl Default for GuessedLetter {
    fn default() -> (r: Self)
        ensures
            r == (GuessedLetter { value: ' ', state: LetterState::NotChecked }),
    {
        Self { value: ' ', state: LetterState::NotChecked }
    }
}

/// The number of letters the tracker follows: the lowercase ASCII alphabet.
pub const ALPHABET_LEN: usize = 26;

/// True for the lowercase ASCII letters, the only characters the tracker follows.
pub open spec fn is_tracked_letter(c: char) -> bool {
    'a' as u32 <= c as u32 && c as u32 <= 'z' as u32
}

/// Tracker slot of a lowercase ASCII letter: 0 for 'a' through 25 for 'z'.
pub open spec fn letter_index(c: char) -> int {
    c as u32 - 'a' as u32
}

/// One merge step of the tracker: a letter outside the alphabet is ignored,
/// and a letter already graded `RightPosition` keeps that grade.
pub open spec fn spec_update(t: Seq<LetterState>, c: char, s: LetterState) -> Seq<LetterState> {
    if is_tracked_letter(c) && t[letter_index(c)] != LetterState::RightPosition {
        t.update(letter_index(c), s)
    } else {
        t
    }
}

/// Merging a whole guess into the tracker, letter by letter, in order.
pub open spec fn spec_update_many(t: Seq<LetterState>, gs: Seq<GuessedLetter>) -> Seq<LetterState>
    decreases gs.len(),
{
    if gs.len() == 0 {
        t
    } else {
        spec_update_many(spec_update(t, gs[0].value, gs[0].state), gs.drop_first())
    }
}

/// The grade the tracker reports for a character.
pub open spec fn spec_state(t: Seq<LetterState>, c: char) -> LetterState {
    if is_tracked_letter(c) {
        t[letter_index(c)]
    } else {
        LetterState::NotChecked
    }
}

/// Whether std grades a character beyond ASCII as alphabetic.
pub uninterp spec fn is_alphabetic_beyond_ascii(c: char) -> bool;

/// A lowercase ASCII letter.
pub open spec fn is_ascii_lowercase_letter(c: char) -> bool {
    'a' as u32 <= c as u32 && c as u32 <= 'z' as u32
}

/// An uppercase ASCII letter.
pub open spec fn is_ascii_uppercase_letter(c: char) -> bool {
    'A' as u32 <= c as u32 && c as u32 <= 'Z' as u32
}

/// Whether a character may be typed into a guess: alphabetic, as std grades
/// it. Within ASCII that is exactly the letters; beyond ASCII, as std
/// decides.
pub open spec fn is_alphabetic_char(c: char) -> bool {
    if (c as u32) < 128 {
        is_ascii_lowercase_letter(c) || is_ascii_uppercase_letter(c)
    } else {
        is_alphabetic_beyond_ascii(c)
    }
}

/// Relies on char::is_alphabetic: the result depends on the character alone,
/// ASCII letters are alphabetic, and no other ASCII character is.
#[verifier::external_body]
pub(crate) fn char_is_alphabetic(c: char) -> (r: bool)
    ensures
        r == is_alphabetic_char(c),
        (c as u32) >= 128 ==> r == is_alphabetic_beyond_ascii(c),
{
    c.is_alphabetic()
}

/// Best-known grade for every alphabet letter, shown on the keyboard hints.
pub struct Letters {
    values: Vec<LetterState>,
}

impl View for Letters {
    type V = Seq<LetterState>;

    closed spec fn view(&self) -> Seq<LetterState> {
        self.values@
    }
}

impl Letters {
    /// One slot per alphabet letter.
    pub open spec fn wf(&self) -> bool {
        self@.len() == ALPHABET_LEN
    }

    pub fn new() -> (r: Self)
        ensures
            r.wf(),
            forall|i: int| 0 <= i < ALPHABET_LEN ==> r@[i] == LetterState::NotChecked,
    {
        let mut values: Vec<LetterState> = Vec::new();
        let mut i: usize = 0;
        while i < ALPHABET_LEN
            invariant
                i <= ALPHABET_LEN,
                values@.len() == i,
                forall|j: int| 0 <= j < i ==> values@[j] == LetterState::NotChecked,
            decreases ALPHABET_LEN - i,
        {
            values.push(LetterState::NotChecked);
            i = i + 1;
        }
        Self { values }
    }

    pub fn state(&self, letter: char) -> (r: LetterState)
        requires
            self.wf(),
        ensures
            r == spec_state(self@, letter),
    {
        let u = letter as u32;
        if 'a' as u32 <= u && u <= 'z' as u32 {
            self.values[(u - 'a' as u32) as usize]
        } else {
            LetterState::NotChecked
        }
    }

    pub fn update(&mut self, letter: char, letter_state: LetterState)
        requires
            old(self).wf(),
        ensures
            final(self).wf(),
            final(self)@ == spec_update(old(self)@, letter, letter_state),
    {
        let u = letter as u32;
        if 'a' as u32 <= u && u <= 'z' as u32 {
            let idx = (u - 'a' as u32) as usize;
            match self.values[idx] {
                LetterState::RightPosition => {},
                _ => {
                    self.values.set(idx, letter_state);
                },
            }
        }
        proof {
            assert(self@ =~= spec_update(old(self)@, letter, letter_state));
        }
    }

    pub fn update_many(&mut self, letters: &Vec<GuessedLetter>)
        requires
            old(self).wf(),
        ensures
            final(self).wf(),
            final(self)@ == spec_update_many(old(self)@, letters@),
    {
        let n = letters.len();
        let mut i: usize = 0;
        while i < n
            invariant
                i <= n,
                n == letters@.len(),
                self.wf(),
                self@ == spec_update_many(old(self)@, letters@.take(i as int)),
            decreases n - i,
        {
            proof {
                lemma_update_many_snoc(old(self)@, letters@, i as int);
            }
            self.update(letters[i].value, letters[i].state);
            i = i + 1;
        }
        proof {
            assert(letters@.take(n as int) =~= letters@);
        }
    }
}

impl Clone for Letters {
    fn clone(&self) -> (r: Self)
        ensures
            r@ == self@,
    {
        let mut values: Vec<LetterState> = Vec::new();
        let mut i: usize = 0;
        let n = self.values.len();
        while i < n
            invariant
                i <= n,
                n == self.values@.len(),
                values@ =~= self.values@.take(i as int),
            decreases n - i,
        {
            values.push(self.values[i]);
            i = i + 1;
        }
        proof {
            assert(values@ =~= self.values@);
        }
        Self { values }
    }
}

/// Merging one more letter at the end equals one more merge step afterwards.
proof fn lemma_update_many_push(t: Seq<LetterState>, gs: Seq<GuessedLetter>, g: GuessedLetter)
    ensures
        spec_update_many(t, gs.push(g)) == spec_update(spec_update_many(t, gs), g.value, g.state),
    decreases gs.len(),
{
    if gs.len() == 0 {
        assert(gs.push(g).drop_first() =~= gs);
        assert(spec_update_many(t, gs.push(g)) == spec_update_many(
            spec_update(t, g.value, g.state),
            gs,
        ));
    } else {
        assert(gs.push(g).drop_first() =~= gs.drop_first().push(g));
        lemma_update_many_push(spec_update(t, gs[0].value, gs[0].state), gs.drop_first(), g);
    }
}

/// A prefix one longer merges the next letter on top of the shorter prefix.
proof fn lemma_update_many_snoc(t: Seq<LetterState>, gs: Seq<GuessedLetter>, i: int)
    requires
        0 <= i < gs.len(),
    ensures
        spec_update_many(t, gs.take(i + 1)) == spec_update(
            spec_update_many(t, gs.take(i)),
            gs[i].value,
            gs[i].state,
        ),
{
    assert(gs.take(i + 1) =~= gs.take(i).push(gs[i]));
    lemma_update_many_push(t, gs.take(i), gs[i]);
}

/// Once the tracker grades a letter `RightPosition`, no later merge changes
/// that grade: `RightPosition` is sticky.
pub proof fn lemma_right_position_sticky(t: Seq<LetterState>, gs: Seq<GuessedLetter>, c: char)
    requires
        t.len() == ALPHABET_LEN,
        spec_state(t, c) == LetterState::RightPosition,
    ensures
        spec_state(spec_update_many(t, gs), c) == LetterState::RightPosition,
    decreases gs.len(),
{
    if gs.len() > 0 {
        lemma_right_position_sticky(spec_update(t, gs[0].value, gs[0].state), gs.drop_first(), c);
    }
}

} // verus!
