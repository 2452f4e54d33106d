//! Guess storage: the ordered list of guesses made so far and the index of
//! the row under active edit.
//!
//! Rows are dense and assigned in submission order: row 0 holds the first
//! guess and every earlier row is a finished five-letter guess. The last row
//! is the active guess, the only one still editable.

use vstd::prelude::*;

verus! {

/// Length of the target word, of every finished guess, and column count of
/// the board.
pub const WORD_LEN: usize = 5;

/// Ordered collection of guesses plus the index of the active row.
pub struct GuessStore {
    /// Guesses in submission order; the last entry is the active guess.
    pub guesses: Vec<Vec<char>>,
    /// Row index of the guess under active edit, always the last row.
    pub current_index: usize,
}

impl View for GuessStore {
    type V = Seq<Seq<char>>;

    open spec fn view(&self) -> Seq<Seq<char>> {
        self.guesses@.map_values(|g: Vec<char>| g@)
    }
}

impl GuessStore {
    /// The guess currently being edited.
    pub open spec fn spec_active(self) -> Seq<char> {
        self@[self.current_index as int]
    }

    /// Well-formedness: `current_index` addresses the last row and is a valid
    /// row index below `rows`; every earlier row holds a finished five-letter
    /// guess; the active guess never exceeds five letters.
    pub open spec fn wf(self, rows: int) -> bool {
        &&& self@.len() == self.current_index + 1
        &&& (self.current_index as int) < rows
        &&& (forall|i: int| 0 <= i < self.current_index ==> self@[i].len() == WORD_LEN)
        &&& self.spec_active().len() <= WORD_LEN
    }

    /// A fresh store: a single empty guess at row 0.
    pub fn new() -> (s: GuessStore)
        ensures
            s@ =~= seq![Seq::<char>::empty()],
            s.current_index == 0,
    {
        let mut guesses: Vec<Vec<char>> = Vec::new();
        guesses.push(Vec::new());
        GuessStore { guesses, current_index: 0 }
    }

    /// Row index of the active guess.
    pub fn get_guess_index(&self) -> (i: usize)
        ensures
            i == self.current_index,
    {
        self.current_index
    }

    /// Number of rows the store holds so far.
    pub fn row_count(&self) -> (n: usize)
        ensures
            n == self@.len(),
    {
        self.guesses.len()
    }

    /// Length of the active guess.
    pub fn active_len(&self) -> (n: usize)
        requires
            (self.current_index as int) < self@.len(),
        ensures
            n == self.spec_active().len(),
    {
        self.guesses[self.current_index].len()
    }

    /// Read-only access to the guess at row `row`.
    pub fn guess_at(&self, row: usize) -> (g: &Vec<char>)
        requires
            (row as int) < self@.len(),
        ensures
            g@ == self@[row as int],
    {
        &self.guesses[row]
    }

    /// Appends `c` to the active guess.
    pub fn push_letter(&mut self, c: char)
        requires
            (old(self).current_index as int) < old(self)@.len(),
            old(self).spec_active().len() < WORD_LEN,
        ensures
            final(self)@ =~= old(self)@.update(
                old(self).current_index as int,
                old(self).spec_active().push(c),
            ),
            final(self).current_index == old(self).current_index,
    {
        self.guesses[self.current_index].push(c);
    }

    /// Removes the last letter of the active guess.
    pub fn pop_letter(&mut self)
        requires
            (old(self).current_index as int) < old(self)@.len(),
            old(self).spec_active().len() > 0,
        ensures
            final(self)@ =~= old(self)@.update(
                old(self).current_index as int,
                old(self).spec_active().drop_last(),
            ),
            final(self).current_index == old(self).current_index,
    {
        self.guesses[self.current_index].pop();
    }

    /// Opens a fresh empty row after the active one and moves the edit index
    /// onto it.
    pub fn start_next_row(&mut self)
        requires
            old(self)@.len() == old(self).current_index + 1,
            old(self).current_index < usize::MAX,
        ensures
            final(self)@ =~= old(self)@.push(Seq::<char>::empty()),
            final(self).current_index == old(self).current_index + 1,
    {
        self.guesses.push(Vec::new());
        self.current_index = self.current_index + 1;
    }
}

} // verus!
