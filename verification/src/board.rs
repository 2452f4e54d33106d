//! Board sync projection: the per-cell display updates a renderer must
//! apply to show the current engine state.
//!
//! The projection is a pure, stateless derivation. For every row the store
//! holds, and every column of the board, it emits the character at that
//! position (or none where the row's guess is shorter) and, for rows already
//! submitted, the feedback of that letter; unsubmitted rows carry no
//! feedback. The full payload is rebuilt on every call, so the rendered
//! board can never drift from the engine state.

use vstd::prelude::*;

use crate::engine::GuessEngine;
use crate::feedback::LetterFeedback;
use crate::store::WORD_LEN;

verus! {

/// One display update: which cell shows which character and, once the row is
/// submitted, which feedback color.
#[derive(Clone, Copy, Debug, PartialEq, Eq)]
pub struct CellUpdate {
    /// Row index of the cell.
    pub row: usize,
    /// Column index of the cell.
    pub column: usize,
    /// The letter shown in the cell, or `None` for a blank cell.
    pub character: Option<char>,
    /// The feedback of the letter, or `None` while the row is unsubmitted.
    pub feedback: Option<LetterFeedback>,
}

/// The display update that cell `(row, col)` of the board receives for the
/// state of `e`.
pub open spec fn spec_cell(e: GuessEngine, row: int, col: int) -> CellUpdate {
    CellUpdate {
        row: row as usize,
        column: col as usize,
        character: if col < e.store@[row].len() {
            Some(e.store@[row][col])
        } else {
            None
        },
        feedback: if row < e.spec_submitted() {
            Some(e.feedbacks_view()[row][col])
        } else {
            None
        },
    }
}

/// Projects the engine state onto the board: one update per cell of every
/// row the store holds, in row-major order.
pub fn project(e: &GuessEngine) -> (cells: Vec<CellUpdate>)
    requires
        e.wf(),
    ensures
        cells@.len() == e.store@.len() * WORD_LEN,
        forall|row: int, col: int|
            0 <= row < e.store@.len() && 0 <= col < WORD_LEN ==> cells@[row * WORD_LEN + col]
                == spec_cell(*e, row, col),
{
    let rows_held = e.store.row_count();
    let mut cells: Vec<CellUpdate> = Vec::new();
    let mut row: usize = 0;
    while row < rows_held
        invariant
            e.wf(),
            rows_held == e.store@.len(),
            row <= rows_held,
            cells@.len() == row * WORD_LEN,
            forall|r: int, c: int|
                0 <= r < row && 0 <= c < WORD_LEN ==> cells@[r * WORD_LEN + c] == spec_cell(
                    *e,
                    r,
                    c,
                ),
        decreases rows_held - row,
    {
        let g = e.store.guess_at(row);
        proof {
            if row < e.feedbacks@.len() {
                assert(e.feedbacks_view()[row as int].len() == e.store@[row as int].len());
                assert(e.store@[row as int].len() == WORD_LEN);
            }
        }
        let mut col: usize = 0;
        while col < WORD_LEN
            invariant
                e.wf(),
                rows_held == e.store@.len(),
                row < rows_held,
                col <= WORD_LEN,
                g@ == e.store@[row as int],
                row < e.feedbacks@.len() ==> e.feedbacks@[row as int]@.len() == WORD_LEN,
                cells@.len() == row * WORD_LEN + col,
                forall|r: int, c: int|
                    0 <= r < row && 0 <= c < WORD_LEN ==> cells@[r * WORD_LEN + c] == spec_cell(
                        *e,
                        r,
                        c,
                    ),
                forall|c: int|
                    0 <= c < col ==> cells@[row * WORD_LEN + c] == spec_cell(*e, row as int, c),
            decreases WORD_LEN - col,
        {
            let character = if col < g.len() {
                Some(g[col])
            } else {
                None
            };
            let feedback = if row < e.feedbacks.len() {
                Some(e.feedbacks[row][col])
            } else {
                None
            };
            cells.push(CellUpdate { row, column: col, character, feedback });
            col = col + 1;
        }
        row = row + 1;
    }
    cells
}

/// Round trip from editing to projection: however the active guess was
/// built up by appends and deletes, once it holds a full five letters the
/// projected characters of the active row are exactly the guess's letters
/// in column order.
pub proof fn lemma_project_round_trip(e: GuessEngine, cells: Seq<CellUpdate>)
    requires
        e.wf(),
        e.store.spec_active().len() == WORD_LEN,
        cells.len() == e.store@.len() * WORD_LEN,
        forall|row: int, col: int|
            0 <= row < e.store@.len() && 0 <= col < WORD_LEN ==> cells[row * WORD_LEN + col]
                == spec_cell(e, row, col),
    ensures
        forall|col: int|
            0 <= col < WORD_LEN ==> cells[e.store.current_index * WORD_LEN + col].character
                == Some(e.store.spec_active()[col]),
{
    assert forall|col: int|
        0 <= col < WORD_LEN implies cells[e.store.current_index * WORD_LEN + col].character
        == Some(e.store.spec_active()[col]) by {
        assert(cells[e.store.current_index * WORD_LEN + col] == spec_cell(
            e,
            e.store.current_index as int,
            col,
        ));
    }
}

} // verus!
