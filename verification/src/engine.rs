//! The guess engine: applies decoded input actions to the guess store under
//! the validation rules, scores submitted guesses, and tracks the game phase.
//!
//! The engine owns the store, the target word, and the run state. Every
//! action is applied atomically: a call either leaves the engine unchanged
//! (a rejected or ignored action) or performs exactly the documented
//! transition. Once the game is `Won` or `Lost`, every action is ignored
//! until an explicit reset.

use vstd::prelude::*;

use crate::action::InputAction;
use crate::feedback::{all_correct, evaluate, spec_all_correct, spec_evaluate, LetterFeedback};
use crate::store::{GuessStore, WORD_LEN};

verus! {

/// Overall game phase. `Won` and `Lost` are terminal until a reset.
#[derive(Clone, Copy, Debug, PartialEq, Eq, Structural)]
pub enum RunState {
    /// The game is in progress and actions are processed.
    Playing,
    /// A submitted guess matched the target word exactly.
    Won,
    /// The last row was submitted without matching the target word.
    Lost,
}

/// Why an action left the engine unchanged.
#[derive(Clone, Copy, Debug, PartialEq, Eq, Structural)]
pub enum RejectReason {
    /// Append with the active guess already at full length; silent.
    AppendRejected,
    /// Delete with the active guess empty; silent.
    DeleteRejected,
    /// Submit with the active guess not at full length; surfaced to the
    /// player as a one-line message.
    SubmitRejected,
    /// Any action received while the game is not in the `Playing` phase.
    ActionIgnored,
}

impl RejectReason {
    /// Whether a rejection for this reason carries a user-visible message.
    pub open spec fn spec_has_message(self) -> bool {
        self is SubmitRejected
    }

    /// The user-visible message for this rejection: only a short submit
    /// carries one; the silent rejections yield `None`.
    pub fn message(&self) -> (m: Option<String>)
        ensures
            m is Some <==> self.spec_has_message(),
            m matches Some(s) ==> s@ == "5 characters required to submit guess"@,
    {
        match self {
            RejectReason::SubmitRejected => Some("5 characters required to submit guess".to_owned()),
            _ => None,
        }
    }
}

/// What one call of [`GuessEngine::apply`] did.
#[derive(Debug)]
pub enum EngineResult {
    /// The action mutated the engine state and the game goes on.
    Applied,
    /// The action left the engine unchanged, for the given reason.
    Rejected(RejectReason),
    /// The submitted guess ended the game; carries the terminal phase and
    /// the feedback of the final row.
    GameEnded(RunState, Vec<LetterFeedback>),
}

/// The guess engine: guess store, target word, row budget, game phase, and
/// the feedback of every submitted row.
pub struct GuessEngine {
    /// The guesses made so far and the row under edit.
    pub store: GuessStore,
    /// The hidden target word, fixed for the duration of one game.
    pub target: Vec<char>,
    /// Number of rows on the board: the maximum number of attempts.
    pub rows: usize,
    /// Current game phase.
    pub state: RunState,
    /// Feedback of each submitted row, in row order, immutable once created.
    pub feedbacks: Vec<Vec<LetterFeedback>>,
}

impl GuessEngine {
    /// The feedback rows as a sequence of sequences.
    pub open spec fn feedbacks_view(self) -> Seq<Seq<LetterFeedback>> {
        self.feedbacks@.map_values(|f: Vec<LetterFeedback>| f@)
    }

    /// Number of rows already submitted: every feedback row belongs to one
    /// submitted guess.
    pub open spec fn spec_submitted(self) -> int {
        self.feedbacks@.len() as int
    }

    /// Well-formedness, preserved by every method:
    /// - the target word has exactly five letters and the board at least one
    ///   row;
    /// - the store is well formed for the row budget: `current_index` is the
    ///   last row and a valid row index, earlier rows are finished guesses,
    ///   and the active guess holds at most five letters;
    /// - while playing, exactly the rows before the active one are submitted;
    ///   in a terminal phase the active row is submitted as well and holds a
    ///   full guess;
    /// - every feedback row is the evaluation of its guess against the
    ///   target;
    /// - `Won` means the last feedback is all `Correct`; `Lost` means the
    ///   last row was used up without an exact match.
    pub open spec fn wf(self) -> bool {
        &&& self.target@.len() == WORD_LEN
        &&& self.rows >= 1
        &&& self.store.wf(self.rows as int)
        &&& (self.state is Playing ==> self.spec_submitted() == self.store.current_index)
        &&& (self.state !is Playing ==> {
            &&& self.spec_submitted() == self.store.current_index + 1
            &&& self.store.spec_active().len() == WORD_LEN
        })
        &&& (forall|i: int|
            0 <= i < self.spec_submitted() ==> self.feedbacks_view()[i] == spec_evaluate(
                self.store@[i],
                self.target@,
            ))
        &&& (self.state is Won ==> spec_all_correct(self.feedbacks_view().last()))
        &&& (self.state is Lost ==> {
            &&& self.store.current_index + 1 == self.rows
            &&& !spec_all_correct(self.feedbacks_view().last())
        })
    }

    /// A fresh engine for one game: the given target word and row budget, a
    /// store with a single empty guess at row 0, no feedback yet, and the
    /// `Playing` phase.
    pub fn new(target: Vec<char>, rows: usize) -> (e: GuessEngine)
        requires
            target@.len() == WORD_LEN,
            rows >= 1,
        ensures
            e.wf(),
            e.target@ == target@,
            e.rows == rows,
            e.state is Playing,
            e.store@ =~= seq![Seq::<char>::empty()],
            e.store.current_index == 0,
            e.feedbacks@.len() == 0,
    {
        GuessEngine {
            store: GuessStore::new(),
            target,
            rows,
            state: RunState::Playing,
            feedbacks: Vec::new(),
        }
    }

    /// Restarts the game: recreates the store with a single empty guess at
    /// row 0, clears all feedback, and returns to the `Playing` phase. The
    /// target word and the row budget are kept.
    pub fn reset(&mut self)
        requires
            old(self).wf(),
        ensures
            final(self).wf(),
            final(self).target@ == old(self).target@,
            final(self).rows == old(self).rows,
            final(self).state is Playing,
            final(self).store@ =~= seq![Seq::<char>::empty()],
            final(self).store.current_index == 0,
            final(self).feedbacks@.len() == 0,
    {
        self.store = GuessStore::new();
        self.feedbacks = Vec::new();
        self.state = RunState::Playing;
    }

    /// Applies one decoded action. Every call is atomic: it either performs
    /// exactly the documented transition or leaves the engine unchanged.
    ///
    /// - Outside the `Playing` phase every action is ignored.
    /// - `Append` adds the letter to the active guess unless it is full;
    ///   a full guess rejects silently.
    /// - `Delete` removes the last letter of the active guess unless it is
    ///   empty; an empty guess rejects silently, so repeating `Delete` on an
    ///   empty guess leaves the state equal before and after every call.
    /// - `Submit` with an active guess shorter than five letters rejects
    ///   with a user-visible message and changes nothing. A full guess is
    ///   scored against the target: an exact match ends the game `Won`; a
    ///   miss on the last row ends it `Lost`; otherwise a fresh empty row is
    ///   opened and the edit index advances.
    pub fn apply(&mut self, action: InputAction) -> (r: EngineResult)
        requires
            old(self).wf(),
        ensures
            final(self).wf(),
            final(self).target@ == old(self).target@,
            final(self).rows == old(self).rows,
            old(self).state !is Playing ==> {
                &&& *final(self) == *old(self)
                &&& r matches EngineResult::Rejected(RejectReason::ActionIgnored)
            },
            old(self).state is Playing ==> match action {
                InputAction::Append(c) => {
                    if old(self).store.spec_active().len() < WORD_LEN {
                        &&& final(self).store@ =~= old(self).store@.update(
                            old(self).store.current_index as int,
                            old(self).store.spec_active().push(c),
                        )
                        &&& final(self).store.current_index == old(self).store.current_index
                        &&& final(self).state == old(self).state
                        &&& final(self).feedbacks == old(self).feedbacks
                        &&& r is Applied
                    } else {
                        &&& *final(self) == *old(self)
                        &&& r matches EngineResult::Rejected(RejectReason::AppendRejected)
                    }
                },
                InputAction::Delete => {
                    if old(self).store.spec_active().len() > 0 {
                        &&& final(self).store@ =~= old(self).store@.update(
                            old(self).store.current_index as int,
                            old(self).store.spec_active().drop_last(),
                        )
                        &&& final(self).store.current_index == old(self).store.current_index
                        &&& final(self).state == old(self).state
                        &&& final(self).feedbacks == old(self).feedbacks
                        &&& r is Applied
                    } else {
                        &&& *final(self) == *old(self)
                        &&& r matches EngineResult::Rejected(RejectReason::DeleteRejected)
                    }
                },
                InputAction::Submit => {
                    if old(self).store.spec_active().len() != WORD_LEN {
                        &&& *final(self) == *old(self)
                        &&& r matches EngineResult::Rejected(RejectReason::SubmitRejected)
                    } else {
                        let fb = spec_evaluate(old(self).store.spec_active(), old(self).target@);
                        &&& final(self).feedbacks_view() =~= old(self).feedbacks_view().push(fb)
                        &&& if spec_all_correct(fb) {
                            &&& final(self).state is Won
                            &&& final(self).store == old(self).store
                            &&& (r matches EngineResult::GameEnded(st, f) && st is Won && f@ == fb)
                        } else if old(self).store.current_index + 1 == old(self).rows {
                            &&& final(self).state is Lost
                            &&& final(self).store == old(self).store
                            &&& (r matches EngineResult::GameEnded(st, f) && st is Lost && f@
                                == fb)
                        } else {
                            &&& final(self).state is Playing
                            &&& final(self).store@ =~= old(self).store@.push(Seq::<char>::empty())
                            &&& final(self).store.current_index == old(self).store.current_index
                                + 1
                            &&& r is Applied
                        }
                    }
                },
            },
    {
        let ghost pre = *self;
        match self.state {
            RunState::Playing => {},
            _ => {
                return EngineResult::Rejected(RejectReason::ActionIgnored);
            },
        }
        match action {
            InputAction::Append(c) => {
                if self.store.active_len() < WORD_LEN {
                    self.store.push_letter(c);
                    proof {
                        self.lemma_rows_still_evaluated(pre);
                    }
                    EngineResult::Applied
                } else {
                    EngineResult::Rejected(RejectReason::AppendRejected)
                }
            },
            InputAction::Delete => {
                if self.store.active_len() > 0 {
                    self.store.pop_letter();
                    proof {
                        self.lemma_rows_still_evaluated(pre);
                    }
                    EngineResult::Applied
                } else {
                    EngineResult::Rejected(RejectReason::DeleteRejected)
                }
            },
            InputAction::Submit => {
                if self.store.active_len() != WORD_LEN {
                    return EngineResult::Rejected(RejectReason::SubmitRejected);
                }
                let row = self.store.get_guess_index();
                let fb = evaluate(self.store.guess_at(row), &self.target);
                let fb_out = copy_feedback_row(&fb);
                self.feedbacks.push(fb);
                proof {
                    assert(self.feedbacks_view() =~= pre.feedbacks_view().push(
                        spec_evaluate(pre.store.spec_active(), pre.target@),
                    ));
                }
                if all_correct(&fb_out) {
                    self.state = RunState::Won;
                    EngineResult::GameEnded(RunState::Won, fb_out)
                } else if row + 1 == self.rows {
                    self.state = RunState::Lost;
                    EngineResult::GameEnded(RunState::Lost, fb_out)
                } else {
                    self.store.start_next_row();
                    proof {
                        assert(forall|i: int|
                            0 <= i < self.feedbacks@.len() ==> self.store@[i]
                                == pre.store@[i]);
                    }
                    EngineResult::Applied
                }
            },
        }
    }

    /// Invariant: the edit index is always a valid row index below the row
    /// budget, and it addresses the last row: the store holds exactly
    /// `current_index + 1` guesses. Exceeding the budget is impossible, not
    /// an out-of-bounds access.
    pub proof fn lemma_index_always_in_bounds(self)
        requires
            self.wf(),
        ensures
            self.store.current_index < self.rows,
            self.store@.len() == self.store.current_index + 1,
    {
    }

    /// Invariant: the active guess always holds between zero and five
    /// letters.
    pub proof fn lemma_active_guess_bounded(self)
        requires
            self.wf(),
        ensures
            0 <= self.store.spec_active().len() <= WORD_LEN,
    {
    }

    /// After a mutation that touches only the active guess, every submitted
    /// row and its feedback are unchanged, so the rows stay evaluated
    /// against the target.
    proof fn lemma_rows_still_evaluated(self, pre: GuessEngine)
        requires
            pre.wf(),
            pre.state is Playing,
            self.feedbacks == pre.feedbacks,
            self.target == pre.target,
            self.store.current_index == pre.store.current_index,
            self.store@.len() == pre.store@.len(),
            forall|i: int| 0 <= i < pre.store.current_index ==> self.store@[i] == pre.store@[i],
        ensures
            forall|i: int|
                0 <= i < self.spec_submitted() ==> self.feedbacks_view()[i] == spec_evaluate(
                    self.store@[i],
                    self.target@,
                ),
    {
        assert forall|i: int| 0 <= i < self.spec_submitted() implies self.feedbacks_view()[i]
            == spec_evaluate(self.store@[i], self.target@) by {
            assert(self.feedbacks_view()[i] == pre.feedbacks_view()[i]);
            assert(self.store@[i] == pre.store@[i]);
        }
    }
}

/// Copies one feedback row element by element.
fn copy_feedback_row(fb: &Vec<LetterFeedback>) -> (r: Vec<LetterFeedback>)
    ensures
        r@ == fb@,
{
    let n = fb.len();
    let mut r: Vec<LetterFeedback> = Vec::new();
    let mut i: usize = 0;
    while i < n
        invariant
            n == fb@.len(),
            i <= n,
            r@ =~= fb@.subrange(0, i as int),
        decreases n - i,
    {
        r.push(fb[i]);
        i = i + 1;
    }
    proof {
        assert(r@ =~= fb@);
    }
    r
}

} // verus!
