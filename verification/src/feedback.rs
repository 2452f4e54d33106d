//! Letter evaluation: scoring a submitted guess against the target word.
//!
//! Scoring follows the canonical two-pass rule. Pass one marks every position
//! where the guess letter equals the target letter as `Correct` and consumes
//! that target letter from the pool of letters still available. Pass two walks
//! the remaining positions left to right: a letter is `Present` if the pool
//! still holds an unconsumed copy of it, and `Absent` otherwise. This is the
//! only policy that scores duplicate letters correctly.

use vstd::prelude::*;

verus! {

/// Per-position classification of a submitted guess letter.
#[derive(Clone, Copy, Debug, PartialEq, Eq, Structural)]
pub enum LetterFeedback {
    /// The letter stands at this position in the target word.
    Correct,
    /// The letter occurs elsewhere in the target word, and enough copies
    /// remain after exact matches and earlier presence matches are consumed.
    Present,
    /// No unconsumed copy of the letter remains in the target word.
    Absent,
}

/// How many of the first `n` target positions hold the letter `c` without
/// being an exact match: the copies of `c` that pass one leaves in the pool.
pub open spec fn pool_count(guess: Seq<char>, target: Seq<char>, c: char, n: int) -> int
    decreases n,
{
    if n <= 0 {
        0
    } else {
        pool_count(guess, target, c, n - 1) + if target[n - 1] == c && guess[n - 1] != target[n - 1] {
            1int
        } else {
            0int
        }
    }
}

/// How many of the first `i` guess positions hold the letter `c` without
/// being an exact match: the positions that claim a pool copy of `c` before
/// position `i` does.
pub open spec fn claimed_count(guess: Seq<char>, target: Seq<char>, c: char, i: int) -> int
    decreases i,
{
    if i <= 0 {
        0
    } else {
        claimed_count(guess, target, c, i - 1) + if guess[i - 1] == c && guess[i - 1] != target[i - 1] {
            1int
        } else {
            0int
        }
    }
}

/// The feedback the two-pass rule assigns to position `i`. A non-exact match
/// is `Present` exactly when the earlier non-exact occurrences of the same
/// letter have not yet claimed every pool copy of it.
pub open spec fn spec_feedback_at(guess: Seq<char>, target: Seq<char>, i: int) -> LetterFeedback {
    if guess[i] == target[i] {
        LetterFeedback::Correct
    } else if claimed_count(guess, target, guess[i], i) < pool_count(
        guess,
        target,
        guess[i],
        guess.len() as int,
    ) {
        LetterFeedback::Present
    } else {
        LetterFeedback::Absent
    }
}

/// The full feedback sequence for a guess, one label per position.
pub open spec fn spec_evaluate(guess: Seq<char>, target: Seq<char>) -> Seq<LetterFeedback> {
    Seq::new(guess.len(), |i: int| spec_feedback_at(guess, target, i))
}

/// Whether every label of a feedback sequence is `Correct`: the submitted
/// guess equals the target word.
pub open spec fn spec_all_correct(fb: Seq<LetterFeedback>) -> bool {
    forall|i: int| 0 <= i < fb.len() ==> fb[i] == LetterFeedback::Correct
}

/// Scores `guess` against `target`, producing one label per position as the
/// two-pass rule assigns it.
pub fn evaluate(guess: &Vec<char>, target: &Vec<char>) -> (fb: Vec<LetterFeedback>)
    requires
        guess@.len() == target@.len(),
    ensures
        fb@ == spec_evaluate(guess@, target@),
{
    let n = guess.len();
    let mut fb: Vec<LetterFeedback> = Vec::new();
    let mut i: usize = 0;
    while i < n
        invariant
            n == guess@.len(),
            n == target@.len(),
            i <= n,
            fb@.len() == i,
            forall|j: int| 0 <= j < i ==> fb@[j] == spec_feedback_at(guess@, target@, j),
        decreases n - i,
    {
        if guess[i] == target[i] {
            fb.push(LetterFeedback::Correct);
        } else {
            let c = guess[i];
            let mut pool: usize = 0;
            let mut k: usize = 0;
            while k < n
                invariant
                    n == guess@.len(),
                    n == target@.len(),
                    k <= n,
                    pool <= k,
                    pool == pool_count(guess@, target@, c, k as int),
                decreases n - k,
            {
                if target[k] == c && guess[k] != target[k] {
                    pool = pool + 1;
                }
                k = k + 1;
            }
            let mut claimed: usize = 0;
            let mut j: usize = 0;
            while j < i
                invariant
                    n == guess@.len(),
                    n == target@.len(),
                    i <= n,
                    j <= i,
                    claimed <= j,
                    claimed == claimed_count(guess@, target@, c, j as int),
                decreases i - j,
            {
                if guess[j] == c && guess[j] != target[j] {
                    claimed = claimed + 1;
                }
                j = j + 1;
            }
            if claimed < pool {
                fb.push(LetterFeedback::Present);
            } else {
                fb.push(LetterFeedback::Absent);
            }
        }
        i = i + 1;
    }
    proof {
        assert(fb@ =~= spec_evaluate(guess@, target@));
    }
    fb
}

/// Reports whether every label in `fb` is `Correct`.
pub fn all_correct(fb: &Vec<LetterFeedback>) -> (r: bool)
    ensures
        r == spec_all_correct(fb@),
{
    let n = fb.len();
    let mut i: usize = 0;
    while i < n
        invariant
            n == fb@.len(),
            i <= n,
            forall|j: int| 0 <= j < i ==> fb@[j] == LetterFeedback::Correct,
        decreases n - i,
    {
        if !matches!(fb[i], LetterFeedback::Correct) {
            return false;
        }
        i = i + 1;
    }
    true
}

} // verus!
