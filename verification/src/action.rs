//! Input action decoding: mapping a raw key identifier to a semantic action.
//!
//! The on-screen keyboard emits a closed set of identifiers: the letter keys,
//! the submit key `"ENTER"`, and the backspace key `"<-"`. Every identifier
//! maps to exactly one action, so decoding has no error case: anything other
//! than the two control keys is a letter to append.

use vstd::prelude::*;
use vstd::string::StrSliceExecFns;

verus! {

/// Semantic action decoded from one raw key identifier.
#[derive(Clone, Copy, Debug, PartialEq, Eq, Structural)]
pub enum InputAction {
    /// Append this letter to the active guess.
    Append(char),
    /// Remove the last letter of the active guess.
    Delete,
    /// Submit the active guess for evaluation.
    Submit,
}

/// The identifier the submit key emits.
pub open spec fn submit_key() -> Seq<char> {
    seq!['E', 'N', 'T', 'E', 'R']
}

/// The identifier the backspace key emits.
pub open spec fn delete_key() -> Seq<char> {
    seq!['<', '-']
}

/// The action a raw key identifier stands for: `"ENTER"` submits, `"<-"`
/// deletes, and anything else appends its first character.
pub open spec fn spec_decode(key: Seq<char>) -> InputAction {
    if key == submit_key() {
        InputAction::Submit
    } else if key == delete_key() {
        InputAction::Delete
    } else {
        InputAction::Append(key[0])
    }
}

/// Decodes a raw key identifier into its semantic action.
pub fn decode(key: &str) -> (a: InputAction)
    requires
        key@.len() >= 1,
    ensures
        a == spec_decode(key@),
{
    let len: usize = key.unicode_len();
    if len == 5 && key.get_char(0) == 'E' && key.get_char(1) == 'N' && key.get_char(2) == 'T'
        && key.get_char(3) == 'E' && key.get_char(4) == 'R' {
        proof {
            assert(key@ =~= submit_key());
        }
        InputAction::Submit
    } else if len == 2 && key.get_char(0) == '<' && key.get_char(1) == '-' {
        proof {
            assert(key@ =~= delete_key());
        }
        InputAction::Delete
    } else {
        proof {
            assert(key@ != submit_key());
            assert(key@ != delete_key());
        }
        InputAction::Append(key.get_char(0))
    }
}

} // verus!
