use wordle::action::{decode, InputAction};
use wordle::engine::RejectReason;
use wordle::feedback::{evaluate, LetterFeedback};

fn word(s: &str) -> Vec<char> {
    s.chars().collect()
}

#[test]
fn decode_enter_is_submit() {
    assert_eq!(decode("ENTER"), InputAction::Submit);
}

#[test]
fn decode_back_is_delete() {
    assert_eq!(decode("<-"), InputAction::Delete);
}

#[test]
fn decode_letter_is_append() {
    assert_eq!(decode("Q"), InputAction::Append('Q'));
    assert_eq!(decode("A"), InputAction::Append('A'));
    assert_eq!(decode("Z"), InputAction::Append('Z'));
}

#[test]
fn duplicate_letters_consume_the_pool() {
    let fb = evaluate(&word("LLAMA"), &word("ALLOW"));
    assert_eq!(
        fb,
        vec![
            LetterFeedback::Present,
            LetterFeedback::Correct,
            LetterFeedback::Present,
            LetterFeedback::Absent,
            LetterFeedback::Absent,
        ]
    );
}

#[test]
fn exact_match_is_all_correct() {
    let fb = evaluate(&word("CRANE"), &word("CRANE"));
    assert_eq!(fb, vec![LetterFeedback::Correct; 5]);
}

#[test]
fn disjoint_letters_are_all_absent() {
    let fb = evaluate(&word("BUMPY"), &word("CRANE"));
    assert_eq!(fb, vec![LetterFeedback::Absent; 5]);
}

#[test]
fn misplaced_letters_are_present() {
    // Every letter of the target occurs, each in the wrong spot.
    let fb = evaluate(&word("RANEC"), &word("CRANE"));
    assert_eq!(fb, vec![LetterFeedback::Present; 5]);
}

#[test]
fn repeated_guess_letter_single_target_copy() {
    // Target holds one E; the guess offers three. Only the exact match at
    // the last position claims it, the earlier copies score Absent.
    let fb = evaluate(&word("EEEXE"), &word("CRANE"));
    assert_eq!(
        fb,
        vec![
            LetterFeedback::Absent,
            LetterFeedback::Absent,
            LetterFeedback::Absent,
            LetterFeedback::Absent,
            LetterFeedback::Correct,
        ]
    );
}

#[test]
fn submit_rejection_carries_the_length_message() {
    let m = RejectReason::SubmitRejected.message();
    assert_eq!(m, Some("5 characters required to submit guess".to_string()));
}

#[test]
fn silent_rejections_carry_no_message() {
    assert_eq!(RejectReason::AppendRejected.message(), None);
    assert_eq!(RejectReason::DeleteRejected.message(), None);
    assert_eq!(RejectReason::ActionIgnored.message(), None);
}
