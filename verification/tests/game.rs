use wordle::action::{decode, InputAction};
use wordle::board::project;
use wordle::engine::{EngineResult, GuessEngine, RejectReason, RunState};
use wordle::feedback::LetterFeedback;

fn word(s: &str) -> Vec<char> {
    s.chars().collect()
}

fn new_game(target: &str) -> GuessEngine {
    GuessEngine::new(word(target), 6)
}

fn type_word(e: &mut GuessEngine, s: &str) {
    for c in s.chars() {
        e.apply(InputAction::Append(c));
    }
}

fn submit_word(e: &mut GuessEngine, s: &str) -> EngineResult {
    type_word(e, s);
    e.apply(InputAction::Submit)
}

#[test]
fn win_on_the_last_row() {
    let mut e = new_game("CRANE");
    for s in ["AUDIO", "SLOTH", "PERKY", "BUMPY", "GRIME"] {
        let r = submit_word(&mut e, s);
        assert!(matches!(r, EngineResult::Applied));
        assert_eq!(e.state, RunState::Playing);
    }
    assert_eq!(e.store.get_guess_index(), 5);
    let r = submit_word(&mut e, "CRANE");
    match r {
        EngineResult::GameEnded(st, fb) => {
            assert_eq!(st, RunState::Won);
            assert_eq!(fb, vec![LetterFeedback::Correct; 5]);
        }
        other => panic!("expected the game to end, got {:?}", other),
    }
    assert_eq!(e.state, RunState::Won);
    // No further row was created.
    assert_eq!(e.store.row_count(), 6);
    assert_eq!(e.store.get_guess_index(), 5);
}

#[test]
fn win_on_the_first_row() {
    let mut e = new_game("CRANE");
    let r = submit_word(&mut e, "CRANE");
    assert!(matches!(r, EngineResult::GameEnded(RunState::Won, _)));
    assert_eq!(e.state, RunState::Won);
    assert_eq!(e.store.row_count(), 1);
}

#[test]
fn loss_after_six_misses() {
    let mut e = new_game("CRANE");
    for s in ["AUDIO", "SLOTH", "PERKY", "BUMPY", "GRIME"] {
        let r = submit_word(&mut e, s);
        assert!(matches!(r, EngineResult::Applied));
    }
    let r = submit_word(&mut e, "POINT");
    match r {
        EngineResult::GameEnded(st, fb) => {
            assert_eq!(st, RunState::Lost);
            assert!(fb.iter().any(|f| *f != LetterFeedback::Correct));
        }
        other => panic!("expected the game to end, got {:?}", other),
    }
    assert_eq!(e.state, RunState::Lost);
    // A seventh append is ignored: no seventh row exists and nothing moves.
    let r = e.apply(InputAction::Append('A'));
    assert!(matches!(
        r,
        EngineResult::Rejected(RejectReason::ActionIgnored)
    ));
    assert_eq!(e.store.row_count(), 6);
    assert_eq!(e.store.get_guess_index(), 5);
    assert_eq!(e.state, RunState::Lost);
}

#[test]
fn short_submit_is_rejected_and_changes_nothing() {
    let mut e = new_game("CRANE");
    type_word(&mut e, "CRAN");
    let r = e.apply(InputAction::Submit);
    match r {
        EngineResult::Rejected(why) => {
            assert_eq!(why, RejectReason::SubmitRejected);
            assert_eq!(
                why.message(),
                Some("5 characters required to submit guess".to_string())
            );
        }
        other => panic!("expected a rejection, got {:?}", other),
    }
    assert_eq!(e.store.get_guess_index(), 0);
    assert_eq!(e.store.guess_at(0), &word("CRAN"));
}

#[test]
fn empty_submit_is_rejected() {
    let mut e = new_game("CRANE");
    let r = e.apply(InputAction::Submit);
    assert!(matches!(
        r,
        EngineResult::Rejected(RejectReason::SubmitRejected)
    ));
    assert_eq!(e.store.active_len(), 0);
}

#[test]
fn append_beyond_five_letters_is_rejected() {
    let mut e = new_game("CRANE");
    type_word(&mut e, "SLOTH");
    let r = e.apply(InputAction::Append('S'));
    assert!(matches!(
        r,
        EngineResult::Rejected(RejectReason::AppendRejected)
    ));
    assert_eq!(e.store.active_len(), 5);
    assert_eq!(e.store.guess_at(0), &word("SLOTH"));
}

#[test]
fn delete_on_empty_guess_is_idempotent() {
    let mut e = new_game("CRANE");
    let before = project(&e);
    let r = e.apply(InputAction::Delete);
    assert!(matches!(
        r,
        EngineResult::Rejected(RejectReason::DeleteRejected)
    ));
    let between = project(&e);
    let r = e.apply(InputAction::Delete);
    assert!(matches!(
        r,
        EngineResult::Rejected(RejectReason::DeleteRejected)
    ));
    let after = project(&e);
    assert_eq!(before, between);
    assert_eq!(before, after);
    assert_eq!(e.store.active_len(), 0);
    assert_eq!(e.store.get_guess_index(), 0);
    assert_eq!(e.state, RunState::Playing);
}

#[test]
fn active_guess_length_stays_bounded() {
    let mut e = new_game("CRANE");
    for _ in 0..20 {
        e.apply(InputAction::Append('A'));
        assert!(e.store.active_len() <= 5);
    }
    assert_eq!(e.store.active_len(), 5);
    for _ in 0..20 {
        e.apply(InputAction::Delete);
        assert!(e.store.active_len() <= 5);
    }
    assert_eq!(e.store.active_len(), 0);
}

#[test]
fn row_index_stays_below_the_row_count() {
    let mut e = new_game("CRANE");
    for s in ["AUDIO", "SLOTH", "PERKY", "BUMPY", "GRIME", "POINT", "QUERY"] {
        submit_word(&mut e, s);
        assert!(e.store.get_guess_index() < 6);
        assert_eq!(e.store.row_count(), e.store.get_guess_index() + 1);
    }
}

#[test]
fn projection_mirrors_the_edited_guess() {
    let mut e = new_game("CRANE");
    // An editing session with corrections that ends on a full guess.
    type_word(&mut e, "SLO");
    e.apply(InputAction::Delete);
    type_word(&mut e, "OTH");
    let cells = project(&e);
    assert_eq!(cells.len(), 5);
    for (col, expect) in "SLOTH".chars().enumerate() {
        let cell = &cells[col];
        assert_eq!(cell.row, 0);
        assert_eq!(cell.column, col);
        assert_eq!(cell.character, Some(expect));
        assert_eq!(cell.feedback, None);
    }
}

#[test]
fn projection_shows_blanks_and_feedback() {
    let mut e = new_game("CRANE");
    submit_word(&mut e, "GRIME");
    type_word(&mut e, "CR");
    let cells = project(&e);
    // Two rows are held: the submitted one and the active one.
    assert_eq!(cells.len(), 10);
    // Submitted row: characters plus feedback.
    assert_eq!(cells[0].character, Some('G'));
    assert_eq!(cells[0].feedback, Some(LetterFeedback::Absent));
    assert_eq!(cells[1].character, Some('R'));
    assert_eq!(cells[1].feedback, Some(LetterFeedback::Correct));
    assert_eq!(cells[4].character, Some('E'));
    assert_eq!(cells[4].feedback, Some(LetterFeedback::Correct));
    // Active row: the two typed letters, then blanks, no feedback yet.
    assert_eq!(cells[5].character, Some('C'));
    assert_eq!(cells[6].character, Some('R'));
    assert_eq!(cells[7].character, None);
    assert_eq!(cells[9].character, None);
    for cell in &cells[5..] {
        assert_eq!(cell.feedback, None);
    }
}

#[test]
fn keyboard_keys_drive_a_full_turn() {
    let mut e = new_game("ALLOW");
    // One keystroke at a time, with one correction, as the keyboard emits
    // them: L, L, A, M, B, backspace, A, then submit.
    for key in ["L", "L", "A", "M", "B", "<-", "A", "ENTER"] {
        e.apply(decode(key));
    }
    assert_eq!(e.store.get_guess_index(), 1);
    assert_eq!(
        e.feedbacks[0],
        vec![
            LetterFeedback::Present,
            LetterFeedback::Correct,
            LetterFeedback::Present,
            LetterFeedback::Absent,
            LetterFeedback::Absent,
        ]
    );
}

#[test]
fn reset_restarts_the_game() {
    let mut e = new_game("CRANE");
    for s in ["AUDIO", "SLOTH", "PERKY", "BUMPY", "GRIME", "POINT"] {
        submit_word(&mut e, s);
    }
    assert_eq!(e.state, RunState::Lost);
    e.reset();
    assert_eq!(e.state, RunState::Playing);
    assert_eq!(e.store.row_count(), 1);
    assert_eq!(e.store.get_guess_index(), 0);
    assert_eq!(e.store.active_len(), 0);
    let r = submit_word(&mut e, "CRANE");
    assert!(matches!(r, EngineResult::GameEnded(RunState::Won, _)));
}
