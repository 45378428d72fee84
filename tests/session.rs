use label_printer::session::{is_retry_answer, Action, PrintSession, SessionState};

/// Drives a session against scripted write outcomes and answers, and
/// returns the copy numbers written and the answers consumed.
fn drive(copies: i32, writes: &[bool], answers: &[bool]) -> (Vec<u32>, usize, SessionState) {
    let mut s = PrintSession::new(copies);
    let mut written = Vec::new();
    let mut w = 0;
    let mut a = 0;
    loop {
        match s.next_action() {
            Action::Write(n) => {
                written.push(n);
                let ok = writes[w];
                w += 1;
                s.record_write(ok);
            }
            Action::AskRetry => {
                let again = answers[a];
                a += 1;
                s.answer_retry(again);
            }
            Action::Finish => return (written, a, s.state),
        }
    }
}

#[test]
fn failed_second_copy_stops_the_pass_and_decline_ends() {
    let mut s = PrintSession::new(3);
    assert_eq!(s.next_action(), Action::Write(1));
    s.record_write(true);
    assert_eq!(s.next_action(), Action::Write(2));
    s.record_write(false);
    assert_eq!(s.state, SessionState::Failed);
    assert_eq!(s.next_action(), Action::AskRetry);
    s.answer_retry(false);
    assert_eq!(s.next_action(), Action::Finish);
    s.record_write(true);
    assert_eq!(s.next_action(), Action::Finish);
    assert_eq!(s.state, SessionState::Abandoned);
}

#[test]
fn accepted_retry_starts_over_at_first_copy() {
    let (written, asked, state) = drive(3, &[true, false, true, true, true], &[true]);
    assert_eq!(written, vec![1, 2, 1, 2, 3]);
    assert_eq!(asked, 1);
    assert_eq!(state, SessionState::Succeeded);
}

#[test]
fn declined_retry_writes_nothing_more() {
    let (written, asked, state) = drive(3, &[true, false], &[false]);
    assert_eq!(written, vec![1, 2]);
    assert_eq!(asked, 1);
    assert_eq!(state, SessionState::Abandoned);
}

#[test]
fn clean_pass_finishes_without_asking() {
    let (written, asked, state) = drive(2, &[true, true], &[]);
    assert_eq!(written, vec![1, 2]);
    assert_eq!(asked, 0);
    assert_eq!(state, SessionState::Succeeded);
}

#[test]
fn zero_or_negative_copies_write_nothing() {
    assert_eq!(drive(0, &[], &[]), (vec![], 0, SessionState::Succeeded));
    assert_eq!(drive(-4, &[], &[]), (vec![], 0, SessionState::Succeeded));
    assert_eq!(PrintSession::new(-4).copies, 0);
}

#[test]
fn repeated_failures_ask_each_time() {
    let (written, asked, state) = drive(1, &[false, false, true], &[true, true]);
    assert_eq!(written, vec![1, 1, 1]);
    assert_eq!(asked, 2);
    assert_eq!(state, SessionState::Succeeded);
}

#[test]
fn retry_answers() {
    assert!(is_retry_answer("y"));
    assert!(is_retry_answer("Y"));
    assert!(is_retry_answer("yes"));
    assert!(!is_retry_answer("YES"));
    assert!(!is_retry_answer("n"));
    assert!(!is_retry_answer(""));
    assert!(!is_retry_answer("yep"));
}
