use monitor_server::retry::{request_kind, AttemptResult, RequestKind, RetryAction, RetryState, MAX_TRY};
use monitor_server::session::{new_session_token, PayloadGuard, MAX_SIZE, TOKEN_LEN};

/// Runs the retry loop with the given attempt outcomes; gives the number of
/// attempts and whether a response came.
fn drive(kind: RequestKind, outcomes: &[bool]) -> (usize, bool) {
    let mut state = RetryState::new();
    let mut attempts = 0;
    loop {
        match state.next_action(kind) {
            RetryAction::GiveUp => return (attempts, false),
            RetryAction::Idle => panic!("idle"),
            RetryAction::Send(_) => {
                let ok = outcomes[attempts];
                attempts += 1;
                match state.after_attempt(ok) {
                    AttemptResult::Respond => return (attempts, true),
                    AttemptResult::Continue(next) => state = next,
                }
            }
        }
    }
}

#[test]
fn method_kinds() {
    assert_eq!(request_kind("GET"), RequestKind::Get);
    assert_eq!(request_kind("POST"), RequestKind::Post);
    assert_eq!(request_kind("DELETE"), RequestKind::Delete);
    assert_eq!(request_kind("PUT"), RequestKind::Unsupported);
    assert_eq!(request_kind("get"), RequestKind::Unsupported);
}

#[test]
fn first_success_ends_the_loop() {
    assert_eq!(drive(RequestKind::Get, &[true, true, true, true, true]), (1, true));
    assert_eq!(drive(RequestKind::Post, &[false, false, true, true, true]), (3, true));
    assert_eq!(drive(RequestKind::Delete, &[false, false, false, false, true]), (5, true));
}

#[test]
fn gives_up_after_five_failures() {
    assert_eq!(MAX_TRY, 5);
    assert_eq!(drive(RequestKind::Get, &[false; 6]), (5, false));
}

#[test]
fn unsupported_method_never_sends() {
    let state = RetryState::new();
    assert_eq!(state.next_action(RequestKind::Unsupported), RetryAction::Idle);
    let late = RetryState { try_count: 4 };
    assert_eq!(late.next_action(RequestKind::Unsupported), RetryAction::Idle);
    let done = RetryState { try_count: 5 };
    assert_eq!(done.next_action(RequestKind::Unsupported), RetryAction::GiveUp);
}

#[test]
fn failed_attempt_counts() {
    let s = RetryState { try_count: 2 };
    assert_eq!(s.after_attempt(false), AttemptResult::Continue(RetryState { try_count: 3 }));
    assert_eq!(s.after_attempt(true), AttemptResult::Respond);
}

#[test]
fn body_limit_is_256_kib() {
    assert_eq!(MAX_SIZE, 262_144);
    let mut g = PayloadGuard::new();
    assert!(g.accept_chunk(200_000));
    assert!(g.accept_chunk(62_144));
    assert_eq!(g.received(), MAX_SIZE);
    assert!(g.accept_chunk(0));
    assert!(!g.accept_chunk(1));
    assert_eq!(g.received(), MAX_SIZE);
}

#[test]
fn oversized_chunk_is_refused() {
    let mut g = PayloadGuard::new();
    assert!(!g.accept_chunk(MAX_SIZE + 1));
    assert!(!g.accept_chunk(usize::MAX));
    assert_eq!(g.received(), 0);
    assert!(g.accept_chunk(MAX_SIZE));
}

#[test]
fn session_token_shape() {
    let t = new_session_token();
    assert_eq!(TOKEN_LEN, 15);
    assert_eq!(t.len(), 15);
    assert!(t.chars().all(|c| c.is_ascii_alphanumeric()));
}
