use ripsaw::session::{
    classify_session_code, AttackSession, AuthFailure, SessionAction, SessionEvent,
};

#[test]
fn closed_connection_on_fifth_attempt_retries_it() {
    let mut s = AttackSession::new(10, 3);
    let mut action = s.action();
    let mut attempted = Vec::new();
    let mut closed_once = false;
    loop {
        let event = match action {
            SessionAction::Connect => SessionEvent::ConnectSucceeded,
            SessionAction::Try(i) => {
                attempted.push(i);
                if i == 4 && !closed_once {
                    closed_once = true;
                    SessionEvent::Rejected(AuthFailure::ConnectionClosed)
                } else {
                    SessionEvent::Rejected(AuthFailure::BadCredential)
                }
            }
            _ => break,
        };
        action = s.step(event);
    }
    assert_eq!(action, SessionAction::GiveUp);
    assert_eq!(attempted, vec![0, 1, 2, 3, 4, 4, 5, 6, 7, 8, 9]);
    let mut distinct = attempted.clone();
    distinct.dedup();
    assert_eq!(distinct.len(), 10);
}

#[test]
fn accepted_candidate_ends_session() {
    let mut s = AttackSession::new(3, 3);
    assert_eq!(s.step(SessionEvent::ConnectSucceeded), SessionAction::Try(0));
    assert_eq!(
        s.step(SessionEvent::Rejected(AuthFailure::BadCredential)),
        SessionAction::Try(1)
    );
    assert_eq!(s.step(SessionEvent::Accepted), SessionAction::Found(1));
    assert_eq!(s.step(SessionEvent::Accepted), SessionAction::Found(1));
}

#[test]
fn second_close_moves_on() {
    let mut s = AttackSession::new(2, 3);
    s.step(SessionEvent::ConnectSucceeded);
    let closed = SessionEvent::Rejected(AuthFailure::ConnectionClosed);
    assert_eq!(s.step(closed), SessionAction::Connect);
    assert_eq!(s.step(SessionEvent::ConnectSucceeded), SessionAction::Try(0));
    assert_eq!(s.step(closed), SessionAction::Connect);
    assert_eq!(s.step(SessionEvent::ConnectSucceeded), SessionAction::Try(1));
}

#[test]
fn transport_errors_are_bounded() {
    let mut s = AttackSession::new(5, 2);
    let broken = SessionEvent::Rejected(AuthFailure::TransportError);
    s.step(SessionEvent::ConnectSucceeded);
    assert_eq!(s.step(broken), SessionAction::Connect);
    assert_eq!(s.step(SessionEvent::ConnectSucceeded), SessionAction::Try(0));
    assert_eq!(s.step(broken), SessionAction::Connect);
    assert_eq!(s.step(SessionEvent::ConnectSucceeded), SessionAction::Try(0));
    assert_eq!(s.step(broken), SessionAction::GiveUp);
}

#[test]
fn failed_connection_aborts() {
    let mut s = AttackSession::new(5, 2);
    assert_eq!(s.action(), SessionAction::Connect);
    assert_eq!(s.step(SessionEvent::ConnectFailed), SessionAction::Abort);
}

#[test]
fn empty_wordlist_gives_up_after_connecting() {
    let mut s = AttackSession::new(0, 2);
    assert_eq!(s.step(SessionEvent::ConnectSucceeded), SessionAction::GiveUp);
}

#[test]
fn session_codes_are_classified() {
    assert_eq!(classify_session_code(-18), AuthFailure::BadCredential);
    assert_eq!(classify_session_code(-13), AuthFailure::ConnectionClosed);
    assert_eq!(classify_session_code(-5), AuthFailure::TransportError);
}
