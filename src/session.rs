//! The decisions of an online attack against a login service: which
//! candidate to try next, when to reconnect, and when to give up.
//!
//! The session is a state machine. The caller performs each action it
//! returns (connect, try a candidate) and hands back what happened.
use vstd::prelude::*;

verus! {

/// libssh2's code for a rejected password.
pub const SSH_AUTHENTICATION_FAILED: i32 = -18;

/// libssh2's code for a connection that the server closed.
pub const SSH_SOCKET_DISCONNECT: i32 = -13;

/// Why an authentication attempt failed.
#[derive(Clone, Copy, Debug, PartialEq, Eq, Structural)]
pub enum AuthFailure {
    /// The candidate is wrong; the connection is still usable.
    BadCredential,
    /// The server closed the connection (after too many attempts, say).
    ConnectionClosed,
    /// Any other transport or protocol failure.
    TransportError,
}

/// Classifies a libssh2 session error code.
pub fn classify_session_code(code: i32) -> (r: AuthFailure)
    ensures
        code == SSH_AUTHENTICATION_FAILED ==> r == AuthFailure::BadCredential,
        code == SSH_SOCKET_DISCONNECT ==> r == AuthFailure::ConnectionClosed,
        code != SSH_AUTHENTICATION_FAILED && code != SSH_SOCKET_DISCONNECT ==> r
            == AuthFailure::TransportError,
{
    if code == SSH_AUTHENTICATION_FAILED {
        AuthFailure::BadCredential
    } else if code == SSH_SOCKET_DISCONNECT {
        AuthFailure::ConnectionClosed
    } else {
        AuthFailure::TransportError
    }
}

/// How a session ended.
#[derive(Clone, Copy, Debug, PartialEq, Eq, Structural)]
pub enum CloseReason {
    /// The candidate at this position was accepted.
    Success(usize),
    /// No candidate was accepted, or the transport kept failing.
    Exhausted,
    /// No connection could be made.
    ConnectFailed,
}

#[derive(Clone, Copy, Debug, PartialEq, Eq, Structural)]
pub enum SessionState {
    /// No connection; the next action connects.
    Disconnected,
    /// Connected, with the attempt of the current candidate in flight.
    Connected,
    /// Finished.
    Closed(CloseReason),
}

/// What happened to the last action.
#[derive(Clone, Copy, Debug, PartialEq, Eq, Structural)]
pub enum SessionEvent {
    ConnectSucceeded,
    ConnectFailed,
    Accepted,
    Rejected(AuthFailure),
}

/// What the caller does next.
#[derive(Clone, Copy, Debug, PartialEq, Eq, Structural)]
pub enum SessionAction {
    /// Open a connection and do the protocol handshake.
    Connect,
    /// Try the candidate at this position.
    Try(usize),
    /// Stop: the candidate at this position was accepted.
    Found(usize),
    /// Stop: no candidate was accepted.
    GiveUp,
    /// Stop: the target cannot be reached.
    Abort,
}

/// An online attack over `total` candidates.
#[derive(Clone, Copy, Debug, PartialEq, Eq, Structural)]
pub struct AttackSession {
    pub state: SessionState,
    /// Position of the candidate being tried.
    pub next: usize,
    pub total: usize,
    /// The current candidate was already retried after a closed connection.
    pub retried: bool,
    /// Unclassified failures so far.
    pub transport_failures: usize,
    /// Unclassified failures tolerated before the session gives up.
    pub max_transport_failures: usize,
}

/// The action that a session in state `s` stands at.
pub open spec fn pending_action(s: AttackSession) -> SessionAction {
    match s.state {
        SessionState::Disconnected => SessionAction::Connect,
        SessionState::Connected => SessionAction::Try(s.next),
        SessionState::Closed(CloseReason::Success(i)) => SessionAction::Found(i),
        SessionState::Closed(CloseReason::Exhausted) => SessionAction::GiveUp,
        SessionState::Closed(CloseReason::ConnectFailed) => SessionAction::Abort,
    }
}

/// Moves on to the candidate at `next` over a live connection, or ends the
/// session if none is left.
pub open spec fn attempt_or_finish(s: AttackSession) -> AttackSession {
    if s.next < s.total {
        AttackSession { state: SessionState::Connected, ..s }
    } else {
        AttackSession { state: SessionState::Closed(CloseReason::Exhausted), ..s }
    }
}

/// The session after event `e`.
pub open spec fn transition(s: AttackSession, e: SessionEvent) -> AttackSession {
    match (s.state, e) {
        (SessionState::Disconnected, SessionEvent::ConnectSucceeded) => attempt_or_finish(s),
        (SessionState::Disconnected, SessionEvent::ConnectFailed) => AttackSession {
            state: SessionState::Closed(CloseReason::ConnectFailed),
            ..s
        },
        (SessionState::Connected, SessionEvent::Accepted) => AttackSession {
            state: SessionState::Closed(CloseReason::Success(s.next)),
            ..s
        },
        (
            SessionState::Connected,
            SessionEvent::Rejected(AuthFailure::BadCredential),
        ) => attempt_or_finish(AttackSession { next: (s.next + 1) as usize, retried: false, ..s }),
        (SessionState::Connected, SessionEvent::Rejected(AuthFailure::ConnectionClosed)) => {
            if s.retried {
                AttackSession {
                    state: SessionState::Disconnected,
                    next: (s.next + 1) as usize,
                    retried: false,
                    ..s
                }
            } else {
                AttackSession { state: SessionState::Disconnected, retried: true, ..s }
            }
        },
        (SessionState::Connected, SessionEvent::Rejected(AuthFailure::TransportError)) => {
            if s.transport_failures >= s.max_transport_failures {
                AttackSession { state: SessionState::Closed(CloseReason::Exhausted), ..s }
            } else {
                AttackSession {
                    state: SessionState::Disconnected,
                    transport_failures: (s.transport_failures + 1) as usize,
                    ..s
                }
            }
        },
        _ => s,
    }
}

impl AttackSession {
    /// The session's invariant: the candidate being tried exists, and the
    /// failure count stays within its bound.
    pub open spec fn wf(&self) -> bool {
        &&& self.state == SessionState::Connected ==> self.next < self.total
        &&& self.next <= self.total
        &&& self.transport_failures <= self.max_transport_failures
    }

    /// A session over `total` candidates that tolerates
    /// `max_transport_failures` unclassified failures; it starts by
    /// connecting.
    pub fn new(total: usize, max_transport_failures: usize) -> (r: Self)
        ensures
            r.wf(),
            r == (AttackSession {
                state: SessionState::Disconnected,
                next: 0,
                total,
                retried: false,
                transport_failures: 0,
                max_transport_failures,
            }),
            pending_action(r) == SessionAction::Connect,
    {
        AttackSession {
            state: SessionState::Disconnected,
            next: 0,
            total,
            retried: false,
            transport_failures: 0,
            max_transport_failures,
        }
    }

    /// The action the session stands at.
    pub fn action(&self) -> (r: SessionAction)
        ensures
            r == pending_action(*self),
    {
        match self.state {
            SessionState::Disconnected => SessionAction::Connect,
            SessionState::Connected => SessionAction::Try(self.next),
            SessionState::Closed(CloseReason::Success(i)) => SessionAction::Found(i),
            SessionState::Closed(CloseReason::Exhausted) => SessionAction::GiveUp,
            SessionState::Closed(CloseReason::ConnectFailed) => SessionAction::Abort,
        }
    }

    fn attempt_or_finish(&mut self)
        requires
            old(self).next <= old(self).total,
        ensures
            *final(self) == attempt_or_finish(*old(self)),
    {
        if self.next < self.total {
            self.state = SessionState::Connected;
        } else {
            self.state = SessionState::Closed(CloseReason::Exhausted);
        }
    }

    /// Takes in what happened to the pending action and returns the next
    /// one. A rejected candidate is followed by the next one; after a closed
    /// connection the session reconnects and tries the same candidate once
    /// more before it moves on; other failures reconnect, up to the bound.
    /// An event that does not fit the state changes nothing.
    pub fn step(&mut self, event: SessionEvent) -> (r: SessionAction)
        requires
            old(self).wf(),
        ensures
            *final(self) == transition(*old(self), event),
            final(self).wf(),
            r == pending_action(*final(self)),
    {
        match (self.state, event) {
            (SessionState::Disconnected, SessionEvent::ConnectSucceeded) => {
                self.attempt_or_finish();
            },
            (SessionState::Disconnected, SessionEvent::ConnectFailed) => {
                self.state = SessionState::Closed(CloseReason::ConnectFailed);
            },
            (SessionState::Connected, SessionEvent::Accepted) => {
                self.state = SessionState::Closed(CloseReason::Success(self.next));
            },
            (SessionState::Connected, SessionEvent::Rejected(AuthFailure::BadCredential)) => {
                self.next = self.next + 1;
                self.retried = false;
                self.attempt_or_finish();
            },
            (SessionState::Connected, SessionEvent::Rejected(AuthFailure::ConnectionClosed)) => {
                if self.retried {
                    self.next = self.next + 1;
                    self.retried = false;
                } else {
                    self.retried = true;
                }
                self.state = SessionState::Disconnected;
            },
            (SessionState::Connected, SessionEvent::Rejected(AuthFailure::TransportError)) => {
                if self.transport_failures >= self.max_transport_failures {
                    self.state = SessionState::Closed(CloseReason::Exhausted);
                } else {
                    self.transport_failures = self.transport_failures + 1;
                    self.state = SessionState::Disconnected;
                }
            },
            _ => {},
        }
        self.action()
    }
}

/// No candidate is skipped because of a closed connection: when the server
/// closes the connection during the first attempt of a candidate, the session
/// reconnects and, once connected, tries that same candidate again.
pub proof fn lemma_closed_connection_retries_candidate(s: AttackSession)
    requires
        s.wf(),
        s.state == SessionState::Connected,
        !s.retried,
    ensures
        pending_action(transition(s, SessionEvent::Rejected(AuthFailure::ConnectionClosed)))
            == SessionAction::Connect,
        pending_action(
            transition(
                transition(s, SessionEvent::Rejected(AuthFailure::ConnectionClosed)),
                SessionEvent::ConnectSucceeded,
            ),
        ) == SessionAction::Try(s.next),
{
}

/// A candidate is passed over only after an attempt of it was answered: the
/// position of the current candidate grows by at most one per event, and only
/// on a rejection of that candidate.
pub proof fn lemma_candidates_advance_one_at_a_time(s: AttackSession, e: SessionEvent)
    requires
        s.wf(),
    ensures
        transition(s, e).next == s.next || (transition(s, e).next == s.next + 1
            && s.state == SessionState::Connected && (e == SessionEvent::Rejected(
            AuthFailure::BadCredential,
        ) || (e == SessionEvent::Rejected(AuthFailure::ConnectionClosed) && s.retried))),
{
}

} // verus!
