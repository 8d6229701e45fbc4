//! The consumer-side session lifecycle: one initialization-to-close
//! exchange with a spawned provider, strictly sequential, with one
//! request in flight at a time. The loop that performs the spawn and
//! the pipe traffic lives outside the library; it feeds each completion
//! back here as an event and obeys the state this machine prescribes.

use vstd::prelude::*;

verus! {

/// Where a session stands. `Closed` and `Failed` are terminal.
#[derive(Clone, Copy, Debug, PartialEq, Eq)]
pub enum SessionState {
    Unstarted,
    Initializing,
    Ready,
    ListingTools,
    Invoking,
    Closed,
    Failed,
}

/// What happened: a step the consumer starts, or the completion the
/// transport reports for the step in flight.
#[derive(Clone, Copy, Debug, PartialEq, Eq)]
pub enum SessionEvent {
    /// The provider subprocess was spawned and the handshake was sent.
    Open,
    HandshakeOk,
    HandshakeFailed,
    ListRequested,
    ListCompleted,
    ListFailed,
    CallRequested,
    CallCompleted,
    CallFailed,
    CloseRequested,
}

/// The next state after `e` happens in `s`: the only clean path is
/// `Unstarted → Initializing → Ready → (ListingTools | Invoking)* →
/// Closed`; an error, or an event out of order, aborts the session, and
/// the two terminal states absorb every further event.
pub open spec fn session_step(s: SessionState, e: SessionEvent) -> SessionState {
    match s {
        SessionState::Unstarted => match e {
            SessionEvent::Open => SessionState::Initializing,
            _ => SessionState::Failed,
        },
        SessionState::Initializing => match e {
            SessionEvent::HandshakeOk => SessionState::Ready,
            _ => SessionState::Failed,
        },
        SessionState::Ready => match e {
            SessionEvent::ListRequested => SessionState::ListingTools,
            SessionEvent::CallRequested => SessionState::Invoking,
            SessionEvent::CloseRequested => SessionState::Closed,
            _ => SessionState::Failed,
        },
        SessionState::ListingTools => match e {
            SessionEvent::ListCompleted => SessionState::Ready,
            _ => SessionState::Failed,
        },
        SessionState::Invoking => match e {
            SessionEvent::CallCompleted => SessionState::Ready,
            _ => SessionState::Failed,
        },
        SessionState::Closed => SessionState::Closed,
        SessionState::Failed => SessionState::Failed,
    }
}

/// No transition skips initialization: the session is `Ready` only
/// after a successful handshake or after a step that began from
/// `Ready` ran to completion.
pub proof fn lemma_ready_only_after_handshake(s: SessionState, e: SessionEvent)
    ensures
        session_step(s, e) == SessionState::Ready ==> {
            ||| (s == SessionState::Initializing && e == SessionEvent::HandshakeOk)
            ||| (s == SessionState::ListingTools && e == SessionEvent::ListCompleted)
            ||| (s == SessionState::Invoking && e == SessionEvent::CallCompleted)
        },
{
}

/// An invocation is only ever issued from `Ready`: no concurrent
/// invocations, and none before the handshake.
pub proof fn lemma_invoking_only_from_ready(s: SessionState, e: SessionEvent)
    ensures
        session_step(s, e) == SessionState::Invoking ==> (s == SessionState::Ready && e
            == SessionEvent::CallRequested),
{
}

/// A session closes cleanly only on an explicit close from `Ready`,
/// and once closed it stays closed whatever else is reported.
pub proof fn lemma_closed_is_terminal(s: SessionState, e: SessionEvent)
    ensures
        s == SessionState::Closed ==> session_step(s, e) == SessionState::Closed,
        session_step(s, e) == SessionState::Closed ==> (s == SessionState::Closed || (s
            == SessionState::Ready && e == SessionEvent::CloseRequested)),
{
}

/// A failed session never recovers.
pub proof fn lemma_failed_is_terminal(s: SessionState, e: SessionEvent)
    ensures
        s == SessionState::Failed ==> session_step(s, e) == SessionState::Failed,
{
}

/// One session between a consumer and a spawned provider.
pub struct Session {
    pub state: SessionState,
}

impl Session {
    /// A fresh session: nothing spawned yet.
    pub fn new() -> (s: Session)
        ensures
            s.state == SessionState::Unstarted,
    {
        Session { state: SessionState::Unstarted }
    }

    /// Advance the session by one event, exactly as `session_step`
    /// prescribes.
    pub fn step(&mut self, e: SessionEvent) -> (s: SessionState)
        ensures
            final(self).state == session_step(old(self).state, e),
            s == final(self).state,
    {
        let next = match self.state {
            SessionState::Unstarted => match e {
                SessionEvent::Open => SessionState::Initializing,
                _ => SessionState::Failed,
            },
            SessionState::Initializing => match e {
                SessionEvent::HandshakeOk => SessionState::Ready,
                _ => SessionState::Failed,
            },
            SessionState::Ready => match e {
                SessionEvent::ListRequested => SessionState::ListingTools,
                SessionEvent::CallRequested => SessionState::Invoking,
                SessionEvent::CloseRequested => SessionState::Closed,
                _ => SessionState::Failed,
            },
            SessionState::ListingTools => match e {
                SessionEvent::ListCompleted => SessionState::Ready,
                _ => SessionState::Failed,
            },
            SessionState::Invoking => match e {
                SessionEvent::CallCompleted => SessionState::Ready,
                _ => SessionState::Failed,
            },
            SessionState::Closed => SessionState::Closed,
            SessionState::Failed => SessionState::Failed,
        };
        self.state = next;
        next
    }
}

} // verus!
