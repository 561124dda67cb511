//! The per-connection session state machine: what one connection does
//! between accepting a request and closing. The caller performs the
//! action each step returns, observes the event, and feeds it back.

use vstd::prelude::*;

verus! {

#[derive(Clone, Copy, PartialEq, Eq, Structural, Debug)]
pub enum SessionState {
    AwaitingRequest,
    Processing,
    ResponseSent,
    Closed,
}

#[derive(Clone, Copy, PartialEq, Eq, Structural, Debug)]
pub enum SessionEvent {
    /// The peer closed the connection before sending a byte.
    PeerClosed,
    /// At least one byte is waiting to be read.
    BytesAvailable,
    /// A request was read, routed, and its response written.
    ResponseWritten,
    /// The keep-alive predicate of the just-handled request.
    KeepAlive { keep: bool },
    /// A read or write on the connection failed.
    IoFailure,
}

#[derive(Clone, Copy, PartialEq, Eq, Structural, Debug)]
pub enum SessionAction {
    /// Read the next request, route it, write the response.
    HandleRequest,
    /// Compute the request's keep-alive predicate.
    CheckKeepAlive,
    /// Go back to waiting for the next request.
    AwaitNext,
    /// Close the connection normally.
    TearDown,
    /// Close the connection and report the failure.
    Fail,
}

/// One transition: an I/O failure is fatal in any state; a clean close
/// before any byte ends the session; data starts processing; a written
/// response asks for the keep-alive decision, which either returns the
/// session to waiting or ends it. An event that does not belong to the
/// state ends the session as a failure.
pub open spec fn spec_session_step(st: SessionState, ev: SessionEvent) -> (
    SessionState,
    SessionAction,
) {
    match (st, ev) {
        (_, SessionEvent::IoFailure) => (SessionState::Closed, SessionAction::Fail),
        (SessionState::AwaitingRequest, SessionEvent::PeerClosed) => (
            SessionState::Closed,
            SessionAction::TearDown,
        ),
        (SessionState::AwaitingRequest, SessionEvent::BytesAvailable) => (
            SessionState::Processing,
            SessionAction::HandleRequest,
        ),
        (SessionState::Processing, SessionEvent::ResponseWritten) => (
            SessionState::ResponseSent,
            SessionAction::CheckKeepAlive,
        ),
        (SessionState::ResponseSent, SessionEvent::KeepAlive { keep }) => if keep {
            (SessionState::AwaitingRequest, SessionAction::AwaitNext)
        } else {
            (SessionState::Closed, SessionAction::TearDown)
        },
        _ => (SessionState::Closed, SessionAction::Fail),
    }
}

pub fn session_step(st: SessionState, ev: SessionEvent) -> (r: (SessionState, SessionAction))
    ensures
        r == spec_session_step(st, ev),
{
    match (st, ev) {
        (_, SessionEvent::IoFailure) => (SessionState::Closed, SessionAction::Fail),
        (SessionState::AwaitingRequest, SessionEvent::PeerClosed) => (
            SessionState::Closed,
            SessionAction::TearDown,
        ),
        (SessionState::AwaitingRequest, SessionEvent::BytesAvailable) => (
            SessionState::Processing,
            SessionAction::HandleRequest,
        ),
        (SessionState::Processing, SessionEvent::ResponseWritten) => (
            SessionState::ResponseSent,
            SessionAction::CheckKeepAlive,
        ),
        (SessionState::ResponseSent, SessionEvent::KeepAlive { keep }) => if keep {
            (SessionState::AwaitingRequest, SessionAction::AwaitNext)
        } else {
            (SessionState::Closed, SessionAction::TearDown)
        },
        _ => (SessionState::Closed, SessionAction::Fail),
    }
}

/// The state a new connection starts in.
pub fn initial_state() -> (r: SessionState)
    ensures
        r == SessionState::AwaitingRequest,
{
    SessionState::AwaitingRequest
}

} // verus!
