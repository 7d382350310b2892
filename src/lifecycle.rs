use vstd::prelude::*;

verus! {

/// The states a connection passes through, in this order; `Closed` is final.
pub enum ConnState {
    Connecting,
    Active,
    Closing,
    Closed,
}

/// What the supervisor of a connection observes.
pub enum ConnEvent {
    /// The transport handshake completed.
    HandshakeSucceeded,
    /// The transport handshake failed.
    HandshakeFailed,
    /// The transport handshake did not complete in time.
    HandshakeTimedOut,
    /// The receive side or the send side ended, for any reason.
    PipelineFinished,
    /// Both sides have stopped and the connection's resources are released.
    TornDown,
}

/// What the supervisor does on a transition.
pub enum ConnAction {
    /// Register the connection, count it as active and start both sides.
    Register,
    /// Count an error; nothing was registered.
    RecordError,
    /// Stop both sides, deregister the connection and count it as gone.
    TearDown,
    /// Nothing.
    Ignore,
}

/// The position of a state in the order the states are passed through.
pub open spec fn rank(s: ConnState) -> int {
    match s {
        ConnState::Connecting => 0,
        ConnState::Active => 1,
        ConnState::Closing => 2,
        ConnState::Closed => 3,
    }
}

/// The next state and the action for event `e` in state `s`. An event that
/// does not apply in `s` changes nothing.
pub open spec fn transition(s: ConnState, e: ConnEvent) -> (ConnState, ConnAction) {
    match (s, e) {
        (ConnState::Connecting, ConnEvent::HandshakeSucceeded) => (ConnState::Active, ConnAction::Register),
        (ConnState::Connecting, ConnEvent::HandshakeFailed) => (ConnState::Closed, ConnAction::RecordError),
        (ConnState::Connecting, ConnEvent::HandshakeTimedOut) => (ConnState::Closed, ConnAction::RecordError),
        (ConnState::Active, ConnEvent::PipelineFinished) => (ConnState::Closing, ConnAction::TearDown),
        (ConnState::Closing, ConnEvent::TornDown) => (ConnState::Closed, ConnAction::Ignore),
        _ => (s, ConnAction::Ignore),
    }
}

/// Applies event `e` to state `s`.
pub fn next_state(s: ConnState, e: ConnEvent) -> (r: (ConnState, ConnAction))
    ensures
        r == transition(s, e),
{
    match (s, e) {
        (ConnState::Connecting, ConnEvent::HandshakeSucceeded) => (ConnState::Active, ConnAction::Register),
        (ConnState::Connecting, ConnEvent::HandshakeFailed) => (ConnState::Closed, ConnAction::RecordError),
        (ConnState::Connecting, ConnEvent::HandshakeTimedOut) => (ConnState::Closed, ConnAction::RecordError),
        (ConnState::Active, ConnEvent::PipelineFinished) => (ConnState::Closing, ConnAction::TearDown),
        (ConnState::Closing, ConnEvent::TornDown) => (ConnState::Closed, ConnAction::Ignore),
        (s, _) => (s, ConnAction::Ignore),
    }
}

/// No state is entered twice: every transition either stays put or moves
/// strictly forward, and nothing leaves `Closed`.
pub proof fn lemma_no_state_reentered(s: ConnState, e: ConnEvent)
    ensures
        transition(s, e).0 == s || rank(transition(s, e).0) > rank(s),
        s is Closed ==> transition(s, e).0 is Closed,
        transition(s, e).0 == s ==> transition(s, e).1 is Ignore,
{
}

/// A connection whose handshake fails or times out is closed without ever
/// being registered.
pub proof fn lemma_failed_handshake_never_active(e: ConnEvent)
    requires
        e is HandshakeFailed || e is HandshakeTimedOut,
    ensures
        transition(ConnState::Connecting, e) == (ConnState::Closed, ConnAction::RecordError),
{
}

} // verus!
