use vstd::prelude::*;

verus! {

/// Lifecycle of one client connection. Transitions move only forward:
/// `Connecting -> Active -> Draining -> Closed`; a new connection always
/// starts fresh at `Connecting` with a new id, never resuming an old one.
#[derive(Clone, Copy, Debug, PartialEq, Eq, Structural)]
pub enum ConnState {
    /// Transport upgrade accepted; no id allocated yet.
    Connecting,
    /// Id allocated and registered; both loops running.
    Active,
    /// The inbound loop saw stream end or error; the registry entry is being
    /// removed while the outbound loop may still flush queued messages.
    Draining,
    /// Terminal: both loops exited, entry absent from the registry.
    Closed,
}

/// An observable event in a connection's life.
#[derive(Clone, Copy, Debug, PartialEq, Eq, Structural)]
pub enum ConnEvent {
    /// The id was allocated and the connection registered.
    Registered,
    /// The inbound loop observed stream end or a read error.
    InboundEnded,
    /// The outbound loop drained its queue and exited.
    OutboundDone,
}

/// How far along its one-way life a state is.
pub open spec fn stage(s: ConnState) -> int {
    match s {
        ConnState::Connecting => 0,
        ConnState::Active => 1,
        ConnState::Draining => 2,
        ConnState::Closed => 3,
    }
}

/// The transition table: an event that does not apply to the current state
/// leaves it unchanged.
pub open spec fn spec_step(s: ConnState, e: ConnEvent) -> ConnState {
    match (s, e) {
        (ConnState::Connecting, ConnEvent::Registered) => ConnState::Active,
        (ConnState::Active, ConnEvent::InboundEnded) => ConnState::Draining,
        (ConnState::Draining, ConnEvent::OutboundDone) => ConnState::Closed,
        _ => s,
    }
}

/// Advance a connection's state on an event.
pub fn step(s: ConnState, e: ConnEvent) -> (t: ConnState)
    ensures
        t == spec_step(s, e),
{
    match (s, e) {
        (ConnState::Connecting, ConnEvent::Registered) => ConnState::Active,
        (ConnState::Active, ConnEvent::InboundEnded) => ConnState::Draining,
        (ConnState::Draining, ConnEvent::OutboundDone) => ConnState::Closed,
        _ => s,
    }
}

/// Transitions are one-directional: no event moves a connection back toward
/// an earlier stage, and `Closed` is terminal.
pub proof fn lemma_lifecycle_one_directional(s: ConnState, e: ConnEvent)
    ensures
        stage(spec_step(s, e)) >= stage(s),
        s == ConnState::Closed ==> spec_step(s, e) == ConnState::Closed,
{
}

} // verus!
