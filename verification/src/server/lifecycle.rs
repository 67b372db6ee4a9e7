//! The life of one agent session on the coordinator.

use vstd::prelude::*;

verus! {

/// Where a session stands between the agent's connecting and the removal of
/// its entry.
#[derive(Debug, Clone, Copy, PartialEq, Eq, Structural)]
pub enum ConnectionState {
    /// The agent has connected and waits for its connection id.
    Registering,
    /// The session is registered and tasks flow.
    Active,
    /// The stream has failed or ended; the entry is still registered.
    Draining,
    /// The entry is removed.
    Closed,
}

/// What can happen to a session.
#[derive(Debug, Clone, Copy, PartialEq, Eq, Structural)]
pub enum ConnectionEvent {
    /// The connection id was allocated.
    IdAllocated,
    /// Writing to the agent's stream failed.
    StreamError,
    /// The agent closed its half of the stream.
    InboundClosed,
    /// A keepalive could not be queued.
    KeepaliveFailed,
    /// The entry was removed from the registry.
    Unregistered,
}

/// How far a session has come: a state never gives way to one of lower rank.
pub open spec fn rank(state: ConnectionState) -> nat {
    match state {
        ConnectionState::Registering => 0,
        ConnectionState::Active => 1,
        ConnectionState::Draining => 2,
        ConnectionState::Closed => 3,
    }
}

/// The state that follows `state` on `event`. Allocation of the id makes a
/// registering session active; a failed stream or a closed inbound half
/// sends a session that is not yet closed to draining; removal of the entry
/// closes a draining session. A failed keepalive changes nothing: it shows
/// that the stream is dead, and the stream's own failure is what counts.
/// An event that does not fit the state leaves it as it is.
pub open spec fn next_state(state: ConnectionState, event: ConnectionEvent) -> ConnectionState {
    match (state, event) {
        (ConnectionState::Registering, ConnectionEvent::IdAllocated) => ConnectionState::Active,
        (ConnectionState::Registering, ConnectionEvent::StreamError) => ConnectionState::Draining,
        (ConnectionState::Registering, ConnectionEvent::InboundClosed) => ConnectionState::Draining,
        (ConnectionState::Active, ConnectionEvent::StreamError) => ConnectionState::Draining,
        (ConnectionState::Active, ConnectionEvent::InboundClosed) => ConnectionState::Draining,
        (ConnectionState::Draining, ConnectionEvent::Unregistered) => ConnectionState::Closed,
        _ => state,
    }
}

impl ConnectionState {
    /// The state of a session whose agent has just connected.
    pub fn new() -> (state: ConnectionState)
        ensures
            state == ConnectionState::Registering,
    {
        ConnectionState::Registering
    }

    /// The state after `event`. A session only moves forward, and a closed
    /// one stays closed.
    pub fn on_event(self, event: ConnectionEvent) -> (next: ConnectionState)
        ensures
            next == next_state(self, event),
            rank(self) <= rank(next),
            self == ConnectionState::Closed ==> next == ConnectionState::Closed,
    {
        match (self, event) {
            (ConnectionState::Registering, ConnectionEvent::IdAllocated) => ConnectionState::Active,
            (ConnectionState::Registering, ConnectionEvent::StreamError)
            | (ConnectionState::Registering, ConnectionEvent::InboundClosed)
            | (ConnectionState::Active, ConnectionEvent::StreamError)
            | (ConnectionState::Active, ConnectionEvent::InboundClosed) => ConnectionState::Draining,
            (ConnectionState::Draining, ConnectionEvent::Unregistered) => ConnectionState::Closed,
            _ => self,
        }
    }

    /// Whether the session's entry is in the registry: from the allocation of
    /// its id until its removal.
    pub fn is_registered(self) -> (r: bool)
        ensures
            r == (self == ConnectionState::Active || self == ConnectionState::Draining),
    {
        match self {
            ConnectionState::Active | ConnectionState::Draining => true,
            _ => false,
        }
    }
}

} // verus!
