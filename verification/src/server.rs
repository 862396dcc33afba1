//! The life of the HTTP proxy server: it starts, listens, drains and stops.

use vstd::prelude::*;

verus! {

/// Where the server stands.
#[derive(Clone, Copy, Debug, PartialEq, Eq, Structural)]
pub enum ServerState {
    /// The socket is being opened and bound.
    Starting,
    /// Connections are accepted and served.
    Listening,
    /// No connection is accepted any more; those in flight run to their end.
    Draining,
    /// The server has returned.
    Stopped,
}

/// What happened around the server.
#[derive(Clone, Copy, Debug, PartialEq, Eq, Structural)]
pub enum ServerEvent {
    /// The socket is bound and listens.
    Bound,
    /// The socket could not be opened, bound or made to listen.
    BindFailed,
    /// A connection came in.
    Accepted,
    /// Accepting a connection failed.
    AcceptFailed,
    /// The shared cancellation signal was triggered.
    Cancelled,
    /// Every tracked connection has been served to its end.
    Drained,
}

/// What the server's loop does next.
#[derive(Clone, Copy, Debug, PartialEq, Eq, Structural)]
pub enum ServerAction {
    /// Wait for a connection or for the cancellation, whichever is first.
    Listen,
    /// Serve the accepted connection as tracked work of its own, and wait
    /// again.
    Serve,
    /// Close the set of tracked work to new entries and wait until all of it
    /// has ended.
    Drain,
    /// Return without error.
    Finish,
    /// Return the error that the event brought.
    Fail,
    /// The event means nothing here, and nothing changes.
    Nothing,
}

impl ServerState {
    /// The server's next state and what its loop does next.
    pub open spec fn spec_step(self, event: ServerEvent) -> (ServerState, ServerAction) {
        match (self, event) {
            (ServerState::Starting, ServerEvent::Bound) => (
                ServerState::Listening,
                ServerAction::Listen,
            ),
            (ServerState::Starting, ServerEvent::BindFailed) => (
                ServerState::Stopped,
                ServerAction::Fail,
            ),
            (ServerState::Listening, ServerEvent::Accepted) => (
                ServerState::Listening,
                ServerAction::Serve,
            ),
            (ServerState::Listening, ServerEvent::AcceptFailed) => (
                ServerState::Stopped,
                ServerAction::Fail,
            ),
            (ServerState::Listening, ServerEvent::Cancelled) => (
                ServerState::Draining,
                ServerAction::Drain,
            ),
            (ServerState::Draining, ServerEvent::Drained) => (
                ServerState::Stopped,
                ServerAction::Finish,
            ),
            _ => (self, ServerAction::Nothing),
        }
    }

    /// Takes an event: see [`ServerState::spec_step`].
    #[verifier::when_used_as_spec(spec_step)]
    pub fn step(self, event: ServerEvent) -> (next: (ServerState, ServerAction))
        ensures
            next == self.spec_step(event),
    {
        match (self, event) {
            (ServerState::Starting, ServerEvent::Bound) => (
                ServerState::Listening,
                ServerAction::Listen,
            ),
            (ServerState::Starting, ServerEvent::BindFailed) => (
                ServerState::Stopped,
                ServerAction::Fail,
            ),
            (ServerState::Listening, ServerEvent::Accepted) => (
                ServerState::Listening,
                ServerAction::Serve,
            ),
            (ServerState::Listening, ServerEvent::AcceptFailed) => (
                ServerState::Stopped,
                ServerAction::Fail,
            ),
            (ServerState::Listening, ServerEvent::Cancelled) => (
                ServerState::Draining,
                ServerAction::Drain,
            ),
            (ServerState::Draining, ServerEvent::Drained) => (
                ServerState::Stopped,
                ServerAction::Finish,
            ),
            _ => (self, ServerAction::Nothing),
        }
    }

    /// The state after a run of events.
    pub open spec fn after(self, events: Seq<ServerEvent>) -> ServerState
        decreases events.len(),
    {
        if events.len() == 0 {
            self
        } else {
            self.after(events.drop_last()).step(events.last()).0
        }
    }

    /// How far the server has come: it only ever moves on.
    pub open spec fn rank(self) -> nat {
        match self {
            ServerState::Starting => 0,
            ServerState::Listening => 1,
            ServerState::Draining => 2,
            ServerState::Stopped => 3,
        }
    }
}

/// The server never goes back: no event takes it to an earlier state.
pub proof fn lemma_server_moves_on(state: ServerState, events: Seq<ServerEvent>)
    ensures
        state.rank() <= state.after(events).rank(),
    decreases events.len(),
{
    if events.len() > 0 {
        lemma_server_moves_on(state, events.drop_last());
    }
}

/// A stopped server stays stopped and does nothing.
pub proof fn lemma_stopped_is_final(event: ServerEvent)
    ensures
        ServerState::Stopped.step(event) == (ServerState::Stopped, ServerAction::Nothing),
{
}

/// Once the cancellation has been seen, no connection is served any more:
/// whatever events follow, none of them makes the server serve.
pub proof fn lemma_no_serving_after_cancel(events: Seq<ServerEvent>, event: ServerEvent)
    ensures
        ServerState::Listening.step(ServerEvent::Cancelled).0.after(events).step(event).1
            != ServerAction::Serve,
{
    let drained = ServerState::Listening.step(ServerEvent::Cancelled).0;
    lemma_server_moves_on(drained, events);
}

/// Draining is cooperative: the server leaves it only when everything
/// tracked has ended, and then without error.
pub proof fn lemma_drain_ends_clean(event: ServerEvent)
    ensures
        ServerState::Draining.step(event).0 != ServerState::Draining ==> event
            == ServerEvent::Drained && ServerState::Draining.step(event) == (
            ServerState::Stopped,
            ServerAction::Finish,
        ),
{
}

} // verus!
