//! Decisions of the forwarding server: how its swarm loop reacts to events
//! and what happens to each incoming forwarding stream.
use vstd::prelude::*;
use crate::peer::{is_peer_accepted, peer_is_accepted, texts};

verus! {

/// What the server's swarm loop can observe.
#[derive(Debug, Clone, Copy, PartialEq, Eq, Structural)]
pub enum ServerEvent {
    /// The server was asked to stop.
    StopSignal,
    /// An external address of the node expired.
    ExternalAddrExpired,
    /// The relay accepted the node's reservation.
    RelayReservationAccepted,
    /// An identify exchange with a remote peer completed.
    IdentifyReceived,
    /// Any other swarm event.
    Other,
    /// The swarm's event stream ended.
    SwarmEnded,
}

/// What the server's swarm loop does in answer to an event.
#[derive(Debug, Clone, Copy, PartialEq, Eq, Structural)]
pub enum ServerAction {
    /// Nothing; keep polling.
    Continue,
    /// Listen on the relay's circuit address to obtain a reservation.
    ListenOnRelayCircuit,
    /// Leave the loop.
    Shutdown,
}

/// The state the server's swarm loop keeps between events.
#[derive(Debug, Clone, Copy, PartialEq, Eq, Structural)]
pub struct ServerLoop {
    /// The relay currently holds a reservation for this node.
    pub relay_reservation_complete: bool,
    /// The loop has been left.
    pub stopped: bool,
}

/// One step of the server's swarm loop.
pub open spec fn server_step(s: ServerLoop, e: ServerEvent) -> (ServerLoop, ServerAction) {
    if s.stopped {
        (s, ServerAction::Shutdown)
    } else {
        match e {
            ServerEvent::StopSignal => (
                ServerLoop { relay_reservation_complete: s.relay_reservation_complete, stopped: true },
                ServerAction::Shutdown,
            ),
            ServerEvent::ExternalAddrExpired => (
                ServerLoop { relay_reservation_complete: false, stopped: false },
                ServerAction::Continue,
            ),
            ServerEvent::RelayReservationAccepted => (
                ServerLoop { relay_reservation_complete: true, stopped: false },
                ServerAction::Continue,
            ),
            ServerEvent::IdentifyReceived => (
                s,
                if s.relay_reservation_complete {
                    ServerAction::Continue
                } else {
                    ServerAction::ListenOnRelayCircuit
                },
            ),
            ServerEvent::Other => (s, ServerAction::Continue),
            ServerEvent::SwarmEnded => (s, ServerAction::Continue),
        }
    }
}

/// The state reached and the actions taken when the loop meets `events` in order.
pub open spec fn run_server(s: ServerLoop, events: Seq<ServerEvent>) -> (ServerLoop, Seq<ServerAction>)
    decreases events.len(),
{
    if events.len() == 0 {
        (s, Seq::empty())
    } else {
        let (next, action) = server_step(s, events[0]);
        let (last, rest) = run_server(next, events.drop_first());
        (last, seq![action] + rest)
    }
}

impl ServerLoop {
    /// The state the loop starts in: no reservation, running.
    pub fn new() -> (res: ServerLoop)
        ensures
            !res.relay_reservation_complete,
            !res.stopped,
    {
        ServerLoop { relay_reservation_complete: false, stopped: false }
    }

    /// Reacts to one event.
    pub fn step(&mut self, event: ServerEvent) -> (action: ServerAction)
        ensures
            (*final(self), action) == server_step(*old(self), event),
    {
        if self.stopped {
            return ServerAction::Shutdown;
        }
        match event {
            ServerEvent::StopSignal => {
                self.stopped = true;
                ServerAction::Shutdown
            },
            ServerEvent::ExternalAddrExpired => {
                self.relay_reservation_complete = false;
                ServerAction::Continue
            },
            ServerEvent::RelayReservationAccepted => {
                self.relay_reservation_complete = true;
                ServerAction::Continue
            },
            ServerEvent::IdentifyReceived => {
                if self.relay_reservation_complete {
                    ServerAction::Continue
                } else {
                    ServerAction::ListenOnRelayCircuit
                }
            },
            ServerEvent::Other => ServerAction::Continue,
            ServerEvent::SwarmEnded => ServerAction::Continue,
        }
    }
}

/// Every event gets exactly one action.
pub proof fn lemma_run_server_length(s: ServerLoop, events: Seq<ServerEvent>)
    ensures
        run_server(s, events).1.len() == events.len(),
    decreases events.len(),
{
    if events.len() > 0 {
        lemma_run_server_length(server_step(s, events[0]).0, events.drop_first());
    }
}

/// While the relay holds a reservation and no external address expires,
/// the server never asks to listen on the relay circuit again.
pub proof fn lemma_reservation_suppresses_listen(s: ServerLoop, events: Seq<ServerEvent>)
    requires
        s.relay_reservation_complete,
        forall|i: int| 0 <= i < events.len() ==> events[i] != ServerEvent::ExternalAddrExpired,
    ensures
        forall|i: int|
            0 <= i < run_server(s, events).1.len() ==> run_server(s, events).1[i]
                != ServerAction::ListenOnRelayCircuit,
    decreases events.len(),
{
    if events.len() > 0 {
        let next = server_step(s, events[0]).0;
        let rest = events.drop_first();
        assert forall|i: int| 0 <= i < rest.len() implies rest[i] != ServerEvent::ExternalAddrExpired by {
            assert(rest[i] == events[i + 1]);
        }
        lemma_reservation_suppresses_listen(next, rest);
    }
}

/// Once the loop is left it stays left: every later event is answered with
/// `Shutdown` and the state no longer changes.
pub proof fn lemma_stopped_is_final(s: ServerLoop, events: Seq<ServerEvent>)
    requires
        s.stopped,
    ensures
        run_server(s, events).0 == s,
        forall|i: int|
            0 <= i < run_server(s, events).1.len() ==> run_server(s, events).1[i]
                == ServerAction::Shutdown,
    decreases events.len(),
{
    if events.len() > 0 {
        lemma_stopped_is_final(s, events.drop_first());
    }
}

/// Events other than the stop signal and the relay-reservation events
/// change nothing in a running loop, and are answered with `Continue`.
pub proof fn lemma_server_ordinary_events_change_nothing(s: ServerLoop)
    requires
        !s.stopped,
    ensures
        server_step(s, ServerEvent::Other) == (s, ServerAction::Continue),
        server_step(s, ServerEvent::SwarmEnded) == (s, ServerAction::Continue),
{
}

/// The stop signal always leaves a running loop, whatever the reservation
/// state, and keeps that state.
pub proof fn lemma_server_stop_signal_leaves(s: ServerLoop)
    requires
        !s.stopped,
    ensures
        server_step(s, ServerEvent::StopSignal) == (
            ServerLoop { relay_reservation_complete: s.relay_reservation_complete, stopped: true },
            ServerAction::Shutdown,
        ),
{
}

/// Only the stop signal leaves the loop: after any other event a running
/// loop is still running and the answer is no `Shutdown`.
pub proof fn lemma_server_stops_only_on_signal(s: ServerLoop, e: ServerEvent)
    requires
        !s.stopped,
        e != ServerEvent::StopSignal,
    ensures
        !server_step(s, e).0.stopped,
        server_step(s, e).1 != ServerAction::Shutdown,
{
}

/// An identify event makes a running server listen on the relay circuit
/// exactly when it holds no reservation, and changes nothing.
pub proof fn lemma_server_listens_without_reservation(s: ServerLoop)
    requires
        !s.stopped,
    ensures
        server_step(s, ServerEvent::IdentifyReceived).0 == s,
        (server_step(s, ServerEvent::IdentifyReceived).1 == ServerAction::ListenOnRelayCircuit)
            <==> !s.relay_reservation_complete,
{
}

/// Over any run from a running loop, the loop ends stopped exactly when a
/// stop signal was among the events.
pub proof fn lemma_server_stopped_iff_signalled(s: ServerLoop, events: Seq<ServerEvent>)
    requires
        !s.stopped,
    ensures
        run_server(s, events).0.stopped <==> exists|i: int| 0 <= i < events.len() && #[trigger] events[i] == ServerEvent::StopSignal,
    decreases events.len(),
{
    if events.len() > 0 {
        let (next, action) = server_step(s, events[0]);
        let rest = events.drop_first();
        if events[0] == ServerEvent::StopSignal {
            lemma_stopped_is_final(next, rest);
        } else {
            lemma_server_stopped_iff_signalled(next, rest);
            if exists|i: int| 0 <= i < events.len() && #[trigger] events[i] == ServerEvent::StopSignal {
                let i = choose|i: int| 0 <= i < events.len() && #[trigger] events[i] == ServerEvent::StopSignal;
                assert(rest[i - 1] == ServerEvent::StopSignal);
            }
            if exists|i: int| 0 <= i < rest.len() && #[trigger] rest[i] == ServerEvent::StopSignal {
                let i = choose|i: int| 0 <= i < rest.len() && #[trigger] rest[i] == ServerEvent::StopSignal;
                assert(events[i + 1] == ServerEvent::StopSignal);
            }
        }
    }
}

/// What the incoming-stream handler can observe.
#[derive(Debug, Clone, PartialEq, Eq)]
pub enum IncomingStream {
    /// The server was asked to stop.
    StopSignal,
    /// No more streams will arrive.
    Ended,
    /// A peer opened a forwarding stream; `peer` is its id in text form.
    Opened { peer: String },
}

/// What the incoming-stream handler does with an observation.
#[derive(Debug, Clone, Copy, PartialEq, Eq, Structural)]
pub enum IncomingAction {
    /// Leave the handler loop.
    Finish,
    /// Drop the stream: the peer is not accepted.
    Reject,
    /// Connect to the server's target address and copy in both directions.
    Forward,
}

/// Decides what happens to an incoming-stream observation.
pub fn incoming_stream_action(accepted_peer_ids: &Vec<String>, event: &IncomingStream) -> (res: IncomingAction)
    ensures
        match event {
            IncomingStream::Opened { peer } => res == if peer_is_accepted(texts(accepted_peer_ids@), peer@) {
                IncomingAction::Forward
            } else {
                IncomingAction::Reject
            },
            _ => res == IncomingAction::Finish,
        },
{
    match event {
        IncomingStream::StopSignal => IncomingAction::Finish,
        IncomingStream::Ended => IncomingAction::Finish,
        IncomingStream::Opened { peer } => {
            if is_peer_accepted(accepted_peer_ids, peer.as_str()) {
                IncomingAction::Forward
            } else {
                IncomingAction::Reject
            }
        },
    }
}

} // verus!
