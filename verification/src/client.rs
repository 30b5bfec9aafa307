//! Decisions of the forwarding client: its run state, how long it waits for
//! the first connection, and how its swarm loop reacts to events.
use vstd::prelude::*;

verus! {

/// Why a client operation was refused.
#[derive(Debug, Clone, Copy, PartialEq, Eq, Structural)]
pub enum ClientError {
    /// `start` was called while the client was already running.
    AlreadyRunning,
}

/// Holds the handle of the background worker of a running endpoint.
/// An endpoint runs exactly while a handle is held.
pub struct WorkerSlot<H> {
    handle: Option<H>,
}

impl<H> View for WorkerSlot<H> {
    type V = Option<H>;

    /// The held worker handle, if any.
    closed spec fn view(&self) -> Option<H> {
        self.handle
    }
}

impl<H> WorkerSlot<H> {
    /// Whether a worker is running.
    pub open spec fn is_running(&self) -> bool {
        self@ is Some
    }

    /// An empty slot: nothing is running.
    pub fn new() -> (res: Self)
        ensures
            res@ is None,
    {
        WorkerSlot { handle: None }
    }

    /// Whether a worker is running.
    pub fn running(&self) -> (res: bool)
        ensures
            res == self.is_running(),
    {
        self.handle.is_some()
    }

    /// A client may be started only when it is not running already.
    pub fn check_start(&self) -> (res: Result<(), ClientError>)
        ensures
            res is Ok <==> !self.is_running(),
            res matches Err(e) ==> e == ClientError::AlreadyRunning,
    {
        if self.handle.is_some() {
            Err(ClientError::AlreadyRunning)
        } else {
            Ok(())
        }
    }

    /// Keeps the handle of a freshly started worker (replacing any former one).
    pub fn record_started(&mut self, handle: H)
        ensures
            final(self)@ == Some(handle),
    {
        self.handle = Some(handle);
    }

    /// Hands out the worker handle so the worker can be joined; afterwards
    /// nothing is running.
    pub fn take_for_stop(&mut self) -> (res: Option<H>)
        ensures
            res == old(self)@,
            final(self)@ is None,
    {
        self.handle.take()
    }
}

/// How long, in milliseconds, `start` waits for the client to reach the server.
pub const CONNECT_TIMEOUT_MS: u64 = 10000;

/// How long, in milliseconds, `start` sleeps between two looks at the
/// dial-complete signal.
pub const CONNECT_POLL_MS: u64 = 500;

/// One look at the dial-complete signal while `start` waits.
#[derive(Debug, Clone, Copy, PartialEq, Eq, Structural)]
pub enum ConnectWait {
    /// The client reached the server through the relay.
    Connected,
    /// Sleep for `CONNECT_POLL_MS` and look again.
    Sleep,
    /// The waiting time is used up.
    TimedOut,
}

/// Decides, after `elapsed_ms` of waiting, what to do given whether the
/// dial-complete signal has arrived.
pub fn connect_wait_step(elapsed_ms: u64, signal_received: bool) -> (res: ConnectWait)
    ensures
        res == if elapsed_ms >= CONNECT_TIMEOUT_MS {
            ConnectWait::TimedOut
        } else if signal_received {
            ConnectWait::Connected
        } else {
            ConnectWait::Sleep
        },
{
    if elapsed_ms >= CONNECT_TIMEOUT_MS {
        ConnectWait::TimedOut
    } else if signal_received {
        ConnectWait::Connected
    } else {
        ConnectWait::Sleep
    }
}

/// What the client's swarm loop can observe.
#[derive(Debug, Clone, PartialEq, Eq)]
pub enum ClientEvent {
    /// The client was asked to stop.
    StopSignal,
    /// An external address of the node expired.
    ExternalAddrExpired,
    /// The relay accepted the node's reservation.
    RelayReservationAccepted,
    /// An outgoing connection failed; `peer` is the text form of the id of
    /// the peer that was dialled, when known.
    OutgoingConnectionError { peer: Option<String> },
    /// An identify exchange with a remote peer completed.
    IdentifyReceived,
    /// Any other swarm event.
    Other,
}

/// The observable content of a client event.
pub enum ClientEventView {
    StopSignal,
    ExternalAddrExpired,
    RelayReservationAccepted,
    OutgoingConnectionError { peer: Option<Seq<char>> },
    IdentifyReceived,
    Other,
}

impl View for ClientEvent {
    type V = ClientEventView;

    open spec fn view(&self) -> ClientEventView {
        match self {
            ClientEvent::StopSignal => ClientEventView::StopSignal,
            ClientEvent::ExternalAddrExpired => ClientEventView::ExternalAddrExpired,
            ClientEvent::RelayReservationAccepted => ClientEventView::RelayReservationAccepted,
            ClientEvent::OutgoingConnectionError { peer } => ClientEventView::OutgoingConnectionError {
                peer: match peer {
                    Some(p) => Some(p@),
                    None => None,
                },
            },
            ClientEvent::IdentifyReceived => ClientEventView::IdentifyReceived,
            ClientEvent::Other => ClientEventView::Other,
        }
    }
}

/// What the client's swarm loop does in answer to an event.
#[derive(Debug, Clone, Copy, PartialEq, Eq, Structural)]
pub enum ClientAction {
    /// Nothing; keep polling.
    Continue,
    /// Dial the relay again.
    RedialRelay,
    /// Dial the server through the relay circuit and spawn the local
    /// connection handler; when `notify` holds, also tell the waiting
    /// `start` that the dial went out.
    DialServer { notify: bool },
    /// Leave the loop, first waiting for the connection handler when
    /// `await_handler` holds.
    Shutdown { await_handler: bool },
}

/// The state the client's swarm loop keeps between events.
pub struct ClientLoop {
    /// Text form of the server's peer id.
    pub server_peer: String,
    /// The server has been dialled through the relay.
    pub dial_complete: bool,
    /// The waiting `start` has not been told of the dial yet.
    pub notify_pending: bool,
    /// A local connection handler is running.
    pub handler_running: bool,
    /// The loop has been left.
    pub stopped: bool,
}

/// The observable state of the client's swarm loop.
pub struct ClientLoopView {
    pub server_peer: Seq<char>,
    pub dial_complete: bool,
    pub notify_pending: bool,
    pub handler_running: bool,
    pub stopped: bool,
}

impl View for ClientLoop {
    type V = ClientLoopView;

    open spec fn view(&self) -> ClientLoopView {
        ClientLoopView {
            server_peer: self.server_peer@,
            dial_complete: self.dial_complete,
            notify_pending: self.notify_pending,
            handler_running: self.handler_running,
            stopped: self.stopped,
        }
    }
}

/// One step of the client's swarm loop.
pub open spec fn client_step(s: ClientLoopView, e: ClientEventView) -> (ClientLoopView, ClientAction) {
    if s.stopped {
        (s, ClientAction::Shutdown { await_handler: false })
    } else {
        match e {
            ClientEventView::StopSignal => (
                ClientLoopView { handler_running: false, stopped: true, ..s },
                ClientAction::Shutdown { await_handler: s.handler_running },
            ),
            ClientEventView::OutgoingConnectionError { peer } => (
                s,
                if peer == Some(s.server_peer) {
                    ClientAction::RedialRelay
                } else {
                    ClientAction::Continue
                },
            ),
            ClientEventView::IdentifyReceived => if s.dial_complete {
                (s, ClientAction::Continue)
            } else {
                (
                    ClientLoopView { dial_complete: true, notify_pending: false, handler_running: true, ..s },
                    ClientAction::DialServer { notify: s.notify_pending },
                )
            },
            _ => (s, ClientAction::Continue),
        }
    }
}

/// The state reached and the actions taken when the loop meets `events` in order.
pub open spec fn run_client(s: ClientLoopView, events: Seq<ClientEventView>) -> (ClientLoopView, Seq<ClientAction>)
    decreases events.len(),
{
    if events.len() == 0 {
        (s, Seq::empty())
    } else {
        let (next, action) = client_step(s, events[0]);
        let (last, rest) = run_client(next, events.drop_first());
        (last, seq![action] + rest)
    }
}

/// How many of `actions` dial the server.
pub open spec fn dial_count(actions: Seq<ClientAction>) -> nat
    decreases actions.len(),
{
    if actions.len() == 0 {
        0
    } else {
        (if actions[0] is DialServer { 1nat } else { 0nat }) + dial_count(actions.drop_first())
    }
}

/// How many of `actions` tell the waiting `start` of the dial.
pub open spec fn notify_count(actions: Seq<ClientAction>) -> nat
    decreases actions.len(),
{
    if actions.len() == 0 {
        0
    } else {
        (if actions[0] == (ClientAction::DialServer { notify: true }) { 1nat } else { 0nat })
            + notify_count(actions.drop_first())
    }
}

impl ClientLoop {
    /// The state the loop starts in for the given server.
    pub fn new(server_peer: String) -> (res: ClientLoop)
        ensures
            res@ == (ClientLoopView {
                server_peer: server_peer@,
                dial_complete: false,
                notify_pending: true,
                handler_running: false,
                stopped: false,
            }),
    {
        ClientLoop {
            server_peer,
            dial_complete: false,
            notify_pending: true,
            handler_running: false,
            stopped: false,
        }
    }

    /// Reacts to one event.
    pub fn step(&mut self, event: &ClientEvent) -> (action: ClientAction)
        ensures
            (final(self)@, action) == client_step(old(self)@, event@),
    {
        if self.stopped {
            return ClientAction::Shutdown { await_handler: false };
        }
        match event {
            ClientEvent::StopSignal => {
                let await_handler = self.handler_running;
                self.handler_running = false;
                self.stopped = true;
                ClientAction::Shutdown { await_handler }
            },
            ClientEvent::OutgoingConnectionError { peer } => {
                match peer {
                    Some(p) => {
                        if *p == self.server_peer {
                            ClientAction::RedialRelay
                        } else {
                            ClientAction::Continue
                        }
                    },
                    None => ClientAction::Continue,
                }
            },
            ClientEvent::IdentifyReceived => {
                if self.dial_complete {
                    ClientAction::Continue
                } else {
                    let notify = self.notify_pending;
                    self.dial_complete = true;
                    self.notify_pending = false;
                    self.handler_running = true;
                    ClientAction::DialServer { notify }
                }
            },
            ClientEvent::ExternalAddrExpired => ClientAction::Continue,
            ClientEvent::RelayReservationAccepted => ClientAction::Continue,
            ClientEvent::Other => ClientAction::Continue,
        }
    }
}

/// Whatever events arrive, the client dials the server through the relay
/// at most once, and not at all once it has.
pub proof fn lemma_server_dialled_at_most_once(s: ClientLoopView, events: Seq<ClientEventView>)
    ensures
        dial_count(run_client(s, events).1) <= if s.dial_complete || s.stopped { 0nat } else { 1nat },
        run_client(s, events).0.dial_complete == (s.dial_complete || (!s.stopped && dial_count(run_client(s, events).1) == 1)),
    decreases events.len(),
{
    if events.len() > 0 {
        let (next, action) = client_step(s, events[0]);
        lemma_server_dialled_at_most_once(next, events.drop_first());
        let acts = run_client(s, events).1;
        assert(acts.drop_first() == run_client(next, events.drop_first()).1);
    }
}

/// Whatever events arrive, the waiting `start` is told of the dial at most
/// once.
pub proof fn lemma_start_notified_at_most_once(s: ClientLoopView, events: Seq<ClientEventView>)
    ensures
        notify_count(run_client(s, events).1) <= if s.notify_pending && !s.stopped { 1nat } else { 0nat },
    decreases events.len(),
{
    if events.len() > 0 {
        let (next, action) = client_step(s, events[0]);
        lemma_start_notified_at_most_once(next, events.drop_first());
        let acts = run_client(s, events).1;
        assert(acts.drop_first() == run_client(next, events.drop_first()).1);
    }
}

/// Once the loop is left it stays left: every later event is answered with
/// a `Shutdown` that waits for nothing, and the state no longer changes.
pub proof fn lemma_client_stopped_is_final(s: ClientLoopView, events: Seq<ClientEventView>)
    requires
        s.stopped,
    ensures
        run_client(s, events).0 == s,
        forall|i: int|
            0 <= i < run_client(s, events).1.len() ==> run_client(s, events).1[i]
                == (ClientAction::Shutdown { await_handler: false }),
    decreases events.len(),
{
    if events.len() > 0 {
        lemma_client_stopped_is_final(s, events.drop_first());
    }
}

/// A failed connection to the server makes the client dial the relay
/// again; a failed connection to any other peer changes nothing.
pub proof fn lemma_redial_only_for_server(s: ClientLoopView, peer: Option<Seq<char>>)
    requires
        !s.stopped,
    ensures
        client_step(s, ClientEventView::OutgoingConnectionError { peer }).0 == s,
        client_step(s, ClientEventView::OutgoingConnectionError { peer }).1 == if peer == Some(s.server_peer) {
            ClientAction::RedialRelay
        } else {
            ClientAction::Continue
        },
{
}

/// Ordinary swarm events (an expired external address, an accepted relay
/// reservation, anything else) change nothing in a running loop: the state
/// stays as it was and the loop keeps polling.
pub proof fn lemma_client_ordinary_events_change_nothing(s: ClientLoopView, e: ClientEventView)
    requires
        !s.stopped,
        e is ExternalAddrExpired || e is RelayReservationAccepted || e is Other,
    ensures
        client_step(s, e) == (s, ClientAction::Continue),
{
}

/// Only the stop signal leaves the loop: a running loop is still running
/// after any other event, and every answer but the stop signal's is no
/// `Shutdown`.
pub proof fn lemma_client_stops_only_on_signal(s: ClientLoopView, e: ClientEventView)
    requires
        !s.stopped,
        !(e is StopSignal),
    ensures
        !client_step(s, e).0.stopped,
        !(client_step(s, e).1 is Shutdown),
        client_step(s, e).0.server_peer == s.server_peer,
{
}

/// The stop signal always leaves a running loop, waiting for the connection
/// handler exactly when one was spawned.
pub proof fn lemma_client_stop_signal_leaves(s: ClientLoopView)
    requires
        !s.stopped,
    ensures
        client_step(s, ClientEventView::StopSignal).0.stopped,
        client_step(s, ClientEventView::StopSignal).1 == (ClientAction::Shutdown { await_handler: s.handler_running }),
{
}

/// Over any run from a running loop, the loop ends stopped exactly when a
/// stop signal was among the events.
pub proof fn lemma_client_stopped_iff_signalled(s: ClientLoopView, events: Seq<ClientEventView>)
    requires
        !s.stopped,
    ensures
        run_client(s, events).0.stopped <==> exists|i: int| 0 <= i < events.len() && #[trigger] events[i] is StopSignal,
    decreases events.len(),
{
    if events.len() > 0 {
        let (next, action) = client_step(s, events[0]);
        let rest = events.drop_first();
        if events[0] is StopSignal {
            lemma_client_stopped_is_final(next, rest);
            assert(events[0] is StopSignal);
        } else {
            lemma_client_stopped_iff_signalled(next, rest);
            if exists|i: int| 0 <= i < events.len() && #[trigger] events[i] is StopSignal {
                let i = choose|i: int| 0 <= i < events.len() && #[trigger] events[i] is StopSignal;
                assert(rest[i - 1] is StopSignal);
            }
            if exists|i: int| 0 <= i < rest.len() && #[trigger] rest[i] is StopSignal {
                let i = choose|i: int| 0 <= i < rest.len() && #[trigger] rest[i] is StopSignal;
                assert(events[i + 1] is StopSignal);
            }
        }
    }
}

} // verus!
