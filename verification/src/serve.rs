//! The decisions of the HTTP serving loops: the loop that accepts
//! connections until a shutdown signal, and the loop that serves one
//! connection until it closes, its maximum age elapses or a graceful
//! shutdown is signalled.
use vstd::prelude::*;

verus! {

/// A future that yields its output once and is pending forever after.
pub struct FuseState {
    armed: bool,
}

impl View for FuseState {
    type V = bool;

    /// Whether the inner future is still there to be polled.
    closed spec fn view(&self) -> bool {
        self.armed
    }
}

impl FuseState {
    /// A fuse around a future (`armed`), or around none.
    pub fn new(armed: bool) -> (res: FuseState)
        ensures
            res@ == armed,
    {
        FuseState { armed }
    }

    /// Whether the inner future is still to be polled.
    pub fn is_armed(&self) -> (res: bool)
        ensures
            res == self@,
    {
        self.armed
    }

    /// Polls the fuse, whose inner future (when there is one) reported
    /// `inner_ready`. Returns whether the fuse yields the output now.
    pub fn poll(&mut self, inner_ready: bool) -> (yields: bool)
        ensures
            yields == (old(self)@ && inner_ready),
            final(self)@ == (old(self)@ && !inner_ready),
    {
        let yields = self.armed && inner_ready;
        if yields {
            self.armed = false;
        }
        yields
    }
}

/// How many times a fuse, armed or not, yields over a run of polls whose
/// inner future reported the given readiness.
pub open spec fn fuse_yield_count(armed: bool, readies: Seq<bool>) -> nat
    decreases readies.len(),
{
    if readies.len() == 0 {
        0
    } else {
        (if armed && readies[0] { 1nat } else { 0nat }) + fuse_yield_count(
            armed && !readies[0],
            readies.drop_first(),
        )
    }
}

/// A fuse yields at most once, whatever its inner future reports, and never
/// when it holds no future.
pub proof fn lemma_fuse_yields_at_most_once(armed: bool, readies: Seq<bool>)
    ensures
        fuse_yield_count(armed, readies) <= 1,
        !armed ==> fuse_yield_count(armed, readies) == 0,
    decreases readies.len(),
{
    if readies.len() > 0 {
        lemma_fuse_yields_at_most_once(armed && !readies[0], readies.drop_first());
        lemma_fuse_yields_at_most_once(false, readies.drop_first());
    }
}

/// Where the accept loop of a server stands.
#[derive(Clone, Copy, Debug, PartialEq, Eq, Structural)]
pub enum ServePhase {
    /// Accepting connections.
    Accepting,
    /// No longer accepting; waiting for the open connections to close.
    Draining,
    /// Done.
    Finished,
}

/// What the accept loop saw.
#[derive(Clone, Copy, Debug, PartialEq, Eq, Structural)]
pub enum ServeEvent {
    /// The shutdown signal resolved.
    Signal,
    /// The stream of connections yielded a connection.
    Connection,
    /// The stream of connections yielded an error.
    ConnectionError,
    /// The stream of connections ended.
    StreamEnd,
    /// Every connection that was told to shut down has closed.
    ConnectionsClosed,
}

/// What the accept loop does next.
#[derive(Clone, Copy, Debug, PartialEq, Eq, Structural)]
pub enum ServeAction {
    /// Serve the new connection in a task of its own: through a TLS
    /// handshake first when `tls`, and told of the shutdown signal when
    /// `watch_shutdown`.
    Spawn { tls: bool, watch_shutdown: bool },
    /// Nothing to do; go on.
    Continue,
    /// Tell every open connection to shut down gracefully, then wait for them
    /// to close.
    BroadcastShutdown,
    /// Return `Ok(())`.
    Return,
}

/// The phase the accept loop leaves `Accepting` for: a graceful server
/// drains its connections first.
pub open spec fn stop_phase(graceful: bool) -> ServePhase {
    if graceful {
        ServePhase::Draining
    } else {
        ServePhase::Finished
    }
}

/// The action that leaves `Accepting`.
pub open spec fn stop_action(graceful: bool) -> ServeAction {
    if graceful {
        ServeAction::BroadcastShutdown
    } else {
        ServeAction::Return
    }
}

/// One step of the accept loop.
pub open spec fn serve_step(graceful: bool, tls: bool, phase: ServePhase, event: ServeEvent) -> (
    ServePhase,
    ServeAction,
) {
    match phase {
        ServePhase::Accepting => match event {
            ServeEvent::Connection => (
                ServePhase::Accepting,
                ServeAction::Spawn { tls, watch_shutdown: graceful },
            ),
            ServeEvent::ConnectionError => (ServePhase::Accepting, ServeAction::Continue),
            ServeEvent::Signal | ServeEvent::StreamEnd => (
                stop_phase(graceful),
                stop_action(graceful),
            ),
            ServeEvent::ConnectionsClosed => (ServePhase::Accepting, ServeAction::Continue),
        },
        ServePhase::Draining => match event {
            ServeEvent::ConnectionsClosed => (ServePhase::Finished, ServeAction::Return),
            _ => (ServePhase::Draining, ServeAction::Continue),
        },
        ServePhase::Finished => (ServePhase::Finished, ServeAction::Return),
    }
}

/// The accept loop of a server that serves HTTP over a stream of
/// connections, optionally over TLS, optionally with a shutdown signal.
pub struct ServeLoop {
    graceful: bool,
    tls: bool,
    phase: ServePhase,
}

/// What a [`ServeLoop`] holds.
pub struct ServeLoopView {
    /// A shutdown signal was given: connections are told of it, and the loop
    /// waits for them to close before it returns.
    pub graceful: bool,
    /// Connections go through a TLS handshake.
    pub tls: bool,
    pub phase: ServePhase,
}

impl View for ServeLoop {
    type V = ServeLoopView;

    closed spec fn view(&self) -> ServeLoopView {
        ServeLoopView { graceful: self.graceful, tls: self.tls, phase: self.phase }
    }
}

impl ServeLoop {
    /// A loop that accepts connections; `graceful` when a shutdown signal
    /// was given, `tls` when a TLS configuration was.
    pub fn new(graceful: bool, tls: bool) -> (res: ServeLoop)
        ensures
            res@ == (ServeLoopView { graceful, tls, phase: ServePhase::Accepting }),
    {
        ServeLoop { graceful, tls, phase: ServePhase::Accepting }
    }

    /// The current phase.
    pub fn phase(&self) -> (res: ServePhase)
        ensures
            res == self@.phase,
    {
        self.phase
    }

    /// Handles what the loop saw.
    pub fn step(&mut self, event: ServeEvent) -> (action: ServeAction)
        ensures
            final(self)@.graceful == old(self)@.graceful,
            final(self)@.tls == old(self)@.tls,
            (final(self)@.phase, action) == serve_step(
                old(self)@.graceful,
                old(self)@.tls,
                old(self)@.phase,
                event,
            ),
            old(self)@.phase == ServePhase::Accepting && event == ServeEvent::Connection ==> (
                final(self)@.phase == ServePhase::Accepting
                && action == (ServeAction::Spawn { tls: old(self)@.tls, watch_shutdown: old(self)@.graceful })),
    {
        match self.phase {
            ServePhase::Accepting => match event {
                ServeEvent::Connection => ServeAction::Spawn {
                    tls: self.tls,
                    watch_shutdown: self.graceful,
                },
                ServeEvent::ConnectionError | ServeEvent::ConnectionsClosed => ServeAction::Continue,
                ServeEvent::Signal | ServeEvent::StreamEnd => {
                    if self.graceful {
                        self.phase = ServePhase::Draining;
                        ServeAction::BroadcastShutdown
                    } else {
                        self.phase = ServePhase::Finished;
                        ServeAction::Return
                    }
                },
            },
            ServePhase::Draining => match event {
                ServeEvent::ConnectionsClosed => {
                    self.phase = ServePhase::Finished;
                    ServeAction::Return
                },
                _ => ServeAction::Continue,
            },
            ServePhase::Finished => ServeAction::Return,
        }
    }
}

/// The phase after a run of events.
pub open spec fn serve_run(graceful: bool, tls: bool, phase: ServePhase, events: Seq<ServeEvent>) -> ServePhase
    decreases events.len(),
{
    if events.len() == 0 {
        phase
    } else {
        serve_run(graceful, tls, serve_step(graceful, tls, phase, events[0]).0, events.drop_first())
    }
}

/// Once the loop stops accepting it never accepts again, and no connection
/// is spawned after that, whatever it sees.
pub proof fn lemma_no_spawn_after_stop(graceful: bool, tls: bool, phase: ServePhase, events: Seq<ServeEvent>)
    requires
        phase != ServePhase::Accepting,
    ensures
        serve_run(graceful, tls, phase, events) != ServePhase::Accepting,
        forall|e: ServeEvent| !(#[trigger] serve_step(graceful, tls, phase, e).1 is Spawn),
    decreases events.len(),
{
    if events.len() > 0 {
        lemma_no_spawn_after_stop(graceful, tls, serve_step(graceful, tls, phase, events[0]).0, events.drop_first());
    }
}

/// Every spawned connection is served over TLS exactly when the loop has a
/// TLS configuration, and is told of the shutdown signal exactly when there
/// is one.
pub proof fn lemma_spawned_connections_follow_configuration(
    graceful: bool,
    tls: bool,
    phase: ServePhase,
    event: ServeEvent,
)
    ensures
        serve_step(graceful, tls, phase, event).1 matches ServeAction::Spawn { tls: t, watch_shutdown: w }
            ==> t == tls && w == graceful,
{
}

/// While accepting, every connection is served, whatever the configuration:
/// it is spawned in a task of its own, through TLS exactly when the loop has
/// a TLS configuration and told of the shutdown signal exactly when there is
/// one, and the loop goes on accepting. A connection error is skipped and
/// the loop goes on accepting too.
pub proof fn lemma_accepting_serves_every_connection(graceful: bool, tls: bool)
    ensures
        serve_step(graceful, tls, ServePhase::Accepting, ServeEvent::Connection) == (
            ServePhase::Accepting,
            ServeAction::Spawn { tls, watch_shutdown: graceful },
        ),
        serve_step(graceful, tls, ServePhase::Accepting, ServeEvent::ConnectionError) == (
            ServePhase::Accepting,
            ServeAction::Continue,
        ),
{
}

/// How many connections a run of events spawns.
pub open spec fn spawn_count(graceful: bool, tls: bool, phase: ServePhase, events: Seq<ServeEvent>) -> nat
    decreases events.len(),
{
    if events.len() == 0 {
        0
    } else {
        let (next, action) = serve_step(graceful, tls, phase, events[0]);
        (if action is Spawn { 1nat } else { 0nat }) + spawn_count(graceful, tls, next, events.drop_first())
    }
}

/// How many connections a run of events yields.
pub open spec fn connection_count(events: Seq<ServeEvent>) -> nat
    decreases events.len(),
{
    if events.len() == 0 {
        0
    } else {
        (if events[0] == ServeEvent::Connection { 1nat } else { 0nat }) + connection_count(events.drop_first())
    }
}

/// Whether a run holds neither a signal nor the end of the stream.
pub open spec fn keeps_accepting(events: Seq<ServeEvent>) -> bool {
    forall|i: int| 0 <= i < events.len() ==> #[trigger] events[i] != ServeEvent::Signal && events[i] != ServeEvent::StreamEnd
}

/// Until the signal or the end of the stream, the loop spawns exactly one
/// task per connection it sees, for every configuration.
pub proof fn lemma_one_spawn_per_connection(graceful: bool, tls: bool, events: Seq<ServeEvent>)
    requires
        keeps_accepting(events),
    ensures
        spawn_count(graceful, tls, ServePhase::Accepting, events) == connection_count(events),
        serve_run(graceful, tls, ServePhase::Accepting, events) == ServePhase::Accepting,
    decreases events.len(),
{
    if events.len() > 0 {
        assert(events[0] != ServeEvent::Signal && events[0] != ServeEvent::StreamEnd);
        assert(keeps_accepting(events.drop_first())) by {
            assert forall|i: int| 0 <= i < events.drop_first().len() implies #[trigger] events.drop_first()[i]
                != ServeEvent::Signal && events.drop_first()[i] != ServeEvent::StreamEnd by {
                assert(events.drop_first()[i] == events[i + 1]);
            }
        }
        lemma_one_spawn_per_connection(graceful, tls, events.drop_first());
    }
}

/// A loop with a shutdown signal returns only after the open connections
/// have closed: from `Accepting` it reaches `Finished` only through
/// `Draining` and a `ConnectionsClosed` event.
pub proof fn lemma_graceful_returns_after_connections_close(tls: bool, phase: ServePhase, event: ServeEvent)
    requires
        phase != ServePhase::Finished,
        serve_step(true, tls, phase, event).0 == ServePhase::Finished,
    ensures
        phase == ServePhase::Draining,
        event == ServeEvent::ConnectionsClosed,
{
}

/// What the loop serving one connection saw.
#[derive(Clone, Copy, Debug, PartialEq, Eq, Structural)]
pub enum ConnectionEvent {
    /// The connection completed, with or without an error.
    Closed,
    /// The maximum age of the connection elapsed.
    MaxAgeElapsed,
    /// The graceful shutdown signal fired.
    ShutdownSignal,
}

/// What the loop serving one connection does next.
#[derive(Clone, Copy, Debug, PartialEq, Eq, Structural)]
pub enum ConnectionAction {
    /// Stop serving: the connection is over.
    Stop,
    /// Ask the connection to shut down gracefully and keep serving it.
    GracefulShutdown,
    /// Keep serving.
    Continue,
}

/// The loop that serves one HTTP connection.
pub struct ConnectionLoop {
    age_timer: FuseState,
    signal: FuseState,
    stopped: bool,
}

/// What a [`ConnectionLoop`] holds.
pub struct ConnectionLoopView {
    /// The maximum-age timer has yet to fire.
    pub age_timer_armed: bool,
    /// The shutdown signal has yet to fire.
    pub signal_armed: bool,
    /// The connection is over.
    pub stopped: bool,
}

/// One step of the loop serving a connection.
pub open spec fn connection_step(s: ConnectionLoopView, event: ConnectionEvent) -> (
    ConnectionLoopView,
    ConnectionAction,
) {
    match event {
        ConnectionEvent::Closed => (ConnectionLoopView { stopped: true, ..s }, ConnectionAction::Stop),
        ConnectionEvent::MaxAgeElapsed => if s.age_timer_armed {
            (ConnectionLoopView { age_timer_armed: false, ..s }, ConnectionAction::GracefulShutdown)
        } else {
            (s, ConnectionAction::Continue)
        },
        ConnectionEvent::ShutdownSignal => if s.signal_armed {
            (ConnectionLoopView { signal_armed: false, ..s }, ConnectionAction::GracefulShutdown)
        } else {
            (s, ConnectionAction::Continue)
        },
    }
}

impl View for ConnectionLoop {
    type V = ConnectionLoopView;

    closed spec fn view(&self) -> ConnectionLoopView {
        ConnectionLoopView {
            age_timer_armed: self.age_timer@,
            signal_armed: self.signal@,
            stopped: self.stopped,
        }
    }
}

impl ConnectionLoop {
    /// A loop with a maximum-age timer when `has_max_age`, and a shutdown
    /// signal when `has_signal`.
    pub fn new(has_max_age: bool, has_signal: bool) -> (res: ConnectionLoop)
        ensures
            res@ == (ConnectionLoopView {
                age_timer_armed: has_max_age,
                signal_armed: has_signal,
                stopped: false,
            }),
    {
        ConnectionLoop {
            age_timer: FuseState::new(has_max_age),
            signal: FuseState::new(has_signal),
            stopped: false,
        }
    }

    /// Whether the connection is over.
    pub fn is_stopped(&self) -> (res: bool)
        ensures
            res == self@.stopped,
    {
        self.stopped
    }

    /// Handles what the loop saw. A timer or a signal that already fired is
    /// never seen again.
    pub fn step(&mut self, event: ConnectionEvent) -> (action: ConnectionAction)
        requires
            !old(self)@.stopped,
        ensures
            (final(self)@, action) == connection_step(old(self)@, event),
    {
        match event {
            ConnectionEvent::Closed => {
                self.stopped = true;
                ConnectionAction::Stop
            },
            ConnectionEvent::MaxAgeElapsed => {
                if self.age_timer.poll(true) {
                    ConnectionAction::GracefulShutdown
                } else {
                    ConnectionAction::Continue
                }
            },
            ConnectionEvent::ShutdownSignal => {
                if self.signal.poll(true) {
                    ConnectionAction::GracefulShutdown
                } else {
                    ConnectionAction::Continue
                }
            },
        }
    }
}

/// How many graceful shutdowns a run of events asks of a connection.
pub open spec fn graceful_request_count(s: ConnectionLoopView, events: Seq<ConnectionEvent>) -> nat
    decreases events.len(),
{
    if events.len() == 0 {
        0
    } else {
        let (next, action) = connection_step(s, events[0]);
        (if action is GracefulShutdown { 1nat } else { 0nat }) + graceful_request_count(next, events.drop_first())
    }
}

/// A graceful shutdown is asked of a connection at most once per source: at
/// most once for the maximum age and once for the shutdown signal, whatever
/// the events, and never by a source the connection does not have.
pub proof fn lemma_graceful_shutdown_once_per_source(s: ConnectionLoopView, events: Seq<ConnectionEvent>)
    ensures
        graceful_request_count(s, events) <= (if s.age_timer_armed { 1nat } else { 0nat }) + (
        if s.signal_armed {
            1nat
        } else {
            0nat
        }),
    decreases events.len(),
{
    if events.len() > 0 {
        let (next, action) = connection_step(s, events[0]);
        lemma_graceful_shutdown_once_per_source(next, events.drop_first());
    }
}

} // verus!
