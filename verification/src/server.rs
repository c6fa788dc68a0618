//! The decisions of a server built with a handle: binding, the accept loop
//! that makes a service for each connection and ends on an immediate or a
//! graceful shutdown, and the task that serves each connection.
use crate::error::{as_io_other, io_other, AnyError};
use vstd::prelude::*;

verus! {

/// Where a server stands.
#[derive(Clone, Copy, Debug, PartialEq, Eq, Structural)]
pub enum ServerPhase {
    /// Binding its listener.
    Binding,
    /// Waiting for a connection or a shutdown request.
    Accepting,
    /// Making the service for a newly accepted connection.
    MakingService,
    /// No longer accepting: waiting for the open connections to end.
    Draining,
    /// Returned.
    Stopped,
}

/// What the server saw.
pub enum ServerEvent {
    /// The listener is bound.
    Bound,
    /// Binding the listener failed.
    BindFailed(AnyError),
    /// An immediate shutdown was requested.
    Shutdown,
    /// A graceful shutdown was requested.
    GracefulShutdown,
    /// A connection was accepted.
    Accepted,
    /// Accepting a connection failed.
    AcceptFailed(AnyError),
    /// The service maker reported that it cannot make services.
    MakerFailed(AnyError),
    /// Making the service for the accepted connection failed.
    ServiceFailed,
    /// The service for the accepted connection is made.
    ServiceMade,
    /// Every open connection has ended (or the graceful deadline passed).
    ConnectionsEnded,
}

/// What the server does next.
pub enum ServerAction {
    /// Tell the handle the listening address.
    NotifyListening,
    /// Tell the handle that the server is not listening, and return this error.
    FailToBind(AnyError),
    /// Wait for the service maker to be ready, then make a service for the
    /// accepted connection.
    MakeService,
    /// Serve the accepted connection in a task of its own.
    SpawnConnection,
    /// Wait for the open connections to end.
    WaitConnections,
    /// Keep going.
    Continue,
    /// Return `Ok(())`.
    Return,
    /// Return this error.
    Fail(AnyError),
}

/// One step of a server.
pub open spec fn server_step(phase: ServerPhase, event: ServerEvent) -> (ServerPhase, ServerAction) {
    match phase {
        ServerPhase::Binding => match event {
            ServerEvent::Bound => (ServerPhase::Accepting, ServerAction::NotifyListening),
            ServerEvent::BindFailed(e) => (ServerPhase::Stopped, ServerAction::FailToBind(e)),
            _ => (ServerPhase::Binding, ServerAction::Continue),
        },
        ServerPhase::Accepting => match event {
            ServerEvent::Shutdown => (ServerPhase::Stopped, ServerAction::Return),
            ServerEvent::GracefulShutdown => (ServerPhase::Draining, ServerAction::WaitConnections),
            ServerEvent::Accepted => (ServerPhase::MakingService, ServerAction::MakeService),
            ServerEvent::AcceptFailed(e) => (ServerPhase::Stopped, ServerAction::Fail(e)),
            _ => (ServerPhase::Accepting, ServerAction::Continue),
        },
        ServerPhase::MakingService => match event {
            ServerEvent::Shutdown => (ServerPhase::Stopped, ServerAction::Return),
            ServerEvent::MakerFailed(e) => (
                ServerPhase::Stopped,
                ServerAction::Fail(as_io_other(e)),
            ),
            ServerEvent::ServiceFailed => (ServerPhase::Accepting, ServerAction::Continue),
            ServerEvent::ServiceMade => (ServerPhase::Accepting, ServerAction::SpawnConnection),
            _ => (ServerPhase::MakingService, ServerAction::Continue),
        },
        ServerPhase::Draining => match event {
            ServerEvent::ConnectionsEnded => (ServerPhase::Stopped, ServerAction::Return),
            _ => (ServerPhase::Draining, ServerAction::Continue),
        },
        ServerPhase::Stopped => (ServerPhase::Stopped, ServerAction::Return),
    }
}

/// The state of a server.
pub struct ServerLoop {
    phase: ServerPhase,
}

impl View for ServerLoop {
    type V = ServerPhase;

    closed spec fn view(&self) -> ServerPhase {
        self.phase
    }
}

impl ServerLoop {
    /// A server about to bind its listener.
    pub fn new() -> (res: ServerLoop)
        ensures
            res@ == ServerPhase::Binding,
    {
        ServerLoop { phase: ServerPhase::Binding }
    }

    /// The current phase.
    pub fn phase(&self) -> (res: ServerPhase)
        ensures
            res == self@,
    {
        self.phase
    }

    /// Handles what the server saw. A server that has returned sees nothing
    /// more.
    pub fn step(&mut self, event: ServerEvent) -> (action: ServerAction)
        requires
            old(self)@ != ServerPhase::Stopped,
        ensures
            (final(self)@, action) == server_step(old(self)@, event),
    {
        match self.phase {
            ServerPhase::Binding => match event {
                ServerEvent::Bound => {
                    self.phase = ServerPhase::Accepting;
                    ServerAction::NotifyListening
                },
                ServerEvent::BindFailed(e) => {
                    self.phase = ServerPhase::Stopped;
                    ServerAction::FailToBind(e)
                },
                _ => ServerAction::Continue,
            },
            ServerPhase::Accepting => match event {
                ServerEvent::Shutdown => {
                    self.phase = ServerPhase::Stopped;
                    ServerAction::Return
                },
                ServerEvent::GracefulShutdown => {
                    self.phase = ServerPhase::Draining;
                    ServerAction::WaitConnections
                },
                ServerEvent::Accepted => {
                    self.phase = ServerPhase::MakingService;
                    ServerAction::MakeService
                },
                ServerEvent::AcceptFailed(e) => {
                    self.phase = ServerPhase::Stopped;
                    ServerAction::Fail(e)
                },
                _ => ServerAction::Continue,
            },
            ServerPhase::MakingService => match event {
                ServerEvent::Shutdown => {
                    self.phase = ServerPhase::Stopped;
                    ServerAction::Return
                },
                ServerEvent::MakerFailed(e) => {
                    self.phase = ServerPhase::Stopped;
                    ServerAction::Fail(io_other(e))
                },
                ServerEvent::ServiceFailed => {
                    self.phase = ServerPhase::Accepting;
                    ServerAction::Continue
                },
                ServerEvent::ServiceMade => {
                    self.phase = ServerPhase::Accepting;
                    ServerAction::SpawnConnection
                },
                _ => ServerAction::Continue,
            },
            ServerPhase::Draining => match event {
                ServerEvent::ConnectionsEnded => {
                    self.phase = ServerPhase::Stopped;
                    ServerAction::Return
                },
                _ => ServerAction::Continue,
            },
            ServerPhase::Stopped => ServerAction::Return,
        }
    }
}

/// The phase after a run of events.
pub open spec fn server_run(phase: ServerPhase, events: Seq<ServerEvent>) -> ServerPhase
    decreases events.len(),
{
    if events.len() == 0 {
        phase
    } else {
        server_run(server_step(phase, events[0]).0, events.drop_first())
    }
}

/// Once a server drains or has returned, it accepts no connection any more:
/// it never goes back to accepting and never spawns a connection.
pub proof fn lemma_server_accepts_nothing_after_stop(phase: ServerPhase, events: Seq<ServerEvent>)
    requires
        phase == ServerPhase::Draining || phase == ServerPhase::Stopped,
    ensures
        server_run(phase, events) == ServerPhase::Draining || server_run(phase, events) == ServerPhase::Stopped,
        forall|e: ServerEvent| !(#[trigger] server_step(phase, e).1 is SpawnConnection),
    decreases events.len(),
{
    if events.len() > 0 {
        lemma_server_accepts_nothing_after_stop(server_step(phase, events[0]).0, events.drop_first());
    }
}

/// An immediate shutdown stops a server at once while it accepts
/// connections, and a graceful one only stops it from accepting.
pub proof fn lemma_shutdown_requests(phase: ServerPhase)
    requires
        phase == ServerPhase::Accepting || phase == ServerPhase::MakingService,
    ensures
        server_step(phase, ServerEvent::Shutdown) == (ServerPhase::Stopped, ServerAction::Return),
        phase == ServerPhase::Accepting ==> server_step(phase, ServerEvent::GracefulShutdown) == (
        ServerPhase::Draining,
        ServerAction::WaitConnections,
        ),
{
}

/// A server returns an error only when binding, accepting or the service
/// maker failed, and a failed service for one connection does not stop it.
pub proof fn lemma_server_errors(phase: ServerPhase, event: ServerEvent)
    ensures
        server_step(phase, event).1 is Fail ==> (event is AcceptFailed || event is MakerFailed),
        server_step(phase, event).1 is FailToBind ==> event is BindFailed,
        (phase == ServerPhase::MakingService && event is ServiceFailed) ==> server_step(phase, event).0
            == ServerPhase::Accepting,
{
}

/// Where the task serving one connection stands.
#[derive(Clone, Copy, Debug, PartialEq, Eq, Structural)]
pub enum ConnectionTaskPhase {
    /// The acceptor is preparing the connection.
    Accepting,
    /// Serving the connection.
    Serving,
    /// Serving the connection after asking it to shut down gracefully.
    ShuttingDown,
    /// Over.
    Done,
}

/// What the task serving a connection saw.
#[derive(Clone, Copy, Debug, PartialEq, Eq, Structural)]
pub enum ConnectionTaskEvent {
    /// The acceptor failed.
    AcceptFailed,
    /// The acceptor handed over the stream and the service.
    Accepted,
    /// A graceful shutdown was requested.
    GracefulShutdown,
    /// An immediate shutdown was requested.
    Shutdown,
    /// The connection completed.
    Finished,
}

/// What the task serving a connection does next.
#[derive(Clone, Copy, Debug, PartialEq, Eq, Structural)]
pub enum ConnectionTaskAction {
    /// Start serving the connection.
    Serve,
    /// Ask the connection to shut down gracefully.
    GracefulShutdown,
    /// Drop the connection and end the task.
    End,
    /// Keep going.
    Continue,
}

/// One step of the task serving a connection.
pub open spec fn connection_task_step(phase: ConnectionTaskPhase, event: ConnectionTaskEvent) -> (
    ConnectionTaskPhase,
    ConnectionTaskAction,
) {
    match phase {
        ConnectionTaskPhase::Accepting => match event {
            ConnectionTaskEvent::AcceptFailed => (ConnectionTaskPhase::Done, ConnectionTaskAction::End),
            ConnectionTaskEvent::Accepted => (ConnectionTaskPhase::Serving, ConnectionTaskAction::Serve),
            _ => (ConnectionTaskPhase::Accepting, ConnectionTaskAction::Continue),
        },
        ConnectionTaskPhase::Serving => match event {
            ConnectionTaskEvent::GracefulShutdown => (
                ConnectionTaskPhase::ShuttingDown,
                ConnectionTaskAction::GracefulShutdown,
            ),
            ConnectionTaskEvent::Shutdown | ConnectionTaskEvent::Finished => (
                ConnectionTaskPhase::Done,
                ConnectionTaskAction::End,
            ),
            _ => (ConnectionTaskPhase::Serving, ConnectionTaskAction::Continue),
        },
        ConnectionTaskPhase::ShuttingDown => match event {
            ConnectionTaskEvent::Shutdown | ConnectionTaskEvent::Finished => (
                ConnectionTaskPhase::Done,
                ConnectionTaskAction::End,
            ),
            _ => (ConnectionTaskPhase::ShuttingDown, ConnectionTaskAction::Continue),
        },
        ConnectionTaskPhase::Done => (ConnectionTaskPhase::Done, ConnectionTaskAction::End),
    }
}

/// The state of the task serving one connection.
pub struct ConnectionTask {
    phase: ConnectionTaskPhase,
}

impl View for ConnectionTask {
    type V = ConnectionTaskPhase;

    closed spec fn view(&self) -> ConnectionTaskPhase {
        self.phase
    }
}

impl ConnectionTask {
    /// A task waiting for its acceptor.
    pub fn new() -> (res: ConnectionTask)
        ensures
            res@ == ConnectionTaskPhase::Accepting,
    {
        ConnectionTask { phase: ConnectionTaskPhase::Accepting }
    }

    /// The current phase.
    pub fn phase(&self) -> (res: ConnectionTaskPhase)
        ensures
            res == self@,
    {
        self.phase
    }

    /// Handles what the task saw. A task that has ended sees nothing more.
    pub fn step(&mut self, event: ConnectionTaskEvent) -> (action: ConnectionTaskAction)
        requires
            old(self)@ != ConnectionTaskPhase::Done,
        ensures
            (final(self)@, action) == connection_task_step(old(self)@, event),
            (old(self)@ == ConnectionTaskPhase::Serving || old(self)@ == ConnectionTaskPhase::ShuttingDown)
                && (event == ConnectionTaskEvent::Shutdown || event == ConnectionTaskEvent::Finished)
                ==> final(self)@ == ConnectionTaskPhase::Done && action == ConnectionTaskAction::End,
    {
        match (self.phase, event) {
            (ConnectionTaskPhase::Accepting, ConnectionTaskEvent::AcceptFailed) => {
                self.phase = ConnectionTaskPhase::Done;
                ConnectionTaskAction::End
            },
            (ConnectionTaskPhase::Accepting, ConnectionTaskEvent::Accepted) => {
                self.phase = ConnectionTaskPhase::Serving;
                ConnectionTaskAction::Serve
            },
            (ConnectionTaskPhase::Serving, ConnectionTaskEvent::GracefulShutdown) => {
                self.phase = ConnectionTaskPhase::ShuttingDown;
                ConnectionTaskAction::GracefulShutdown
            },
            (ConnectionTaskPhase::Serving, ConnectionTaskEvent::Shutdown)
            | (ConnectionTaskPhase::Serving, ConnectionTaskEvent::Finished)
            | (ConnectionTaskPhase::ShuttingDown, ConnectionTaskEvent::Shutdown)
            | (ConnectionTaskPhase::ShuttingDown, ConnectionTaskEvent::Finished) => {
                self.phase = ConnectionTaskPhase::Done;
                ConnectionTaskAction::End
            },
            _ => ConnectionTaskAction::Continue,
        }
    }
}

/// An immediate shutdown drops a connection at once in every phase after its
/// acceptor has handed it over, whether or not it was asked to shut down
/// gracefully before; so does the end of the connection.
pub proof fn lemma_immediate_shutdown_ends_connection(phase: ConnectionTaskPhase)
    requires
        phase == ConnectionTaskPhase::Serving || phase == ConnectionTaskPhase::ShuttingDown,
    ensures
        connection_task_step(phase, ConnectionTaskEvent::Shutdown) == (
            ConnectionTaskPhase::Done,
            ConnectionTaskAction::End,
        ),
        connection_task_step(phase, ConnectionTaskEvent::Finished) == (
            ConnectionTaskPhase::Done,
            ConnectionTaskAction::End,
        ),
{
}

/// The phase of a connection task after a run of events.
pub open spec fn task_run(phase: ConnectionTaskPhase, events: Seq<ConnectionTaskEvent>) -> ConnectionTaskPhase
    decreases events.len(),
{
    if events.len() == 0 {
        phase
    } else {
        task_run(connection_task_step(phase, events[0]).0, events.drop_first())
    }
}

/// Once the acceptor has handed a connection over, an immediate shutdown
/// ends it whatever happened before: after any run of events from serving,
/// the task is over or a shutdown makes it over.
pub proof fn lemma_shutdown_ends_served_connection_after_any_run(events: Seq<ConnectionTaskEvent>)
    ensures
        connection_task_step(task_run(ConnectionTaskPhase::Serving, events), ConnectionTaskEvent::Shutdown)
            == (ConnectionTaskPhase::Done, ConnectionTaskAction::End),
    decreases events.len(),
{
    lemma_served_task_stays_served(ConnectionTaskPhase::Serving, events);
}

/// From serving, a task only ever serves, shuts down gracefully or is done.
proof fn lemma_served_task_stays_served(phase: ConnectionTaskPhase, events: Seq<ConnectionTaskEvent>)
    requires
        phase == ConnectionTaskPhase::Serving || phase == ConnectionTaskPhase::ShuttingDown
            || phase == ConnectionTaskPhase::Done,
    ensures
        task_run(phase, events) == ConnectionTaskPhase::Serving || task_run(phase, events)
            == ConnectionTaskPhase::ShuttingDown || task_run(phase, events) == ConnectionTaskPhase::Done,
    decreases events.len(),
{
    if events.len() > 0 {
        lemma_served_task_stays_served(connection_task_step(phase, events[0]).0, events.drop_first());
    }
}

/// How many graceful shutdowns a run of events asks of a connection.
pub open spec fn task_graceful_count(phase: ConnectionTaskPhase, events: Seq<ConnectionTaskEvent>) -> nat
    decreases events.len(),
{
    if events.len() == 0 {
        0
    } else {
        let (next, action) = connection_task_step(phase, events[0]);
        (if action is GracefulShutdown { 1nat } else { 0nat }) + task_graceful_count(next, events.drop_first())
    }
}

/// A connection is asked to shut down gracefully at most once, and never
/// before its acceptor has handed it over.
pub proof fn lemma_task_graceful_at_most_once(phase: ConnectionTaskPhase, events: Seq<ConnectionTaskEvent>)
    ensures
        task_graceful_count(phase, events) <= 1,
        phase == ConnectionTaskPhase::ShuttingDown || phase == ConnectionTaskPhase::Done
            ==> task_graceful_count(phase, events) == 0,
    decreases events.len(),
{
    if events.len() > 0 {
        let (next, action) = connection_task_step(phase, events[0]);
        lemma_task_graceful_at_most_once(next, events.drop_first());
        if action is GracefulShutdown {
            assert(next == ConnectionTaskPhase::ShuttingDown);
        }
    }
}

} // verus!
