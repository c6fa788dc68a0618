//! The bookkeeping behind a server handle: how many connections are open,
//! whether an immediate or a graceful shutdown was asked for, and when the
//! last connection of a graceful shutdown has ended.
use std::time::Duration;
use vstd::prelude::*;

verus! {

/// What a [`HandleState`] holds.
pub struct HandleView {
    /// Open connections.
    pub conn_count: nat,
    /// An immediate shutdown was asked for.
    pub shutdown: bool,
    /// A graceful shutdown was asked for.
    pub graceful: bool,
    /// How long a graceful shutdown waits for open connections.
    pub graceful_dur: Option<Duration>,
    /// The last connection ended during a graceful shutdown.
    pub conn_end: bool,
}

impl HandleView {
    /// The state a fresh handle starts in.
    pub open spec fn initial() -> HandleView {
        HandleView {
            conn_count: 0,
            shutdown: false,
            graceful: false,
            graceful_dur: None,
            conn_end: false,
        }
    }

    /// Every reachable state: the end of the connections is only announced
    /// during a graceful shutdown.
    pub open spec fn inv(self) -> bool {
        self.conn_end ==> self.graceful
    }

    pub open spec fn after_shutdown(self) -> HandleView {
        HandleView { shutdown: true, ..self }
    }

    pub open spec fn after_graceful_shutdown(self, duration: Option<Duration>) -> HandleView {
        HandleView { graceful: true, graceful_dur: duration, ..self }
    }

    pub open spec fn after_open(self) -> HandleView {
        HandleView { conn_count: self.conn_count + 1, ..self }
    }

    /// Closing a connection announces the end of the connections when it
    /// was the last one and a graceful shutdown was asked for.
    pub open spec fn closing_ends_connections(self) -> bool {
        self.conn_count == 1 && self.graceful
    }

    pub open spec fn after_close(self) -> HandleView
        recommends
            self.conn_count > 0,
    {
        HandleView {
            conn_count: (self.conn_count - 1) as nat,
            conn_end: self.conn_end || self.closing_ends_connections(),
            ..self
        }
    }
}

/// How to wait for the open connections to end.
#[derive(Clone, Copy, Debug, PartialEq, Eq)]
pub enum ConnectionsEndWait {
    /// No connection is open: nothing to wait for.
    Done,
    /// Wait until the last connection ends, however long it takes.
    UntilEnd,
    /// Wait until the last connection ends or the duration elapses,
    /// whichever comes first; when it elapses, shut down immediately.
    UntilEndOrDeadline(Duration),
}

/// The shutdown and connection bookkeeping of a server.
#[derive(Debug)]
pub struct HandleState {
    conn_count: usize,
    shutdown: bool,
    graceful: bool,
    graceful_dur: Option<Duration>,
    conn_end: bool,
}

impl View for HandleState {
    type V = HandleView;

    closed spec fn view(&self) -> HandleView {
        HandleView {
            conn_count: self.conn_count as nat,
            shutdown: self.shutdown,
            graceful: self.graceful,
            graceful_dur: self.graceful_dur,
            conn_end: self.conn_end,
        }
    }
}

impl HandleState {
    /// No connection open, no shutdown asked for.
    pub fn new() -> (res: HandleState)
        ensures
            res@ == HandleView::initial(),
    {
        HandleState {
            conn_count: 0,
            shutdown: false,
            graceful: false,
            graceful_dur: None,
            conn_end: false,
        }
    }

    /// The number of open connections.
    pub fn connection_count(&self) -> (res: usize)
        ensures
            res == self@.conn_count,
    {
        self.conn_count
    }

    /// Asks for an immediate shutdown: open connections are not waited for.
    pub fn shutdown(&mut self)
        ensures
            final(self)@ == old(self)@.after_shutdown(),
            final(self)@.shutdown,
            final(self)@.graceful == old(self)@.graceful,
            final(self)@.graceful_dur == old(self)@.graceful_dur,
            final(self)@.conn_count == old(self)@.conn_count,
            final(self)@.conn_end == old(self)@.conn_end,
    {
        self.shutdown = true;
    }

    /// Asks for a graceful shutdown that waits up to `duration` for the open
    /// connections (`None`: as long as they take).
    pub fn graceful_shutdown(&mut self, duration: Option<Duration>)
        ensures
            final(self)@ == old(self)@.after_graceful_shutdown(duration),
            final(self)@.graceful,
            final(self)@.graceful_dur == duration,
            final(self)@.shutdown == old(self)@.shutdown,
            final(self)@.conn_count == old(self)@.conn_count,
            final(self)@.conn_end == old(self)@.conn_end,
    {
        self.graceful_dur = duration;
        self.graceful = true;
    }

    /// Whether an immediate shutdown was asked for.
    pub fn is_shutdown(&self) -> (res: bool)
        ensures
            res == self@.shutdown,
    {
        self.shutdown
    }

    /// Whether a graceful shutdown was asked for.
    pub fn is_graceful_shutdown(&self) -> (res: bool)
        ensures
            res == self@.graceful,
    {
        self.graceful
    }

    /// Whether the last connection ended during a graceful shutdown.
    pub fn connections_ended(&self) -> (res: bool)
        ensures
            res == self@.conn_end,
    {
        self.conn_end
    }

    /// The duration a graceful shutdown waits for.
    pub fn graceful_duration(&self) -> (res: Option<Duration>)
        ensures
            res == self@.graceful_dur,
    {
        self.graceful_dur
    }

    /// Counts a newly opened connection.
    pub fn connection_opened(&mut self)
        requires
            old(self)@.conn_count < usize::MAX,
        ensures
            final(self)@ == old(self)@.after_open(),
            final(self)@.conn_count == old(self)@.conn_count + 1,
            final(self)@.shutdown == old(self)@.shutdown,
            final(self)@.graceful == old(self)@.graceful,
            final(self)@.conn_end == old(self)@.conn_end,
    {
        self.conn_count = self.conn_count + 1;
    }

    /// Counts a connection that ended. Returns whether it was the last one
    /// during a graceful shutdown, in which case the waiters for the end of
    /// the connections are to be woken.
    pub fn connection_closed(&mut self) -> (ended: bool)
        requires
            old(self)@.conn_count > 0,
        ensures
            final(self)@ == old(self)@.after_close(),
            ended == old(self)@.closing_ends_connections(),
            final(self)@.conn_count == old(self)@.conn_count - 1,
            final(self)@.shutdown == old(self)@.shutdown,
            final(self)@.graceful == old(self)@.graceful,
            ended == (old(self)@.conn_count == 1 && old(self)@.graceful),
            final(self)@.conn_end == (old(self)@.conn_end || ended),
    {
        self.conn_count = self.conn_count - 1;
        let ended = self.conn_count == 0 && self.graceful;
        if ended {
            self.conn_end = true;
        }
        ended
    }

    /// How to wait for the open connections to end.
    pub fn connections_end_wait(&self) -> (res: ConnectionsEndWait)
        ensures
            self@.conn_count == 0 ==> res == ConnectionsEndWait::Done,
            self@.conn_count > 0 ==> match self@.graceful_dur {
                Some(d) => res == ConnectionsEndWait::UntilEndOrDeadline(d),
                None => res == ConnectionsEndWait::UntilEnd,
            },
    {
        if self.conn_count == 0 {
            return ConnectionsEndWait::Done;
        }
        match self.graceful_dur {
            Some(d) => ConnectionsEndWait::UntilEndOrDeadline(d),
            None => ConnectionsEndWait::UntilEnd,
        }
    }
}

/// Each request sets its own flag and nothing else: an immediate shutdown
/// leaves the graceful request and its duration as they were, and a graceful
/// shutdown records its duration but does not ask for an immediate shutdown,
/// so open connections are waited for. Neither changes the count of open
/// connections or the announced end of the connections.
pub proof fn lemma_requests_set_only_their_flag(s: HandleView, duration: Option<Duration>)
    ensures
        s.after_shutdown().shutdown,
        s.after_shutdown().graceful == s.graceful,
        s.after_shutdown().graceful_dur == s.graceful_dur,
        s.after_shutdown().conn_count == s.conn_count,
        s.after_shutdown().conn_end == s.conn_end,
        s.after_graceful_shutdown(duration).graceful,
        s.after_graceful_shutdown(duration).graceful_dur == duration,
        s.after_graceful_shutdown(duration).shutdown == s.shutdown,
        s.after_graceful_shutdown(duration).conn_count == s.conn_count,
        s.after_graceful_shutdown(duration).conn_end == s.conn_end,
        s.after_open().shutdown == s.shutdown && s.after_open().graceful == s.graceful,
        s.conn_count > 0 ==> s.after_close().shutdown == s.shutdown && s.after_close().graceful == s.graceful,
{
}

/// Every operation keeps the invariant of the bookkeeping.
pub proof fn lemma_operations_keep_invariant(s: HandleView, duration: Option<Duration>)
    requires
        s.inv(),
    ensures
        s.after_shutdown().inv(),
        s.after_graceful_shutdown(duration).inv(),
        s.after_open().inv(),
        s.conn_count > 0 ==> s.after_close().inv(),
{
}

/// A requested shutdown, immediate or graceful, stays requested whatever
/// happens next, and so does the announced end of the connections.
pub proof fn lemma_requests_are_never_withdrawn(s: HandleView, duration: Option<Duration>)
    ensures
        s.shutdown ==> s.after_graceful_shutdown(duration).shutdown && s.after_open().shutdown
            && (s.conn_count > 0 ==> s.after_close().shutdown),
        s.graceful ==> s.after_shutdown().graceful && s.after_open().graceful
            && (s.conn_count > 0 ==> s.after_close().graceful)
            && s.after_graceful_shutdown(duration).graceful,
        s.conn_end ==> s.after_shutdown().conn_end && s.after_open().conn_end
            && s.after_graceful_shutdown(duration).conn_end
            && (s.conn_count > 0 ==> s.after_close().conn_end),
{
}

/// Closing a connection undoes opening one: the count and the requests come
/// back as they were; the end of the connections is announced exactly when
/// no connection was open before and a graceful shutdown is under way.
pub proof fn lemma_close_undoes_open(s: HandleView)
    ensures
        s.after_open().after_close().conn_count == s.conn_count,
        s.after_open().after_close().shutdown == s.shutdown,
        s.after_open().after_close().graceful == s.graceful,
        s.after_open().after_close().graceful_dur == s.graceful_dur,
        s.after_open().after_close().conn_end == (s.conn_end || (s.conn_count == 0 && s.graceful)),
{
}

/// The end of the connections is announced only when the count drops to zero
/// while a graceful shutdown is under way.
pub proof fn lemma_end_announced_only_at_zero(s: HandleView)
    requires
        s.conn_count > 0,
        !s.conn_end,
    ensures
        s.after_close().conn_end <==> (s.after_close().conn_count == 0 && s.graceful),
{
}

/// What happened to a handle.
pub enum HandleEvent {
    Opened,
    Closed,
    Shutdown,
    GracefulShutdown(Option<Duration>),
}

/// The state after a run of events.
pub open spec fn handle_run(s: HandleView, events: Seq<HandleEvent>) -> HandleView
    decreases events.len(),
{
    if events.len() == 0 {
        s
    } else {
        let next = match events[0] {
            HandleEvent::Opened => s.after_open(),
            HandleEvent::Closed => s.after_close(),
            HandleEvent::Shutdown => s.after_shutdown(),
            HandleEvent::GracefulShutdown(d) => s.after_graceful_shutdown(d),
        };
        handle_run(next, events.drop_first())
    }
}

/// How many events of a run open a connection.
pub open spec fn opened_count(events: Seq<HandleEvent>) -> nat
    decreases events.len(),
{
    if events.len() == 0 {
        0
    } else {
        (if events[0] is Opened { 1nat } else { 0nat }) + opened_count(events.drop_first())
    }
}

/// How many events of a run close a connection.
pub open spec fn closed_count(events: Seq<HandleEvent>) -> nat
    decreases events.len(),
{
    if events.len() == 0 {
        0
    } else {
        (if events[0] is Closed { 1nat } else { 0nat }) + closed_count(events.drop_first())
    }
}

/// Whether no prefix of the run closes more connections than are open.
pub open spec fn closes_are_matched(count: nat, events: Seq<HandleEvent>) -> bool
    decreases events.len(),
{
    if events.len() == 0 {
        true
    } else {
        match events[0] {
            HandleEvent::Opened => closes_are_matched(count + 1, events.drop_first()),
            HandleEvent::Closed => count > 0 && closes_are_matched((count - 1) as nat, events.drop_first()),
            _ => closes_are_matched(count, events.drop_first()),
        }
    }
}

/// Whether a run holds no request for an immediate shutdown.
pub open spec fn no_immediate_shutdown(events: Seq<HandleEvent>) -> bool {
    forall|i: int| 0 <= i < events.len() ==> !(#[trigger] events[i] is Shutdown)
}

/// Only an immediate-shutdown request makes a handle shut down at once: over
/// any run of openings, closings and graceful shutdowns, the immediate
/// shutdown flag stays as it was; and after a graceful shutdown the graceful
/// flag stays set whatever follows.
pub proof fn lemma_only_shutdown_requests_stop_at_once(s: HandleView, events: Seq<HandleEvent>)
    requires
        no_immediate_shutdown(events),
    ensures
        handle_run(s, events).shutdown == s.shutdown,
        s.graceful ==> handle_run(s, events).graceful,
    decreases events.len(),
{
    if events.len() > 0 {
        assert(!(events[0] is Shutdown));
        let next = match events[0] {
            HandleEvent::Opened => s.after_open(),
            HandleEvent::Closed => s.after_close(),
            HandleEvent::Shutdown => s.after_shutdown(),
            HandleEvent::GracefulShutdown(d) => s.after_graceful_shutdown(d),
        };
        assert(no_immediate_shutdown(events.drop_first())) by {
            assert forall|i: int| 0 <= i < events.drop_first().len() implies !(#[trigger] events.drop_first()[i] is Shutdown) by {
                assert(events.drop_first()[i] == events[i + 1]);
            }
        }
        lemma_only_shutdown_requests_stop_at_once(next, events.drop_first());
    }
}

/// The number of open connections is the number at the start, plus the
/// connections opened, minus those closed; and the invariant holds all along.
pub proof fn lemma_count_is_opened_minus_closed(s: HandleView, events: Seq<HandleEvent>)
    requires
        s.inv(),
        closes_are_matched(s.conn_count, events),
    ensures
        handle_run(s, events).conn_count + closed_count(events) == s.conn_count + opened_count(events),
        handle_run(s, events).inv(),
    decreases events.len(),
{
    if events.len() > 0 {
        let next = match events[0] {
            HandleEvent::Opened => s.after_open(),
            HandleEvent::Closed => s.after_close(),
            HandleEvent::Shutdown => s.after_shutdown(),
            HandleEvent::GracefulShutdown(d) => s.after_graceful_shutdown(d),
        };
        lemma_count_is_opened_minus_closed(next, events.drop_first());
    }
}

} // verus!
