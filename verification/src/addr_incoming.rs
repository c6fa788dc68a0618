//! The decisions of the listener that yields accepted TCP connections:
//! errors that concern one connection are skipped, other errors either pause
//! the listener for a second or are returned.
use crate::error::{is_connection_error, is_connection_error_kind, IoErrorKind};
use vstd::prelude::*;

verus! {

/// What the listener reported.
#[derive(Clone, Copy, Debug, PartialEq, Eq, Structural)]
pub enum IncomingPollEvent {
    /// The pause after an accept error is not over.
    TimerPending,
    /// The pause after an accept error is over.
    TimerElapsed,
    /// No connection is waiting.
    AcceptPending,
    /// A connection was accepted.
    Accepted,
    /// Accepting failed with an I/O error of this kind.
    AcceptFailed(IoErrorKind),
}

/// What the listener does next.
#[derive(Clone, Copy, Debug, PartialEq, Eq, Structural)]
pub enum IncomingPollAction {
    /// Poll the pause timer.
    PollTimer,
    /// Poll the listener for a connection.
    PollAccept,
    /// Return `Poll::Pending`.
    ReturnPending,
    /// Apply the keepalive and `TCP_NODELAY` settings to the connection and
    /// return it.
    ReturnConnection,
    /// Start a one-second pause and poll it.
    StartTimer,
    /// Return the accept error.
    ReturnError,
}

/// What the listener does after an accept error of kind `kind`.
pub open spec fn after_accept_error(kind: IoErrorKind, sleep_on_errors: bool) -> IncomingPollAction {
    if is_connection_error_kind(kind) {
        IncomingPollAction::PollAccept
    } else if sleep_on_errors {
        IncomingPollAction::StartTimer
    } else {
        IncomingPollAction::ReturnError
    }
}

/// The state of the listener between polls.
pub struct AddrIncomingLoop {
    sleep_on_errors: bool,
    sleeping: bool,
}

/// What an [`AddrIncomingLoop`] holds.
pub struct AddrIncomingLoopView {
    /// Pause after accept errors that do not concern one connection only.
    pub sleep_on_errors: bool,
    /// A pause is under way.
    pub sleeping: bool,
}

impl View for AddrIncomingLoop {
    type V = AddrIncomingLoopView;

    closed spec fn view(&self) -> AddrIncomingLoopView {
        AddrIncomingLoopView { sleep_on_errors: self.sleep_on_errors, sleeping: self.sleeping }
    }
}

impl AddrIncomingLoop {
    /// A listener that is not pausing.
    pub fn new(sleep_on_errors: bool) -> (res: AddrIncomingLoop)
        ensures
            res@ == (AddrIncomingLoopView { sleep_on_errors, sleeping: false }),
    {
        AddrIncomingLoop { sleep_on_errors, sleeping: false }
    }

    /// Changes whether to pause after accept errors.
    pub fn set_sleep_on_errors(&mut self, val: bool)
        ensures
            final(self)@ == (AddrIncomingLoopView { sleep_on_errors: val, ..old(self)@ }),
    {
        self.sleep_on_errors = val;
    }

    /// The first thing to poll: the pause timer while a pause is under way,
    /// the listener otherwise.
    pub fn begin_poll(&self) -> (res: IncomingPollAction)
        ensures
            res == (if self@.sleeping {
                IncomingPollAction::PollTimer
            } else {
                IncomingPollAction::PollAccept
            }),
    {
        if self.sleeping {
            IncomingPollAction::PollTimer
        } else {
            IncomingPollAction::PollAccept
        }
    }

    /// Handles what the listener reported.
    pub fn on_event(&mut self, event: IncomingPollEvent) -> (res: IncomingPollAction)
        ensures
            final(self)@.sleep_on_errors == old(self)@.sleep_on_errors,
            match event {
                IncomingPollEvent::TimerPending => res == IncomingPollAction::ReturnPending
                    && final(self)@.sleeping == old(self)@.sleeping,
                IncomingPollEvent::TimerElapsed => res == IncomingPollAction::PollAccept
                    && !final(self)@.sleeping,
                IncomingPollEvent::AcceptPending => res == IncomingPollAction::ReturnPending
                    && final(self)@.sleeping == old(self)@.sleeping,
                IncomingPollEvent::Accepted => res == IncomingPollAction::ReturnConnection
                    && final(self)@.sleeping == old(self)@.sleeping,
                IncomingPollEvent::AcceptFailed(kind) => res == after_accept_error(
                    kind,
                    old(self)@.sleep_on_errors,
                ) && final(self)@.sleeping == (old(self)@.sleeping || res
                    == IncomingPollAction::StartTimer),
            },
    {
        match event {
            IncomingPollEvent::TimerPending => IncomingPollAction::ReturnPending,
            IncomingPollEvent::TimerElapsed => {
                self.sleeping = false;
                IncomingPollAction::PollAccept
            },
            IncomingPollEvent::AcceptPending => IncomingPollAction::ReturnPending,
            IncomingPollEvent::Accepted => IncomingPollAction::ReturnConnection,
            IncomingPollEvent::AcceptFailed(kind) => {
                if is_connection_error(kind) {
                    IncomingPollAction::PollAccept
                } else if self.sleep_on_errors {
                    self.sleeping = true;
                    IncomingPollAction::StartTimer
                } else {
                    IncomingPollAction::ReturnError
                }
            },
        }
    }
}

/// An error that concerns one connection never pauses the listener nor
/// reaches its caller; any other error pauses the listener when it sleeps on
/// errors, and otherwise reaches the caller.
pub proof fn lemma_accept_errors(kind: IoErrorKind, sleep_on_errors: bool)
    ensures
        is_connection_error_kind(kind) ==> after_accept_error(kind, sleep_on_errors)
            == IncomingPollAction::PollAccept,
        !is_connection_error_kind(kind) ==> (after_accept_error(kind, sleep_on_errors)
            == IncomingPollAction::ReturnError <==> !sleep_on_errors),
        after_accept_error(kind, true) != IncomingPollAction::ReturnError,
{
}

} // verus!
