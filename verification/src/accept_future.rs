//! The two-stage futures that accept a connection: the TLS acceptors (first
//! the inner accept, then the handshake under a timeout) and the PROXY
//! protocol acceptor (first the header under a timeout, then the inner
//! accept).
use crate::error::{AnyError, IoErrorKind};
use vstd::prelude::*;

verus! {

/// Where an accepting future stands.
#[derive(Clone, Copy, Debug, PartialEq, Eq, Structural)]
pub enum AcceptPhase {
    /// Polling the first stage.
    First,
    /// Polling the second stage.
    Second,
    /// The future has returned its result.
    Done,
}

/// What the stage being polled reported.
pub enum StagePoll {
    /// Not ready yet.
    Pending,
    /// Completed successfully.
    Ready,
    /// Failed with this error.
    Failed(AnyError),
    /// Its timeout elapsed first.
    TimedOut,
}

/// What the future does after a poll of its current stage.
pub enum AcceptAction {
    /// Build the second stage from the output of the first and poll it at once.
    StartSecond,
    /// Return `Poll::Pending`.
    Wait,
    /// Return the accepted stream and service.
    Complete,
    /// Return this error.
    Fail(AnyError),
}

/// The message of the error returned when a stage's timeout elapses.
pub open spec fn timeout_message() -> Seq<char> {
    "deadline has elapsed"@
}

/// The error returned when a stage's timeout elapses.
pub fn timeout_error() -> (res: AnyError)
    ensures
        res.io_kind == Some(IoErrorKind::TimedOut),
        res.message@ == timeout_message(),
{
    AnyError::io(IoErrorKind::TimedOut, "deadline has elapsed".to_string())
}

/// The phase after a poll of the stage of phase `phase` (`First` or `Second`).
pub open spec fn phase_after(phase: AcceptPhase, poll: StagePoll) -> AcceptPhase {
    match poll {
        StagePoll::Pending => phase,
        StagePoll::Ready => if phase == AcceptPhase::First {
            AcceptPhase::Second
        } else {
            AcceptPhase::Done
        },
        _ => AcceptPhase::Done,
    }
}

/// The state of an accepting future.
pub struct AcceptFutureState {
    phase: AcceptPhase,
}

impl View for AcceptFutureState {
    type V = AcceptPhase;

    closed spec fn view(&self) -> AcceptPhase {
        self.phase
    }
}

impl AcceptFutureState {
    /// A future that has not polled its first stage yet.
    pub fn new() -> (res: AcceptFutureState)
        ensures
            res@ == AcceptPhase::First,
    {
        AcceptFutureState { phase: AcceptPhase::First }
    }

    /// The current phase.
    pub fn phase(&self) -> (res: AcceptPhase)
        ensures
            res == self@,
    {
        self.phase
    }

    /// Decides what to do with the report of a poll of the current stage.
    ///
    /// A future is never polled again once it has returned its result.
    pub fn on_poll(&mut self, poll: StagePoll) -> (action: AcceptAction)
        requires
            old(self)@ != AcceptPhase::Done,
        ensures
            final(self)@ == phase_after(old(self)@, poll),
            match poll {
                StagePoll::Pending => action is Wait,
                StagePoll::Ready => if old(self)@ == AcceptPhase::First {
                    action is StartSecond
                } else {
                    action is Complete
                },
                StagePoll::Failed(e) => action == AcceptAction::Fail(e),
                StagePoll::TimedOut => action matches AcceptAction::Fail(e)
                    && e.io_kind == Some(IoErrorKind::TimedOut) && e.message@ == timeout_message(),
            },
    {
        match poll {
            StagePoll::Pending => AcceptAction::Wait,
            StagePoll::Ready => match self.phase {
                AcceptPhase::First => {
                    self.phase = AcceptPhase::Second;
                    AcceptAction::StartSecond
                },
                _ => {
                    self.phase = AcceptPhase::Done;
                    AcceptAction::Complete
                },
            },
            StagePoll::Failed(e) => {
                self.phase = AcceptPhase::Done;
                AcceptAction::Fail(e)
            },
            StagePoll::TimedOut => {
                self.phase = AcceptPhase::Done;
                AcceptAction::Fail(timeout_error())
            },
        }
    }
}

/// The phase reached from `phase` after the given reports, stopping at `Done`.
pub open spec fn phase_after_all(phase: AcceptPhase, polls: Seq<StagePoll>) -> AcceptPhase
    decreases polls.len(),
{
    if polls.len() == 0 || phase == AcceptPhase::Done {
        phase
    } else {
        phase_after_all(phase_after(phase, polls[0]), polls.drop_first())
    }
}

/// How many of the reports are reports of success.
pub open spec fn count_ready(polls: Seq<StagePoll>) -> nat
    decreases polls.len(),
{
    if polls.len() == 0 {
        0
    } else {
        (if polls[0] is Ready { 1nat } else { 0nat }) + count_ready(polls.drop_first())
    }
}

/// A future completes successfully only after both stages reported success:
/// if a run of reports without any failure or timeout ends in `Done`, it
/// holds at least two reports of success.
pub proof fn lemma_success_needs_both_stages(phase: AcceptPhase, polls: Seq<StagePoll>)
    requires
        forall|i: int| 0 <= i < polls.len() ==> (#[trigger] polls[i] is Pending || polls[i] is Ready),
        phase != AcceptPhase::Done,
        phase_after_all(phase, polls) == AcceptPhase::Done,
    ensures
        phase == AcceptPhase::First ==> count_ready(polls) >= 2,
        phase == AcceptPhase::Second ==> count_ready(polls) >= 1,
    decreases polls.len(),
{
    if polls.len() > 0 {
        let next = phase_after(phase, polls[0]);
        assert forall|i: int| 0 <= i < polls.drop_first().len() implies (#[trigger] polls.drop_first()[i] is Pending
            || polls.drop_first()[i] is Ready) by {
            assert(polls.drop_first()[i] == polls[i + 1]);
        }
        if next != AcceptPhase::Done {
            lemma_success_needs_both_stages(next, polls.drop_first());
        }
    }
}

} // verus!
