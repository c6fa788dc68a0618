//! The stream of accepted connections: connections are passed on, errors
//! that concern one connection only are skipped, and the first fatal error
//! is passed on and ends the stream. The same rule serves plain TCP
//! connections and the outcomes of TLS handshakes.
use crate::error::{accept_error_is_fatal, handle_accept_error, AnyError};
use std::ops::ControlFlow;
use vstd::prelude::*;

verus! {

/// What the stream does with one item polled from the incoming connections.
pub enum IncomingStep<C> {
    /// Pass this item on.
    Yield(Result<C, AnyError>),
    /// Drop this item and poll the next one.
    Skip,
    /// The stream has ended.
    End,
}

/// The items a stream of accepted connections passes on, in order, for the
/// given items of the incoming stream.
pub open spec fn served<C>(items: Seq<Result<C, AnyError>>) -> Seq<Result<C, AnyError>>
    decreases items.len(),
{
    if items.len() == 0 {
        Seq::empty()
    } else {
        match items[0] {
            Ok(c) => seq![Ok(c)] + served(items.drop_first()),
            Err(e) => if accept_error_is_fatal(e) {
                seq![Err(e)]
            } else {
                served(items.drop_first())
            },
        }
    }
}

/// The items passed on when the stream goes on after a fatal error: every
/// connection and every fatal error, in order; errors that concern one
/// connection only are dropped.
pub open spec fn served_continuing<C>(items: Seq<Result<C, AnyError>>) -> Seq<Result<C, AnyError>>
    decreases items.len(),
{
    if items.len() == 0 {
        Seq::empty()
    } else {
        match items[0] {
            Ok(c) => seq![Ok(c)] + served_continuing(items.drop_first()),
            Err(e) => if accept_error_is_fatal(e) {
                seq![Err(e)] + served_continuing(items.drop_first())
            } else {
                served_continuing(items.drop_first())
            },
        }
    }
}

/// What the items pass to, for a stream that ends on its first fatal error
/// (`ends_on_fatal`) or goes on after it.
pub open spec fn served_by<C>(items: Seq<Result<C, AnyError>>, ends_on_fatal: bool) -> Seq<Result<C, AnyError>> {
    if ends_on_fatal {
        served(items)
    } else {
        served_continuing(items)
    }
}

/// What an [`IncomingFilter`] holds.
pub struct IncomingFilterView {
    /// Whether the stream has ended.
    pub ended: bool,
    /// Whether the stream ends after passing on a fatal error.
    pub ends_on_fatal: bool,
}

/// The state of a stream of accepted connections: whether it has ended, and
/// whether a fatal error ends it.
pub struct IncomingFilter {
    ended: bool,
    ends_on_fatal: bool,
}

impl View for IncomingFilter {
    type V = IncomingFilterView;

    closed spec fn view(&self) -> IncomingFilterView {
        IncomingFilterView { ended: self.ended, ends_on_fatal: self.ends_on_fatal }
    }
}

impl IncomingFilter {
    /// A stream that has not ended and that ends after its first fatal error.
    pub fn new() -> (res: IncomingFilter)
        ensures
            !res@.ended,
            res@.ends_on_fatal,
    {
        IncomingFilter { ended: false, ends_on_fatal: true }
    }

    /// A stream that has not ended and that goes on after passing on a fatal
    /// error.
    pub fn continuing() -> (res: IncomingFilter)
        ensures
            !res@.ended,
            !res@.ends_on_fatal,
    {
        IncomingFilter { ended: false, ends_on_fatal: false }
    }

    /// Whether the stream has ended.
    pub fn is_ended(&self) -> (res: bool)
        ensures
            res == self@.ended,
    {
        self.ended
    }

    /// Handles the next item of the incoming stream (`None` when that
    /// stream has ended).
    pub fn step<C>(&mut self, item: Option<Result<C, AnyError>>) -> (res: IncomingStep<C>)
        ensures
            final(self)@.ends_on_fatal == old(self)@.ends_on_fatal,
            old(self)@.ended ==> res is End && final(self)@.ended,
            !old(self)@.ended ==> match item {
                None => res is End && final(self)@.ended,
                Some(Ok(c)) => res == IncomingStep::Yield(Ok::<C, AnyError>(c)) && !final(self)@.ended,
                Some(Err(e)) => if accept_error_is_fatal(e) {
                    res == IncomingStep::<C>::Yield(Err(e))
                        && final(self)@.ended == old(self)@.ends_on_fatal
                } else {
                    res is Skip && !final(self)@.ended
                },
            },
    {
        if self.ended {
            return IncomingStep::End;
        }
        match item {
            None => {
                self.ended = true;
                IncomingStep::End
            },
            Some(Ok(c)) => IncomingStep::Yield(Ok(c)),
            Some(Err(e)) => match handle_accept_error(e) {
                ControlFlow::Continue(()) => IncomingStep::Skip,
                ControlFlow::Break(e) => {
                    self.ended = self.ends_on_fatal;
                    IncomingStep::Yield(Err(e))
                },
            },
        }
    }
}

/// Runs a whole incoming stream through a new filter and returns what it
/// passes on.
fn run_filter<C>(items: Vec<Result<C, AnyError>>, mut filter: IncomingFilter) -> (res: Vec<Result<C, AnyError>>)
    requires
        !filter@.ended,
    ensures
        res@ == served_by(items@, filter@.ends_on_fatal),
{
    let ghost ends = filter@.ends_on_fatal;
    let mut rest = items;
    let mut out: Vec<Result<C, AnyError>> = Vec::new();
    assert(out@ + served_by(rest@, ends) =~= served_by(items@, ends));
    while rest.len() > 0
        invariant
            filter@.ends_on_fatal == ends,
            !filter@.ended ==> out@ + served_by(rest@, ends) == served_by(items@, ends),
            filter@.ended ==> ends && out@ == served(items@),
        ensures
            filter@.ended ==> out@ == served(items@),
            !filter@.ended ==> rest.len() == 0 && out@ + served_by(rest@, ends) == served_by(items@, ends),
        decreases rest.len(),
    {
        let ghost before = rest@;
        let ghost old_out = out@;
        let item = rest.remove(0);
        assert(rest@ == before.drop_first());
        assert(before[0] == item);
        let step = filter.step(Some(item));
        match step {
            IncomingStep::Yield(r) => {
                let ghost gr = r;
                out.push(r);
                proof {
                    match gr {
                        Ok(c) => {
                            assert(served_by(before, ends) == seq![Ok::<C, AnyError>(c)] + served_by(rest@, ends));
                            assert(out@ + served_by(rest@, ends) =~= old_out + served_by(before, ends));
                        },
                        Err(e) => {
                            if ends {
                                assert(served(before) == seq![Err::<C, AnyError>(e)]);
                                assert(out@ =~= old_out + served(before));
                            } else {
                                assert(served_continuing(before) == seq![Err::<C, AnyError>(e)] + served_continuing(rest@));
                                assert(out@ + served_by(rest@, ends) =~= old_out + served_by(before, ends));
                            }
                        },
                    }
                }
            },
            IncomingStep::Skip => {
                assert(served_by(before, ends) == served_by(rest@, ends));
            },
            IncomingStep::End => {},
        }
        if filter.is_ended() {
            break;
        }
    }
    proof {
        if !filter@.ended {
            assert(served_by(rest@, ends) =~= Seq::<Result<C, AnyError>>::empty());
            assert(out@ + served_by(rest@, ends) =~= out@);
        }
    }
    out
}

/// Runs a whole incoming stream through the rule and returns what the stream
/// of accepted connections passes on.
pub fn serve_incoming<C>(items: Vec<Result<C, AnyError>>) -> (res: Vec<Result<C, AnyError>>)
    ensures
        res@ == served(items@),
{
    run_filter(items, IncomingFilter::new())
}

/// Runs a whole incoming stream through the rule for a stream that goes on
/// after a fatal error, and returns what it passes on.
pub fn serve_incoming_continuing<C>(items: Vec<Result<C, AnyError>>) -> (res: Vec<Result<C, AnyError>>)
    ensures
        res@ == served_continuing(items@),
{
    run_filter(items, IncomingFilter::continuing())
}

/// A stream that ends on its first fatal error passes on the beginning of
/// what a stream that goes on after it passes on.
pub proof fn lemma_served_prefix_of_continuing<C>(items: Seq<Result<C, AnyError>>)
    ensures
        served(items).len() <= served_continuing(items).len(),
        served(items) == served_continuing(items).take(served(items).len() as int),
    decreases items.len(),
{
    if items.len() > 0 {
        lemma_served_prefix_of_continuing(items.drop_first());
        let a = served(items.drop_first());
        let b = served_continuing(items.drop_first());
        match items[0] {
            Ok(c) => {
                assert(seq![Ok::<C, AnyError>(c)] + a =~= (seq![Ok::<C, AnyError>(c)] + b).take((a.len() + 1) as int));
            },
            Err(e) => {
                if accept_error_is_fatal(e) {
                    assert(seq![Err::<C, AnyError>(e)] =~= (seq![Err::<C, AnyError>(e)] + b).take(1));
                }
            },
        }
    } else {
        assert(served(items) =~= served_continuing(items).take(0));
    }
}

/// Only the last item passed on can be an error, and an error passed on is
/// always fatal.
pub proof fn lemma_served_errors_are_fatal_and_last<C>(items: Seq<Result<C, AnyError>>)
    ensures
        forall|i: int| 0 <= i < served(items).len() - 1 ==> #[trigger] served(items)[i] is Ok,
        forall|i: int| 0 <= i < served(items).len() ==> (#[trigger] served(items)[i] matches Err(e)
            ==> accept_error_is_fatal(e)),
    decreases items.len(),
{
    if items.len() > 0 {
        lemma_served_errors_are_fatal_and_last(items.drop_first());
        let rest = served(items.drop_first());
        match items[0] {
            Ok(c) => {
                assert forall|i: int| 0 <= i < served(items).len() - 1 implies #[trigger] served(items)[i] is Ok by {
                    if i > 0 {
                        assert(served(items)[i] == rest[i - 1]);
                    }
                }
                assert forall|i: int| 0 <= i < served(items).len() implies (#[trigger] served(items)[i] matches Err(e)
                    ==> accept_error_is_fatal(e)) by {
                    if i > 0 {
                        assert(served(items)[i] == rest[i - 1]);
                    }
                }
            },
            Err(e) => {},
        }
    }
}

/// Without fatal errors among the incoming items, every connection is
/// passed on, in order, and nothing else.
pub proof fn lemma_served_without_fatal_errors<C>(items: Seq<Result<C, AnyError>>)
    requires
        forall|i: int| 0 <= i < items.len() ==> (#[trigger] items[i] matches Err(e)
            ==> !accept_error_is_fatal(e)),
    ensures
        served(items) == items.filter(|r: Result<C, AnyError>| r is Ok),
    decreases items.len(),
{
    let f = |r: Result<C, AnyError>| r is Ok;
    if items.len() == 0 {
        assert(items.filter(f) =~= Seq::<Result<C, AnyError>>::empty()) by {
            reveal(Seq::filter);
        }
    } else {
        assert forall|i: int| 0 <= i < items.drop_first().len() implies (#[trigger] items.drop_first()[i] matches Err(e)
            ==> !accept_error_is_fatal(e)) by {
            assert(items.drop_first()[i] == items[i + 1]);
        }
        lemma_served_without_fatal_errors(items.drop_first());
        assert(items =~= seq![items[0]] + items.drop_first());
        items.drop_first().lemma_filter_prepend(items[0], f);
        assert(items[0] matches Err(e) ==> !accept_error_is_fatal(e));
    }
}

/// A fatal error ends the stream: once passed on, nothing follows it.
pub proof fn lemma_fatal_error_ends_stream<C>(items: Seq<Result<C, AnyError>>, e: AnyError)
    requires
        items.len() > 0,
        items[0] == Err::<C, AnyError>(e),
        accept_error_is_fatal(e),
    ensures
        served(items) == seq![Err::<C, AnyError>(e)],
{
}

} // verus!
