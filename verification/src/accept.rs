//! The hook through which each accepted connection and its service pass
//! before they are served, and the acceptor that passes them on unchanged.
use std::future::Ready;
use vstd::prelude::*;

verus! {

#[verifier::external_type_specification]
#[verifier::external_body]
#[verifier::reject_recursive_types(T)]
pub struct ExReady<T>(Ready<T>);

#[verifier::external_type_specification]
#[verifier::external_body]
pub struct ExIoError(std::io::Error);

/// `std::future::ready`: a future that is immediately ready with its value.
/// Nothing is stated of the future, which Verus cannot look into.
pub assume_specification<T>[ std::future::ready::<T> ](t: T) -> Ready<T>;

/// Processes, and possibly transforms, an accepted stream and its service
/// before they are served, for instance to perform a handshake.
///
/// `Future` resolves to `std::io::Result<(Self::Stream, Self::Service)>`.
pub trait Accept<I, S> {
    /// The stream handed on.
    type Stream;

    /// The service handed on.
    type Service;

    /// The future returned by `accept`.
    type Future;

    /// Processes the stream and the service.
    fn accept(&self, stream: I, service: S) -> Self::Future;
}

/// An acceptor that hands the stream and the service on unchanged.
#[derive(Clone, Copy, Debug, Default)]
pub struct DefaultAcceptor;

impl DefaultAcceptor {
    /// A new default acceptor.
    pub fn new() -> (res: DefaultAcceptor)
        ensures
            res == DefaultAcceptor,
    {
        DefaultAcceptor
    }
}

impl<I, S> Accept<I, S> for DefaultAcceptor {
    type Stream = I;

    type Service = S;

    type Future = Ready<std::io::Result<(I, S)>>;

    /// A future that is immediately ready with the stream and the service.
    fn accept(&self, stream: I, service: S) -> Ready<std::io::Result<(I, S)>> {
        std::future::ready(Ok((stream, service)))
    }
}

} // verus!
