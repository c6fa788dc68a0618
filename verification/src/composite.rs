//! The outcome of a request to a composite service, which holds a stack of
//! services and calls the first one.
use vstd::prelude::*;

verus! {

/// Why a composite service could not answer a request.
pub enum CompositeError<E> {
    /// The stack holds no service.
    NoServices,
    /// The service that was called failed with this error.
    AllFailed(E),
}

/// The answer of a composite service: `None` when its stack is empty,
/// otherwise the result of calling the first service; the stack stops at the
/// first error.
pub fn composite_response<R, E>(first: Option<Result<R, E>>) -> (res: Result<R, CompositeError<E>>)
    ensures
        match first {
            None => res matches Err(CompositeError::NoServices),
            Some(Ok(r)) => res == Ok::<R, CompositeError<E>>(r),
            Some(Err(e)) => res == Err::<R, CompositeError<E>>(CompositeError::AllFailed(e)),
        },
{
    match first {
        None => Err(CompositeError::NoServices),
        Some(Ok(r)) => Ok(r),
        Some(Err(e)) => Err(CompositeError::AllFailed(e)),
    }
}

} // verus!
