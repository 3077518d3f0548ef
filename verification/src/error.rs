//! What can go wrong, and how the outcome of a call into the host is sorted.
use jni::errors::Error;
use vstd::prelude::*;

verus! {

/// The three kinds of failure.
#[derive(Clone, Copy, Debug, PartialEq, Eq, Structural)]
pub enum FailureKind {
    /// The runtime could not be reached, or the thread not attached to it.
    AttachFailure,
    /// Resolving or invoking something failed while a request was built or
    /// dispatched.
    ConstructionFailure,
    /// Reading from an existing request failed, or the value was absent.
    QueryFailure,
}

/// A failure: its kind, and what the host interface reported.
#[derive(Debug)]
pub struct IntentError {
    pub kind: FailureKind,
    pub cause: Error,
}

/// What `settle` makes of an outcome: success stays as it is, a failure is
/// kept as the cause under the given kind.
pub open spec fn settled<T>(outcome: Result<T, Error>, kind: FailureKind) -> Result<
    T,
    IntentError,
> {
    match outcome {
        Ok(value) => Ok(value),
        Err(cause) => Err(IntentError { kind, cause }),
    }
}

/// Sorts the outcome of a call into the host under a kind of failure.
pub fn settle<T>(outcome: Result<T, Error>, kind: FailureKind) -> (r: Result<T, IntentError>)
    ensures
        r == settled(outcome, kind),
{
    match outcome {
        Ok(value) => Ok(value),
        Err(cause) => Err(IntentError { kind, cause }),
    }
}

} // verus!
