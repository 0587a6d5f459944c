//! Why a task did not give its value.

use crate::util::sync::SyncWrapper;
use std::task::Poll;
use vstd::prelude::*;

verus! {

/// A task failed to execute to completion.
///
/// `P` is what a task panics with.
pub struct JoinError<P>(Detail<P>);

enum Detail<P> {
    Cancelled,
    Panic(SyncWrapper<P>),
}

impl<P> View for JoinError<P> {
    type V = Option<P>;

    /// What the task panicked with, or `None` if it was cancelled.
    closed spec fn view(&self) -> Option<P> {
        match self.0 {
            Detail::Cancelled => None,
            Detail::Panic(panic) => Some(panic@),
        }
    }
}

impl<P> JoinError<P> {
    /// The error of a task that was cancelled.
    pub fn cancelled() -> (error: Self)
        ensures
            error@ is None,
    {
        JoinError(Detail::Cancelled)
    }

    /// The error of a task that panicked with `panic`.
    pub fn panicked(panic: P) -> (error: Self)
        ensures
            error@ == Some(panic),
    {
        JoinError(Detail::Panic(SyncWrapper::new(panic)))
    }

    /// Returns true if the error was caused by the task being cancelled.
    pub fn is_cancelled(&self) -> (cancelled: bool)
        ensures
            cancelled == (self@ is None),
    {
        matches!(self.0, Detail::Cancelled)
    }

    /// Returns true if the error was caused by the task panicking.
    pub fn is_panic(&self) -> (panic: bool)
        ensures
            panic == (self@ is Some),
    {
        matches!(self.0, Detail::Panic(_))
    }

    /// Consume this error, returning the object with which the task panicked.
    ///
    /// The error must have come from a panic. Use [`is_panic`](JoinError::is_panic)
    /// to check for that, or [`try_into_panic`](JoinError::try_into_panic), which
    /// takes any error.
    pub fn into_panic(self) -> (panic: P)
        requires
            self@ is Some,
        ensures
            self@ == Some(panic),
    {
        match self.try_into_panic() {
            Ok(panic) => panic,
            Err(_) => vstd::pervasive::unreached(),
        }
    }

    /// Consume this error, returning the object with which the task panicked if
    /// the task terminated due to a panic. Otherwise, `self` is returned.
    pub fn try_into_panic(self) -> (panic: Result<P, Self>)
        ensures
            panic == match self@ {
                Some(payload) => Ok(payload),
                None => Err(self),
            },
    {
        match self.0 {
            Detail::Panic(panic) => Ok(panic.into_inner()),
            Detail::Cancelled => Err(JoinError(Detail::Cancelled)),
        }
    }

    /// What went wrong, in words for a user.
    pub fn message(&self) -> (text: &'static str)
        ensures
            text@ == if self@ is Some {
                "task panicked"@
            } else {
                "task was cancelled"@
            },
    {
        match self.0 {
            Detail::Cancelled => "task was cancelled",
            Detail::Panic(_) => "task panicked",
        }
    }

    /// What went wrong, as a name for a developer.
    pub fn debug_name(&self) -> (text: &'static str)
        ensures
            text@ == if self@ is Some {
                "Panic(..)"@
            } else {
                "Cancelled"@
            },
    {
        match self.0 {
            Detail::Cancelled => "Cancelled",
            Detail::Panic(_) => "Panic(..)",
        }
    }
}

/// What awaiting a task comes to: its value, what it panicked with, or `None` if it
/// was cancelled.
pub open spec fn outcome<T, P>(joined: Result<T, JoinError<P>>) -> Result<T, Option<P>> {
    match joined {
        Ok(value) => Ok(value),
        Err(error) => Err(error@),
    }
}

/// What polling for the end of a task comes to.
pub open spec fn poll_outcome<T, P>(joined: Poll<Result<T, JoinError<P>>>) -> Poll<
    Result<T, Option<P>>,
> {
    match joined {
        Poll::Ready(result) => Poll::Ready(outcome(result)),
        Poll::Pending => Poll::Pending,
    }
}

/// Nothing is lost between the result of a task and what is said of it: a value stands for itself,
/// an error for what it holds, and what is ready or pending stays so.
pub proof fn law_outcome_is_what_the_result_holds<T, P>(value: T, error: JoinError<P>)
    ensures
        outcome(Ok::<T, JoinError<P>>(value)) == Ok::<T, Option<P>>(value),
        outcome(Err::<T, JoinError<P>>(error)) == Err::<T, Option<P>>(error@),
        poll_outcome(Poll::Ready(Ok::<T, JoinError<P>>(value))) == Poll::Ready(
            Ok::<T, Option<P>>(value),
        ),
        poll_outcome(Poll::Ready(Err::<T, JoinError<P>>(error))) == Poll::Ready(
            Err::<T, Option<P>>(error@),
        ),
        poll_outcome(Poll::<Result<T, JoinError<P>>>::Pending) == Poll::<
            Result<T, Option<P>>,
        >::Pending,
{
}

} // verus!
