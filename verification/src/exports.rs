//! What the body of a scope is made of.

use futures_util::task::FutureObj;
use std::future::Future;
use vstd::future::FutureAdditionalSpecFns;
use vstd::prelude::*;

verus! {

/// Carries a value into the body of a scope.
///
/// A value that can be copied would be borrowed by an asynchronous block that mentions it. This
/// wrapper cannot be copied, and [`into_inner`](SmuggleDataIntoBlock::into_inner) consumes it, so
/// that the block has to take it over.
pub struct SmuggleDataIntoBlock<T>(pub T);

impl<T> SmuggleDataIntoBlock<T> {
    /// The carried value.
    pub fn into_inner(self) -> (value: T)
        ensures
            value == self.0,
    {
        self.0
    }
}

/// Boxes a future, by `FutureObj::new` on a pinned box: to await the result gives what awaiting
/// the future would have given.
#[verifier::external_body]
pub fn pin_send<'a, F>(future: F) -> (boxed: FutureObj<'a, F::Output>)
    where F: Future + Send + 'a,
    ensures
        boxed@ == future@,
{
    FutureObj::new(Box::pin(future))
}

} // verus!
