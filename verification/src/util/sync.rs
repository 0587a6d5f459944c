//! A wrapper that gives no shared access to its value.

use vstd::prelude::*;

verus! {

/// Holds a value that can be taken out again but never looked at in place.
///
/// A shared reference to the wrapper gives no access to the value, so such a
/// reference may be handed around freely even where the value itself may not.
pub struct SyncWrapper<T>(T);

impl<T> View for SyncWrapper<T> {
    type V = T;

    /// The wrapped value.
    closed spec fn view(&self) -> T {
        self.0
    }
}

impl<T> SyncWrapper<T> {
    /// Wrap `value`.
    pub fn new(value: T) -> (wrapper: Self)
        ensures
            wrapper@ == value,
    {
        SyncWrapper(value)
    }

    /// Take the value out again.
    pub fn into_inner(self) -> (value: T)
        ensures
            value == self@,
    {
        self.0
    }
}

} // verus!
