//! A lock which is never meant to be waited for.

use vstd::prelude::*;

verus! {

/// A value that is lent to one holder at a time.
///
/// This is meant for values that are stored in a shared structure but are
/// logically never used by two holders at once. Nobody waits for the value: to
/// lock it while it is already lent out is a mistake of the caller.
pub struct Uncontended<T> {
    value: Option<T>,
}

impl<T> View for Uncontended<T> {
    type V = Option<T>;

    /// The value, or `None` while it is lent out.
    closed spec fn view(&self) -> Option<T> {
        self.value
    }
}

impl<T> Uncontended<T> {
    /// A lock around `value`, which is not lent out.
    pub fn new(value: T) -> (cell: Self)
        ensures
            cell@ == Some(value),
    {
        Uncontended { value: Some(value) }
    }

    /// Whether the value is lent out at the moment.
    pub fn is_locked(&self) -> (locked: bool)
        ensures
            locked == (self@ is None),
    {
        self.value.is_none()
    }

    /// Take the value out, until [`unlock`](Uncontended::unlock) brings it back.
    ///
    /// The value must not be lent out already.
    pub fn lock(&mut self) -> (value: T)
        requires
            old(self)@ is Some,
        ensures
            old(self)@ == Some(value),
            final(self)@ is None,
    {
        self.value.take().unwrap()
    }

    /// Bring a value back that was taken out by [`lock`](Uncontended::lock).
    pub fn unlock(&mut self, value: T)
        requires
            old(self)@ is None,
        ensures
            final(self)@ == Some(value),
    {
        self.value = Some(value);
    }
}

} // verus!
