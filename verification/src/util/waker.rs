//! The place where a waiting task leaves the means to wake it.

use vstd::prelude::*;

verus! {

/// Holds the waker of the task that waits for something, if there is one.
///
/// `W` is whatever wakes a task. This crate never wakes a task itself: where a
/// waiting task has to be woken, the waker is handed to the caller.
pub struct WakerSlot<W> {
    waker: Option<W>,
}

impl<W> View for WakerSlot<W> {
    type V = Option<W>;

    /// The registered waker.
    closed spec fn view(&self) -> Option<W> {
        self.waker
    }
}

impl<W> WakerSlot<W> {
    /// A slot without a waker.
    pub fn new() -> (slot: Self)
        ensures
            slot@ is None,
    {
        WakerSlot { waker: None }
    }

    /// Register the waker of the task that now waits, in place of an earlier one.
    pub fn register(&mut self, waker: W)
        ensures
            final(self)@ == Some(waker),
    {
        self.waker = Some(waker);
    }

    /// Hand out the waker that was registered last, and forget it.
    pub fn take(&mut self) -> (waker: Option<W>)
        ensures
            waker == old(self)@,
            final(self)@ is None,
    {
        self.waker.take()
    }
}

} // verus!
