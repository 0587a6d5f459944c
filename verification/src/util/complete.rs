//! A check that a future is not polled again once it has completed.

use vstd::prelude::*;

verus! {

/// Remembers whether a future has already returned its result.
#[derive(Debug)]
pub struct RequirePending {
    ready: bool,
}

impl View for RequirePending {
    type V = bool;

    /// Whether the future has completed.
    closed spec fn view(&self) -> bool {
        self.ready
    }
}

impl RequirePending {
    /// The check of a future that has not completed yet.
    pub fn new() -> (check: Self)
        ensures
            !check@,
    {
        RequirePending { ready: false }
    }

    /// Whether the future has completed.
    pub fn is_ready(&self) -> (ready: bool)
        ensures
            ready == self@,
    {
        self.ready
    }

    /// Record that the future has completed.
    pub fn set_ready(&mut self)
        ensures
            final(self)@,
    {
        self.ready = true;
    }
}

impl Default for RequirePending {
    fn default() -> (check: Self)
        ensures
            !check@,
    {
        RequirePending::new()
    }
}

} // verus!
