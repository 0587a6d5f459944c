//! How a scope is to behave.

use vstd::prelude::*;

verus! {

/// Configuration options for a scope.
#[derive(Clone, Debug)]
pub struct Options {
    /// Whether panics that unwind out of a task are caught.
    pub(crate) catch_panics: bool,
    /// Whether remaining tasks are dropped once the main task has completed.
    pub(crate) cancel_remaining_tasks_on_exit: bool,
    /// How many futures are polled before yielding to the parent executor.
    pub(crate) max_polls_without_yield: u32,
}

/// The values of all options.
pub struct OptionsView {
    /// Whether panics that unwind out of a task are caught.
    pub catch_panics: bool,
    /// Whether remaining tasks are dropped once the main task has completed.
    pub cancel_remaining_tasks_on_exit: bool,
    /// How many futures are polled before yielding to the parent executor.
    pub max_polls_without_yield: nat,
}

impl OptionsView {
    /// The default configuration.
    pub open spec fn defaults() -> Self {
        OptionsView {
            catch_panics: true,
            cancel_remaining_tasks_on_exit: false,
            max_polls_without_yield: 128,
        }
    }
}

impl View for Options {
    type V = OptionsView;

    closed spec fn view(&self) -> OptionsView {
        OptionsView {
            catch_panics: self.catch_panics,
            cancel_remaining_tasks_on_exit: self.cancel_remaining_tasks_on_exit,
            max_polls_without_yield: self.max_polls_without_yield as nat,
        }
    }
}

impl Options {
    /// Create a new set of `Options` with the default configuration.
    pub fn new() -> (options: Self)
        ensures
            options@ == OptionsView::defaults(),
    {
        Options {
            catch_panics: true,
            cancel_remaining_tasks_on_exit: false,
            max_polls_without_yield: 128,
        }
    }

    /// Set the maximum number of futures that can be polled before yielding to the parent
    /// executor, which must not be 0.
    ///
    /// Under high load it is possible for polling a scope to block for a significant amount of
    /// time, potentially indefinitely if new tasks are spawned or woken up faster than they can
    /// be polled. To the runtime, this looks as if the task has hung. This is resolved by
    /// unconditionally yielding back to the executor after having polled some number of tasks.
    ///
    /// The default value is 128.
    pub fn max_polls_without_yield(self, value: u32) -> (options: Self)
        requires
            value != 0,
        ensures
            options@ == (OptionsView { max_polls_without_yield: value as nat, ..self@ }),
    {
        let mut options = self;
        options.max_polls_without_yield = value;
        options
    }

    /// Configure whether panics that unwind out of a task should be caught or allowed to
    /// propagate up out of the scope itself.
    ///
    /// By default, panics are caught and can be accessed by awaiting the task's handle. Setting
    /// this to `false` means that panics will be allowed to unwind directly out of the executor
    /// with no chance for the main scope task to handle them.
    pub fn catch_panics(self, enabled: bool) -> (options: Self)
        ensures
            options@ == (OptionsView { catch_panics: enabled, ..self@ }),
    {
        let mut options = self;
        options.catch_panics = enabled;
        options
    }

    /// Whether remaining tasks should be polled to completion after the main scope task exits or
    /// just dropped.
    ///
    /// By default, whatever tasks are left in the scope continue to run until all tasks within
    /// have been polled to completion. Setting this to `true` means that once the main task
    /// completes then all other tasks will be dropped without them being polled to completion.
    pub fn cancel_remaining_tasks_on_exit(self, enabled: bool) -> (options: Self)
        ensures
            options@ == (OptionsView { cancel_remaining_tasks_on_exit: enabled, ..self@ }),
    {
        let mut options = self;
        options.cancel_remaining_tasks_on_exit = enabled;
        options
    }
}

impl Default for Options {
    fn default() -> (options: Self)
        ensures
            options@ == OptionsView::defaults(),
    {
        Options::new()
    }
}

/// By default panics are caught, remaining tasks are not cancelled, and as many futures are polled
/// before yielding as is documented.
pub proof fn law_defaults_are_as_documented()
    ensures
        OptionsView::defaults().catch_panics,
        !OptionsView::defaults().cancel_remaining_tasks_on_exit,
        OptionsView::defaults().max_polls_without_yield == 128,
{
}

} // verus!
