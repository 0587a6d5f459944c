//! An asynchronous equivalent of [`std::thread::scope`].
//!
//! A scope runs a number of tasks within the current task: a main task, and whatever tasks
//! that one spawns. The spawned tasks may borrow from the surroundings of the scope, since the
//! scope does not outlive them; by default it waits until all of them have completed.
//!
//! This crate holds what a scope decides and keeps track of. It polls no task and wakes none:
//! whatever drives the tasks hands in what polling them came to, and wakes the wakers that are
//! handed out. State that tasks share is changed through exclusive references, so it is to be
//! kept behind a lock.
//!
//! - [`scope`] has the scope itself and the state that its tasks share, [`executor`] the set of
//!   tasks that a scope runs.
//! - [`wrapper`] has what surrounds the future of each task, [`join`] the handle that awaits it,
//!   and [`error`] what a handle gives for a task that has no value.
//! - [`stream`] has streams whose work is done by the tasks of a scope.
//! - [`outside`] has everything that is taken from other crates.
//!
//! # Panics
//! If any of the spawned tasks panicked then the scope panics once all spawned tasks have
//! completed, where a task that panicked counts as completed. The panic of a task that was
//! awaited does not count. The payload is that of the main task, if that panicked, and otherwise
//! that of one of the spawned tasks.

pub mod error;
pub mod executor;
pub mod exports;
pub mod join;
pub mod options;
pub mod outside;
pub mod scope;
pub mod stream;
pub mod util;
pub mod wrapper;

pub use crate::error::JoinError;
pub use crate::join::JoinHandle;
pub use crate::options::Options;
pub use crate::scope::{Scope, ScopeExecutor, ScopePoll};
