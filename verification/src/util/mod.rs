//! Utilities used by the rest of the crate.
//!
//! These types are not part of what a scope offers to its callers; they are the
//! small building blocks that the executor, the handles and the streams share.

pub mod cell;
pub mod complete;
pub mod split_arc;
pub mod sync;
pub mod uncontended;
pub mod variance;
pub mod waker;
