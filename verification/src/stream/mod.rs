//! Streams whose work is done by tasks of a scope.
//!
//! A stream of futures can be turned into a stream of their values, where the futures run
//! as tasks of a surrounding scope: in the order of the futures ([`Buffered`]) or as they
//! complete ([`BufferUnordered`]). A stream can also be run as a task as a whole
//! ([`Spawn`]). The tasks go on while the loop that consumes the stream does other work.
//!
//! [`Buffered`]: buffered::Buffered
//! [`BufferUnordered`]: buffer_unordered::BufferUnordered
//! [`Spawn`]: spawn::Spawn

use crate::error::{outcome, JoinError};
use vstd::prelude::*;

pub mod buffer_unordered;
pub mod buffered;
pub mod spawn;

verus! {

/// What polling a stream of values comes to.
pub enum StreamPoll<T, P> {
    /// There is no value yet.
    Pending,
    /// The next value.
    Item(T),
    /// There is no further value.
    End,
    /// The task that was to give the next value panicked; the stream panics with the same
    /// payload.
    Panic(P),
    /// The task that was to give the next value was cancelled, at which the stream panics.
    Cancelled,
}

/// What a stream gives, where this is what the task came to that was to give the value.
pub open spec fn item_of<T, P>(came: Result<T, Option<P>>) -> StreamPoll<T, P> {
    match came {
        Ok(value) => StreamPoll::Item(value),
        Err(Some(payload)) => StreamPoll::Panic(payload),
        Err(None) => StreamPoll::Cancelled,
    }
}

/// Turn what a task came to into what the stream gives.
pub fn next_item<T, P>(joined: Result<T, JoinError<P>>) -> (item: StreamPoll<T, P>)
    ensures
        item == item_of(outcome(joined)),
{
    match joined {
        Ok(value) => StreamPoll::Item(value),
        Err(error) => match error.try_into_panic() {
            Ok(payload) => StreamPoll::Panic(payload),
            Err(_) => StreamPoll::Cancelled,
        },
    }
}

/// The bounds on how many values are still to come, where `hint` holds those on what is to
/// come from the source and `count` values are buffered: the lower bound stops at the
/// largest number, an upper bound that would exceed it is dropped.
pub open spec fn hint_with(hint: (usize, Option<usize>), count: nat) -> (nat, Option<nat>) {
    (
        if hint.0 + count <= usize::MAX {
            hint.0 as nat + count
        } else {
            usize::MAX as nat
        },
        match hint.1 {
            Some(upper) if upper + count <= usize::MAX => Some(upper as nat + count),
            _ => None,
        },
    )
}

/// Add `count` buffered values to the bounds `hint` on what is to come from the source.
pub fn extend_hint(hint: (usize, Option<usize>), count: usize) -> (extended: (
    usize,
    Option<usize>,
))
    ensures
        extended.0 == hint_with(hint, count as nat).0,
        match extended.1 {
            Some(upper) => hint_with(hint, count as nat).1 == Some(upper as nat),
            None => hint_with(hint, count as nat).1 is None,
        },
{
    let upper = match hint.1 {
        Some(upper) => upper.checked_add(count),
        None => None,
    };
    (hint.0.saturating_add(count), upper)
}

/// A stream gives the value of a task as an item, panics with its payload, and tells apart that it
/// was cancelled: what it gives lets one tell what the task came to.
pub proof fn law_item_is_what_the_task_came_to<T, P>(
    came: Result<T, Option<P>>,
    value: T,
    payload: P,
)
    ensures
        item_of(came) == StreamPoll::<T, P>::Item(value) <==> came == Ok::<T, Option<P>>(value),
        item_of(came) == StreamPoll::<T, P>::Panic(payload) <==> came == Err::<T, Option<P>>(
            Some(payload),
        ),
        item_of(came) is Cancelled <==> came == Err::<T, Option<P>>(None),
        !(item_of(came) is Pending) && !(item_of(came) is End),
{
}

/// Bounds that hold for what is to come from the source also hold once the buffered values are added
/// to both, and they are no looser than they have to be: the lower one is exact unless it does not
/// fit, and the upper one is missing only if the source has none or it does not fit.
pub proof fn law_bounds_count_what_is_buffered(
    hint: (usize, Option<usize>),
    count: nat,
    source: nat,
)
    ensures
        hint.0 <= source ==> hint_with(hint, count).0 <= source + count,
        hint.0 + count <= usize::MAX ==> hint_with(hint, count).0 == hint.0 + count,
        hint.0 + count > usize::MAX ==> hint_with(hint, count).0 == usize::MAX,
        hint_with(hint, count).1 matches Some(bound) ==> {
            &&& hint.1 is Some
            &&& source <= hint.1.unwrap() ==> source + count <= bound
            &&& bound == hint.1.unwrap() + count
            &&& bound <= usize::MAX
        },
        hint_with(hint, count).1 is None ==> hint.1 is None || hint.1.unwrap() + count
            > usize::MAX,
{
}

} // verus!
