//! Waiting for the end of a task.

use crate::error::{outcome, poll_outcome, JoinError};
use crate::outside::{HalfView, ReceiveHalf};
use crate::scope::ScopeExecutor;
use crate::util::complete::RequirePending;
use futures_channel::oneshot;
use std::task::{Context, Poll};
use vstd::future::FutureAdditionalSpecFns;
use vstd::prelude::*;

verus! {

/// What a handle makes of what it received from its task: `Ok` holds the task's value or
/// what it panicked with, `Err` tells that the task went away without either.
pub open spec fn joined<T, P>(received: Result<Result<T, P>, oneshot::Canceled>) -> Result<
    T,
    Option<P>,
> {
    match received {
        Ok(Ok(value)) => Ok(value),
        Ok(Err(payload)) => Err(Some(payload)),
        Err(_) => Err(None),
    }
}

/// The panic that nobody will see any more, where this is what a handle would have received that
/// is given up.
pub open spec fn unseen_panic<T, P>(received: Result<Result<T, P>, oneshot::Canceled>) -> Option<
    P,
> {
    match received {
        Ok(Err(payload)) => Some(payload),
        _ => None,
    }
}

/// The panics that nobody will see any more, where this is what handles would have received that
/// are given up.
pub open spec fn unseen_panics<T, P>(
    received: Seq<Result<Result<T, P>, oneshot::Canceled>>,
) -> Seq<P>
    decreases received.len(),
{
    if received.len() == 0 {
        Seq::empty()
    } else {
        let before = unseen_panics(received.drop_last());
        match unseen_panic(received.last()) {
            Some(payload) => before.push(payload),
            None => before,
        }
    }
}

/// What a [`JoinHandle`] holds. `joined(receiver.future@)` is what awaiting it comes to.
#[verifier::reject_recursive_types(T)]
#[verifier::reject_recursive_types(P)]
pub struct JoinView<T, P, A> {
    /// The means to abort the task.
    pub handle: A,
    /// Where the task's result arrives.
    pub receiver: HalfView<Result<T, P>>,
}

impl<T, P, A> JoinView<T, P, A> {
    /// Whether the result was given out, or given up.
    pub open spec fn completed(self) -> bool {
        self.receiver.done
    }

    /// After the result was given out.
    pub open spec fn joined(self) -> Self {
        JoinView { receiver: HalfView { done: true, ..self.receiver }, ..self }
    }

    /// After the result was given up.
    pub open spec fn dropped(self) -> Self {
        JoinView { receiver: HalfView { closed: true, done: true, ..self.receiver }, ..self }
    }
}

/// An owned permission to join a scoped task (await its termination).
///
/// `T` is the task's value, `P` what it panics with, and `A` gives the means to abort it.
/// Note that the task associated with this handle started running immediately once it was
/// spawned, even if the handle has not been awaited yet.
#[verifier::reject_recursive_types(T)]
#[verifier::reject_recursive_types(P)]
pub struct JoinHandle<T, P, A> {
    handle: A,
    result: ReceiveHalf<Result<T, P>>,
    check: RequirePending,
}

impl<T, P, A> View for JoinHandle<T, P, A> {
    type V = JoinView<T, P, A>;

    closed spec fn view(&self) -> JoinView<T, P, A> {
        JoinView { handle: self.handle, receiver: self.result@ }
    }
}

impl<T, P, A> JoinHandle<T, P, A> {
    /// The handle remembers whether it has given out the result.
    pub closed spec fn wf(&self) -> bool {
        self.check@ == self.result@.done
    }

    /// A handle to the task that sends its result to `result`.
    pub(crate) fn new(handle: A, result: ReceiveHalf<Result<T, P>>) -> (join: Self)
        requires
            !result@.done,
        ensures
            join.wf(),
            join@ == (JoinView { handle, receiver: result@ }),
    {
        JoinHandle { handle, result, check: RequirePending::new() }
    }

    /// Take the handle apart.
    pub(crate) fn into_parts(self) -> (parts: (A, ReceiveHalf<Result<T, P>>))
        ensures
            self@ == (JoinView { handle: parts.0, receiver: parts.1@ }),
    {
        (self.handle, self.result)
    }

    /// The means to abort the joined task.
    pub fn abort_handle(&self) -> (handle: &A)
        ensures
            *handle == self@.handle,
    {
        &self.handle
    }

    /// Whether this handle has already given out the task's result, or was closed.
    pub fn is_complete(&self) -> (complete: bool)
        requires
            self.wf(),
        ensures
            complete == self@.completed(),
    {
        self.check.is_ready()
    }

    /// Poll for the end of the task.
    ///
    /// The handle must not be polled again once it has given out the result. When the task comes to
    /// its end is up to the task.
    pub fn poll(&mut self, cx: &mut Context<'_>) -> (polled: Poll<Result<T, JoinError<P>>>)
        requires
            old(self).wf(),
            !old(self)@.completed(),
        ensures
            final(self).wf(),
            match poll_outcome(polled) {
                Poll::Ready(came) => {
                    &&& came == joined(old(self)@.receiver.future@)
                    &&& !old(self)@.receiver.closed ==> old(self)@.receiver.future.awaited()
                    &&& final(self)@ == old(self)@.joined()
                },
                Poll::Pending => final(self)@ == old(self)@ && !old(self)@.receiver.closed,
            },
    {
        let result = match self.result.poll(cx) {
            Poll::Ready(result) => result,
            Poll::Pending => return Poll::Pending,
        };
        self.check.set_ready();
        Poll::Ready(receive(result))
    }

    /// Give up on the task's result, as a handle does that is dropped.
    ///
    /// The task cannot send its result here any more. A panic that it had sent before, and that
    /// nobody will see any more, is recorded as unhandled with the scope.
    pub fn close<'env, W>(&mut self, scope: &mut ScopeExecutor<'env, P, W>)
        requires
            old(self).wf(),
        ensures
            final(self).wf(),
            final(self)@ == old(self)@.dropped(),
            final(scope)@ == old(scope)@.with_panic(
                if old(self)@.completed() {
                    None
                } else {
                    unseen_panic(old(self)@.receiver.future@)
                },
            ),
    {
        if let Some(received) = self.give_up() {
            record_unseen(received, scope);
        }
    }

    /// Keep the task from sending its result, and take out what it had sent before; nothing if the
    /// result was given out or given up already.
    pub(crate) fn give_up(&mut self) -> (received: Option<Result<Result<T, P>, oneshot::Canceled>>)
        requires
            old(self).wf(),
        ensures
            final(self).wf(),
            final(self)@ == old(self)@.dropped(),
            received is None <==> old(self)@.completed(),
            received matches Some(result) ==> result == old(self)@.receiver.future@,
    {
        self.result.close();
        if self.check.is_ready() {
            return None;
        }
        self.check.set_ready();
        Some(last_received(&mut self.result))
    }
}

/// Take out what was sent to a half that is closed.
pub(crate) fn last_received<M>(half: &mut ReceiveHalf<M>) -> (received: Result<
    M,
    oneshot::Canceled,
>)
    requires
        old(half)@.closed,
        !old(half)@.done,
    ensures
        final(half)@ == (HalfView { done: true, ..old(half)@ }),
        received == old(half)@.future@,
{
    match half.try_recv() {
        Ok(Some(message)) => Ok(message),
        Ok(None) => vstd::pervasive::unreached(),
        Err(canceled) => Err(canceled),
    }
}

/// Turn what has arrived from a task into its result.
pub fn receive<T, P>(received: Result<Result<T, P>, oneshot::Canceled>) -> (result: Result<
    T,
    JoinError<P>,
>)
    ensures
        outcome(result) == joined(received),
        match received {
            Ok(Ok(value)) => result == Ok::<T, JoinError<P>>(value),
            Ok(Err(payload)) => result matches Err(error) && error@ == Some(payload),
            Err(_) => result matches Err(error) && error@ is None,
        },
{
    match received {
        Ok(Ok(value)) => Ok(value),
        Ok(Err(payload)) => Err(JoinError::panicked(payload)),
        Err(_) => Err(JoinError::cancelled()),
    }
}

/// Record the panic that a task had sent to its handle before the handle was dropped.
pub fn record_unseen<'env, T, P, W>(
    received: Result<Result<T, P>, oneshot::Canceled>,
    scope: &mut ScopeExecutor<'env, P, W>,
)
    ensures
        final(scope)@ == old(scope)@.with_panic(unseen_panic(received)),
{
    if let Ok(Err(payload)) = received {
        scope.set_unhandled_panic(payload);
    }
}

/// A panic that one of several given-up handles would have received is among those that nobody will
/// see any more.
pub(crate) proof fn lemma_unseen_panic<T, P>(
    received: Seq<Result<Result<T, P>, oneshot::Canceled>>,
    at: int,
)
    requires
        0 <= at < received.len(),
        unseen_panic(received[at]) is Some,
    ensures
        unseen_panics(received).contains(unseen_panic(received[at]).unwrap()),
    decreases received.len(),
{
    let payload = unseen_panic(received[at]).unwrap();
    let rest = unseen_panics(received.drop_last());
    if at < received.len() - 1 {
        lemma_unseen_panic(received.drop_last(), at);
        let i = choose|i: int| 0 <= i < rest.len() && rest[i] == payload;
        assert(unseen_panics(received)[i] == payload);
    } else {
        assert(unseen_panics(received).last() == payload);
    }
}

/// Awaiting gives what the task gave, whatever that is: its value, the payload that it panicked
/// with, or that it was cancelled.
pub proof fn law_awaiting_gives_what_was_sent<T, P>(
    value: T,
    payload: P,
    canceled: oneshot::Canceled,
)
    ensures
        joined(Ok::<Result<T, P>, oneshot::Canceled>(Ok(value))) == Ok::<T, Option<P>>(value),
        joined(Ok::<Result<T, P>, oneshot::Canceled>(Err(payload))) == Err::<T, Option<P>>(
            Some(payload),
        ),
        joined(Err::<Result<T, P>, oneshot::Canceled>(canceled)) == Err::<T, Option<P>>(None),
{
}

/// Different results of a task are never told alike.
pub proof fn law_different_results_are_told_apart<T, P>(one: Result<T, P>, other: Result<T, P>)
    requires
        joined(Ok::<Result<T, P>, oneshot::Canceled>(one)) == joined(
            Ok::<Result<T, P>, oneshot::Canceled>(other),
        ),
    ensures
        one == other,
{
}

/// A handle that is given up leaves a panic unseen if and only if it would have told of that panic.
pub proof fn law_unseen_panic_is_what_would_have_been_told<T, P>(
    received: Result<Result<T, P>, oneshot::Canceled>,
    payload: P,
)
    ensures
        unseen_panic(received) == Some(payload) <==> received == Ok::<
            Result<T, P>,
            oneshot::Canceled,
        >(Err(payload)),
        unseen_panic(received) == Some(payload) <==> joined(received) == Err::<T, Option<P>>(
            Some(payload),
        ),
{
}

/// Several handles that are given up leave the panics unseen of each of them, in order and nothing
/// else.
pub proof fn law_unseen_panics_are_those_of_each<T, P>(
    one: Seq<Result<Result<T, P>, oneshot::Canceled>>,
    other: Seq<Result<Result<T, P>, oneshot::Canceled>>,
    payload: P,
    value: T,
    canceled: oneshot::Canceled,
)
    ensures
        unseen_panics(one + other) =~= unseen_panics(one) + unseen_panics(other),
        unseen_panics(
            seq![Ok::<Result<T, P>, oneshot::Canceled>(Err(payload))],
        ) =~= seq![payload],
        unseen_panics(
            seq![Ok::<Result<T, P>, oneshot::Canceled>(Ok(value))],
        ) =~= Seq::<P>::empty(),
        unseen_panics(
            seq![Err::<Result<T, P>, oneshot::Canceled>(canceled)],
        ) =~= Seq::<P>::empty(),
    decreases other.len(),
{
    reveal_with_fuel(unseen_panics, 2);
    assert(seq![Ok::<Result<T, P>, oneshot::Canceled>(Err(payload))].drop_last() =~= Seq::<
        Result<Result<T, P>, oneshot::Canceled>,
    >::empty());
    assert(seq![Ok::<Result<T, P>, oneshot::Canceled>(Ok(value))].drop_last() =~= Seq::<
        Result<Result<T, P>, oneshot::Canceled>,
    >::empty());
    assert(seq![Err::<Result<T, P>, oneshot::Canceled>(canceled)].drop_last() =~= Seq::<
        Result<Result<T, P>, oneshot::Canceled>,
    >::empty());
    if other.len() == 0 {
        assert(one + other =~= one);
    } else {
        assert((one + other).drop_last() =~= one + other.drop_last());
        law_unseen_panics_are_those_of_each(one, other.drop_last(), payload, value, canceled);
    }
}

/// A handle has completed exactly when its half has told, and to join or to drop it changes nothing
/// but that, and that a dropped one is closed.
pub proof fn law_handle_completes_by_telling<T, P, A>(view: JoinView<T, P, A>)
    ensures
        view.completed() <==> view.receiver.done,
        view.joined().receiver.done,
        view.joined().receiver.closed == view.receiver.closed,
        view.joined().receiver.future == view.receiver.future,
        view.joined().handle == view.handle,
        view.dropped().receiver.done,
        view.dropped().receiver.closed,
        view.dropped().receiver.future == view.receiver.future,
        view.dropped().handle == view.handle,
{
}

} // verus!
