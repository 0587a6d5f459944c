//! The values of a stream of futures, as the futures complete.

use crate::join::{
    joined, last_received, receive, record_unseen, unseen_panic, unseen_panics, JoinHandle,
    JoinView,
};
use crate::outside::{polled_once, HalfSet, HalfView, ReceiveHalf, SetView};
use crate::scope::ScopeExecutor;
use crate::stream::buffered::fed_view;
use crate::stream::{extend_hint, hint_with, item_of, next_item, StreamPoll};
use futures_channel::oneshot;
use std::collections::VecDeque;
use std::task::{Context, Poll};
use vstd::future::FutureAdditionalSpecFns;
use vstd::multiset::Multiset;
use vstd::prelude::*;

verus! {

/// What a [`BufferUnordered`] holds.
#[verifier::ext_equal]
#[verifier::reject_recursive_types(T)]
#[verifier::reject_recursive_types(P)]
pub struct UnorderedView<T, P, A> {
    /// Where the results of the tasks arrive whose values are to come.
    pub queue: SetView<HalfView<Result<T, P>>>,
    /// The means to abort the tasks that were not forgotten, in the order in which they came from
    /// the source.
    pub handles: Seq<A>,
    /// How many tasks may be awaited.
    pub limit: nat,
    /// Whether the source may still have futures to come.
    pub open: bool,
}

impl<T, P, A> UnorderedView<T, P, A> {
    /// A stream that awaits no task yet.
    pub open spec fn empty(limit: nat) -> Self {
        UnorderedView { queue: SetView::empty(), handles: Seq::empty(), limit, open: true }
    }

    /// No result has been given out that is still awaited.
    pub open spec fn wf(self) -> bool {
        forall|half: HalfView<Result<T, P>>| #[trigger]
            self.queue.held.contains(half) ==> !half.done
    }

    /// No more tasks are awaited than may be.
    pub open spec fn within_limit(self) -> bool {
        self.queue.held.len() <= self.limit
    }

    /// Whether the source is to be polled.
    pub open spec fn wants_more(self) -> bool {
        self.open && self.queue.held.len() < self.limit
    }

    /// After the source was polled, with a future that now runs as a task, with its end, or
    /// with neither.
    pub open spec fn fed(self, polled: Poll<Option<JoinView<T, P, A>>>) -> Self {
        match polled {
            Poll::Ready(Some(task)) => UnorderedView {
                queue: self.queue.with(task.receiver),
                handles: self.handles.push(task.handle),
                ..self
            },
            Poll::Ready(None) => UnorderedView { open: false, ..self },
            Poll::Pending => self,
        }
    }

    /// After the result has arrived at `half`.
    pub open spec fn advanced(self, half: HalfView<Result<T, P>>) -> Self {
        UnorderedView { queue: self.queue.without(half), ..self }
    }

    /// After the means to abort the finished ones among the tasks were dropped.
    pub open spec fn forgot(self, finished: Seq<bool>) -> Self {
        UnorderedView { handles: kept(self.handles, finished), ..self }
    }

    /// After all tasks were taken out.
    pub open spec fn cancelled(self) -> Self {
        UnorderedView { queue: SetView::empty(), handles: Seq::empty(), ..self }
    }
}

/// Those of `all` that are not marked.
pub open spec fn kept<H>(all: Seq<H>, marked: Seq<bool>) -> Seq<H>
    decreases all.len(),
{
    if all.len() == 0 {
        Seq::empty()
    } else {
        let before = kept(all.drop_last(), marked.drop_last());
        if marked.last() {
            before
        } else {
            before.push(all.last())
        }
    }
}

/// A stream of the values of futures that run as tasks, in the order in which they complete.
///
/// To poll it takes two steps. As long as it [wants more](BufferUnordered::wants_more), its
/// source is polled, and what that gives is [fed](BufferUnordered::feed) to it; then the tasks are
/// polled for by [`poll_next`](BufferUnordered::poll_next).
///
/// `T` is the value of a task, `P` what it panics with, and `A` gives the means to abort it.
#[verifier::reject_recursive_types(T)]
#[verifier::reject_recursive_types(P)]
pub struct BufferUnordered<T, P, A> {
    limit: usize,
    queue: HalfSet<Result<T, P>>,
    handles: VecDeque<A>,
    open: bool,
}

impl<T, P, A> View for BufferUnordered<T, P, A> {
    type V = UnorderedView<T, P, A>;

    closed spec fn view(&self) -> UnorderedView<T, P, A> {
        UnorderedView {
            queue: self.queue@,
            handles: self.handles@,
            limit: self.limit as nat,
            open: self.open,
        }
    }
}

impl<T, P, A> BufferUnordered<T, P, A> {
    /// The set of the tasks.
    pub closed spec fn tasks(&self) -> HalfSet<Result<T, P>> {
        self.queue
    }

    /// How often the set of the tasks was polled and answered that there is nothing yet, each time
    /// with the polling task registered to be woken.
    pub closed spec fn waits(&self) -> nat {
        self.queue.waits()
    }

    /// A stream that awaits up to `n` tasks and has none yet.
    pub fn new(n: usize) -> (buffered: Self)
        ensures
            buffered@ == UnorderedView::<T, P, A>::empty(n as nat),
            buffered@.wf(),
            buffered.waits() == 0,
    {
        broadcast use vstd::multiset::group_multiset_axioms;

        BufferUnordered { limit: n, queue: HalfSet::new(), handles: VecDeque::new(), open: true }
    }

    /// Whether the source is to be polled: it has not ended, and there is room for another
    /// task.
    pub fn wants_more(&self) -> (wants: bool)
        ensures
            wants == self@.wants_more(),
            wants == (self@.open && self@.queue.held.len() < self@.limit),
    {
        self.open && self.queue.len() < self.limit
    }

    /// Take what polling the source gave, where its future now runs as a task with the given
    /// handle, and tell whether the source is to be polled again right away.
    pub fn feed(&mut self, polled: Poll<Option<JoinHandle<T, P, A>>>) -> (again: bool)
        requires
            old(self)@.wf(),
            old(self)@.wants_more(),
            polled matches Poll::Ready(Some(handle)) ==> !handle@.completed(),
        ensures
            final(self)@ == old(self)@.fed(fed_view(polled)),
            final(self)@.wf(),
            final(self)@.within_limit(),
            again == (final(self)@.wants_more() && polled is Ready),
            again == (final(self)@.open && final(self)@.queue.held.len() < final(self)@.limit
                && polled is Ready),
            final(self).waits() == old(self).waits(),
    {
        broadcast use vstd::multiset::group_multiset_axioms;

        match polled {
            Poll::Ready(Some(handle)) => {
                let (abort, receiver) = handle.into_parts();
                self.queue.push(receiver);
                self.handles.push_back(abort);
                proof {
                    let before = old(self)@.queue.held;
                    assert forall|half: HalfView<Result<T, P>>| #[trigger]
                        self@.queue.held.contains(half) implies !half.done by {
                        assert(half == receiver@ || before.contains(half));
                    }
                }
                self.queue.len() < self.limit
            },
            Poll::Ready(None) => {
                self.open = false;
                false
            },
            Poll::Pending => false,
        }
    }

    /// Poll for the next value, after the source was polled.
    ///
    /// It is the value of one of the tasks, which leaves the stream then; a task that has come to
    /// its end by a panic leaves likewise. If no task is awaited then there is no further value,
    /// provided that the source has ended. Where tasks are awaited, there is nothing yet only if
    /// the set of them was polled and answered so, with the task of `cx` registered to be woken.
    /// Which task comes to its end, and when, is up to the tasks.
    pub fn poll_next(&mut self, cx: &mut Context<'_>) -> (polled: StreamPoll<T, P>)
        requires
            old(self)@.wf(),
        ensures
            final(self)@.wf(),
            polled is End <==> old(self)@.queue.held.len() == 0 && !old(self)@.open,
            old(self)@.queue.held.len() == 0 && old(self)@.open ==> polled is Pending,
            polled is End || polled is Pending ==> final(self)@ == old(self)@,
            polled is Pending && old(self)@.queue.held.len() > 0 ==> final(self).waits() == old(
                self,
            ).waits() + 1,
            !(polled is Pending && old(self)@.queue.held.len() > 0) ==> final(self).waits() == old(
                self,
            ).waits(),
            polled is Pending && old(self)@.queue.held.len() > 0 ==> final(self).tasks().waits()
                == old(self).tasks().waits() + 1,
            !(polled is End) && !(polled is Pending) ==> exists|half: HalfView<Result<T, P>>|
                {
                    &&& #[trigger] old(self)@.queue.held.contains(half)
                    &&& polled == item_of(joined(half.future@))
                    &&& final(self)@ == old(self)@.advanced(half)
                },
    {
        broadcast use vstd::multiset::group_multiset_axioms;

        if self.queue.len() == 0 {
            return settle(Poll::Ready(None), self.open);
        }
        let received = self.queue.poll_next(cx);
        let ghost answer = received;
        let ghost before = old(self)@;
        let polled = settle(received, self.open);
        proof {
            match answer {
                Poll::Ready(Some(result)) => {
                    let half = choose|half: HalfView<Result<T, P>>|
                        result == half.future@
                            && #[trigger] polled_once(
                            before.queue,
                            self.queue@,
                            Some(half),
                            false,
                        );
                    assert(before.queue.held.contains(half));
                    assert(self@ =~= before.advanced(half));
                    assert forall|other: HalfView<Result<T, P>>| #[trigger]
                        self@.queue.held.contains(other) implies !other.done by {
                        assert(before.queue.held.contains(other));
                    }
                },
                _ => {
                    assert(self@ =~= before);
                },
            }
        }
        polled
    }

    /// The means to abort the tasks that were fed and not forgotten.
    pub fn handles(&self) -> (handles: &VecDeque<A>)
        ensures
            handles@ == self@.handles,
    {
        &self.handles
    }

    /// Drop the means to abort the tasks that have come to their end, as `finished` tells of each
    /// of [`handles`](BufferUnordered::handles), since there is nothing left to abort.
    pub fn forget(&mut self, finished: &Vec<bool>)
        requires
            finished@.len() == old(self)@.handles.len(),
        ensures
            final(self)@ == old(self)@.forgot(finished@),
            final(self).waits() == old(self).waits(),
    {
        let ghost all = self.handles@;
        let mut left: VecDeque<A> = VecDeque::new();
        let mut at: usize = 0;
        assert(all.skip(0) =~= all);
        while at < finished.len()
            invariant
                at <= finished@.len(),
                finished@.len() == all.len(),
                self.handles@ == all.skip(at as int),
                left@ == kept(all.take(at as int), finished@.take(at as int)),
                self.queue == old(self).queue,
                self.limit == old(self).limit,
                self.open == old(self).open,
            decreases finished@.len() - at,
        {
            if let Some(handle) = self.handles.pop_front() {
                if !finished[at] {
                    left.push_back(handle);
                }
                proof {
                    let next = at as int + 1;
                    assert(handle == all[at as int]);
                    assert(all.take(next).drop_last() =~= all.take(at as int));
                    assert(finished@.take(next).drop_last() =~= finished@.take(at as int));
                    assert(self.handles@ =~= all.skip(next));
                }
            }
            at = at + 1;
        }
        assert(all.take(at as int) =~= all);
        assert(finished@.take(at as int) =~= finished@);
        self.handles = left;
    }

    /// Bounds on how many values are still to come, where `hint` holds those on how many
    /// futures are to come from the source.
    pub fn size_hint(&self, hint: (usize, Option<usize>)) -> (bounds: (usize, Option<usize>))
        ensures
            bounds.0 == hint_with(hint, self@.queue.held.len()).0,
            match bounds.1 {
                Some(upper) => hint_with(hint, self@.queue.held.len()).1 == Some(upper as nat),
                None => hint_with(hint, self@.queue.held.len()).1 is None,
            },
    {
        extend_hint(hint, self.queue.len())
    }

    /// Whether the source has ended and no task is left.
    pub fn is_terminated(&self) -> (terminated: bool)
        ensures
            terminated == (!self@.open && self@.queue.held.len() == 0),
    {
        !self.open && self.queue.len() == 0
    }

    /// Take all tasks out of the stream, as when it is dropped.
    ///
    /// Their results are given up, and the panics among them, which nobody will see any more, are
    /// recorded as unhandled with the scope. What is returned gives the means to abort the tasks,
    /// as each of them has to be.
    pub fn cancel<'env, W>(&mut self, scope: &mut ScopeExecutor<'env, P, W>) -> (handles: VecDeque<A>)
        requires
            old(self)@.wf(),
        ensures
            final(self)@ == old(self)@.cancelled(),
            final(self)@.wf(),
            final(self).waits() == old(self).waits(),
            handles@ == old(self)@.handles,
            exists|
                halves: Seq<HalfView<Result<T, P>>>,
                told: Seq<Result<Result<T, P>, oneshot::Canceled>>,
            |
                {
                    &&& #[trigger] halves.to_multiset() == old(self)@.queue.held
                    &&& told.len() == halves.len()
                    &&& forall|i: int|
                        0 <= i < told.len() ==> #[trigger] told[i] == halves[i].future@
                    &&& final(scope)@ == old(scope)@.with_panics(#[trigger] unseen_panics(told))
                },
    {
        broadcast use vstd::multiset::group_multiset_axioms;
        broadcast use vstd::seq_lib::group_to_multiset_ensures;

        let mut receivers = self.queue.take_all();
        let mut handles: VecDeque<A> = VecDeque::new();
        std::mem::swap(&mut handles, &mut self.handles);
        let ghost all = old(self)@.queue.held;
        let ghost mut gone: Seq<HalfView<Result<T, P>>> = Seq::empty();
        let ghost mut told: Seq<Result<Result<T, P>, oneshot::Canceled>> = Seq::empty();
        proof {
            gone.to_multiset_ensures();
        }
        while receivers.len() > 0
            invariant
                forall|half: HalfView<Result<T, P>>| #[trigger] all.contains(half) ==> !half.done,
                all =~= gone.to_multiset().add(
                    receivers@.map_values(
                        |receiver: ReceiveHalf<Result<T, P>>| receiver@,
                    ).to_multiset(),
                ),
                told.len() == gone.len(),
                forall|i: int| 0 <= i < told.len() ==> #[trigger] told[i] == gone[i].future@,
                scope@ == old(scope)@.with_panics(unseen_panics(told)),
            decreases receivers@.len(),
        {
            let ghost views = receivers@.map_values(
                |receiver: ReceiveHalf<Result<T, P>>| receiver@,
            );
            match receivers.pop() {
                Some(receiver) => {
                    let mut receiver = receiver;
                    let ghost half = receiver@;
                    let ghost left = receivers@.map_values(
                        |receiver: ReceiveHalf<Result<T, P>>| receiver@,
                    );
                    proof {
                        assert(views =~= left.push(half));
                        left.to_multiset_ensures();
                        gone.to_multiset_ensures();
                        assert(views.to_multiset() =~= left.to_multiset().insert(half));
                        assert(all.contains(half));
                    }
                    receiver.close();
                    let received = last_received(&mut receiver);
                    let ghost last = received;
                    record_unseen(received, scope);
                    proof {
                        let seen = unseen_panics(told);
                        assert(told.push(last).drop_last() =~= told);
                        if unseen_panic(last) is Some {
                            assert(seen.push(unseen_panic(last).unwrap()).drop_last() =~= seen);
                        }
                        told = told.push(last);
                        gone = gone.push(half);
                    }
                },
                None => {},
            }
        }
        proof {
            receivers@.map_values(
                |receiver: ReceiveHalf<Result<T, P>>| receiver@,
            ).to_multiset_ensures();
            assert(gone.to_multiset() =~= old(self)@.queue.held);
            assert(self@ =~= old(self)@.cancelled());
        }
        handles
    }
}

/// Tell what the stream gives, where `received` is what the set of tasks gave and `open` tells
/// whether the source may still have futures to come: what a task came to; nothing yet if none has
/// come to its end; and if there is none, nothing further once the source has ended.
pub fn settle<T, P>(
    received: Poll<Option<Result<Result<T, P>, oneshot::Canceled>>>,
    open: bool,
) -> (item: StreamPoll<T, P>)
    ensures
        match received {
            Poll::Ready(Some(result)) => item == item_of(joined(result)),
            Poll::Ready(None) => if open {
                item is Pending
            } else {
                item is End
            },
            Poll::Pending => item is Pending,
        },
{
    match received {
        Poll::Ready(Some(result)) => next_item(receive(result)),
        Poll::Ready(None) => if open {
            StreamPoll::Pending
        } else {
            StreamPoll::End
        },
        Poll::Pending => StreamPoll::Pending,
    }
}

/// One step in the life of a [`BufferUnordered`].
#[verifier::reject_recursive_types(T)]
#[verifier::reject_recursive_types(P)]
#[verifier::reject_recursive_types(A)]
pub enum UnorderedStep<T, P, A> {
    /// [`BufferUnordered::feed`].
    Feed(Poll<Option<JoinView<T, P, A>>>),
    /// [`BufferUnordered::poll_next`] when it gives nothing.
    Wait,
    /// [`BufferUnordered::poll_next`] when the result has arrived at this half.
    Advance(HalfView<Result<T, P>>),
    /// [`BufferUnordered::forget`].
    Forget(Seq<bool>),
}

/// Whether `steps` can be made, beginning without tasks where `limit` may be awaited.
pub open spec fn unordered_possible<T, P, A>(
    limit: nat,
    steps: Seq<UnorderedStep<T, P, A>>,
) -> bool
    decreases steps.len(),
{
    steps.len() == 0 || {
        let before = unordered_run(limit, steps.drop_last());
        &&& unordered_possible(limit, steps.drop_last())
        &&& match steps.last() {
            UnorderedStep::Feed(_) => before.wants_more(),
            UnorderedStep::Wait => true,
            UnorderedStep::Advance(half) => before.queue.held.contains(half),
            UnorderedStep::Forget(finished) => finished.len() == before.handles.len(),
        }
    }
}

/// What `steps` lead to, beginning without tasks where `limit` may be awaited.
pub open spec fn unordered_run<T, P, A>(
    limit: nat,
    steps: Seq<UnorderedStep<T, P, A>>,
) -> UnorderedView<T, P, A>
    decreases steps.len(),
{
    if steps.len() == 0 {
        UnorderedView::empty(limit)
    } else {
        let before = unordered_run(limit, steps.drop_last());
        match steps.last() {
            UnorderedStep::Feed(polled) => before.fed(polled),
            UnorderedStep::Wait => before,
            UnorderedStep::Advance(half) => before.advanced(half),
            UnorderedStep::Forget(finished) => before.forgot(finished),
        }
    }
}

/// The tasks that came from the source in the course of `steps`, in order.
pub open spec fn unordered_fed<T, P, A>(steps: Seq<UnorderedStep<T, P, A>>) -> Seq<
    JoinView<T, P, A>,
>
    decreases steps.len(),
{
    if steps.len() == 0 {
        Seq::empty()
    } else {
        let before = unordered_fed(steps.drop_last());
        match steps.last() {
            UnorderedStep::Feed(Poll::Ready(Some(task))) => before.push(task),
            _ => before,
        }
    }
}

/// Where the results of `tasks` arrive.
pub open spec fn halves_of<T, P, A>(tasks: Seq<JoinView<T, P, A>>) -> Multiset<
    HalfView<Result<T, P>>,
>
    decreases tasks.len(),
{
    if tasks.len() == 0 {
        Multiset::empty()
    } else {
        halves_of(tasks.drop_last()).insert(tasks.last().receiver)
    }
}

/// The halves at which results have arrived in the course of `steps`, in order.
pub open spec fn unordered_arrived<T, P, A>(steps: Seq<UnorderedStep<T, P, A>>) -> Seq<
    HalfView<Result<T, P>>,
>
    decreases steps.len(),
{
    if steps.len() == 0 {
        Seq::empty()
    } else {
        let before = unordered_arrived(steps.drop_last());
        match steps.last() {
            UnorderedStep::Advance(half) => before.push(half),
            _ => before,
        }
    }
}

/// The tasks that were not forgotten in the course of `steps`, by their place among those that came
/// from the source.
pub open spec fn unordered_kept<T, P, A>(steps: Seq<UnorderedStep<T, P, A>>) -> Seq<int>
    decreases steps.len(),
{
    if steps.len() == 0 {
        Seq::empty()
    } else {
        let before = unordered_kept(steps.drop_last());
        match steps.last() {
            UnorderedStep::Feed(Poll::Ready(Some(_))) => before.push(
                unordered_fed(steps.drop_last()).len() as int,
            ),
            UnorderedStep::Forget(finished) => kept(before, finished),
            _ => before,
        }
    }
}

/// Whether the tasks that were forgotten in the course of `steps` are all among `finished`, by
/// their place among those that came from the source.
pub open spec fn forgets_only<T, P, A>(
    steps: Seq<UnorderedStep<T, P, A>>,
    finished: Set<int>,
) -> bool
    decreases steps.len(),
{
    steps.len() == 0 || {
        &&& forgets_only(steps.drop_last(), finished)
        &&& steps.last() matches UnorderedStep::Forget(marked) ==> forall|i: int|
            0 <= i < marked.len() && #[trigger] marked[i] ==> finished.contains(
                unordered_kept(steps.drop_last())[i],
            )
    }
}

/// The stream takes the result of each task exactly once: those that it has taken, together with
/// those that it still awaits, are those of the tasks that came from the source. Never are more
/// tasks awaited than the limit allows.
pub proof fn law_every_task_is_awaited_or_was_given<T, P, A>(
    limit: nat,
    steps: Seq<UnorderedStep<T, P, A>>,
)
    requires
        unordered_possible(limit, steps),
    ensures
        halves_of(unordered_fed(steps)) =~= unordered_arrived(steps).to_multiset().add(
            unordered_run(limit, steps).queue.held,
        ),
        unordered_run(limit, steps).within_limit(),
        unordered_run(limit, steps).limit == limit,
    decreases steps.len(),
{
    broadcast use vstd::multiset::group_multiset_axioms;
    broadcast use vstd::seq_lib::group_to_multiset_ensures;

    if steps.len() > 0 {
        let rest = steps.drop_last();
        law_every_task_is_awaited_or_was_given(limit, rest);
        unordered_arrived(rest).to_multiset_ensures();
        match steps.last() {
            UnorderedStep::Feed(Poll::Ready(Some(task))) => {
                assert(unordered_fed(steps).drop_last() =~= unordered_fed(rest));
            },
            _ => {},
        }
    } else {
        Seq::<HalfView<Result<T, P>>>::empty().to_multiset_ensures();
    }
}

/// The stream gives the outputs of distinct futures, each exactly once, a panic included, and each
/// is what the future of a task came to that was taken from the source. Once no task is awaited, as
/// when the stream has ended, the outputs of all of them were given.
///
/// `items` is what [`BufferUnordered::poll_next`] gave in the course of `steps`, in order.
pub proof fn law_every_output_is_given_once<T, P, A>(
    limit: nat,
    steps: Seq<UnorderedStep<T, P, A>>,
    items: Seq<StreamPoll<T, P>>,
)
    requires
        unordered_possible(limit, steps),
        items.len() == unordered_arrived(steps).len(),
        forall|i: int|
            0 <= i < items.len() ==> #[trigger] items[i] == item_of(
                joined(unordered_arrived(steps)[i].future@),
            ),
    ensures
        unordered_arrived(steps).to_multiset().subset_of(halves_of(unordered_fed(steps))),
        forall|i: int|
            0 <= i < items.len() ==> exists|at: int|
                {
                    &&& 0 <= at < unordered_fed(steps).len()
                    &&& #[trigger] unordered_fed(steps)[at].receiver == unordered_arrived(steps)[i]
                    &&& #[trigger] items[i] == item_of(
                        joined(unordered_fed(steps)[at].receiver.future@),
                    )
                },
        unordered_run(limit, steps).queue.held.len() == 0 ==> unordered_arrived(steps).to_multiset()
            =~= halves_of(unordered_fed(steps)) && items.len() == unordered_fed(steps).len(),
{
    broadcast use vstd::multiset::group_multiset_axioms;

    law_every_task_is_awaited_or_was_given(limit, steps);
    let fed = unordered_fed(steps);
    let arrived = unordered_arrived(steps);
    arrived.to_multiset_ensures();
    lemma_halves_of(fed);
    assert forall|i: int| 0 <= i < items.len() implies exists|at: int|
        {
            &&& 0 <= at < fed.len()
            &&& #[trigger] fed[at].receiver == arrived[i]
            &&& #[trigger] items[i] == item_of(joined(fed[at].receiver.future@))
        } by {
        assert(arrived.contains(arrived[i]));
        assert(halves_of(fed).contains(arrived[i]));
        let at = choose|at: int| 0 <= at < fed.len() && #[trigger] fed[at].receiver == arrived[i];
        assert(items[i] == item_of(joined(fed[at].receiver.future@)));
    }
}

/// The means to abort each task that has not come to its end are at hand, as they have to be when
/// the stream is dropped, provided that only finished tasks were forgotten.
pub proof fn law_unfinished_tasks_can_be_aborted<T, P, A>(
    limit: nat,
    steps: Seq<UnorderedStep<T, P, A>>,
    finished: Set<int>,
    at: int,
)
    requires
        unordered_possible(limit, steps),
        forgets_only(steps, finished),
        0 <= at < unordered_fed(steps).len(),
        !finished.contains(at),
    ensures
        unordered_run(limit, steps).handles.contains(unordered_fed(steps)[at].handle),
{
    lemma_kept_handles(limit, steps, finished);
    let places = unordered_kept(steps);
    let i = choose|i: int| 0 <= i < places.len() && places[i] == at;
    assert(unordered_run(limit, steps).handles[i] == unordered_fed(steps)[at].handle);
}

/// Where the results of `tasks` arrive is where the result of one of them arrives, and there are as
/// many of these as there are tasks.
proof fn lemma_halves_of<T, P, A>(tasks: Seq<JoinView<T, P, A>>)
    ensures
        halves_of(tasks).len() == tasks.len(),
        forall|half: HalfView<Result<T, P>>| #[trigger]
            halves_of(tasks).contains(half) ==> exists|at: int|
                0 <= at < tasks.len() && #[trigger] tasks[at].receiver == half,
    decreases tasks.len(),
{
    broadcast use vstd::multiset::group_multiset_axioms;

    if tasks.len() > 0 {
        let rest = tasks.drop_last();
        lemma_halves_of(rest);
        assert forall|half: HalfView<Result<T, P>>| #[trigger]
            halves_of(tasks).contains(half) implies exists|at: int|
            0 <= at < tasks.len() && #[trigger] tasks[at].receiver == half by {
            if half == tasks.last().receiver {
                assert(tasks[tasks.len() - 1].receiver == half);
            } else {
                assert(halves_of(rest).contains(half));
                let at = choose|at: int| 0 <= at < rest.len() && #[trigger] rest[at].receiver
                    == half;
                assert(tasks[at].receiver == half);
            }
        }
    }
}

/// What is not marked is kept, in the same places of sequences that are marked alike.
proof fn lemma_kept<G, H>(all: Seq<G>, also: Seq<H>, marked: Seq<bool>, of: spec_fn(G) -> H)
    requires
        all.len() == marked.len(),
        also == all.map_values(of),
    ensures
        kept(also, marked) =~= kept(all, marked).map_values(of),
        forall|i: int|
            0 <= i < all.len() && !marked[i] ==> kept(all, marked).contains(#[trigger] all[i]),
        forall|i: int|
            0 <= i < kept(all, marked).len() ==> all.contains(#[trigger] kept(all, marked)[i]),
    decreases all.len(),
{
    if all.len() > 0 {
        let rest = all.drop_last();
        assert(also.drop_last() =~= rest.map_values(of));
        lemma_kept(rest, also.drop_last(), marked.drop_last(), of);
        let before = kept(rest, marked.drop_last());
        let now = kept(all, marked);
        assert forall|i: int| 0 <= i < all.len() && !marked[i] implies now.contains(
            #[trigger] all[i],
        ) by {
            if i < rest.len() {
                assert(rest[i] == all[i]);
                assert(marked.drop_last()[i] == marked[i]);
                let j = choose|j: int| 0 <= j < before.len() && before[j] == rest[i];
                assert(now[j] == all[i]);
            } else {
                assert(now[now.len() - 1] == all[i]);
            }
        }
        assert forall|i: int| 0 <= i < now.len() implies all.contains(#[trigger] now[i]) by {
            if i < before.len() {
                assert(rest.contains(before[i]));
                let j = choose|j: int| 0 <= j < rest.len() && rest[j] == before[i];
                assert(all[j] == now[i]);
            } else {
                assert(all[all.len() - 1] == now[i]);
            }
        }
    }
}

/// The handles of a stream are those of the tasks that were not forgotten, and every task that is
/// not finished is among these.
proof fn lemma_kept_handles<T, P, A>(
    limit: nat,
    steps: Seq<UnorderedStep<T, P, A>>,
    finished: Set<int>,
)
    requires
        unordered_possible(limit, steps),
        forgets_only(steps, finished),
    ensures
        ({
            let fed = unordered_fed(steps);
            let places = unordered_kept(steps);
            &&& unordered_run(limit, steps).handles =~= places.map_values(
                |at: int| fed[at].handle,
            )
            &&& forall|i: int| 0 <= i < places.len() ==> 0 <= #[trigger] places[i] < fed.len()
            &&& forall|at: int|
                0 <= at < fed.len() && !#[trigger] finished.contains(at) ==> places.contains(at)
        }),
    decreases steps.len(),
{
    if steps.len() > 0 {
        let rest = steps.drop_last();
        lemma_kept_handles(limit, rest, finished);
        let fed = unordered_fed(rest);
        let places = unordered_kept(rest);
        let handles = unordered_run(limit, rest).handles;
        match steps.last() {
            UnorderedStep::Feed(Poll::Ready(Some(task))) => {
                let more = fed.push(task);
                let now = places.push(fed.len() as int);
                assert(handles.push(task.handle) =~= now.map_values(|at: int| more[at].handle));
                assert forall|at: int|
                    0 <= at < more.len() && !#[trigger] finished.contains(at) implies now.contains(
                    at,
                ) by {
                    if at < fed.len() {
                        let i = choose|i: int| 0 <= i < places.len() && places[i] == at;
                        assert(now[i] == at);
                    } else {
                        assert(now[now.len() - 1] == at);
                    }
                }
            },
            UnorderedStep::Forget(marked) => {
                let of = |at: int| fed[at].handle;
                assert(handles =~= places.map_values(of));
                lemma_kept(places, handles, marked, of);
                let now = kept(places, marked);
                assert forall|i: int| 0 <= i < now.len() implies 0 <= #[trigger] now[i]
                    < fed.len() by {
                    assert(places.contains(now[i]));
                    let j = choose|j: int| 0 <= j < places.len() && places[j] == now[i];
                    assert(0 <= places[j] < fed.len());
                }
                assert forall|at: int|
                    0 <= at < fed.len() && !#[trigger] finished.contains(at) implies now.contains(
                    at,
                ) by {
                    let i = choose|i: int| 0 <= i < places.len() && places[i] == at;
                    assert(!marked[i]);
                    assert(now.contains(places[i]));
                }
            },
            _ => {},
        }
    }
}

/// How often [`BufferUnordered::poll_next`] was called while tasks were awaited, in the course of
/// `steps`.
pub open spec fn unordered_polls<T, P, A>(limit: nat, steps: Seq<UnorderedStep<T, P, A>>) -> nat
    decreases steps.len(),
{
    if steps.len() == 0 {
        0
    } else {
        let awaits = unordered_run(limit, steps.drop_last()).queue.held.len() > 0;
        let polls = steps.last() is Wait || steps.last() is Advance;
        unordered_polls(limit, steps.drop_last()) + if awaits && polls {
            1nat
        } else {
            0
        }
    }
}

/// What [`BufferUnordered::waits`] comes to by `steps`: how often the set of tasks was polled and
/// answered that there is nothing yet.
pub open spec fn unordered_waits<T, P, A>(limit: nat, steps: Seq<UnorderedStep<T, P, A>>) -> nat
    decreases steps.len(),
{
    if steps.len() == 0 {
        0
    } else {
        let awaits = unordered_run(limit, steps.drop_last()).queue.held.len() > 0;
        unordered_waits(limit, steps.drop_last()) + if awaits && steps.last() is Wait {
            1nat
        } else {
            0
        }
    }
}

/// To give nothing is honest: each poll of the stream while tasks are awaited either gives what one
/// of them came to, or is one at which the set of tasks itself was polled and answered that there
/// is nothing yet, with the polling task registered to be woken. There is no other way for it to
/// end.
pub proof fn law_pending_only_if_the_tasks_were_polled_for<T, P, A>(
    limit: nat,
    steps: Seq<UnorderedStep<T, P, A>>,
)
    requires
        unordered_possible(limit, steps),
    ensures
        unordered_polls(limit, steps) == unordered_arrived(steps).len() + unordered_waits(
            limit,
            steps,
        ),
    decreases steps.len(),
{
    broadcast use vstd::multiset::group_multiset_axioms;

    if steps.len() > 0 {
        law_pending_only_if_the_tasks_were_polled_for(limit, steps.drop_last());
    }
}

/// The tasks that a stream awaits are those of its set, and the stream has waited exactly as often as
/// that set itself answered that there is nothing yet.
pub proof fn law_stream_waits_only_with_its_tasks<T, P, A>(stream: BufferUnordered<T, P, A>)
    ensures
        stream@.queue == stream.tasks()@,
        stream.waits() == stream.tasks().waits(),
{
}

/// What is fed while a source always has a future ready, which runs as one of `tasks`.
pub open spec fn eager_feeds<T, P, A>(tasks: Seq<JoinView<T, P, A>>) -> Seq<
    UnorderedStep<T, P, A>,
> {
    Seq::new(tasks.len(), |i: int| UnorderedStep::Feed(Poll::Ready(Some(tasks[i]))))
}

/// The window is filled: a source that always has a future ready is asked for one after the other
/// until exactly `limit` tasks are awaited, before any is given, so that these run concurrently.
pub proof fn law_unordered_window_is_filled<T, P, A>(limit: nat, tasks: Seq<JoinView<T, P, A>>)
    requires
        tasks.len() <= limit,
    ensures
        unordered_possible(limit, eager_feeds(tasks)),
        unordered_run(limit, eager_feeds(tasks)).queue.held =~= halves_of(tasks),
        unordered_run(limit, eager_feeds(tasks)).queue.held.len() == tasks.len(),
        unordered_run(limit, eager_feeds(tasks)).open,
        unordered_run(limit, eager_feeds(tasks)).limit == limit,
        unordered_run(limit, eager_feeds(tasks)).wants_more() <==> tasks.len() < limit,
    decreases tasks.len(),
{
    broadcast use vstd::multiset::group_multiset_axioms;

    let steps = eager_feeds(tasks);
    if tasks.len() > 0 {
        law_unordered_window_is_filled(limit, tasks.drop_last());
        assert(steps.drop_last() =~= eager_feeds(tasks.drop_last()));
    }
    lemma_halves_of(tasks);
}

/// The source is asked for more as long as it has not ended and fewer than `limit` tasks are
/// awaited, and only then; this holds in every state that the stream can come to, so that a task
/// that is given makes room for another one.
pub proof fn law_unordered_source_is_asked_while_there_is_room<T, P, A>(
    limit: nat,
    steps: Seq<UnorderedStep<T, P, A>>,
)
    requires
        unordered_possible(limit, steps),
    ensures
        unordered_run(limit, steps).wants_more() <==> unordered_run(limit, steps).open
            && unordered_fed(steps).len() - unordered_arrived(steps).len() < limit,
        unordered_run(limit, steps).open <==> forall|i: int|
            0 <= i < steps.len() ==> #[trigger] steps[i] != UnorderedStep::<T, P, A>::Feed(
                Poll::Ready(None),
            ),
    decreases steps.len(),
{
    broadcast use vstd::multiset::group_multiset_axioms;

    law_every_task_is_awaited_or_was_given(limit, steps);
    unordered_arrived(steps).to_multiset_ensures();
    lemma_halves_of(unordered_fed(steps));
    if steps.len() > 0 {
        let rest = steps.drop_last();
        law_unordered_source_is_asked_while_there_is_room(limit, rest);
        assert(forall|i: int| 0 <= i < rest.len() ==> #[trigger] rest[i] == steps[i]);
        assert(steps[steps.len() - 1] == steps.last());
        let ended = UnorderedStep::<T, P, A>::Feed(Poll::Ready(None));
        if exists|i: int| 0 <= i < steps.len() && #[trigger] steps[i] == ended {
            let i = choose|i: int| 0 <= i < steps.len() && #[trigger] steps[i] == ended;
            if i < rest.len() {
                assert(rest[i] == ended);
            }
        }
    }
}

/// To forget tasks drops exactly those that are marked, and keeps the others in order.
pub proof fn law_forgetting_drops_exactly_the_marked<H>(
    one: Seq<H>,
    marked: Seq<bool>,
    other: Seq<H>,
    also: Seq<bool>,
    single: H,
)
    requires
        one.len() == marked.len(),
        other.len() == also.len(),
    ensures
        kept(one + other, marked + also) =~= kept(one, marked) + kept(other, also),
        kept(seq![single], seq![false]) =~= seq![single],
        kept(seq![single], seq![true]) =~= Seq::<H>::empty(),
    decreases other.len(),
{
    reveal_with_fuel(kept, 2);
    assert(seq![single].drop_last() =~= Seq::<H>::empty());
    if other.len() == 0 {
        assert(one + other =~= one);
        assert(marked + also =~= marked);
    } else {
        assert((one + other).drop_last() =~= one + other.drop_last());
        assert((marked + also).drop_last() =~= marked + also.drop_last());
        law_forgetting_drops_exactly_the_marked(
            one,
            marked,
            other.drop_last(),
            also.drop_last(),
            single,
        );
    }
}

/// What each use of the stream does to its tasks, and that it leaves the rest as it was.
pub proof fn law_unordered_uses_change_what_they_are_for<T, P, A>(
    view: UnorderedView<T, P, A>,
    task: JoinView<T, P, A>,
    half: HalfView<Result<T, P>>,
    finished: Seq<bool>,
    limit: nat,
)
    ensures
        view.wants_more() <==> view.open && view.queue.held.len() < view.limit,
        view.within_limit() <==> view.queue.held.len() <= view.limit,
        UnorderedView::<T, P, A>::empty(limit).queue.held.len() == 0,
        UnorderedView::<T, P, A>::empty(limit).handles.len() == 0,
        UnorderedView::<T, P, A>::empty(limit).open,
        UnorderedView::<T, P, A>::empty(limit).limit == limit,
        view.fed(Poll::Ready(Some(task))).queue.held =~= view.queue.held.insert(task.receiver),
        view.fed(Poll::Ready(Some(task))).handles =~= view.handles.push(task.handle),
        view.fed(Poll::Ready(Some(task))).open == view.open,
        view.fed(Poll::Ready(Some(task))).limit == view.limit,
        view.fed(Poll::Ready(None)).queue == view.queue,
        view.fed(Poll::Ready(None)).handles == view.handles,
        !view.fed(Poll::Ready(None)).open,
        view.fed(Poll::Ready(None)).limit == view.limit,
        view.fed(Poll::Pending) == view,
        view.queue.held.contains(half) ==> view.advanced(half).queue.held.insert(half)
            =~= view.queue.held,
        view.advanced(half).handles == view.handles,
        view.advanced(half).open == view.open,
        view.advanced(half).limit == view.limit,
        view.forgot(finished).handles == kept(view.handles, finished),
        view.forgot(finished).queue == view.queue,
        view.forgot(finished).open == view.open,
        view.forgot(finished).limit == view.limit,
        view.cancelled().queue.held.len() == 0,
        view.cancelled().handles.len() == 0,
        view.cancelled().open == view.open,
        view.cancelled().limit == view.limit,
        view.wf() <==> forall|each: HalfView<Result<T, P>>| #[trigger]
            view.queue.held.contains(each) ==> !each.done,
{
    broadcast use vstd::multiset::group_multiset_axioms;

}

} // verus!
