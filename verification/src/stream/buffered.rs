//! The values of a stream of futures, in the order of the futures.

use crate::error::{poll_outcome, JoinError};
use crate::join::{
    joined, lemma_unseen_panic, record_unseen, unseen_panic, unseen_panics, JoinHandle, JoinView,
};
use crate::scope::{law_first_panic_is_kept, ScopeExecutor, ScopeView};
use crate::stream::{extend_hint, hint_with, item_of, next_item, StreamPoll};
use futures_channel::oneshot;
use std::collections::VecDeque;
use std::task::{Context, Poll};
use vstd::future::FutureAdditionalSpecFns;
use vstd::prelude::*;

verus! {

/// What a [`Buffered`] holds.
#[verifier::ext_equal]
#[verifier::reject_recursive_types(T)]
#[verifier::reject_recursive_types(P)]
pub struct BufferedView<T, P, A> {
    /// The handles of the tasks whose values are to come, in order.
    pub queue: Seq<JoinView<T, P, A>>,
    /// How many tasks may be buffered.
    pub limit: nat,
    /// Whether the source may still have futures to come.
    pub open: bool,
}

impl<T, P, A> BufferedView<T, P, A> {
    /// A stream that has no task yet.
    pub open spec fn empty(limit: nat) -> Self {
        BufferedView { queue: Seq::empty(), limit, open: true }
    }

    /// No more tasks are buffered than may be.
    pub open spec fn within_limit(self) -> bool {
        self.queue.len() <= self.limit
    }

    /// Whether the source is to be polled.
    pub open spec fn wants_more(self) -> bool {
        self.open && self.queue.len() < self.limit
    }

    /// After the source was polled, with a future that now runs as a task, with its end, or
    /// with neither.
    pub open spec fn fed(self, polled: Poll<Option<JoinView<T, P, A>>>) -> Self {
        match polled {
            Poll::Ready(Some(handle)) => BufferedView { queue: self.queue.push(handle), ..self },
            Poll::Ready(None) => BufferedView { open: false, ..self },
            Poll::Pending => self,
        }
    }

    /// After the first task has come to its end.
    pub open spec fn advanced(self) -> Self {
        BufferedView { queue: self.queue.drop_first(), ..self }
    }

    /// After all tasks were taken out.
    pub open spec fn cancelled(self) -> Self {
        BufferedView { queue: Seq::empty(), ..self }
    }
}

/// What a source gave, with the view of the handle.
pub open spec fn fed_view<T, P, A>(polled: Poll<Option<JoinHandle<T, P, A>>>) -> Poll<
    Option<JoinView<T, P, A>>,
> {
    match polled {
        Poll::Ready(Some(handle)) => Poll::Ready(Some(handle@)),
        Poll::Ready(None) => Poll::Ready(None),
        Poll::Pending => Poll::Pending,
    }
}

/// A stream of the values of futures that run as tasks, in the order of the futures.
///
/// To poll it takes two steps. As long as it [wants more](Buffered::wants_more), its source is
/// polled, and what that gives is [fed](Buffered::feed) to it; then the first of the tasks is
/// polled by [`poll_next`](Buffered::poll_next).
///
/// `S` is the source, `T` the value of a task, `P` what it panics with, and `A` gives the
/// means to abort it.
#[verifier::reject_recursive_types(T)]
#[verifier::reject_recursive_types(P)]
pub struct Buffered<S, T, P, A> {
    stream: S,
    limit: usize,
    queue: VecDeque<JoinHandle<T, P, A>>,
    open: bool,
}

impl<S, T, P, A> View for Buffered<S, T, P, A> {
    type V = BufferedView<T, P, A>;

    closed spec fn view(&self) -> BufferedView<T, P, A> {
        BufferedView {
            queue: self.queue@.map_values(|handle: JoinHandle<T, P, A>| handle@),
            limit: self.limit as nat,
            open: self.open,
        }
    }
}

impl<S, T, P, A> Buffered<S, T, P, A> {
    /// The source.
    pub closed spec fn stream(&self) -> S {
        self.stream
    }

    /// All handles are well-formed.
    closed spec fn handles_wf(&self) -> bool {
        forall|i: int| 0 <= i < self.queue@.len() ==> (#[trigger] self.queue@[i]).wf()
    }

    /// The handles are well-formed, no more tasks are buffered than may be, and none of them has
    /// given out its value.
    pub closed spec fn wf(&self) -> bool {
        &&& self.handles_wf()
        &&& self@.within_limit()
        &&& forall|i: int| 0 <= i < self@.queue.len() ==> !#[trigger] self@.queue[i].completed()
    }

    /// A stream that buffers up to `n` tasks and has none yet.
    pub fn new(stream: S, n: usize) -> (buffered: Self)
        ensures
            buffered.wf(),
            buffered.stream() == stream,
            buffered@ == BufferedView::<T, P, A>::empty(n as nat),
    {
        // Only preallocate capacity up to 32 elements to avoid large memory use if someone
        // passes in a large limit.
        let capacity: usize = if n < 32 {
            n
        } else {
            32
        };
        let buffered = Buffered {
            stream,
            limit: n,
            queue: VecDeque::with_capacity(capacity),
            open: true,
        };
        assert(buffered@ =~= BufferedView::<T, P, A>::empty(n as nat));
        buffered
    }

    /// Acquire a reference to the underlying stream that this combinator is pulling from.
    pub fn get_ref(&self) -> (stream: &S)
        ensures
            *stream == self.stream(),
    {
        &self.stream
    }

    /// Acquire a mutable reference to the underlying stream that this combinator is pulling
    /// from.
    ///
    /// Note that care must be taken to avoid tampering with the state of the stream which may
    /// otherwise confuse this combinator.
    pub fn get_mut(&mut self) -> (stream: &mut S)
        ensures
            *stream == old(self).stream(),
            final(self).stream() == *final(stream),
            final(self)@ == old(self)@,
            final(self).wf() == old(self).wf(),
    {
        &mut self.stream
    }

    /// Whether the source is to be polled: it has not ended, and there is room for another
    /// task.
    pub fn wants_more(&self) -> (wants: bool)
        ensures
            wants == self@.wants_more(),
            wants == (self@.open && self@.queue.len() < self@.limit),
    {
        self.open && self.queue.len() < self.limit
    }

    /// Take what polling the source gave, where its future now runs as a task with the given
    /// handle, and tell whether the source is to be polled again right away.
    pub fn feed(&mut self, polled: Poll<Option<JoinHandle<T, P, A>>>) -> (again: bool)
        requires
            old(self).wf(),
            old(self)@.wants_more(),
            polled matches Poll::Ready(Some(handle)) ==> handle.wf() && !handle@.completed(),
        ensures
            final(self).wf(),
            final(self)@ == old(self)@.fed(fed_view(polled)),
            final(self).stream() == old(self).stream(),
            again == (final(self)@.wants_more() && polled is Ready),
            again == (final(self)@.open && final(self)@.queue.len() < final(self)@.limit
                && polled is Ready),
    {
        match polled {
            Poll::Ready(Some(handle)) => {
                self.queue.push_back(handle);
                assert(self@.queue =~= old(self)@.queue.push(handle@));
                self.queue.len() < self.limit
            },
            Poll::Ready(None) => {
                self.open = false;
                false
            },
            Poll::Pending => false,
        }
    }

    /// Poll for the next value, after the source was polled.
    ///
    /// If no task is buffered then there is no further value, provided that the source has ended;
    /// otherwise there is none yet. The first task that is buffered gives the next value, and
    /// leaves the buffer once it has come to its end, even by a panic. When it does so is up to
    /// the task.
    pub fn poll_next(&mut self, cx: &mut Context<'_>) -> (polled: StreamPoll<T, P>)
        requires
            old(self).wf(),
        ensures
            final(self).wf(),
            final(self).stream() == old(self).stream(),
            polled is End <==> old(self)@.queue.len() == 0 && !old(self)@.open,
            old(self)@.queue.len() == 0 && old(self)@.open ==> polled is Pending,
            polled is End || polled is Pending ==> final(self)@ == old(self)@,
            polled is Pending && old(self)@.queue.len() > 0
                ==> !old(self)@.queue[0].receiver.closed,
            !(polled is End) && !(polled is Pending) ==> {
                &&& polled == item_of(joined(old(self)@.queue[0].receiver.future@))
                &&& final(self)@ == old(self)@.advanced()
            },
    {
        match self.queue.pop_front() {
            None => {
                assert(self@.queue =~= old(self)@.queue);
                if self.open {
                    StreamPoll::Pending
                } else {
                    StreamPoll::End
                }
            },
            Some(front) => {
                let mut front = front;
                let ghost first = front@;
                assert(old(self)@.queue[0] == first);
                assert(!first.completed());
                let came = front.poll(cx);
                self.queue.push_front(front);
                assert(self@.queue =~= old(self)@.queue.update(0, front@));
                assert(self@.queue.drop_first() =~= old(self)@.queue.drop_first());
                assert(forall|i: int|
                    1 <= i < self.queue@.len() ==> #[trigger] self.queue@[i]
                        == old(self).queue@[i]);
                assert(forall|i: int|
                    1 <= i < self@.queue.len() ==> #[trigger] self@.queue[i]
                        == old(self)@.queue[i]);
                let polled = self.settle(came);
                assert(polled is Pending ==> self@.queue =~= old(self)@.queue);
                polled
            },
        }
    }

    /// Take what polling the first task came to, and tell what the stream gives: as long as
    /// that task is pending the stream is, whatever the others have come to.
    fn settle(&mut self, came: Poll<Result<T, JoinError<P>>>) -> (polled: StreamPoll<T, P>)
        requires
            old(self).handles_wf(),
            old(self)@.within_limit(),
            old(self)@.queue.len() > 0,
            came is Pending ==> !old(self)@.queue[0].completed(),
            forall|i: int|
                1 <= i < old(self)@.queue.len() ==> !#[trigger] old(self)@.queue[i].completed(),
        ensures
            final(self).wf(),
            final(self).stream() == old(self).stream(),
            match poll_outcome(came) {
                Poll::Pending => polled is Pending && final(self)@ == old(self)@,
                Poll::Ready(result) => polled == item_of(result) && final(self)@
                    == old(self)@.advanced(),
            },
    {
        match came {
            Poll::Pending => StreamPoll::Pending,
            Poll::Ready(result) => {
                self.queue.pop_front();
                assert(self@ =~= old(self)@.advanced());
                assert(forall|i: int|
                    0 <= i < self.queue@.len() ==> #[trigger] self.queue@[i] == old(self).queue@[i
                        + 1]);
                next_item(result)
            },
        }
    }

    /// Bounds on how many values are still to come, where `hint` holds those on how many
    /// futures are to come from the source.
    pub fn size_hint(&self, hint: (usize, Option<usize>)) -> (bounds: (usize, Option<usize>))
        ensures
            bounds.0 == hint_with(hint, self@.queue.len()).0,
            match bounds.1 {
                Some(upper) => hint_with(hint, self@.queue.len()).1 == Some(upper as nat),
                None => hint_with(hint, self@.queue.len()).1 is None,
            },
    {
        extend_hint(hint, self.queue.len())
    }

    /// Whether the source has ended and no task is left.
    pub fn is_terminated(&self) -> (terminated: bool)
        ensures
            terminated == (!self@.open && self@.queue.len() == 0),
    {
        !self.open && self.queue.len() == 0
    }

    /// Take all tasks out of the buffer, as for a stream that is dropped.
    ///
    /// Their results are given up, and the panics among them, which nobody will see any more, are
    /// recorded as unhandled with the scope. What is returned gives the means to abort the tasks,
    /// as each of them has to be.
    pub fn cancel<'env, W>(&mut self, scope: &mut ScopeExecutor<'env, P, W>) -> (handles: Vec<A>)
        requires
            old(self).wf(),
        ensures
            final(self).wf(),
            final(self)@ == old(self)@.cancelled(),
            final(self).stream() == old(self).stream(),
            handles@ == old(self)@.queue.map_values(|handle: JoinView<T, P, A>| handle.handle),
            exists|told: Seq<Result<Result<T, P>, oneshot::Canceled>>|
                {
                    &&& told.len() == old(self)@.queue.len()
                    &&& forall|i: int|
                        0 <= i < told.len() ==> #[trigger] told[i]
                            == old(self)@.queue[i].receiver.future@
                    &&& final(scope)@ == old(scope)@.with_panics(#[trigger] unseen_panics(told))
                },
    {
        let mut handles: Vec<A> = Vec::new();
        let ghost all = self@.queue;
        let ghost mut told: Seq<Result<Result<T, P>, oneshot::Canceled>> = Seq::empty();
        let ghost mut gone: int = 0;
        assert(all.take(0) =~= Seq::<JoinView<T, P, A>>::empty());
        assert(self@.queue =~= all.skip(0));
        while self.queue.len() > 0
            invariant
                0 <= gone <= all.len(),
                self.wf(),
                self@.queue == all.skip(gone),
                self@.limit == old(self)@.limit,
                self@.open == old(self)@.open,
                self.stream() == old(self).stream(),
                handles@ =~= all.take(gone).map_values(|handle: JoinView<T, P, A>| handle.handle),
                told.len() == gone,
                forall|i: int|
                    0 <= i < told.len() ==> #[trigger] told[i] == all[i].receiver.future@,
                scope@ == old(scope)@.with_panics(unseen_panics(told)),
            decreases self.queue@.len(),
        {
            let ghost before = *self;
            match self.queue.pop_front() {
                Some(handle) => {
                    let mut handle = handle;
                    assert(handle == before.queue@[0]);
                    assert(handle@ == before@.queue[0]);
                    assert(handle@ == all[gone]);
                    if let Some(received) = handle.give_up() {
                        let ghost last = received;
                        record_unseen(received, scope);
                        proof {
                            let seen = unseen_panics(told);
                            assert(told.push(last).drop_last() =~= told);
                            if unseen_panic(last) is Some {
                                assert(seen.push(unseen_panic(last).unwrap()).drop_last() =~= seen);
                            }
                            told = told.push(last);
                        }
                    }
                    handles.push(handle.into_parts().0);
                    proof {
                        assert(all.take(gone + 1) =~= all.take(gone).push(all[gone]));
                        assert(self@.queue =~= before@.queue.drop_first());
                        assert(self@.queue =~= all.skip(gone + 1));
                        assert(forall|i: int|
                            0 <= i < self.queue@.len() ==> #[trigger] self.queue@[i]
                                == before.queue@[i + 1]);
                        assert(forall|i: int|
                            0 <= i < self@.queue.len() ==> #[trigger] self@.queue[i]
                                == before@.queue[i + 1]);
                        gone = gone + 1;
                    }
                },
                None => {},
            }
        }
        assert(all.take(gone) =~= all);
        assert(self@ =~= old(self)@.cancelled());
        handles
    }
}

/// One step in the life of a [`Buffered`].
#[verifier::reject_recursive_types(T)]
#[verifier::reject_recursive_types(P)]
#[verifier::reject_recursive_types(A)]
pub enum BufferedStep<T, P, A> {
    /// [`Buffered::feed`].
    Feed(Poll<Option<JoinView<T, P, A>>>),
    /// [`Buffered::poll_next`] when it gives nothing.
    Wait,
    /// [`Buffered::poll_next`] when the first task has come to its end.
    Advance,
}

/// Whether `steps` can be made, beginning with an empty buffer for `limit` tasks.
pub open spec fn buffered_possible<T, P, A>(
    limit: nat,
    steps: Seq<BufferedStep<T, P, A>>,
) -> bool
    decreases steps.len(),
{
    steps.len() == 0 || {
        &&& buffered_possible(limit, steps.drop_last())
        &&& match steps.last() {
            BufferedStep::Feed(_) => buffered_run(limit, steps.drop_last()).wants_more(),
            BufferedStep::Wait => true,
            BufferedStep::Advance => buffered_run(limit, steps.drop_last()).queue.len() > 0,
        }
    }
}

/// What `steps` lead to, beginning with an empty buffer for `limit` tasks.
pub open spec fn buffered_run<T, P, A>(
    limit: nat,
    steps: Seq<BufferedStep<T, P, A>>,
) -> BufferedView<T, P, A>
    decreases steps.len(),
{
    if steps.len() == 0 {
        BufferedView::empty(limit)
    } else {
        let before = buffered_run(limit, steps.drop_last());
        match steps.last() {
            BufferedStep::Feed(polled) => before.fed(polled),
            BufferedStep::Wait => before,
            BufferedStep::Advance => before.advanced(),
        }
    }
}

/// The handles of the tasks that came from the source in the course of `steps`, in order.
pub open spec fn buffered_fed<T, P, A>(steps: Seq<BufferedStep<T, P, A>>) -> Seq<JoinView<T, P, A>>
    decreases steps.len(),
{
    if steps.len() == 0 {
        Seq::empty()
    } else {
        let before = buffered_fed(steps.drop_last());
        match steps.last() {
            BufferedStep::Feed(Poll::Ready(Some(handle))) => before.push(handle),
            _ => before,
        }
    }
}

/// The handles of the tasks that gave what the stream gave in the course of `steps`, in order.
pub open spec fn buffered_given<T, P, A>(
    limit: nat,
    steps: Seq<BufferedStep<T, P, A>>,
) -> Seq<JoinView<T, P, A>>
    decreases steps.len(),
{
    if steps.len() == 0 {
        Seq::empty()
    } else {
        let before = buffered_given(limit, steps.drop_last());
        match steps.last() {
            BufferedStep::Advance => before.push(buffered_run(limit, steps.drop_last()).queue[0]),
            _ => before,
        }
    }
}

/// The stream takes the tasks in the order in which they came from the source, each exactly once,
/// whatever order they complete in: what it has taken, followed by what is still buffered, is what
/// came. Never are more tasks buffered than the limit allows.
pub proof fn law_tasks_in_order<T, P, A>(limit: nat, steps: Seq<BufferedStep<T, P, A>>)
    requires
        buffered_possible(limit, steps),
    ensures
        buffered_given(limit, steps).len() <= buffered_fed(steps).len(),
        buffered_given(limit, steps) =~= buffered_fed(steps).take(
            buffered_given(limit, steps).len() as int,
        ),
        buffered_run(limit, steps).queue =~= buffered_fed(steps).skip(
            buffered_given(limit, steps).len() as int,
        ),
        buffered_run(limit, steps).within_limit(),
        buffered_run(limit, steps).limit == limit,
    decreases steps.len(),
{
    if steps.len() > 0 {
        law_tasks_in_order(limit, steps.drop_last());
    }
}

/// The stream gives the outputs of the futures in the same order as the underlying stream, none
/// skipped, repeated or reordered: the first that it gives is what the first future from the source
/// came to, and so on.
///
/// `items` is what [`Buffered::poll_next`] gave in the course of `steps`, in order.
pub proof fn law_outputs_in_order<T, P, A>(
    limit: nat,
    steps: Seq<BufferedStep<T, P, A>>,
    items: Seq<StreamPoll<T, P>>,
)
    requires
        buffered_possible(limit, steps),
        items.len() == buffered_given(limit, steps).len(),
        forall|i: int|
            0 <= i < items.len() ==> #[trigger] items[i] == item_of(
                joined(buffered_given(limit, steps)[i].receiver.future@),
            ),
    ensures
        items.len() <= buffered_fed(steps).len(),
        forall|i: int|
            0 <= i < items.len() ==> #[trigger] items[i] == item_of(
                joined(buffered_fed(steps)[i].receiver.future@),
            ),
{
    law_tasks_in_order(limit, steps);
}

/// The panic of a future is raised when its output would have been returned, with the same payload
/// and not earlier: after what all futures before it came to, and before what the next one comes
/// to. Nothing else is lost for it.
///
/// `items` is what [`Buffered::poll_next`] gave in the course of `steps`, in order.
pub proof fn law_panic_comes_in_its_place<T, P, A>(
    limit: nat,
    steps: Seq<BufferedStep<T, P, A>>,
    items: Seq<StreamPoll<T, P>>,
    at: int,
    payload: P,
)
    requires
        buffered_possible(limit, steps),
        items.len() == buffered_given(limit, steps).len(),
        forall|i: int|
            0 <= i < items.len() ==> #[trigger] items[i] == item_of(
                joined(buffered_given(limit, steps)[i].receiver.future@),
            ),
        0 <= at < buffered_fed(steps).len(),
        joined(buffered_fed(steps)[at].receiver.future@) == Err::<T, Option<P>>(Some(payload)),
    ensures
        at < items.len() ==> items[at] == StreamPoll::<T, P>::Panic(payload),
        forall|i: int|
            0 <= i < items.len() && joined(buffered_fed(steps)[i].receiver.future@) is Ok
                ==> #[trigger] items[i] == StreamPoll::<T, P>::Item(
                joined(buffered_fed(steps)[i].receiver.future@)->Ok_0,
            ),
{
    law_outputs_in_order(limit, steps, items);
}

/// The stream ends exactly when the source has ended and the outputs of all its futures were given.
pub proof fn law_stream_ends_after_all_outputs<T, P, A>(
    limit: nat,
    steps: Seq<BufferedStep<T, P, A>>,
)
    requires
        buffered_possible(limit, steps),
    ensures
        buffered_run(limit, steps).queue.len() == 0 <==> buffered_given(limit, steps).len()
            == buffered_fed(steps).len(),
        !buffered_run(limit, steps).open <==> exists|i: int|
            0 <= i < steps.len() && #[trigger] steps[i] == BufferedStep::<T, P, A>::Feed(
                Poll::Ready(None),
            ),
    decreases steps.len(),
{
    law_tasks_in_order(limit, steps);
    if steps.len() > 0 {
        let rest = steps.drop_last();
        law_stream_ends_after_all_outputs(limit, rest);
        assert(forall|i: int| 0 <= i < rest.len() ==> #[trigger] rest[i] == steps[i]);
        let ended = BufferedStep::<T, P, A>::Feed(Poll::Ready(None));
        assert(steps[steps.len() - 1] == steps.last());
        if exists|i: int| 0 <= i < steps.len() && #[trigger] steps[i] == ended {
            let i = choose|i: int| 0 <= i < steps.len() && #[trigger] steps[i] == ended;
            if i < rest.len() {
                assert(rest[i] == ended);
            }
        }
    }
}

/// To drop a stream leaves no panic unseen: if a task that it still had to tell of had panicked, and
/// had sent that, then the scope has a panic recorded afterwards, which is one of these unless there
/// was one before.
///
/// `told` is what the handles of these tasks would have told.
pub proof fn law_dropped_stream_records_its_panics<F, T, P, W>(
    scope: ScopeView<F, P, W>,
    told: Seq<Result<Result<T, P>, oneshot::Canceled>>,
    at: int,
    payload: P,
)
    requires
        0 <= at < told.len(),
        told[at] == Ok::<Result<T, P>, oneshot::Canceled>(Err(payload)),
    ensures
        unseen_panics(told).contains(payload),
        scope.with_panics(unseen_panics(told)).panic is Some,
        scope.panic is None ==> unseen_panics(told).contains(
            scope.with_panics(unseen_panics(told)).panic.unwrap(),
        ),
{
    lemma_unseen_panic(told, at);
    let all = unseen_panics(told);
    law_first_panic_is_kept(scope, all);
    assert(all.contains(all[0]));
}

/// What is fed while a source always has a future ready, which runs as one of `tasks`.
pub open spec fn eager_feeds<T, P, A>(tasks: Seq<JoinView<T, P, A>>) -> Seq<BufferedStep<T, P, A>> {
    Seq::new(tasks.len(), |i: int| BufferedStep::Feed(Poll::Ready(Some(tasks[i]))))
}

/// The window is filled: a source that always has a future ready is asked for one after the other
/// until exactly `limit` tasks are buffered, before any is given, so that these run concurrently.
pub proof fn law_window_is_filled<T, P, A>(limit: nat, tasks: Seq<JoinView<T, P, A>>)
    requires
        tasks.len() <= limit,
    ensures
        buffered_possible(limit, eager_feeds(tasks)),
        buffered_run(limit, eager_feeds(tasks)).queue =~= tasks,
        buffered_run(limit, eager_feeds(tasks)).open,
        buffered_run(limit, eager_feeds(tasks)).limit == limit,
        buffered_run(limit, eager_feeds(tasks)).wants_more() <==> tasks.len() < limit,
    decreases tasks.len(),
{
    let steps = eager_feeds(tasks);
    if tasks.len() > 0 {
        law_window_is_filled(limit, tasks.drop_last());
        assert(steps.drop_last() =~= eager_feeds(tasks.drop_last()));
        assert(tasks.drop_last().push(tasks.last()) =~= tasks);
    }
}

/// The source is asked for more as long as it has not ended and fewer than `limit` tasks are
/// buffered, and only then; this holds in every state that the stream can come to, so that a task
/// that is given makes room for another one.
pub proof fn law_source_is_asked_while_there_is_room<T, P, A>(
    limit: nat,
    steps: Seq<BufferedStep<T, P, A>>,
)
    requires
        buffered_possible(limit, steps),
    ensures
        buffered_run(limit, steps).wants_more() <==> buffered_run(limit, steps).open
            && buffered_fed(steps).len() - buffered_given(limit, steps).len() < limit,
{
    law_tasks_in_order(limit, steps);
}

/// What each use of the stream does to its tasks, and that it leaves the rest as it was.
pub proof fn law_buffer_changes_at_its_ends_only<T, P, A>(
    view: BufferedView<T, P, A>,
    task: JoinView<T, P, A>,
    limit: nat,
)
    ensures
        view.wants_more() <==> view.open && view.queue.len() < view.limit,
        view.within_limit() <==> view.queue.len() <= view.limit,
        BufferedView::<T, P, A>::empty(limit).queue.len() == 0,
        BufferedView::<T, P, A>::empty(limit).open,
        BufferedView::<T, P, A>::empty(limit).limit == limit,
        view.fed(Poll::Ready(Some(task))).queue =~= view.queue.push(task),
        view.fed(Poll::Ready(Some(task))).open == view.open,
        view.fed(Poll::Ready(Some(task))).limit == view.limit,
        view.fed(Poll::Ready(None)).queue == view.queue,
        !view.fed(Poll::Ready(None)).open,
        view.fed(Poll::Ready(None)).limit == view.limit,
        view.fed(Poll::Pending) == view,
        view.queue.len() > 0 ==> seq![view.queue[0]] + view.advanced().queue =~= view.queue,
        view.advanced().open == view.open,
        view.advanced().limit == view.limit,
        view.cancelled().queue.len() == 0,
        view.cancelled().open == view.open,
        view.cancelled().limit == view.limit,
{
}

/// What is fed is the very handle that the source's future runs with.
pub proof fn law_fed_is_what_the_source_gave<T, P, A>(handle: JoinHandle<T, P, A>)
    ensures
        fed_view(Poll::Ready(Some(handle))) == Poll::Ready(Some(handle@)),
        fed_view(Poll::<Option<JoinHandle<T, P, A>>>::Ready(None)) == Poll::Ready(
            None::<JoinView<T, P, A>>,
        ),
        fed_view(Poll::<Option<JoinHandle<T, P, A>>>::Pending) == Poll::<
            Option<JoinView<T, P, A>>,
        >::Pending,
{
}

} // verus!
