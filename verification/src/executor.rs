//! The core executor used to drive a scope.

use crate::outside::{
    clear_set, fresh, held, new_set, polled_once, push_to_set, tasks_of, SetView, Task,
};
use crate::util::uncontended::Uncontended;
use crate::util::waker::WakerSlot;
use futures_util::stream::FuturesUnordered;
use std::collections::VecDeque;
use std::task::Poll;
use vstd::multiset::Multiset;
use vstd::prelude::*;

verus! {

/// What an [`Executor`] holds. `F` is a task, `W` wakes the task that polls the
/// executor.
#[verifier::ext_equal]
pub struct ExecutorView<F, W> {
    /// The tasks that are being run, or `None` while they are lent out to be polled.
    pub tasks: Option<SetView<F>>,
    /// The tasks that were spawned and not yet added to those that are being run.
    pub queue: Seq<F>,
    /// Who to wake when a task is spawned.
    pub waker: Option<W>,
}

impl<F, W> ExecutorView<F, W> {
    /// An executor without tasks.
    pub open spec fn empty() -> Self {
        ExecutorView { tasks: Some(SetView::empty()), queue: Seq::empty(), waker: None }
    }

    /// The tasks are lent out to be polled.
    pub open spec fn is_polling(self) -> bool {
        self.tasks is None
    }

    /// After `future` was spawned.
    pub open spec fn spawned(self, future: F) -> Self {
        ExecutorView { queue: self.queue.push(future), waker: None, ..self }
    }

    /// After `future` was added to the tasks that are being run.
    pub open spec fn spawned_direct(self, future: F) -> Self {
        ExecutorView { tasks: Some(self.tasks.unwrap().with(future)), ..self }
    }

    /// After all tasks were dropped.
    pub open spec fn cleared(self) -> Self {
        ExecutorView { tasks: Some(SetView::empty()), queue: Seq::empty(), ..self }
    }

    /// After the tasks were lent out, to be polled by the task that `waker` wakes.
    pub open spec fn started(self, waker: W) -> Self {
        ExecutorView { tasks: None, waker: Some(waker), ..self }
    }

    /// After the tasks came back, where `left` are those that have not completed: the
    /// spawned tasks join them.
    pub open spec fn finished(self, left: SetView<F>) -> Self {
        ExecutorView { tasks: Some(left.with_all(self.queue)), queue: Seq::empty(), ..self }
    }
}

/// What a poll of the executor comes to, and whether the polling task has to be woken
/// again at once.
///
/// `polled` is what the set of tasks gave: one completed task, no completed task, or
/// no task at all. `more` tells whether tasks were spawned since they were last added.
/// Only an executor that has neither is ready.
pub open spec fn poll_result(polled: Poll<Option<()>>, more: bool) -> (Poll<()>, bool) {
    let ready = !more && polled matches Poll::Ready(None);
    let again = more || polled matches Poll::Ready(Some(_));
    (
        if ready {
            Poll::Ready(())
        } else {
            Poll::Pending
        },
        again,
    )
}

/// The core executor used to drive a scope.
///
/// This is mainly a wrapper around a [`FuturesUnordered`] with the addition of a queue
/// to hold onto newly spawned tasks before they get added onto the executor.
///
/// Polling takes two steps, since the tasks spawn others while they are polled, and may panic:
/// [`poll_start`](Executor::poll_start) lends out the tasks, which the caller polls while the
/// executor itself can be used by others, and [`poll_finish`](Executor::poll_finish) takes them
/// back and tells what to do next.
pub struct Executor<'env, W> {
    running: Uncontended<FuturesUnordered<Task<'env>>>,
    queue: VecDeque<Task<'env>>,
    waker: WakerSlot<W>,
}

impl<'env, W> View for Executor<'env, W> {
    type V = ExecutorView<Task<'env>, W>;

    closed spec fn view(&self) -> ExecutorView<Task<'env>, W> {
        ExecutorView {
            tasks: match self.running@ {
                Some(set) => Some(tasks_of(set)),
                None => None,
            },
            queue: self.queue@,
            waker: self.waker@,
        }
    }
}

impl<'env, W> Executor<'env, W> {
    /// An executor without tasks.
    pub fn new() -> (executor: Self)
        ensures
            executor@ == ExecutorView::<Task<'env>, W>::empty(),
    {
        Executor {
            running: Uncontended::new(new_set()),
            queue: VecDeque::new(),
            waker: WakerSlot::new(),
        }
    }

    /// Whether the tasks are lent out to be polled.
    pub fn is_polling(&self) -> (polling: bool)
        ensures
            polling == self@.is_polling(),
    {
        self.running.is_locked()
    }

    /// Spawn a new task onto the executor.
    ///
    /// This puts it into a queue which will be drained later, once polling is done. The
    /// caller has to wake the returned waker.
    pub fn spawn(&mut self, future: Task<'env>) -> (waker: Option<W>)
        ensures
            final(self)@ == old(self)@.spawned(future),
            waker == old(self)@.waker,
    {
        self.queue.push_back(future);
        self.waker.take()
    }

    /// Spawn a new task directly onto the executor.
    ///
    /// The tasks must not be lent out.
    pub fn spawn_direct(&mut self, future: Task<'env>)
        requires
            !old(self)@.is_polling(),
        ensures
            final(self)@ == old(self)@.spawned_direct(future),
    {
        let mut set = self.running.lock();
        push_to_set(&mut set, future);
        self.running.unlock(set);
    }

    /// Clear all tasks from the executor, those that wait in the queue included.
    ///
    /// The tasks must not be lent out.
    pub fn clear(&mut self)
        requires
            !old(self)@.is_polling(),
        ensures
            final(self)@ == old(self)@.cleared(),
    {
        let mut set = self.running.lock();
        clear_set(&mut set);
        self.running.unlock(set);
        self.queue.clear();
    }

    /// Begin to poll the executor on behalf of the task that `waker` wakes.
    ///
    /// The returned tasks are to be polled once and handed to
    /// [`poll_finish`](Executor::poll_finish). They must not be lent out already.
    pub fn poll_start(&mut self, waker: W) -> (set: FuturesUnordered<Task<'env>>)
        requires
            !old(self)@.is_polling(),
        ensures
            old(self)@.tasks == Some(tasks_of(set)),
            final(self)@ == old(self)@.started(waker),
    {
        self.waker.register(waker);
        self.running.lock()
    }

    /// Finish to poll the executor: `polled` is what polling its tasks gave, and `set`
    /// holds those that have not completed.
    ///
    /// The executor is ready once it has no tasks and none were spawned. Where the flag
    /// beside the result is set, the caller has to wake the polling task at once.
    ///
    /// The tasks are not polled in a loop, because that would result in them being
    /// polled multiple times per top-level poll, which can easily lead to exponential
    /// blowup once scopes are nested.
    pub fn poll_finish(
        &mut self,
        set: FuturesUnordered<Task<'env>>,
        polled: Poll<Option<()>>,
    ) -> (result: (Poll<()>, bool))
        requires
            old(self)@.is_polling(),
        ensures
            final(self)@ == old(self)@.finished(tasks_of(set)),
            final(self)@.queue.len() == 0,
            final(self)@.tasks matches Some(tasks) && tasks.held =~= held(set).add(
                old(self)@.queue.to_multiset(),
            ),
            result == poll_result(polled, old(self)@.queue.len() > 0),
    {
        let mut set = set;
        let more = self.queue.len() > 0;
        let ghost given = tasks_of(set);
        let ghost queued = self.queue@;
        assert(queued.take(0).to_multiset() =~= Multiset::<Task<'env>>::empty()) by {
            broadcast use vstd::seq_lib::group_to_multiset_ensures;

            assert(queued.take(0) =~= Seq::<Task<'env>>::empty());
        }
        let ghost mut moved: int = 0;
        while self.queue.len() > 0
            invariant
                0 <= moved <= queued.len(),
                self.queue@ == queued.skip(moved),
                held(set) =~= given.held.add(queued.take(moved).to_multiset()),
                fresh(set) == (given.fresh && moved == 0),
                self.running@ == old(self).running@,
                self.waker@ == old(self).waker@,
            decreases self.queue@.len(),
        {
            match self.queue.pop_front() {
                Some(future) => {
                    push_to_set(&mut set, future);
                    proof {
                        assert(queued.take(moved + 1) =~= queued.take(moved).push(future));
                        queued.take(moved).to_multiset_ensures();
                        moved = moved + 1;
                        assert(self.queue@ =~= queued.skip(moved));
                    }
                },
                None => {},
            }
        }
        assert(queued.take(moved) =~= queued);
        self.running.unlock(set);
        match polled {
            _ if more => (Poll::Pending, true),
            Poll::Ready(Some(())) => (Poll::Pending, true),
            Poll::Pending => (Poll::Pending, false),
            Poll::Ready(None) => (Poll::Ready(()), false),
        }
    }
}

/// One step in the life of an executor.
pub enum ExecutorStep<F, W> {
    /// [`Executor::spawn`].
    Spawn(F),
    /// [`Executor::spawn_direct`].
    SpawnDirect(F),
    /// [`Executor::clear`].
    Clear,
    /// [`Executor::poll_start`].
    Start(W),
    /// [`Executor::poll_finish`], with the tasks that are left and the one that completed, if one
    /// did; where none did, the flag tells whether the set of tasks answered that it holds none.
    Finish(SetView<F>, Option<F>, bool),
}

/// What polling a set of tasks gives.
pub open spec fn set_answer<F>(came: Option<F>, none: bool) -> Poll<Option<()>> {
    match came {
        Some(_) => Poll::Ready(Some(())),
        None => if none {
            Poll::Ready(None)
        } else {
            Poll::Pending
        },
    }
}

/// An executor, and the tasks that are lent out while it is polled.
#[verifier::ext_equal]
pub struct ExecutorRun<F, W> {
    /// What the executor holds.
    pub executor: ExecutorView<F, W>,
    /// The tasks that are lent out, while the executor is being polled.
    pub lent: SetView<F>,
}

impl<F, W> ExecutorRun<F, W> {
    /// Whether `step` can be made now. What is handed to [`Executor::poll_finish`] is what polling
    /// the tasks once has led to that were lent out.
    pub open spec fn allows(self, step: ExecutorStep<F, W>) -> bool {
        match step {
            ExecutorStep::Spawn(_) => true,
            ExecutorStep::SpawnDirect(_) | ExecutorStep::Clear | ExecutorStep::Start(_) => {
                !self.executor.is_polling()
            },
            ExecutorStep::Finish(left, came, none) => {
                &&& self.executor.is_polling()
                &&& polled_once(self.lent, left, came, none)
            },
        }
    }

    /// What `step` leads to.
    pub open spec fn after(self, step: ExecutorStep<F, W>) -> Self {
        match step {
            ExecutorStep::Spawn(future) => ExecutorRun {
                executor: self.executor.spawned(future),
                ..self
            },
            ExecutorStep::SpawnDirect(future) => ExecutorRun {
                executor: self.executor.spawned_direct(future),
                ..self
            },
            ExecutorStep::Clear => ExecutorRun { executor: self.executor.cleared(), ..self },
            ExecutorStep::Start(waker) => ExecutorRun {
                executor: self.executor.started(waker),
                lent: self.executor.tasks.unwrap(),
            },
            ExecutorStep::Finish(left, _, _) => ExecutorRun {
                executor: self.executor.finished(left),
                ..self
            },
        }
    }

    /// The tasks that the executor still has, or has lent out.
    pub open spec fn unfinished(self) -> Multiset<F> {
        let running = match self.executor.tasks {
            Some(tasks) => tasks,
            None => self.lent,
        };
        running.held.add(self.executor.queue.to_multiset())
    }

    /// Whether no task was added to those that are being run since the executor was made or
    /// cleared.
    pub open spec fn is_fresh(self) -> bool {
        match self.executor.tasks {
            Some(tasks) => tasks.fresh,
            None => self.lent.fresh,
        }
    }

    /// What `steps` lead to, beginning with an executor without tasks.
    pub open spec fn run(steps: Seq<ExecutorStep<F, W>>) -> Self
        decreases steps.len(),
    {
        if steps.len() == 0 {
            ExecutorRun { executor: ExecutorView::empty(), lent: SetView::empty() }
        } else {
            Self::run(steps.drop_last()).after(steps.last())
        }
    }

    /// Whether `steps` can be made one after the other, beginning with an executor
    /// without tasks.
    pub open spec fn possible(steps: Seq<ExecutorStep<F, W>>) -> bool
        decreases steps.len(),
    {
        steps.len() == 0 || {
            &&& Self::possible(steps.drop_last())
            &&& Self::run(steps.drop_last()).allows(steps.last())
        }
    }

    /// The tasks that `steps` spawn.
    pub open spec fn spawned(steps: Seq<ExecutorStep<F, W>>) -> Multiset<F>
        decreases steps.len(),
    {
        if steps.len() == 0 {
            Multiset::empty()
        } else {
            let before = Self::spawned(steps.drop_last());
            match steps.last() {
                ExecutorStep::Spawn(future) | ExecutorStep::SpawnDirect(future) => before.insert(
                    future,
                ),
                _ => before,
            }
        }
    }

    /// The tasks that complete in the course of `steps`.
    pub open spec fn completed(steps: Seq<ExecutorStep<F, W>>) -> Multiset<F>
        decreases steps.len(),
    {
        if steps.len() == 0 {
            Multiset::empty()
        } else {
            let before = Self::completed(steps.drop_last());
            match steps.last() {
                ExecutorStep::Finish(_, Some(future), _) => before.insert(future),
                _ => before,
            }
        }
    }

    /// The tasks that `steps` drop before they complete.
    pub open spec fn dropped(steps: Seq<ExecutorStep<F, W>>) -> Multiset<F>
        decreases steps.len(),
    {
        if steps.len() == 0 {
            Multiset::empty()
        } else {
            let before = Self::dropped(steps.drop_last());
            match steps.last() {
                ExecutorStep::Clear => before.add(Self::run(steps.drop_last()).unfinished()),
                _ => before,
            }
        }
    }

    /// What the poll comes to that ends with `steps` and then
    /// [`Finish(_, came, none)`](ExecutorStep::Finish).
    pub open spec fn result(
        steps: Seq<ExecutorStep<F, W>>,
        came: Option<F>,
        none: bool,
    ) -> (Poll<()>, bool) {
        poll_result(set_answer(came, none), Self::run(steps).executor.queue.len() > 0)
    }
}

/// No task is lost and none is run twice: at every moment, the tasks that were spawned are those
/// that have completed, those that were dropped when the executor was cleared, and those that the
/// executor still has.
pub proof fn law_every_task_is_kept_until_it_completes<F, W>(steps: Seq<ExecutorStep<F, W>>)
    requires
        ExecutorRun::possible(steps),
    ensures
        ExecutorRun::spawned(steps) =~= ExecutorRun::completed(steps).add(
            ExecutorRun::dropped(steps),
        ).add(ExecutorRun::run(steps).unfinished()),
    decreases steps.len(),
{
    broadcast use vstd::multiset::group_multiset_axioms;
    broadcast use vstd::seq_lib::group_to_multiset_ensures;

    if steps.len() > 0 {
        law_every_task_is_kept_until_it_completes(steps.drop_last());
        let before = ExecutorRun::run(steps.drop_last());
        before.executor.queue.to_multiset_ensures();
    }
}

/// The executor waits for all its tasks: a poll is ready only when every task that was ever
/// spawned has completed, other than those that were dropped when the executor was cleared; then
/// the executor had no task at the start of the poll, and has none at its end.
pub proof fn law_ready_when_all_tasks_completed<F, W>(
    steps: Seq<ExecutorStep<F, W>>,
    left: SetView<F>,
    came: Option<F>,
    none: bool,
)
    requires
        ExecutorRun::possible(steps.push(ExecutorStep::Finish(left, came, none))),
        ExecutorRun::result(steps, came, none).0 is Ready,
    ensures
        ExecutorRun::spawned(steps) =~= ExecutorRun::completed(steps).add(
            ExecutorRun::dropped(steps),
        ),
        ExecutorRun::run(steps).unfinished().len() == 0,
        ExecutorRun::run(
            steps.push(ExecutorStep::Finish(left, came, none)),
        ).unfinished().len() == 0,
{
    broadcast use vstd::multiset::group_multiset_axioms;
    broadcast use vstd::seq_lib::group_to_multiset_ensures;

    let all = steps.push(ExecutorStep::Finish(left, came, none));
    assert(all.drop_last() =~= steps);
    law_every_task_is_kept_until_it_completes(steps);
    ExecutorRun::run(steps).executor.queue.to_multiset_ensures();
}

/// Where nothing else goes on at the same time, so that a set of tasks that is empty answers just
/// that, a poll is ready if and only if the executor has no task. In particular it is pending when
/// the last task completes, and when a task waits in the queue.
pub proof fn law_ready_exactly_when_there_is_no_task<F, W>(
    steps: Seq<ExecutorStep<F, W>>,
    left: SetView<F>,
    came: Option<F>,
    none: bool,
)
    requires
        ExecutorRun::possible(steps.push(ExecutorStep::Finish(left, came, none))),
        ExecutorRun::run(steps).lent.held.len() == 0 ==> none,
    ensures
        ExecutorRun::result(steps, came, none).0 is Ready <==> ExecutorRun::run(
            steps,
        ).unfinished().len() == 0,
        came is Some ==> ExecutorRun::result(steps, came, none) == (Poll::<()>::Pending, true),
{
    broadcast use vstd::multiset::group_multiset_axioms;
    broadcast use vstd::seq_lib::group_to_multiset_ensures;

    let all = steps.push(ExecutorStep::Finish(left, came, none));
    assert(all.drop_last() =~= steps);
    ExecutorRun::run(steps).executor.queue.to_multiset_ensures();
    if ExecutorRun::result(steps, came, none).0 is Ready {
        law_ready_when_all_tasks_completed(steps, left, came, none);
    }
}

/// A poll of an executor that was just made or cleared, and to which nothing was spawned since, is
/// ready, and leaves it so.
pub proof fn law_executor_without_tasks_is_ready<F, W>(
    steps: Seq<ExecutorStep<F, W>>,
    left: SetView<F>,
    came: Option<F>,
    none: bool,
)
    requires
        ExecutorRun::possible(steps.push(ExecutorStep::Finish(left, came, none))),
        ExecutorRun::run(steps).is_fresh(),
        ExecutorRun::run(steps).executor.queue.len() == 0,
    ensures
        ExecutorRun::result(steps, came, none) == (Poll::Ready(()), false),
        ExecutorRun::run(steps.push(ExecutorStep::Finish(left, came, none))).is_fresh(),
{
    let all = steps.push(ExecutorStep::Finish(left, came, none));
    assert(all.drop_last() =~= steps);
}

/// An executor that was cleared has no task left, wherever the tasks were, is as if it was just
/// made, and keeps who is to be woken.
pub proof fn law_cleared_executor_has_no_task<F, W>(run: ExecutorRun<F, W>)
    requires
        run.allows(ExecutorStep::Clear),
    ensures
        run.after(ExecutorStep::Clear).unfinished().len() == 0,
        run.after(ExecutorStep::Clear).is_fresh(),
        run.after(ExecutorStep::Clear).executor.waker == run.executor.waker,
{
    broadcast use vstd::multiset::group_multiset_axioms;
    broadcast use vstd::seq_lib::group_to_multiset_ensures;

    Seq::<F>::empty().to_multiset_ensures();
}

/// A poll that is pending does not leave the executor forgotten: either the polling task
/// is to be woken at once, or the tasks were found pending, and wake it themselves.
pub proof fn law_pending_poll_is_woken_again(polled: Poll<Option<()>>, more: bool)
    requires
        poll_result(polled, more).0 is Pending,
    ensures
        poll_result(polled, more).1 || polled is Pending,
{
}

/// A task that is spawned while nothing else happens is not forgotten either: the waker
/// that the last poll left is handed out to be woken.
pub proof fn law_spawn_wakes_the_last_poll<F, W>(
    executor: ExecutorView<F, W>,
    waker: W,
    left: SetView<F>,
)
    requires
        !executor.is_polling(),
    ensures
        executor.started(waker).waker == Some(waker),
        executor.started(waker).finished(left).waker == Some(waker),
{
}

/// Spawned tasks make progress: after any poll the queue is empty, and the tasks that are run from
/// then on are those that the poll left together with all that were in the queue, so that the next
/// poll lends out each of them.
pub proof fn law_spawned_tasks_are_run_after_the_next_poll<F, W>(
    steps: Seq<ExecutorStep<F, W>>,
    left: SetView<F>,
    came: Option<F>,
    none: bool,
    waker: W,
)
    requires
        ExecutorRun::possible(steps.push(ExecutorStep::Finish(left, came, none))),
    ensures
        ({
            let queued = ExecutorRun::run(steps).executor.queue;
            let polled = ExecutorRun::run(steps.push(ExecutorStep::Finish(left, came, none)));
            let next = polled.after(ExecutorStep::Start(waker));
            &&& polled.executor.queue.len() == 0
            &&& polled.executor.tasks matches Some(tasks) && tasks.held =~= left.held.add(
                queued.to_multiset(),
            )
            &&& polled.allows(ExecutorStep::Start(waker))
            &&& next.lent.held =~= left.held.add(queued.to_multiset())
            &&& forall|i: int| 0 <= i < queued.len() ==> next.lent.held.contains(
                #[trigger] queued[i],
            )
        }),
{
    broadcast use vstd::multiset::group_multiset_axioms;
    broadcast use vstd::seq_lib::group_to_multiset_ensures;

    let all = steps.push(ExecutorStep::Finish(left, came, none));
    assert(all.drop_last() =~= steps);
    let queued = ExecutorRun::run(steps).executor.queue;
    queued.to_multiset_ensures();
    let next = ExecutorRun::run(all).after(ExecutorStep::Start(waker));
    assert forall|i: int| 0 <= i < queued.len() implies next.lent.held.contains(
        #[trigger] queued[i],
    ) by {
        assert(queued.contains(queued[i]));
        assert(queued.to_multiset().contains(queued[i]));
    }
}

/// What each use of an executor does to its tasks, its queue and its waker: a spawned task is the
/// last in the queue, one that is spawned directly is run at once, to begin a poll lends out exactly
/// what was run, and nothing else changes.
pub proof fn law_uses_change_what_they_are_for<F, W>(
    executor: ExecutorView<F, W>,
    future: F,
    waker: W,
    left: SetView<F>,
)
    ensures
        executor.is_polling() <==> executor.tasks is None,
        !ExecutorView::<F, W>::empty().is_polling(),
        ExecutorView::<F, W>::empty().tasks.unwrap().held.len() == 0,
        ExecutorView::<F, W>::empty().tasks.unwrap().fresh,
        ExecutorView::<F, W>::empty().queue.len() == 0,
        ExecutorView::<F, W>::empty().waker is None,
        executor.spawned(future).queue =~= executor.queue.push(future),
        executor.spawned(future).tasks == executor.tasks,
        executor.spawned(future).waker is None,
        executor.tasks is Some ==> {
            &&& executor.spawned_direct(future).tasks is Some
            &&& executor.spawned_direct(future).tasks.unwrap().held =~= executor.tasks.unwrap().held
                .insert(future)
            &&& !executor.spawned_direct(future).tasks.unwrap().fresh
        },
        executor.spawned_direct(future).queue == executor.queue,
        executor.spawned_direct(future).waker == executor.waker,
        executor.started(waker).tasks is None,
        executor.started(waker).queue == executor.queue,
        executor.started(waker).waker == Some(waker),
        executor.finished(left).tasks is Some,
        executor.finished(left).tasks.unwrap().held =~= left.held.add(executor.queue.to_multiset()),
        executor.finished(left).tasks.unwrap().fresh <==> left.fresh && executor.queue.len() == 0,
        executor.finished(left).queue.len() == 0,
        executor.finished(left).waker == executor.waker,
        executor.cleared().tasks is Some,
        executor.cleared().tasks.unwrap().held.len() == 0,
        executor.cleared().tasks.unwrap().fresh,
        executor.cleared().queue.len() == 0,
        executor.cleared().waker == executor.waker,
{
    broadcast use vstd::multiset::group_multiset_axioms;

}

/// A poll is ready exactly if the set of tasks answered that it holds none and nothing was spawned,
/// and has to be repeated at once exactly if a task completed or something was spawned.
pub proof fn law_poll_is_ready_exactly_if_nothing_is_left(polled: Poll<Option<()>>, more: bool)
    ensures
        poll_result(polled, more).0 is Ready <==> !more && polled is Ready && !(polled matches
            Poll::Ready(Some(_))),
        poll_result(polled, more).1 <==> more || polled matches Poll::Ready(Some(_)),
{
}

} // verus!
