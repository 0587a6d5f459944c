//! A collection of tasks that are run together.

use crate::error::{poll_outcome, JoinError};
use crate::executor::{
    law_ready_when_all_tasks_completed, poll_result, Executor, ExecutorRun, ExecutorStep,
    ExecutorView,
};
use crate::join::{joined, JoinHandle, JoinView};
use crate::outside::{tasks_of, SetView, Task};
use crate::wrapper::{law_panic_is_joined_or_recorded_once, told, ChannelEnd, TaskRun, TaskStep};
use futures_util::stream::FuturesUnordered;
use std::task::{Context, Poll};
use vstd::future::FutureAdditionalSpecFns;
use vstd::prelude::*;

verus! {

/// What a [`ScopeExecutor`] holds.
#[verifier::ext_equal]
pub struct ScopeView<F, P, W> {
    /// The tasks.
    pub executor: ExecutorView<F, W>,
    /// The first panic of a task that nobody has handled.
    pub panic: Option<P>,
}

impl<F, P, W> ScopeView<F, P, W> {
    /// After `payload` was recorded as an unhandled panic, if there is one: the first
    /// panic is kept.
    pub open spec fn with_panic(self, payload: Option<P>) -> Self {
        ScopeView {
            panic: if self.panic is Some {
                self.panic
            } else {
                payload
            },
            ..self
        }
    }

    /// After all of `payloads` were recorded as unhandled panics, one after the other.
    pub open spec fn with_panics(self, payloads: Seq<P>) -> Self
        decreases payloads.len(),
    {
        if payloads.len() == 0 {
            self
        } else {
            self.with_panics(payloads.drop_last()).with_panic(Some(payloads.last()))
        }
    }
}

/// The state that the tasks of a scope share: the executor that runs them, and the panic
/// that nobody has handled.
pub struct ScopeExecutor<'env, P, W> {
    executor: Executor<'env, W>,
    panic: Option<P>,
}

impl<'env, P, W> View for ScopeExecutor<'env, P, W> {
    type V = ScopeView<Task<'env>, P, W>;

    closed spec fn view(&self) -> ScopeView<Task<'env>, P, W> {
        ScopeView { executor: self.executor@, panic: self.panic }
    }
}

impl<'env, P, W> ScopeExecutor<'env, P, W> {
    /// The state of a scope without tasks.
    pub fn new() -> (scope: Self)
        ensures
            scope@.executor == ExecutorView::<Task<'env>, W>::empty(),
            scope@.panic is None,
    {
        ScopeExecutor { executor: Executor::new(), panic: None }
    }

    /// Take out the panic that nobody has handled.
    pub fn unhandled_panic(&mut self) -> (payload: Option<P>)
        ensures
            payload == old(self)@.panic,
            final(self)@.panic is None,
            final(self)@.executor == old(self)@.executor,
    {
        self.panic.take()
    }

    /// Record a panic that nobody has handled. Only the first one is kept.
    pub fn set_unhandled_panic(&mut self, payload: P)
        ensures
            final(self)@ == old(self)@.with_panic(Some(payload)),
    {
        if self.panic.is_none() {
            self.panic = Some(payload);
        }
    }

    /// Whether the tasks are lent out to be polled.
    pub fn is_polling(&self) -> (polling: bool)
        ensures
            polling == self@.executor.is_polling(),
    {
        self.executor.is_polling()
    }

    /// Run a new task; see [`Executor::spawn_direct`].
    pub fn spawn_direct(&mut self, future: Task<'env>)
        requires
            !old(self)@.executor.is_polling(),
        ensures
            final(self)@.executor == old(self)@.executor.spawned_direct(future),
            final(self)@.panic == old(self)@.panic,
    {
        self.executor.spawn_direct(future);
    }

    /// Spawn a new task; see [`Executor::spawn`].
    pub fn spawn(&mut self, future: Task<'env>) -> (waker: Option<W>)
        ensures
            final(self)@.executor == old(self)@.executor.spawned(future),
            final(self)@.panic == old(self)@.panic,
            waker == old(self)@.executor.waker,
    {
        self.executor.spawn(future)
    }

    /// Drop all tasks; see [`Executor::clear`].
    pub fn clear(&mut self)
        requires
            !old(self)@.executor.is_polling(),
        ensures
            final(self)@.executor == old(self)@.executor.cleared(),
            final(self)@.panic == old(self)@.panic,
    {
        self.executor.clear();
    }

    /// Begin to poll the tasks; see [`Executor::poll_start`].
    pub fn poll_start(&mut self, waker: W) -> (set: FuturesUnordered<Task<'env>>)
        requires
            !old(self)@.executor.is_polling(),
        ensures
            old(self)@.executor.tasks == Some(tasks_of(set)),
            final(self)@.executor == old(self)@.executor.started(waker),
            final(self)@.panic == old(self)@.panic,
    {
        self.executor.poll_start(waker)
    }

    /// Finish to poll the tasks; see [`Executor::poll_finish`].
    pub fn poll_finish(
        &mut self,
        set: FuturesUnordered<Task<'env>>,
        polled: Poll<Option<()>>,
    ) -> (result: (Poll<()>, bool))
        requires
            old(self)@.executor.is_polling(),
        ensures
            final(self)@.executor == old(self)@.executor.finished(tasks_of(set)),
            final(self)@.panic == old(self)@.panic,
            result == poll_result(polled, old(self)@.executor.queue.len() > 0),
    {
        self.executor.poll_finish(set, polled)
    }
}

/// What polling a scope comes to.
pub enum ScopePoll<T, P> {
    /// The scope has not completed.
    Pending,
    /// The scope has completed with the value of its main task.
    Ready(T),
    /// The scope panics with this payload.
    Panic(P),
    /// The main task went away without a result, which it never does by itself.
    Cancelled,
}

/// What a scope comes to, where `main` is what its main task came to and `panic` is the
/// panic of some other task that nobody has handled.
pub open spec fn resolved<T, P>(
    main: Poll<Result<T, Option<P>>>,
    panic: Option<P>,
) -> ScopePoll<T, P> {
    match (main, panic) {
        (Poll::Pending, _) => ScopePoll::Pending,
        (Poll::Ready(Err(Some(payload))), _) => ScopePoll::Panic(payload),
        (Poll::Ready(Err(None)), _) => ScopePoll::Cancelled,
        (Poll::Ready(Ok(_)), Some(payload)) => ScopePoll::Panic(payload),
        (Poll::Ready(Ok(value)), None) => ScopePoll::Ready(value),
    }
}

/// Whether a scope has to wait for its tasks, where `executed` is what polling them came
/// to and `cancels` tells whether the tasks are dropped once the main task has completed.
pub open spec fn must_wait(executed: Poll<()>, cancels: bool) -> bool {
    executed is Pending && !cancels
}

/// A collection of tasks that are run together.
///
/// The tasks themselves are with the [`ScopeExecutor`], which they share with the scope;
/// it is handed to each method that needs it.
#[verifier::reject_recursive_types(T)]
#[verifier::reject_recursive_types(P)]
pub struct Scope<T, P, A> {
    main: JoinHandle<T, P, A>,
    cancel_remaining_tasks_on_exit: bool,
}

impl<T, P, A> Scope<T, P, A> {
    /// The handle to the main task.
    pub closed spec fn main_task(&self) -> JoinView<T, P, A> {
        self.main@
    }

    /// Whether the remaining tasks are dropped once the main task has completed.
    pub closed spec fn cancels(&self) -> bool {
        self.cancel_remaining_tasks_on_exit
    }

    /// The handle to the main task is well-formed.
    pub closed spec fn wf(&self) -> bool {
        self.main.wf()
    }

    /// Create a new scope from its main task, and begin to run that.
    pub fn new<'env, W>(
        executor: &mut ScopeExecutor<'env, P, W>,
        future: Task<'env>,
        main: JoinHandle<T, P, A>,
    ) -> (scope: Self)
        requires
            main.wf(),
            !old(executor)@.executor.is_polling(),
        ensures
            scope.wf(),
            scope.main_task() == main@,
            !scope.cancels(),
            final(executor)@.executor == old(executor)@.executor.spawned_direct(future),
            final(executor)@.panic == old(executor)@.panic,
    {
        executor.spawn_direct(future);
        Scope { main, cancel_remaining_tasks_on_exit: false }
    }

    /// Configure whether remaining tasks should be polled to completion after the main
    /// task exits or just dropped.
    ///
    /// By default, a scope remains in a pending state until all tasks within have been
    /// polled to completion. Setting this to `true` means that once the main task
    /// completes then all other tasks will be dropped without them being polled to
    /// completion.
    pub fn cancel_remaining_tasks_on_exit(&mut self, enabled: bool)
        ensures
            final(self).cancels() == enabled,
            final(self).main_task() == old(self).main_task(),
            final(self).wf() == old(self).wf(),
    {
        self.cancel_remaining_tasks_on_exit = enabled;
    }

    /// Whether the main task has given out its result.
    pub fn is_complete(&self) -> (complete: bool)
        requires
            self.wf(),
        ensures
            complete == self.main_task().completed(),
    {
        self.main.is_complete()
    }

    /// Poll the scope, where `executed` is what polling its tasks came to.
    ///
    /// The scope must not be polled again once the main task has given out its result. When the
    /// main task comes to its end is up to the task.
    pub fn poll<'env, W>(
        &mut self,
        executed: Poll<()>,
        executor: &mut ScopeExecutor<'env, P, W>,
        cx: &mut Context<'_>,
    ) -> (polled: ScopePoll<T, P>)
        requires
            old(self).wf(),
            !old(self).main_task().completed(),
        ensures
            final(self).wf(),
            final(self).cancels() == old(self).cancels(),
            final(executor)@.executor == old(executor)@.executor,
            must_wait(executed, old(self).cancels()) ==> polled is Pending,
            polled is Pending ==> {
                &&& final(self).main_task() == old(self).main_task()
                &&& final(executor)@ == old(executor)@
                &&& must_wait(executed, old(self).cancels())
                    || !old(self).main_task().receiver.closed
            },
            !(polled is Pending) ==> {
                let main = joined(old(self).main_task().receiver.future@);
                &&& polled == resolved(Poll::Ready(main), old(executor)@.panic)
                &&& final(self).main_task() == old(self).main_task().joined()
                &&& final(executor)@.panic == if main is Ok {
                    None
                } else {
                    old(executor)@.panic
                }
            },
    {
        match executed {
            Poll::Pending if !self.cancel_remaining_tasks_on_exit => return ScopePoll::Pending,
            _ => (),
        }
        let main = self.main.poll(cx);
        Self::resolve(main, executor)
    }

    /// Tell what the scope comes to, where `main` is what its main task came to.
    ///
    /// Only if the main task has given its value, the unhandled panic is taken.
    pub fn resolve<'env, W>(
        main: Poll<Result<T, JoinError<P>>>,
        executor: &mut ScopeExecutor<'env, P, W>,
    ) -> (polled: ScopePoll<T, P>)
        ensures
            polled == resolved(poll_outcome(main), old(executor)@.panic),
            final(executor)@.executor == old(executor)@.executor,
            final(executor)@.panic == if main matches Poll::Ready(Ok(_)) {
                None
            } else {
                old(executor)@.panic
            },
    {
        match main {
            Poll::Pending => ScopePoll::Pending,
            Poll::Ready(Ok(value)) => match executor.unhandled_panic() {
                Some(payload) => ScopePoll::Panic(payload),
                None => ScopePoll::Ready(value),
            },
            Poll::Ready(Err(error)) => match error.try_into_panic() {
                Ok(payload) => ScopePoll::Panic(payload),
                Err(_) => ScopePoll::Cancelled,
            },
        }
    }
}

/// By default a scope waits for all its tasks: it does not come to an end, by whatever its
/// main task came to, before every task that was ever spawned in it has completed, other than
/// those that were dropped when its executor was cleared.
///
/// `steps` is what has happened in the scope, up to the poll of its tasks that left the tasks
/// `left`, where `came` is the one that completed, if one did, and `none` tells whether there was
/// none.
pub proof fn law_scope_waits_for_all_tasks<F, W>(
    steps: Seq<ExecutorStep<F, W>>,
    left: SetView<F>,
    came: Option<F>,
    none: bool,
)
    requires
        ExecutorRun::possible(steps.push(ExecutorStep::Finish(left, came, none))),
    ensures
        !must_wait(ExecutorRun::result(steps, came, none).0, false) ==> {
            &&& ExecutorRun::spawned(steps) == ExecutorRun::completed(steps).add(
                ExecutorRun::dropped(steps),
            )
            &&& ExecutorRun::run(
                steps.push(ExecutorStep::Finish(left, came, none)),
            ).unfinished().len() == 0
        },
{
    if !must_wait(ExecutorRun::result(steps, came, none).0, false) {
        law_ready_when_all_tasks_completed(steps, left, came, none);
    }
}

/// A scope that drops its remaining tasks never waits for them: it comes to an end as soon
/// as its main task does.
pub proof fn law_cancelling_scope_waits_for_main_only<T, P>(
    executed: Poll<()>,
    main: Poll<Result<T, Option<P>>>,
    panic: Option<P>,
)
    ensures
        !must_wait(executed, true),
        resolved(main, panic) is Pending <==> main is Pending,
{
}

/// A scope panics with the payload of its main task, if that panicked; otherwise with the
/// panic of another task, if one was left unhandled; otherwise it gives the value of its
/// main task.
pub proof fn law_panic_payload_precedence<T, P>(payload: P, value: T, panic: Option<P>)
    ensures
        resolved(Poll::Ready(Err::<T, Option<P>>(Some(payload))), panic) == ScopePoll::<
            T,
            P,
        >::Panic(payload),
        resolved(Poll::Ready(Ok::<T, Option<P>>(value)), panic) == match panic {
            Some(other) => ScopePoll::<T, P>::Panic(other),
            None => ScopePoll::<T, P>::Ready(value),
        },
{
}

/// A scope in which `payloads` were recorded as unhandled panics keeps exactly one of them,
/// the first; it keeps none only if none was recorded.
pub proof fn law_unhandled_panic_is_one_of_those_recorded<F, P, W>(
    scope: ScopeView<F, P, W>,
    payloads: Seq<P>,
)
    requires
        scope.panic is None,
    ensures
        scope.with_panics(payloads).panic is None <==> payloads.len() == 0,
        payloads.len() > 0 ==> scope.with_panics(payloads).panic == Some(payloads[0]),
        scope.with_panics(payloads).executor == scope.executor,
{
    law_first_panic_is_kept(scope, payloads);
}

/// The first panic that is recorded is kept, and nothing that is recorded later takes its place.
pub proof fn law_first_panic_is_kept<F, P, W>(scope: ScopeView<F, P, W>, payloads: Seq<P>)
    ensures
        scope.with_panics(payloads).panic == if scope.panic is Some {
            scope.panic
        } else if payloads.len() > 0 {
            Some(payloads[0])
        } else {
            None
        },
        scope.with_panics(payloads).executor == scope.executor,
    decreases payloads.len(),
{
    if payloads.len() > 0 {
        law_first_panic_is_kept(scope, payloads.drop_last());
    }
}

/// A task of a scope: what comes of its channel, and all that has happened to it and its handle by
/// the time that the scope ends.
#[verifier::reject_recursive_types(T)]
#[verifier::reject_recursive_types(P)]
pub struct TaskHistory<T, P> {
    /// What comes of the channel between the task and its handle.
    pub end: ChannelEnd<Result<T, P>>,
    /// All that has happened.
    pub steps: Seq<TaskStep<T, P>>,
}

impl<T, P> TaskHistory<T, P> {
    /// What the history led to.
    pub open spec fn run(self) -> TaskRun<T, P> {
        TaskRun::run(self.end, self.steps)
    }

    /// The history is possible.
    pub open spec fn wf(self) -> bool {
        TaskRun::possible(self.end, self.steps)
    }
}

/// All panics that the tasks left recorded as unhandled.
pub open spec fn all_recorded<T, P>(tasks: Seq<TaskHistory<T, P>>) -> Seq<P>
    decreases tasks.len(),
{
    if tasks.len() == 0 {
        Seq::empty()
    } else {
        all_recorded(tasks.drop_last()) + tasks.last().run().recorded
    }
}

/// A scope panics if and only if its main task panicked, or some other task did whose handle was
/// dropped by then without having told anybody. It does so with the payload of the main task, if
/// that panicked, and otherwise with that of one of those others. A panic that was awaited raises
/// nothing, nor does one whose handle is still alive, nor a task that was aborted or dropped
/// unfinished. A scope whose main task came to an end never finds it cancelled, and gives its value
/// if it does not panic.
///
/// `main` is what the future of the main task gave, and `tasks` are the other tasks.
pub proof fn law_scope_panics_if_and_only_if_a_panic_was_not_handled<F, T, U, P, W>(
    scope: ScopeView<F, P, W>,
    main: Result<T, P>,
    tasks: Seq<TaskHistory<U, P>>,
)
    requires
        scope.panic is None,
        forall|i: int| 0 <= i < tasks.len() ==> (#[trigger] tasks[i]).wf(),
    ensures
        ({
            let polled = resolved(
                Poll::Ready(told(ChannelEnd::Delivered(main))),
                scope.with_panics(all_recorded(tasks)).panic,
            );
            &&& polled is Panic <==> main is Err || exists|i: int|
                0 <= i < tasks.len() && (#[trigger] tasks[i]).run().unhandled()
            &&& match (main, polled) {
                (Err(payload), _) => polled == ScopePoll::<T, P>::Panic(payload),
                (Ok(value), ScopePoll::Panic(payload)) => exists|i: int|
                    {
                        &&& 0 <= i < tasks.len()
                        &&& (#[trigger] tasks[i]).run().gave == Some(Err::<U, P>(payload))
                        &&& tasks[i].run().unhandled()
                    },
                (Ok(value), _) => polled == ScopePoll::<T, P>::Ready(value),
            }
        }),
{
    lemma_all_recorded(tasks);
    law_unhandled_panic_is_one_of_those_recorded(scope, all_recorded(tasks));
    let recorded = all_recorded(tasks);
    if recorded.len() > 0 {
        assert(recorded.contains(recorded[0]));
        let i = choose|i: int|
            0 <= i < tasks.len() && (#[trigger] tasks[i]).run().gave == Some(
                Err::<U, P>(recorded[0]),
            ) && tasks[i].run().unhandled();
        assert(tasks[i].run().gave == Some(Err::<U, P>(recorded[0])));
    }
}

/// What the tasks left recorded are the panics whose handles were dropped without having told
/// anybody.
proof fn lemma_all_recorded<T, P>(tasks: Seq<TaskHistory<T, P>>)
    requires
        forall|i: int| 0 <= i < tasks.len() ==> (#[trigger] tasks[i]).wf(),
    ensures
        all_recorded(tasks).len() > 0 <==> exists|i: int|
            0 <= i < tasks.len() && (#[trigger] tasks[i]).run().unhandled(),
        forall|payload: P| #[trigger]
            all_recorded(tasks).contains(payload) ==> exists|i: int|
                0 <= i < tasks.len() && (#[trigger] tasks[i]).run().gave == Some(
                    Err::<T, P>(payload),
                ) && tasks[i].run().unhandled(),
    decreases tasks.len(),
{
    if tasks.len() > 0 {
        let rest = tasks.drop_last();
        let last = tasks.last();
        assert(tasks[tasks.len() - 1] == last);
        assert forall|i: int| 0 <= i < rest.len() implies (#[trigger] rest[i]).wf() by {
            assert(rest[i] == tasks[i]);
        }
        lemma_all_recorded(rest);
        law_panic_is_joined_or_recorded_once(last.end, last.steps);
        let recorded = all_recorded(tasks);
        assert(recorded == all_recorded(rest) + last.run().recorded);
        if exists|i: int| 0 <= i < tasks.len() && (#[trigger] tasks[i]).run().unhandled() {
            let i = choose|i: int|
                0 <= i < tasks.len() && (#[trigger] tasks[i]).run().unhandled();
            if i < rest.len() {
                assert(rest[i].run().unhandled());
            }
        }
        if recorded.len() > 0 && all_recorded(rest).len() > 0 {
            let i = choose|i: int| 0 <= i < rest.len() && (#[trigger] rest[i]).run().unhandled();
            assert(tasks[i].run().unhandled());
        }
        assert forall|payload: P| #[trigger] recorded.contains(payload) implies exists|i: int|
            0 <= i < tasks.len() && (#[trigger] tasks[i]).run().gave == Some(
                Err::<T, P>(payload),
            ) && tasks[i].run().unhandled() by {
            let at = choose|at: int| 0 <= at < recorded.len() && recorded[at] == payload;
            if at < all_recorded(rest).len() {
                assert(all_recorded(rest)[at] == payload);
                assert(all_recorded(rest).contains(payload));
                let i = choose|i: int|
                    0 <= i < rest.len() && (#[trigger] rest[i]).run().gave == Some(
                        Err::<T, P>(payload),
                    ) && rest[i].run().unhandled();
                assert(tasks[i] == rest[i]);
            } else {
                assert(tasks[tasks.len() - 1].run().unhandled());
            }
        }
    }
}

/// Whether a scope waits, and what it comes to, for everything that its tasks can come to: it waits
/// exactly as long as tasks are left that it is to wait for, or the main task has not come to its
/// end, and finds the main task cancelled only if that went away without a result.
pub proof fn law_scope_ends_exactly_when_nothing_is_left<T, P>(
    executed: Poll<()>,
    cancels: bool,
    main: Poll<Result<T, Option<P>>>,
    panic: Option<P>,
)
    ensures
        executed is Ready ==> !must_wait(executed, cancels),
        executed is Pending ==> (must_wait(executed, cancels) <==> !cancels),
        resolved(main, panic) is Pending <==> main is Pending,
        resolved(main, panic) is Cancelled <==> main == Poll::Ready(Err::<T, Option<P>>(None)),
        resolved(main, panic) matches ScopePoll::Ready(value) ==> {
            &&& main == Poll::Ready(Ok::<T, Option<P>>(value))
            &&& panic is None
        },
        resolved(main, panic) matches ScopePoll::Panic(payload) ==> {
            ||| main == Poll::Ready(Err::<T, Option<P>>(Some(payload)))
            ||| main matches Poll::Ready(Ok(_)) && panic == Some(payload)
        },
{
}

/// To record a panic keeps the tasks as they are, and where there is none to record, everything.
pub proof fn law_recording_disturbs_nothing<F, P, W>(scope: ScopeView<F, P, W>, payload: P)
    ensures
        scope.with_panic(None) == scope,
        scope.with_panic(Some(payload)).executor == scope.executor,
        scope.panic is None ==> scope.with_panic(Some(payload)).panic == Some(payload),
        scope.panic is Some ==> scope.with_panic(Some(payload)).panic == scope.panic,
{
}

/// To record panics one after the other is to record them all, and to record none is to do nothing.
pub proof fn law_panics_are_recorded_one_by_one<F, P, W>(
    scope: ScopeView<F, P, W>,
    one: Seq<P>,
    other: Seq<P>,
    payload: P,
)
    ensures
        scope.with_panics(Seq::empty()) == scope,
        scope.with_panics(seq![payload]) == scope.with_panic(Some(payload)),
        scope.with_panics(one + other) == scope.with_panics(one).with_panics(other),
    decreases other.len(),
{
    reveal_with_fuel(ScopeView::with_panics, 2);
    assert(seq![payload].drop_last() =~= Seq::<P>::empty());
    if other.len() == 0 {
        assert(one + other =~= one);
    } else {
        assert((one + other).drop_last() =~= one + other.drop_last());
        law_panics_are_recorded_one_by_one(scope, one, other.drop_last(), payload);
    }
}

} // verus!
