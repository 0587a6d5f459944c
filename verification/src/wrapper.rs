//! What surrounds the future of a task: its result is sent to the task's handle, its
//! panics are caught, and it can be aborted.

use crate::join::{joined, JoinHandle};
use crate::outside::{channel, hang_up, SendHalf};
use crate::scope::ScopeExecutor;
use crate::util::waker::WakerSlot;
use futures_channel::oneshot;
use std::task::Poll;
use vstd::future::FutureAdditionalSpecFns;
use vstd::prelude::*;

verus! {

/// What a [`TaskAbortHandle`] holds.
#[verifier::ext_equal]
pub struct AbortView<W> {
    /// Whether the task was aborted.
    pub cancelled: bool,
    /// Whether the task has come to its end.
    pub finished: bool,
    /// Who to wake when the task is aborted.
    pub waker: Option<W>,
}

impl<W> AbortView<W> {
    /// After the task was aborted, which has no effect if it was aborted before.
    pub open spec fn aborted(self) -> Self {
        if self.cancelled {
            self
        } else {
            AbortView { cancelled: true, waker: None, ..self }
        }
    }

    /// After the task has come to its end.
    pub open spec fn ended(self) -> Self {
        AbortView { finished: true, ..self }
    }

    /// Who is woken if the task is aborted now.
    pub open spec fn on_abort(self) -> Option<W> {
        if self.cancelled {
            None
        } else {
            self.waker
        }
    }

    /// After the task was polled, which `waker` wakes.
    pub open spec fn registered(self, waker: W) -> Self {
        AbortView { waker: Some(waker), ..self }
    }
}

/// What a task and its handles share in order to abort it.
pub struct TaskAbortHandle<W> {
    waker: WakerSlot<W>,
    cancelled: bool,
    finished: bool,
}

impl<W> View for TaskAbortHandle<W> {
    type V = AbortView<W>;

    closed spec fn view(&self) -> AbortView<W> {
        AbortView {
            cancelled: self.cancelled,
            finished: self.finished,
            waker: self.waker@,
        }
    }
}

impl<W> TaskAbortHandle<W> {
    /// For a task that was not aborted and not polled yet.
    pub fn new() -> (handle: Self)
        ensures
            !handle@.cancelled,
            !handle@.finished,
            handle@.waker is None,
    {
        TaskAbortHandle { waker: WakerSlot::new(), cancelled: false, finished: false }
    }

    /// Record that the task has come to its end, so that there is nothing left to abort.
    pub fn finish(&mut self)
        ensures
            final(self)@ == old(self)@.ended(),
    {
        self.finished = true;
    }

    /// Whether the task has come to its end.
    pub fn is_finished(&self) -> (finished: bool)
        ensures
            finished == self@.finished,
    {
        self.finished
    }

    /// Abort the task. The caller has to wake the returned waker.
    ///
    /// If the task was already aborted then this does nothing: it was woken then.
    pub fn abort(&mut self) -> (waker: Option<W>)
        ensures
            final(self)@ == old(self)@.aborted(),
            waker == old(self)@.on_abort(),
    {
        if self.cancelled {
            return None;
        }
        self.cancelled = true;
        self.waker.take()
    }

    /// Register the waker of the task, which is being polled, and tell whether the task was
    /// aborted.
    pub fn register(&mut self, waker: W) -> (cancelled: bool)
        ensures
            final(self)@ == old(self)@.registered(waker),
            final(self)@.finished == old(self)@.finished,
            final(self)@.cancelled == old(self)@.cancelled,
            cancelled == old(self)@.cancelled,
    {
        self.waker.register(waker);
        self.cancelled
    }
}

/// What a task sends to its handle, where `polled` is what polling its future gave: `Ok`
/// if the future returned, `Err` with the payload if it panicked.
pub open spec fn message<T, P>(polled: Result<Poll<T>, P>) -> Option<Result<T, P>> {
    match polled {
        Ok(Poll::Pending) => None,
        Ok(Poll::Ready(value)) => Some(Ok(value)),
        Err(payload) => Some(Err(payload)),
    }
}

/// The panic that nobody has handled, where this is what came of sending a task's result to
/// its handle: the result comes back if the handle was dropped.
pub open spec fn undelivered_panic<T, P>(sent: Result<(), Result<T, P>>) -> Option<P> {
    match sent {
        Err(Err(payload)) => Some(payload),
        _ => None,
    }
}

/// The panic in `result`, if it is one.
pub open spec fn panic_of<T, P>(result: Result<T, P>) -> Option<P> {
    match result {
        Ok(_) => None,
        Err(payload) => Some(payload),
    }
}

/// The sending end of a task: what is left of it once the future itself is set aside.
///
/// Polling a task takes two steps: [`poll_start`](WrapFuture::poll_start) tells whether the
/// future is to be polled at all, and [`poll_finish`](WrapFuture::poll_finish) takes what
/// polling it gave.
#[verifier::reject_recursive_types(T)]
#[verifier::reject_recursive_types(P)]
pub struct WrapFuture<T, P> {
    result: Option<SendHalf<Result<T, P>>>,
}

impl<T, P> WrapFuture<T, P> {
    /// The way to the task's handle, as long as the task has neither completed nor been
    /// cancelled.
    pub closed spec fn sender(&self) -> Option<SendHalf<Result<T, P>>> {
        self.result
    }

    /// Whether the task has neither completed nor been cancelled.
    pub open spec fn is_live(&self) -> bool {
        self.sender() is Some
    }

    /// A new task and the handle to it, where `abort` gives the means to abort the task.
    ///
    /// What the task sends arrives at the handle.
    pub fn new<A>(abort: A) -> (task: (Self, JoinHandle<T, P, A>))
        ensures
            task.0.is_live(),
            task.1.wf(),
            task.1@.handle == abort,
            task.0.sender().unwrap().peer() == task.1@.receiver.future,
            !task.1@.receiver.closed,
            !task.1@.completed(),
    {
        let (sender, receiver) = channel();
        (WrapFuture { result: Some(sender) }, JoinHandle::new(abort, receiver))
    }

    /// Whether the task has neither completed nor been cancelled.
    pub fn can_finish(&self) -> (live: bool)
        ensures
            live == self.is_live(),
    {
        self.result.is_some()
    }

    /// Begin to poll the task, which `waker` wakes, and tell whether its future is to be
    /// polled.
    ///
    /// If it is not then the task was aborted: it is ready now, and its handle is told that no
    /// result will come.
    pub fn poll_start<W>(&mut self, handle: &mut TaskAbortHandle<W>, waker: W) -> (runs: bool)
        ensures
            runs == !old(handle)@.cancelled,
            runs ==> {
                &&& final(handle)@ == old(handle)@.registered(waker)
                &&& *final(self) == *old(self)
            },
            !runs ==> {
                &&& final(handle)@ == old(handle)@.registered(waker).ended()
                &&& !final(self).is_live()
                &&& old(self).is_live() ==> old(self).sender().unwrap().peer()@ is Err
            },
    {
        if handle.register(waker) {
            hang_up(&mut self.result);
            handle.finish();
            false
        } else {
            true
        }
    }

    /// Finish to poll the task: `polled` is what polling its future gave.
    ///
    /// The task must still be live if its future has come to an end. Then the result is sent
    /// to the handle, which tells it to whoever awaits it; or the handle does not take it, and was
    /// not awaited, and then a panic is recorded as unhandled with the scope. Whether the handle
    /// takes it is up to the holder of the handle.
    pub fn poll_finish<'env, W>(
        &mut self,
        polled: Result<Poll<T>, P>,
        scope: &mut ScopeExecutor<'env, P, W>,
    ) -> (result: Poll<()>)
        requires
            message(polled) is Some ==> old(self).is_live(),
        ensures
            result is Ready <==> message(polled) is Some,
            match message(polled) {
                None => {
                    &&& *final(self) == *old(self)
                    &&& final(scope)@ == old(scope)@
                },
                Some(sent) => {
                    let peer = old(self).sender().unwrap().peer();
                    &&& !final(self).is_live()
                    &&& {
                        ||| {
                            &&& peer@ == Ok::<Result<T, P>, oneshot::Canceled>(sent)
                            &&& final(scope)@ == old(scope)@
                        }
                        ||| {
                            &&& peer@ is Err
                            &&& !peer.awaited()
                            &&& final(scope)@ == old(scope)@.with_panic(panic_of(sent))
                        }
                    }
                },
            },
    {
        match self.finish(polled) {
            Some((sender, result)) => {
                let sent = sender.send(result);
                record_undelivered(sent, scope);
                Poll::Ready(())
            },
            None => Poll::Pending,
        }
    }

    /// What is to be sent now that polling the future gave `polled`, and where to: nothing
    /// while the future is pending.
    pub fn finish(
        &mut self,
        polled: Result<Poll<T>, P>,
    ) -> (send: Option<(SendHalf<Result<T, P>>, Result<T, P>)>)
        requires
            message(polled) is Some ==> old(self).is_live(),
        ensures
            match message(polled) {
                None => send is None && *final(self) == *old(self),
                Some(result) => {
                    &&& send matches Some((sender, sent)) && Some(sender) == old(self).sender()
                        && sent == result
                    &&& !final(self).is_live()
                },
            },
    {
        let result = match polled {
            Ok(Poll::Ready(value)) => Ok(value),
            Ok(Poll::Pending) => return None,
            Err(payload) => Err(payload),
        };
        match self.result.take() {
            Some(sender) => Some((sender, result)),
            None => None,
        }
    }
}

/// Record the panic that a task could not send to its handle.
pub fn record_undelivered<'env, T, P, W>(
    sent: Result<(), Result<T, P>>,
    scope: &mut ScopeExecutor<'env, P, W>,
)
    ensures
        final(scope)@ == old(scope)@.with_panic(undelivered_panic(sent)),
{
    if let Err(Err(payload)) = sent {
        scope.set_unhandled_panic(payload);
    }
}

/// What comes of the channel between a task and its handle.
///
/// The handle's half tells `Ok(message)` where the message is delivered, and an error otherwise.
pub enum ChannelEnd<M> {
    /// The message was sent, and the handle did not refuse it.
    Delivered(M),
    /// The message was handed back, since the handle was closed.
    Refused,
    /// The task went away without a message.
    HungUp,
}

/// What awaiting a task comes to, where `end` is what comes of the channel through which the task
/// sends its result.
pub open spec fn told<T, P>(end: ChannelEnd<Result<T, P>>) -> Result<T, Option<P>> {
    match end {
        ChannelEnd::Delivered(Ok(value)) => Ok(value),
        ChannelEnd::Delivered(Err(payload)) => Err(Some(payload)),
        ChannelEnd::Refused | ChannelEnd::HungUp => Err(None),
    }
}

/// One step in the life of a task and its handle.
pub enum TaskStep<T, P> {
    /// [`WrapFuture::poll_finish`] when the future has come to this end.
    Finish(Result<T, P>),
    /// [`WrapFuture::poll_start`] after the task was aborted.
    Abort,
    /// The task is dropped before it has come to its end.
    Drop,
    /// [`JoinHandle::poll`] when it gives out the result.
    Join,
    /// [`JoinHandle::close`].
    Close,
}

/// A task and its handle.
#[verifier::ext_equal]
pub struct TaskRun<T, P> {
    /// Whether the task has neither completed nor been cancelled.
    pub live: bool,
    /// What the future of the task gave, if it has come to its end.
    pub gave: Option<Result<T, P>>,
    /// Whether the handle was closed.
    pub closed: bool,
    /// What the handle has given to those who awaited it.
    pub joined: Seq<Result<T, Option<P>>>,
    /// The panics that were recorded as unhandled.
    pub recorded: Seq<P>,
}

impl<T, P> TaskRun<T, P> {
    /// A new task and its handle.
    pub open spec fn fresh() -> Self {
        TaskRun {
            live: true,
            gave: None,
            closed: false,
            joined: Seq::empty(),
            recorded: Seq::empty(),
        }
    }

    /// Whether the handle has given out the result, or was closed.
    pub open spec fn completed(self) -> bool {
        self.closed || self.joined.len() > 0
    }

    /// Whether `step` can be made now, where `end` comes of the channel between the two.
    ///
    /// A message is refused by a closed handle only, and one that is delivered has been sent before
    /// the handle tells it.
    pub open spec fn allows(self, end: ChannelEnd<Result<T, P>>, step: TaskStep<T, P>) -> bool {
        match step {
            TaskStep::Finish(result) => {
                &&& self.live
                &&& end == ChannelEnd::Delivered(result) || (end is Refused && self.closed)
            },
            TaskStep::Abort | TaskStep::Drop => self.live && end is HungUp,
            TaskStep::Join => {
                &&& !self.completed()
                &&& !(end is Refused)
                &&& end is Delivered ==> self.gave is Some
            },
            TaskStep::Close => !self.completed() && end is Delivered ==> self.gave is Some,
        }
    }

    /// After `payload` was recorded as unhandled, if there is one.
    pub open spec fn recording(self, payload: Option<P>) -> Self {
        match payload {
            Some(payload) => TaskRun { recorded: self.recorded.push(payload), ..self },
            None => self,
        }
    }

    /// What `step` leads to, where `end` comes of the channel between the two.
    pub open spec fn after(self, end: ChannelEnd<Result<T, P>>, step: TaskStep<T, P>) -> Self {
        match step {
            TaskStep::Finish(result) => TaskRun {
                live: false,
                gave: Some(result),
                ..self.recording(
                    if end is Refused {
                        panic_of(result)
                    } else {
                        None
                    },
                )
            },
            TaskStep::Abort | TaskStep::Drop => TaskRun { live: false, ..self },
            TaskStep::Join => TaskRun { joined: self.joined.push(told(end)), ..self },
            TaskStep::Close => TaskRun {
                closed: true,
                ..self.recording(
                    match end {
                        ChannelEnd::Delivered(result) if !self.completed() => panic_of(result),
                        _ => None,
                    },
                )
            },
        }
    }

    /// What `steps` lead to.
    pub open spec fn run(end: ChannelEnd<Result<T, P>>, steps: Seq<TaskStep<T, P>>) -> Self
        decreases steps.len(),
    {
        if steps.len() == 0 {
            Self::fresh()
        } else {
            Self::run(end, steps.drop_last()).after(end, steps.last())
        }
    }

    /// Whether `steps` can be made one after the other.
    pub open spec fn possible(end: ChannelEnd<Result<T, P>>, steps: Seq<TaskStep<T, P>>) -> bool
        decreases steps.len(),
    {
        steps.len() == 0 || {
            &&& Self::possible(end, steps.drop_last())
            &&& Self::run(end, steps.drop_last()).allows(end, steps.last())
        }
    }

    /// Whether the future has panicked, and the handle was closed without having told anybody.
    pub open spec fn unhandled(self) -> bool {
        self.gave matches Some(Err(_)) && self.closed && self.joined.len() == 0
    }
}

/// However the steps interleave: whoever awaits a task gets what its future gave, its value or the
/// very payload that it panicked with, and that once at most; and the error of a cancelled task if
/// the future gave nothing.
pub proof fn law_join_gives_what_the_task_gave<T, P>(
    end: ChannelEnd<Result<T, P>>,
    steps: Seq<TaskStep<T, P>>,
)
    requires
        TaskRun::possible(end, steps),
    ensures
        TaskRun::run(end, steps).joined.len() <= 1,
        TaskRun::run(end, steps).joined.len() == 1 ==> TaskRun::run(end, steps).joined[0]
            == match TaskRun::run(end, steps).gave {
            Some(Ok(value)) => Ok::<T, Option<P>>(value),
            Some(Err(payload)) => Err(Some(payload)),
            None => Err(None),
        },
{
    lemma_task_run(end, steps);
}

/// However the steps interleave: a panic is recorded as unhandled if and only if the future of the
/// task panicked and its handle was closed without having told anybody, and then exactly once. A
/// panic that was told to the one who awaited is not recorded.
pub proof fn law_panic_is_joined_or_recorded_once<T, P>(
    end: ChannelEnd<Result<T, P>>,
    steps: Seq<TaskStep<T, P>>,
)
    requires
        TaskRun::possible(end, steps),
    ensures
        TaskRun::run(end, steps).recorded == match TaskRun::run(end, steps).gave {
            Some(Err(payload)) if TaskRun::run(end, steps).unhandled() => seq![payload],
            _ => Seq::<P>::empty(),
        },
{
    lemma_task_run(end, steps);
}

/// As long as a handle is alive, neither awaited to its end nor closed, the panic of its task is not
/// recorded, so that it is lost for a scope that the handle outlives.
pub proof fn law_panic_is_not_recorded_while_the_handle_lives<T, P>(
    end: ChannelEnd<Result<T, P>>,
    steps: Seq<TaskStep<T, P>>,
)
    requires
        TaskRun::possible(end, steps),
        !TaskRun::run(end, steps).completed(),
    ensures
        TaskRun::run(end, steps).recorded.len() == 0,
        TaskRun::run(end, steps).joined.len() == 0,
{
    lemma_task_run(end, steps);
}

/// A task whose future gave a value, or has come to no end, leaves no panic recorded.
pub proof fn law_value_records_no_panic<T, P>(
    end: ChannelEnd<Result<T, P>>,
    steps: Seq<TaskStep<T, P>>,
)
    requires
        TaskRun::possible(end, steps),
        !(TaskRun::run(end, steps).gave matches Some(Err(_))),
    ensures
        TaskRun::run(end, steps).recorded.len() == 0,
{
    lemma_task_run(end, steps);
}

/// A task that was aborted, or dropped before it came to its end, gives no value to whoever awaits
/// it, but the error of a cancelled task; and it leaves no panic behind.
pub proof fn law_aborted_task_joins_as_cancelled<T, P>(
    end: ChannelEnd<Result<T, P>>,
    steps: Seq<TaskStep<T, P>>,
)
    requires
        TaskRun::possible(end, steps),
        steps.contains(TaskStep::Abort) || steps.contains(TaskStep::Drop),
    ensures
        forall|i: int|
            0 <= i < TaskRun::run(end, steps).joined.len() ==> #[trigger] TaskRun::run(
                end,
                steps,
            ).joined[i] == Err::<T, Option<P>>(None),
        TaskRun::run(end, steps).recorded.len() == 0,
        TaskRun::run(end, steps).gave is None,
{
    lemma_task_run(end, steps);
    lemma_aborted(end, steps);
}

/// What any run of steps leads to.
proof fn lemma_task_run<T, P>(end: ChannelEnd<Result<T, P>>, steps: Seq<TaskStep<T, P>>)
    requires
        TaskRun::possible(end, steps),
    ensures
        ({
            let run = TaskRun::run(end, steps);
            &&& run.live ==> run.gave is None
            &&& run.gave matches Some(result) ==> end == ChannelEnd::Delivered(result)
                || (end is Refused && run.closed)
            &&& run.completed() && end is Delivered ==> run.gave is Some
            &&& run.joined.len() > 0 ==> !(end is Refused) && run.joined == seq![told(end)]
            &&& run.recorded =~= match run.gave {
                Some(Err(payload)) if run.unhandled() => seq![payload],
                _ => seq![],
            }
        }),
    decreases steps.len(),
{
    if steps.len() > 0 {
        lemma_task_run(end, steps.drop_last());
        let before = TaskRun::run(end, steps.drop_last());
        let after = TaskRun::run(end, steps);
        assert(after == before.after(end, steps.last()));
        if steps.last() is Join {
            assert(before.joined.len() == 0);
            assert(after.joined =~= seq![told(end)]);
        }
    }
}

/// A task can only be aborted or dropped where its channel is hung up on.
proof fn lemma_aborted<T, P>(end: ChannelEnd<Result<T, P>>, steps: Seq<TaskStep<T, P>>)
    requires
        TaskRun::possible(end, steps),
        steps.contains(TaskStep::Abort) || steps.contains(TaskStep::Drop),
    ensures
        end is HungUp,
    decreases steps.len(),
{
    if !(steps.last() is Abort || steps.last() is Drop) {
        let at = choose|at: int|
            0 <= at < steps.len() && (steps[at] == TaskStep::<T, P>::Abort || steps[at]
                == TaskStep::<T, P>::Drop);
        assert(steps.drop_last()[at] == steps[at]);
        lemma_aborted(end, steps.drop_last());
    }
}

/// One use of what a task and its handles share in order to abort it.
pub enum AbortStep<W> {
    /// [`TaskAbortHandle::abort`].
    Abort,
    /// [`TaskAbortHandle::register`], when the task is polled.
    Register(W),
    /// [`TaskAbortHandle::finish`].
    Finish,
}

impl<W> AbortView<W> {
    /// What `steps` lead to.
    pub open spec fn after(self, steps: Seq<AbortStep<W>>) -> Self
        decreases steps.len(),
    {
        if steps.len() == 0 {
            self
        } else {
            let before = self.after(steps.drop_last());
            match steps.last() {
                AbortStep::Abort => before.aborted(),
                AbortStep::Register(waker) => before.registered(waker),
                AbortStep::Finish => before.ended(),
            }
        }
    }
}

/// To abort a task that was aborted already changes nothing and wakes nobody, even if the task was
/// polled in between.
pub proof fn law_abort_is_idempotent<W>(handle: AbortView<W>, steps: Seq<AbortStep<W>>)
    ensures
        handle.aborted().after(steps).aborted() == handle.aborted().after(steps),
        handle.aborted().after(steps).on_abort() is None,
{
    law_aborted_task_stays_aborted(handle, steps);
}

/// A task stays aborted whatever is done to it afterwards, so that its future is never polled
/// again.
pub proof fn law_aborted_task_stays_aborted<W>(handle: AbortView<W>, steps: Seq<AbortStep<W>>)
    ensures
        handle.aborted().after(steps).cancelled,
    decreases steps.len(),
{
    if steps.len() > 0 {
        law_aborted_task_stays_aborted(handle, steps.drop_last());
    }
}

/// A task that is aborted and whose handle is dropped, as those are that a dropped stream had
/// buffered: its future is never polled again, nobody is told what it came to, and if it had
/// panicked before, or was just about to, then exactly that is recorded as unhandled.
///
/// `before` is what happened up to then and `after` what happened since, `abort` is what the task
/// and its handles shared in order to abort it, and `uses` are the later uses of that.
pub proof fn law_dropped_task_is_aborted_or_recorded<T, P, W>(
    end: ChannelEnd<Result<T, P>>,
    before: Seq<TaskStep<T, P>>,
    after: Seq<TaskStep<T, P>>,
    abort: AbortView<W>,
    uses: Seq<AbortStep<W>>,
)
    requires
        TaskRun::possible(end, before.push(TaskStep::Close) + after),
        !TaskRun::run(end, before).completed(),
    ensures
        abort.aborted().after(uses).cancelled,
        ({
            let run = TaskRun::run(end, before.push(TaskStep::Close) + after);
            &&& run.joined.len() == 0
            &&& run.recorded == match run.gave {
                Some(Err(payload)) => seq![payload],
                _ => Seq::<P>::empty(),
            }
        }),
{
    law_aborted_task_stays_aborted(abort, uses);
    let dropped = before.push(TaskStep::Close);
    lemma_possible_prefix(end, dropped, after);
    assert(dropped.drop_last() =~= before);
    lemma_task_run(end, before);
    lemma_completed_handle_tells_nobody(end, dropped, after);
    lemma_task_run(end, dropped + after);
}

/// The first of several steps that are possible are possible themselves.
proof fn lemma_possible_prefix<T, P>(
    end: ChannelEnd<Result<T, P>>,
    steps: Seq<TaskStep<T, P>>,
    more: Seq<TaskStep<T, P>>,
)
    requires
        TaskRun::possible(end, steps + more),
    ensures
        TaskRun::possible(end, steps),
        steps.len() > 0 ==> TaskRun::possible(end, steps.drop_last()),
    decreases more.len(),
{
    if more.len() > 0 {
        assert((steps + more).drop_last() =~= steps + more.drop_last());
        lemma_possible_prefix(end, steps, more.drop_last());
    } else {
        assert(steps + more =~= steps);
    }
}

/// A handle that has given out the result, or was closed, gives out nothing more.
proof fn lemma_completed_handle_tells_nobody<T, P>(
    end: ChannelEnd<Result<T, P>>,
    steps: Seq<TaskStep<T, P>>,
    more: Seq<TaskStep<T, P>>,
)
    requires
        TaskRun::possible(end, steps + more),
        TaskRun::run(end, steps).completed(),
    ensures
        TaskRun::run(end, steps + more).completed(),
        TaskRun::run(end, steps).closed ==> TaskRun::run(end, steps + more).closed,
        TaskRun::run(end, steps + more).joined == TaskRun::run(end, steps).joined,
    decreases more.len(),
{
    if more.len() > 0 {
        let all = steps + more;
        assert(all.drop_last() =~= steps + more.drop_last());
        lemma_completed_handle_tells_nobody(end, steps, more.drop_last());
    } else {
        assert(steps + more =~= steps);
    }
}

/// The one who aborts a task first wakes the one who polled it last.
pub proof fn law_abort_wakes_the_last_poll<W>(handle: AbortView<W>, waker: W)
    requires
        !handle.cancelled,
    ensures
        handle.registered(waker).on_abort() == Some(waker),
{
}

/// A task is finished exactly if it has come to its end, and cancelled exactly if it was aborted:
/// from a new handle, whatever is done, each holds if and only if that very step was made.
pub proof fn law_finished_exactly_if_it_came_to_its_end<W>(
    new: AbortView<W>,
    steps: Seq<AbortStep<W>>,
)
    requires
        !new.finished,
        !new.cancelled,
    ensures
        new.after(steps).finished <==> exists|i: int|
            0 <= i < steps.len() && #[trigger] steps[i] is Finish,
        new.after(steps).cancelled <==> exists|i: int|
            0 <= i < steps.len() && #[trigger] steps[i] is Abort,
    decreases steps.len(),
{
    if steps.len() > 0 {
        let rest = steps.drop_last();
        law_finished_exactly_if_it_came_to_its_end(new, rest);
        assert(forall|i: int| 0 <= i < rest.len() ==> #[trigger] rest[i] == steps[i]);
        assert(steps[steps.len() - 1] == steps.last());
        if exists|i: int| 0 <= i < steps.len() && #[trigger] steps[i] is Finish {
            let i = choose|i: int| 0 <= i < steps.len() && #[trigger] steps[i] is Finish;
            if i < rest.len() {
                assert(rest[i] is Finish);
            }
        }
        if exists|i: int| 0 <= i < steps.len() && #[trigger] steps[i] is Abort {
            let i = choose|i: int| 0 <= i < steps.len() && #[trigger] steps[i] is Abort;
            if i < rest.len() {
                assert(rest[i] is Abort);
            }
        }
    }
}

/// Each use of what a task and its handles share changes what it is for and nothing else.
pub proof fn law_uses_do_not_disturb_each_other<W>(handle: AbortView<W>, waker: W)
    ensures
        handle.registered(waker).waker == Some(waker),
        handle.registered(waker).cancelled == handle.cancelled,
        handle.registered(waker).finished == handle.finished,
        handle.ended().finished,
        handle.ended().cancelled == handle.cancelled,
        handle.ended().waker == handle.waker,
        handle.aborted().cancelled,
        handle.aborted().finished == handle.finished,
        !handle.cancelled ==> handle.aborted().waker is None && handle.on_abort() == handle.waker,
        handle.cancelled ==> handle.aborted().waker == handle.waker && handle.on_abort() is None,
{
}

/// What a task sends is what its future came to, and nothing while the future is pending; and a
/// handle that receives it tells just that.
pub proof fn law_sent_is_what_the_future_came_to<T, P>(value: T, payload: P)
    ensures
        message(Ok::<Poll<T>, P>(Poll::Pending)) is None,
        message(Ok::<Poll<T>, P>(Poll::Ready(value))) == Some(Ok::<T, P>(value)),
        message(Err::<Poll<T>, P>(payload)) == Some(Err::<T, P>(payload)),
        joined(
            Ok::<Result<T, P>, oneshot::Canceled>(
                message(Ok::<Poll<T>, P>(Poll::Ready(value))).unwrap(),
            ),
        ) == Ok::<T, Option<P>>(value),
        joined(
            Ok::<Result<T, P>, oneshot::Canceled>(
                message(Err::<Poll<T>, P>(payload)).unwrap(),
            ),
        ) == Err::<T, Option<P>>(Some(payload)),
{
}

/// What comes back from a handle that was dropped is an unhandled panic if and only if it is a
/// panic, and what was taken leaves none.
pub proof fn law_undelivered_panic_is_the_one_that_came_back<T, P>(
    sent: Result<(), Result<T, P>>,
    result: Result<T, P>,
    payload: P,
)
    ensures
        undelivered_panic(sent) == Some(payload) <==> sent == Err::<(), Result<T, P>>(
            Err(payload),
        ),
        panic_of(result) == Some(payload) <==> result == Err::<T, P>(payload),
        panic_of(result) is None <==> result is Ok,
{
}

/// What the channel between a task and its handle comes to is told as the handle tells it.
pub proof fn law_channel_end_is_told_by_the_handle<T, P>(
    result: Result<T, P>,
    canceled: oneshot::Canceled,
)
    ensures
        told(ChannelEnd::Delivered(result)) == joined(
            Ok::<Result<T, P>, oneshot::Canceled>(result),
        ),
        told(ChannelEnd::<Result<T, P>>::Refused) == joined(
            Err::<Result<T, P>, oneshot::Canceled>(canceled),
        ),
        told(ChannelEnd::<Result<T, P>>::HungUp) == joined(
            Err::<Result<T, P>, oneshot::Canceled>(canceled),
        ),
{
}

} // verus!
