//! A stream that runs as a task.

use crate::error::{poll_outcome, JoinError};
use crate::join::{joined, unseen_panic, JoinHandle, JoinView};
use crate::scope::ScopeExecutor;
use crate::stream::StreamPoll;
use crate::util::waker::WakerSlot;
use std::collections::VecDeque;
use std::task::{Context, Poll};
use vstd::future::FutureAdditionalSpecFns;
use vstd::prelude::*;

verus! {

/// What a [`Channel`] holds. `T` is a value, `W` wakes a task.
#[verifier::ext_equal]
pub struct ChannelView<T, W> {
    /// The values that were pushed and not popped, in order.
    pub queue: Seq<T>,
    /// How many values the channel takes before the one who pushes has to wait.
    pub limit: nat,
    /// Who to wake when a value is popped.
    pub tx_waker: Option<W>,
    /// Who to wake when a value is pushed.
    pub rx_waker: Option<W>,
}

impl<T, W> ChannelView<T, W> {
    /// A channel without values, at which nobody waits.
    pub open spec fn empty(limit: nat) -> Self {
        ChannelView { queue: Seq::empty(), limit, tx_waker: None, rx_waker: None }
    }

    /// After `value` was pushed.
    pub open spec fn pushed(self, value: T) -> Self {
        ChannelView { queue: self.queue.push(value), rx_waker: None, ..self }
    }

    /// Whether the one who pushed a value need not wait.
    pub open spec fn has_room(self) -> bool {
        self.queue.len() <= self.limit
    }

    /// After the one whom `waker` wakes has asked whether to wait.
    pub open spec fn push_polled(self, waker: W) -> Self {
        ChannelView { tx_waker: Some(waker), ..self }
    }

    /// After the one whom `waker` wakes has asked for a value.
    pub open spec fn popped(self, waker: W) -> Self {
        if self.queue.len() > 0 {
            ChannelView { queue: self.queue.drop_first(), tx_waker: None, ..self }
        } else {
            ChannelView { rx_waker: Some(waker), ..self }
        }
    }

    /// What is given to the one who asks for a value.
    pub open spec fn on_pop(self) -> Poll<T> {
        if self.queue.len() > 0 {
            Poll::Ready(self.queue[0])
        } else {
            Poll::Pending
        }
    }
}

struct ChannelData<T, W> {
    tx_waker: WakerSlot<W>,
    rx_waker: WakerSlot<W>,
    queue: VecDeque<T>,
}

impl<T, W> ChannelData<T, W> {
    fn tx_waker(&mut self) -> (waker: Option<W>)
        ensures
            waker == old(self).tx_waker@,
            final(self).tx_waker@ is None,
            final(self).rx_waker == old(self).rx_waker,
            final(self).queue == old(self).queue,
    {
        self.tx_waker.take()
    }

    fn rx_waker(&mut self) -> (waker: Option<W>)
        ensures
            waker == old(self).rx_waker@,
            final(self).rx_waker@ is None,
            final(self).tx_waker == old(self).tx_waker,
            final(self).queue == old(self).queue,
    {
        self.rx_waker.take()
    }

    fn set_tx_waker(&mut self, waker: W)
        ensures
            final(self).tx_waker@ == Some(waker),
            final(self).rx_waker == old(self).rx_waker,
            final(self).queue == old(self).queue,
    {
        self.tx_waker.register(waker);
    }

    fn set_rx_waker(&mut self, waker: W)
        ensures
            final(self).rx_waker@ == Some(waker),
            final(self).tx_waker == old(self).tx_waker,
            final(self).queue == old(self).queue,
    {
        self.rx_waker.register(waker);
    }
}

/// An absolutely minimal channel between two tasks.
///
/// To push a value takes two steps: [`push`](Channel::push) always inserts it at once, and then
/// [`poll_push`](Channel::poll_push) is to be polled until the number of values has dropped to
/// the limit. This makes a limit of 0 work as expected while still making sure that the
/// producer blocks.
pub struct Channel<T, W> {
    data: ChannelData<T, W>,
    limit: usize,
}

impl<T, W> View for Channel<T, W> {
    type V = ChannelView<T, W>;

    closed spec fn view(&self) -> ChannelView<T, W> {
        ChannelView {
            queue: self.data.queue@,
            limit: self.limit as nat,
            tx_waker: self.data.tx_waker@,
            rx_waker: self.data.rx_waker@,
        }
    }
}

impl<T, W> Channel<T, W> {
    /// A channel without values, which takes `limit` values before the producer has to wait.
    pub fn new(limit: usize) -> (channel: Self)
        ensures
            channel@ == ChannelView::<T, W>::empty(limit as nat),
    {
        // Only preallocate capacity up to 32 elements to avoid large memory use if someone
        // passes in a large limit.
        let capacity: usize = if limit < 32 {
            limit + 1
        } else {
            32
        };
        Channel {
            data: ChannelData {
                tx_waker: WakerSlot::new(),
                rx_waker: WakerSlot::new(),
                queue: VecDeque::with_capacity(capacity),
            },
            limit,
        }
    }

    /// Insert a value. The caller has to wake the returned waker, and then to wait until
    /// [`poll_push`](Channel::poll_push) is ready.
    pub fn push(&mut self, value: T) -> (waker: Option<W>)
        ensures
            final(self)@ == old(self)@.pushed(value),
            waker == old(self)@.rx_waker,
    {
        self.data.queue.push_back(value);
        self.data.rx_waker()
    }

    /// Ready once the number of values has dropped to the limit. The task that `waker` wakes is
    /// woken when a value is popped.
    pub fn poll_push(&mut self, waker: W) -> (polled: Poll<()>)
        ensures
            polled is Ready <==> old(self)@.has_room(),
            final(self)@ == old(self)@.push_polled(waker),
    {
        self.data.set_tx_waker(waker);
        if self.data.queue.len() <= self.limit {
            Poll::Ready(())
        } else {
            Poll::Pending
        }
    }

    /// Take out the first value, if there is one; then the caller has to wake the waker that
    /// comes with it. Otherwise the task that `waker` wakes is woken when a value is pushed.
    pub fn poll_pop(&mut self, waker: W) -> (popped: (Poll<T>, Option<W>))
        ensures
            popped.0 == old(self)@.on_pop(),
            popped.1 == if old(self)@.queue.len() > 0 {
                old(self)@.tx_waker
            } else {
                None
            },
            final(self)@ == old(self)@.popped(waker),
    {
        if let Some(value) = self.data.queue.pop_front() {
            assert(self.data.queue@ =~= old(self).data.queue@.drop_first());
            let tx_waker = self.data.tx_waker();
            (Poll::Ready(value), tx_waker)
        } else {
            self.data.set_rx_waker(waker);
            (Poll::Pending, None)
        }
    }
}

/// What a stream without further values gives, where this is what the task came to that runs
/// it.
pub open spec fn end_of<T, P>(came: Poll<Result<(), Option<P>>>) -> StreamPoll<T, P> {
    match came {
        Poll::Pending => StreamPoll::Pending,
        Poll::Ready(Ok(_)) => StreamPoll::End,
        Poll::Ready(Err(Some(payload))) => StreamPoll::Panic(payload),
        Poll::Ready(Err(None)) => StreamPoll::Cancelled,
    }
}

/// A stream that runs as a task, which pushes the values to a [`Channel`].
///
/// The channel is shared with the task, and handed to each method that needs it.
#[verifier::reject_recursive_types(P)]
pub struct Spawn<P, A> {
    handle: JoinHandle<(), P, A>,
}

impl<P, A> Spawn<P, A> {
    /// The handle to the task.
    pub closed spec fn task(&self) -> JoinView<(), P, A> {
        self.handle@
    }

    /// The handle to the task is well-formed.
    pub closed spec fn wf(&self) -> bool {
        self.handle.wf()
    }

    /// The stream that is run by the task with the given handle.
    pub fn new(handle: JoinHandle<(), P, A>) -> (stream: Self)
        requires
            handle.wf(),
        ensures
            stream.wf(),
            stream.task() == handle@,
    {
        Spawn { handle }
    }

    /// Whether the end of the stream was given out.
    pub fn is_complete(&self) -> (complete: bool)
        requires
            self.wf(),
        ensures
            complete == self.task().completed(),
    {
        self.handle.is_complete()
    }

    /// Poll for the next value. The caller has to wake the waker that comes with it.
    ///
    /// Only if the channel is empty the task itself is polled, so that its panic, if any, comes
    /// after all values. The stream must not be polled again after its end. When the task comes to
    /// its end is up to the task.
    pub fn poll_next<T, W>(
        &mut self,
        channel: &mut Channel<T, W>,
        waker: W,
        cx: &mut Context<'_>,
    ) -> (polled: (StreamPoll<T, P>, Option<W>))
        requires
            old(self).wf(),
            !old(self).task().completed(),
        ensures
            final(self).wf(),
            final(channel)@ == old(channel)@.popped(waker),
            match old(channel)@.on_pop() {
                Poll::Ready(value) => {
                    &&& polled.0 == StreamPoll::<T, P>::Item(value)
                    &&& polled.1 == old(channel)@.tx_waker
                    &&& final(self).task() == old(self).task()
                },
                Poll::Pending => {
                    &&& polled.1 is None
                    &&& if polled.0 is Pending {
                        &&& final(self).task() == old(self).task()
                        &&& !old(self).task().receiver.closed
                    } else {
                        &&& polled.0 == end_of::<T, P>(
                            Poll::Ready(joined(old(self).task().receiver.future@)),
                        )
                        &&& final(self).task() == old(self).task().joined()
                    }
                },
            },
    {
        let popped = channel.poll_pop(waker);
        if let (Poll::Ready(value), tx_waker) = popped {
            return (StreamPoll::Item(value), tx_waker);
        }
        let came = self.handle.poll(cx);
        (end(came), None)
    }

    /// Give up on the task, as a stream does that is dropped.
    ///
    /// A panic that the task had told, and that nobody will see any more, is recorded as unhandled
    /// with the scope. What is returned gives the means to abort the task, as it has to be.
    pub fn cancel<'env, W>(self, scope: &mut ScopeExecutor<'env, P, W>) -> (handle: A)
        requires
            self.wf(),
        ensures
            handle == self.task().handle,
            final(scope)@ == old(scope)@.with_panic(
                if self.task().completed() {
                    None
                } else {
                    unseen_panic(self.task().receiver.future@)
                },
            ),
    {
        let mut handle = self.handle;
        handle.close(scope);
        handle.into_parts().0
    }
}

/// Turn what the task came to that runs a stream into what the stream gives without further
/// values.
pub fn end<T, P>(joined: Poll<Result<(), JoinError<P>>>) -> (polled: StreamPoll<T, P>)
    ensures
        polled == end_of::<T, P>(poll_outcome(joined)),
{
    match joined {
        Poll::Pending => StreamPoll::Pending,
        Poll::Ready(Ok(_)) => StreamPoll::End,
        Poll::Ready(Err(error)) => match error.try_into_panic() {
            Ok(payload) => StreamPoll::Panic(payload),
            Err(_) => StreamPoll::Cancelled,
        },
    }
}

/// One step of one of the two tasks that share a [`Channel`].
pub enum ChannelStep<T, W> {
    /// [`Channel::push`] by the producer.
    Push(T),
    /// [`Channel::poll_push`] by the producer.
    PollPush(W),
    /// [`Channel::poll_pop`] by the consumer.
    Pop(W),
}

/// A channel and the two tasks that share it.
#[verifier::ext_equal]
pub struct ChannelRun<T, W> {
    /// What the channel holds.
    pub channel: ChannelView<T, W>,
    /// Whether the producer has inserted a value and has not been told to go on.
    pub pushing: bool,
    /// The waker of the producer, where it was told to wait and has not been woken since.
    pub producer: Option<W>,
    /// The waker of the consumer, where it was told to wait and has not been woken since.
    pub consumer: Option<W>,
}

impl<T, W> ChannelRun<T, W> {
    /// Whether `step` can be made now: the producer does not push while it is to wait.
    pub open spec fn allows(self, step: ChannelStep<T, W>) -> bool {
        match step {
            ChannelStep::Push(_) => !self.pushing,
            ChannelStep::PollPush(_) => self.pushing,
            ChannelStep::Pop(_) => true,
        }
    }

    /// What `step` leads to, where each waker that is handed out is woken.
    pub open spec fn after(self, step: ChannelStep<T, W>) -> Self {
        match step {
            ChannelStep::Push(value) => ChannelRun {
                channel: self.channel.pushed(value),
                pushing: true,
                consumer: if self.channel.rx_waker is Some && self.channel.rx_waker
                    == self.consumer {
                    None
                } else {
                    self.consumer
                },
                ..self
            },
            ChannelStep::PollPush(waker) => ChannelRun {
                channel: self.channel.push_polled(waker),
                pushing: !self.channel.has_room(),
                producer: if self.channel.has_room() {
                    None
                } else {
                    Some(waker)
                },
                ..self
            },
            ChannelStep::Pop(waker) => ChannelRun {
                channel: self.channel.popped(waker),
                producer: if self.channel.on_pop() is Ready && self.channel.tx_waker
                    == self.producer {
                    None
                } else {
                    self.producer
                },
                consumer: if self.channel.on_pop() is Ready {
                    None
                } else {
                    Some(waker)
                },
                ..self
            },
        }
    }

    /// What `steps` lead to, beginning with an empty channel.
    pub open spec fn run(limit: nat, steps: Seq<ChannelStep<T, W>>) -> Self
        decreases steps.len(),
    {
        if steps.len() == 0 {
            ChannelRun {
                channel: ChannelView::empty(limit),
                pushing: false,
                producer: None,
                consumer: None,
            }
        } else {
            Self::run(limit, steps.drop_last()).after(steps.last())
        }
    }

    /// Whether `steps` can be made one after the other, beginning with an empty channel.
    pub open spec fn possible(limit: nat, steps: Seq<ChannelStep<T, W>>) -> bool
        decreases steps.len(),
    {
        steps.len() == 0 || {
            &&& Self::possible(limit, steps.drop_last())
            &&& Self::run(limit, steps.drop_last()).allows(steps.last())
        }
    }

    /// The values that `steps` push, in order.
    pub open spec fn pushed(steps: Seq<ChannelStep<T, W>>) -> Seq<T>
        decreases steps.len(),
    {
        if steps.len() == 0 {
            Seq::empty()
        } else {
            let before = Self::pushed(steps.drop_last());
            match steps.last() {
                ChannelStep::Push(value) => before.push(value),
                _ => before,
            }
        }
    }

    /// The values that `steps` pop, in order.
    pub open spec fn popped(limit: nat, steps: Seq<ChannelStep<T, W>>) -> Seq<T>
        decreases steps.len(),
    {
        if steps.len() == 0 {
            Seq::empty()
        } else {
            let before = Self::popped(limit, steps.drop_last());
            match (steps.last(), Self::run(limit, steps.drop_last()).channel.on_pop()) {
                (ChannelStep::Pop(_), Poll::Ready(value)) => before.push(value),
                _ => before,
            }
        }
    }
}

/// Values come out of a channel in the order in which they went in, each exactly once: what
/// was popped, followed by what is in the channel, is what was pushed.
pub proof fn law_values_in_order<T, W>(limit: nat, steps: Seq<ChannelStep<T, W>>)
    requires
        ChannelRun::possible(limit, steps),
    ensures
        ChannelRun::popped(limit, steps) + ChannelRun::run(limit, steps).channel.queue
            =~= ChannelRun::pushed(steps),
    decreases steps.len(),
{
    if steps.len() > 0 {
        law_values_in_order(limit, steps.drop_last());
        let before = ChannelRun::run(limit, steps.drop_last());
        let popped = ChannelRun::popped(limit, steps.drop_last());
        let queue = before.channel.queue;
        match steps.last() {
            ChannelStep::Push(value) => {
                assert(popped + queue.push(value) =~= (popped + queue).push(value));
            },
            ChannelStep::PollPush(_) => {},
            ChannelStep::Pop(_) => {
                if queue.len() > 0 {
                    assert(popped.push(queue[0]) + queue.drop_first() =~= popped + queue);
                }
            },
        }
    }
}

/// A producer that waits as it is told never has more than one value beyond the limit in the
/// channel, and no more than the limit when it goes on.
pub proof fn law_producer_is_held_to_the_limit<T, W>(limit: nat, steps: Seq<ChannelStep<T, W>>)
    requires
        ChannelRun::possible(limit, steps),
    ensures
        ChannelRun::run(limit, steps).channel.limit == limit,
        ChannelRun::run(limit, steps).channel.queue.len() <= limit + 1,
        !ChannelRun::run(limit, steps).pushing ==> ChannelRun::run(limit, steps).channel.has_room(),
    decreases steps.len(),
{
    if steps.len() > 0 {
        law_producer_is_held_to_the_limit(limit, steps.drop_last());
    }
}

/// What a producer does that has `values` ready, one after the other, which `waker` wakes.
pub open spec fn eager_steps<T, W>(values: Seq<T>, waker: W) -> Seq<ChannelStep<T, W>>
    decreases values.len(),
{
    if values.len() == 0 {
        Seq::empty()
    } else {
        eager_steps(values.drop_last(), waker).push(ChannelStep::Push(values.last())).push(
            ChannelStep::PollPush(waker),
        )
    }
}

/// A producer that always has a value ready gets as many values ahead as the limit allows before
/// any is taken: it does not have to wait for the first `limit` of them.
pub proof fn law_producer_gets_ahead_up_to_the_limit<T, W>(limit: nat, values: Seq<T>, waker: W)
    requires
        values.len() <= limit,
    ensures
        ChannelRun::possible(limit, eager_steps(values, waker)),
        ChannelRun::run(limit, eager_steps(values, waker)).channel.queue =~= values,
        !ChannelRun::run(limit, eager_steps(values, waker)).pushing,
    decreases values.len(),
{
    if values.len() > 0 {
        let before = eager_steps(values.drop_last(), waker);
        law_producer_gets_ahead_up_to_the_limit(limit, values.drop_last(), waker);
        law_producer_is_held_to_the_limit(limit, before);
        let pushed = before.push(ChannelStep::Push(values.last()));
        let polled = pushed.push(ChannelStep::PollPush(waker));
        assert(pushed.drop_last() =~= before);
        assert(polled.drop_last() =~= pushed);
        assert(eager_steps(values, waker) =~= polled);
        assert(ChannelRun::run(limit, pushed) == ChannelRun::run(limit, before).after(
            ChannelStep::Push(values.last()),
        ));
        assert(ChannelRun::run(limit, pushed).channel.queue =~= values);
        assert(ChannelRun::possible(limit, pushed)) by {
            assert(ChannelRun::run(limit, before).allows(ChannelStep::Push(values.last())));
        }
        assert(ChannelRun::possible(limit, polled)) by {
            assert(ChannelRun::run(limit, pushed).allows(ChannelStep::PollPush(waker)));
        }
        assert(ChannelRun::run(limit, polled) == ChannelRun::run(limit, pushed).after(
            ChannelStep::PollPush(waker),
        ));
    }
}

/// Neither task is left waiting for ever: a producer that waits has its waker in the channel,
/// to be woken when a value is popped, and there is a value to pop; a consumer that waits has
/// its waker in the channel, to be woken when a value is pushed, and there is no value.
pub proof fn law_nobody_waits_unseen<T, W>(limit: nat, steps: Seq<ChannelStep<T, W>>)
    requires
        ChannelRun::possible(limit, steps),
    ensures
        ChannelRun::run(limit, steps).producer is Some ==> {
            &&& ChannelRun::run(limit, steps).channel.tx_waker == ChannelRun::run(
                limit,
                steps,
            ).producer
            &&& ChannelRun::run(limit, steps).channel.queue.len() > 0
        },
        ChannelRun::run(limit, steps).consumer is Some ==> {
            &&& ChannelRun::run(limit, steps).channel.rx_waker == ChannelRun::run(
                limit,
                steps,
            ).consumer
            &&& ChannelRun::run(limit, steps).channel.queue.len() == 0
        },
    decreases steps.len(),
{
    if steps.len() > 0 {
        law_nobody_waits_unseen(limit, steps.drop_last());
    }
}

/// The panic of the task that runs a stream comes after all values that the task had pushed:
/// as long as there is one, the stream gives it.
pub proof fn law_panic_comes_after_all_values<T, P, W>(channel: ChannelView<T, W>, payload: P)
    ensures
        channel.queue.len() > 0 ==> channel.on_pop() == Poll::Ready(channel.queue[0]),
        channel.queue.len() == 0 ==> channel.on_pop() is Pending && end_of::<T, P>(
            Poll::Ready(Err(Some(payload))),
        ) == StreamPoll::<T, P>::Panic(payload),
{
}

/// A channel gives its first value whenever it has one, and nothing only if it has none; and the
/// producer goes on whenever no more values than the limit are in it, and waits only if there are.
pub proof fn law_channel_gives_and_takes_whenever_it_can<T, W>(channel: ChannelView<T, W>, value: T)
    ensures
        channel.on_pop() == Poll::Ready(value) <==> channel.queue.len() > 0 && channel.queue[0]
            == value,
        channel.on_pop() is Pending <==> channel.queue.len() == 0,
        channel.has_room() <==> channel.queue.len() <= channel.limit,
{
}

/// What each use of a channel does to its values and wakers, and that it leaves the rest as it was.
pub proof fn law_channel_changes_at_its_ends_only<T, W>(
    channel: ChannelView<T, W>,
    value: T,
    waker: W,
    limit: nat,
)
    ensures
        ChannelView::<T, W>::empty(limit).queue.len() == 0,
        ChannelView::<T, W>::empty(limit).limit == limit,
        ChannelView::<T, W>::empty(limit).tx_waker is None,
        ChannelView::<T, W>::empty(limit).rx_waker is None,
        channel.pushed(value).queue =~= channel.queue.push(value),
        channel.pushed(value).limit == channel.limit,
        channel.pushed(value).tx_waker == channel.tx_waker,
        channel.pushed(value).rx_waker is None,
        channel.push_polled(waker).queue == channel.queue,
        channel.push_polled(waker).limit == channel.limit,
        channel.push_polled(waker).tx_waker == Some(waker),
        channel.push_polled(waker).rx_waker == channel.rx_waker,
        channel.popped(waker).limit == channel.limit,
        channel.queue.len() > 0 ==> {
            &&& seq![channel.queue[0]] + channel.popped(waker).queue =~= channel.queue
            &&& channel.popped(waker).tx_waker is None
            &&& channel.popped(waker).rx_waker == channel.rx_waker
        },
        channel.queue.len() == 0 ==> {
            &&& channel.popped(waker).queue.len() == 0
            &&& channel.popped(waker).tx_waker == channel.tx_waker
            &&& channel.popped(waker).rx_waker == Some(waker)
        },
{
}

/// A stream without further values ends exactly if its task returned, panics exactly with what its
/// task panicked with, and gives nothing yet exactly while its task goes on.
pub proof fn law_stream_ends_as_its_task_does<T, P>(
    came: Poll<Result<(), Option<P>>>,
    payload: P,
)
    ensures
        end_of::<T, P>(came) is Pending <==> came is Pending,
        end_of::<T, P>(came) is End <==> came matches Poll::Ready(Ok(_)),
        end_of::<T, P>(came) == StreamPoll::<T, P>::Panic(payload) <==> came == Poll::Ready(
            Err::<(), Option<P>>(Some(payload)),
        ),
        end_of::<T, P>(came) is Cancelled <==> came == Poll::Ready(Err::<(), Option<P>>(None)),
        !(end_of::<T, P>(came) is Item),
{
}

} // verus!
