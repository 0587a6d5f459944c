//! What this crate takes from other crates, and from parts of the standard
//! library that come without a specification.
//!
//! Everything stated in this module about the outside items is believed, not
//! proved. The ghost fields of the types here, which nobody else can write, say what is
//! believed of the outside value beside them.

use futures_channel::oneshot;
use futures_util::stream::FuturesUnordered;
use futures_util::task::FutureObj;
use futures_util::StreamExt;
use std::future::Future;
use std::pin::Pin;
use std::task::{Context, Poll};
use vstd::future::FutureAdditionalSpecFns;
use vstd::multiset::Multiset;
use vstd::prelude::*;

verus! {

/// `std::task::Poll`: `Ready` with a value, or `Pending`.
#[verifier::external_type_specification]
#[verifier::reject_recursive_types(T)]
pub struct ExPoll<T>(Poll<T>);

/// `std::task::Context`, which is only handed on to the futures that are polled.
#[verifier::external_type_specification]
#[verifier::external_body]
pub struct ExContext<'a>(Context<'a>);

/// `oneshot::Sender`, the sending half of a channel for one message.
#[verifier::external_type_specification]
#[verifier::external_body]
#[verifier::reject_recursive_types(T)]
pub struct ExSender<T>(oneshot::Sender<T>);

/// `oneshot::Receiver`, the receiving half of a channel for one message.
#[verifier::external_type_specification]
#[verifier::external_body]
#[verifier::reject_recursive_types(T)]
pub struct ExReceiver<T>(oneshot::Receiver<T>);

/// `oneshot::Canceled`, which tells that no message came through a channel.
#[verifier::external_type_specification]
#[verifier::external_body]
pub struct ExCanceled(oneshot::Canceled);

/// `FuturesUnordered`, a set of futures that are polled as they are woken.
#[verifier::external_type_specification]
#[verifier::external_body]
#[verifier::reject_recursive_types(Fut)]
pub struct ExFuturesUnordered<Fut>(FuturesUnordered<Fut>);

/// `FutureObj`, a boxed future that can be sent between threads.
#[verifier::external_type_specification]
#[verifier::external_body]
#[verifier::reject_recursive_types(T)]
pub struct ExFutureObj<'a, T>(FutureObj<'a, T>);

/// The sending half of a channel for one message.
#[verifier::reject_recursive_types(M)]
pub struct SendHalf<M> {
    inner: oneshot::Sender<M>,
    peer: Ghost<oneshot::Receiver<M>>,
}

/// What a [`ReceiveHalf`] holds.
///
/// What the half tells, `future@`, is settled by what becomes of the channel. So is whether it is
/// told by polling the half before it is closed, `future.awaited()`; to poll a half that is closed
/// does not count as awaiting it.
#[verifier::reject_recursive_types(M)]
pub struct HalfView<M> {
    /// The half itself, which stays the same whatever is done with it.
    pub future: oneshot::Receiver<M>,
    /// Whether this half was closed.
    pub closed: bool,
    /// Whether this half has told what came of the channel.
    pub done: bool,
}

/// The receiving half of a channel for one message.
#[verifier::reject_recursive_types(M)]
pub struct ReceiveHalf<M> {
    inner: oneshot::Receiver<M>,
    closed: Ghost<bool>,
    done: Ghost<bool>,
}

impl<M> View for ReceiveHalf<M> {
    type V = HalfView<M>;

    closed spec fn view(&self) -> HalfView<M> {
        HalfView { future: self.inner, closed: self.closed@, done: self.done@ }
    }
}

/// `oneshot::channel` makes the two halves of a new channel: what is sent by the one is told by the
/// other.
#[verifier::external_body]
pub(crate) fn channel<M>() -> (halves: (SendHalf<M>, ReceiveHalf<M>))
    ensures
        halves.0.peer() == halves.1@.future,
        !halves.1@.closed,
        !halves.1@.done,
{
    let (sender, receiver) = oneshot::channel();
    (
        SendHalf { inner: sender, peer: Ghost(arbitrary()) },
        ReceiveHalf { inner: receiver, closed: Ghost(false), done: Ghost(false) },
    )
}

impl<M> SendHalf<M> {
    /// The receiving half of the same channel.
    pub closed spec fn peer(&self) -> oneshot::Receiver<M> {
        self.peer@
    }

    /// `oneshot::Sender::send` makes the receiving half tell the message, or hands it back if the
    /// receiving half was closed or dropped; then that half tells of no message, and was not
    /// awaited.
    ///
    /// Whether it was closed or dropped is left unsaid, since that is up to its holder.
    #[verifier::external_body]
    pub(crate) fn send(self, message: M) -> (sent: Result<(), M>)
        ensures
            match sent {
                Ok(_) => self.peer()@ == Ok::<M, oneshot::Canceled>(message),
                Err(returned) => {
                    &&& returned == message
                    &&& self.peer()@ is Err
                    &&& !self.peer().awaited()
                },
            },
    {
        self.inner.send(message)
    }
}

/// `oneshot::Sender::drop`, for a half that is still there: the receiving half tells of no message.
#[verifier::external_body]
pub(crate) fn hang_up<M>(sender: &mut Option<SendHalf<M>>)
    ensures
        *final(sender) is None,
        *old(sender) matches Some(half) ==> half.peer()@ is Err,
{
    drop(sender.take());
}

impl<M> ReceiveHalf<M> {
    /// `oneshot::Receiver::close` keeps messages from being sent from now on.
    #[verifier::external_body]
    pub(crate) fn close(&mut self)
        ensures
            final(self)@ == (HalfView { closed: true, ..old(self)@ }),
    {
        self.inner.close();
    }

    /// `oneshot::Receiver::try_recv`, on a half that is closed: the message if one was sent before,
    /// and an error otherwise.
    ///
    /// It must not be asked for again. An error can come while a message is on its way and is about
    /// to be handed back, as it is if nobody asks once more.
    #[verifier::external_body]
    pub(crate) fn try_recv(&mut self) -> (received: Result<Option<M>, oneshot::Canceled>)
        requires
            old(self)@.closed,
            !old(self)@.done,
        ensures
            final(self)@ == (HalfView { done: true, ..old(self)@ }),
            match received {
                Ok(Some(message)) => old(self)@.future@ == Ok::<M, oneshot::Canceled>(message),
                Ok(None) => false,
                Err(canceled) => old(self)@.future@ == Err::<M, oneshot::Canceled>(canceled),
            },
    {
        self.inner.try_recv()
    }

    /// Polls a `oneshot::Receiver`: the message, an error if none will come, or `Pending` with the
    /// task of `cx` registered to be woken. A half that is closed is never `Pending`.
    ///
    /// It must not be polled again once it has told what came of the channel. When it does so is
    /// left unsaid, since that is up to the holder of the sending half.
    #[verifier::external_body]
    pub(crate) fn poll(&mut self, cx: &mut Context<'_>) -> (received: Poll<
        Result<M, oneshot::Canceled>,
    >)
        requires
            !old(self)@.done,
        ensures
            match received {
                Poll::Ready(result) => {
                    &&& result == old(self)@.future@
                    &&& !old(self)@.closed ==> old(self)@.future.awaited()
                    &&& final(self)@ == (HalfView { done: true, ..old(self)@ })
                },
                Poll::Pending => final(self)@ == old(self)@ && !old(self)@.closed,
            },
    {
        Pin::new(&mut self.inner).poll(cx)
    }
}

/// What a set of futures holds.
#[verifier::ext_equal]
pub struct SetView<F> {
    /// The futures.
    pub held: Multiset<F>,
    /// Whether no future was added since the set was made or cleared.
    pub fresh: bool,
}

impl<F> SetView<F> {
    /// A set that was just made or cleared.
    pub open spec fn empty() -> Self {
        SetView { held: Multiset::empty(), fresh: true }
    }

    /// After `future` was added.
    pub open spec fn with(self, future: F) -> Self {
        SetView { held: self.held.insert(future), fresh: false }
    }

    /// After all of `futures` were added.
    pub open spec fn with_all(self, futures: Seq<F>) -> Self {
        SetView {
            held: self.held.add(futures.to_multiset()),
            fresh: self.fresh && futures.len() == 0,
        }
    }

    /// After `future` has completed.
    pub open spec fn without(self, future: F) -> Self {
        SetView { held: self.held.remove(future), ..self }
    }
}

/// Whether polling a set once can lead from `before` to `after`, where `came` is the future that
/// completed, if one did, and `none` tells whether the set answered that it holds none.
///
/// If a future completes then exactly that one leaves the set. Otherwise the set is as it was. It
/// answers that it holds none only if that is so, and always if none was added since it was made
/// or cleared. A set whose futures have all completed may answer otherwise, while a waker of one of
/// them is still at work in another thread.
pub open spec fn polled_once<F>(
    before: SetView<F>,
    after: SetView<F>,
    came: Option<F>,
    none: bool,
) -> bool {
    &&& match came {
        Some(future) => before.held.contains(future) && after == before.without(future),
        None => after == before,
    }
    &&& none ==> came is None && before.held.len() == 0
    &&& before.fresh ==> none
}

/// A `FuturesUnordered` of receiving halves, which tells what comes of their channels as it comes.
#[verifier::reject_recursive_types(M)]
pub struct HalfSet<M> {
    inner: FuturesUnordered<oneshot::Receiver<M>>,
    state: Ghost<SetView<HalfView<M>>>,
    waits: Ghost<nat>,
}

impl<M> View for HalfSet<M> {
    type V = SetView<HalfView<M>>;

    closed spec fn view(&self) -> SetView<HalfView<M>> {
        self.state@
    }
}

impl<M> HalfSet<M> {
    /// How often the set was polled and answered `Pending`, each time with the polling task
    /// registered to be woken.
    pub closed spec fn waits(&self) -> nat {
        self.waits@
    }

    /// `FuturesUnordered::new` makes a set that holds nothing.
    #[verifier::external_body]
    pub(crate) fn new() -> (set: Self)
        ensures
            set@ == SetView::<HalfView<M>>::empty(),
            set.waits() == 0,
    {
        HalfSet {
            inner: FuturesUnordered::new(),
            state: Ghost(arbitrary()),
            waits: Ghost(arbitrary()),
        }
    }

    /// `FuturesUnordered::len` tells how many halves the set holds.
    #[verifier::external_body]
    pub(crate) fn len(&self) -> (len: usize)
        ensures
            len == self@.held.len(),
    {
        self.inner.len()
    }

    /// `FuturesUnordered::push` adds one half to those that the set holds.
    #[verifier::external_body]
    pub(crate) fn push(&mut self, receiver: ReceiveHalf<M>)
        requires
            !receiver@.done,
        ensures
            final(self)@ == old(self)@.with(receiver@),
            final(self).waits() == old(self).waits(),
    {
        self.inner.push(receiver.inner);
    }

    /// `FuturesUnordered::poll_next` polls the halves of the set that were woken, until one of them
    /// tells what came of its channel: that one leaves the set, and all others stay. Otherwise it
    /// answers that the set holds none, or `Pending` with the task of `cx` registered to be woken.
    ///
    /// Which of them does, and when, is left unsaid, since that is up to the holders of the sending
    /// halves.
    #[verifier::external_body]
    pub(crate) fn poll_next(&mut self, cx: &mut Context<'_>) -> (polled: Poll<
        Option<Result<M, oneshot::Canceled>>,
    >)
        ensures
            match polled {
                Poll::Ready(Some(received)) => exists|half: HalfView<M>|
                    received == half.future@ && #[trigger] polled_once(
                        old(self)@,
                        final(self)@,
                        Some(half),
                        false,
                    ),
                Poll::Ready(None) => polled_once(old(self)@, final(self)@, None, true),
                Poll::Pending => polled_once(old(self)@, final(self)@, None, false),
            },
            final(self).waits() == if polled is Pending {
                old(self).waits() + 1
            } else {
                old(self).waits()
            },
    {
        self.inner.poll_next_unpin(cx)
    }

    /// `FuturesUnordered::into_iter` gives out all halves that the set holds.
    #[verifier::external_body]
    pub(crate) fn take_all(&mut self) -> (receivers: Vec<ReceiveHalf<M>>)
        ensures
            receivers@.map_values(|receiver: ReceiveHalf<M>| receiver@).to_multiset() == old(
                self,
            )@.held,
            final(self)@ == SetView::<HalfView<M>>::empty(),
            final(self).waits() == old(self).waits(),
    {
        let set = std::mem::replace(&mut self.inner, FuturesUnordered::new());
        let state = Ghost(arbitrary());
        set.into_iter().map(|inner| ReceiveHalf { inner, closed: state, done: state }).collect()
    }
}

/// A task of a scope: a future that tells by its own means what came of it.
pub type Task<'a> = FutureObj<'a, ()>;

/// The tasks that a `FuturesUnordered` holds, each as it was when it was added, whatever polling
/// it has done to it since.
pub uninterp spec fn held(set: FuturesUnordered<Task<'_>>) -> Multiset<Task<'_>>;

/// Whether no task was added to a `FuturesUnordered` since it was made or cleared.
pub uninterp spec fn fresh(set: FuturesUnordered<Task<'_>>) -> bool;

/// What a set of tasks holds.
pub open spec fn tasks_of(set: FuturesUnordered<Task<'_>>) -> SetView<Task<'_>> {
    SetView { held: held(set), fresh: fresh(set) }
}

/// `FuturesUnordered::new` makes a set that holds nothing.
#[verifier::external_body]
pub(crate) fn new_set<'a>() -> (set: FuturesUnordered<Task<'a>>)
    ensures
        held(set) == Multiset::<Task<'a>>::empty(),
        fresh(set),
{
    FuturesUnordered::new()
}

/// `FuturesUnordered::push` adds one task to those that the set holds.
#[verifier::external_body]
pub(crate) fn push_to_set<'a>(
    set: &mut FuturesUnordered<Task<'a>>,
    future: Task<'a>,
)
    ensures
        held(*final(set)) == held(*old(set)).insert(future),
        !fresh(*final(set)),
{
    set.push(future);
}

/// `FuturesUnordered::clear` drops all tasks that the set holds.
#[verifier::external_body]
pub(crate) fn clear_set<'a>(set: &mut FuturesUnordered<Task<'a>>)
    ensures
        held(*final(set)) == Multiset::<Task<'a>>::empty(),
        fresh(*final(set)),
{
    set.clear();
}

/// To make a set, to add to it and to take from it touch nothing else: a set that was just made is
/// empty, one more is held after an addition and one less after a completion, and to add several is
/// to add them one by one.
pub proof fn law_sets_hold_what_was_added<F>(
    set: SetView<F>,
    future: F,
    futures: Seq<F>,
    other: F,
)
    ensures
        SetView::<F>::empty().held.len() == 0,
        SetView::<F>::empty().fresh,
        set.with(future).held.count(future) == set.held.count(future) + 1,
        other != future ==> set.with(future).held.count(other) == set.held.count(other),
        !set.with(future).fresh,
        set.held.contains(future) ==> set.without(future).held.count(future) == set.held.count(
            future,
        ) - 1,
        other != future ==> set.without(future).held.count(other) == set.held.count(other),
        set.without(future).fresh == set.fresh,
        set.with_all(Seq::empty()) == set,
        set.with_all(futures.push(future)) == set.with_all(futures).with(future),
{
    broadcast use vstd::multiset::group_multiset_axioms;
    broadcast use vstd::seq_lib::group_to_multiset_ensures;

    Seq::<F>::empty().to_multiset_ensures();
    futures.to_multiset_ensures();
    assert(set.with_all(Seq::empty()) =~= set);
    assert(set.with_all(futures.push(future)) =~= set.with_all(futures).with(future));
}

} // verus!
