//! Whole scopes, driven by a minimal runtime.
//!
//! The runtime polls one scope until it completes, and takes it for hung if nothing woke it. A
//! task panics by returning an error.

use std::future::{pending, poll_fn, Future};
use std::pin::Pin;
use std::sync::atomic::{AtomicBool, AtomicUsize, Ordering};
use std::sync::{Arc, Mutex, MutexGuard, Weak};
use std::task::{Context, Poll, Wake, Waker};
use std::time::{Duration, Instant};

use async_scope::exports::{pin_send, SmuggleDataIntoBlock};
use async_scope::outside::Task;
use async_scope::scope::{Scope, ScopeExecutor, ScopePoll};
use async_scope::stream::buffer_unordered::BufferUnordered;
use async_scope::stream::buffered::Buffered;
use async_scope::stream::StreamPoll;
use async_scope::wrapper::{TaskAbortHandle, WrapFuture};
use async_scope::{JoinError, JoinHandle};
use futures_channel::oneshot;
use futures_util::StreamExt;

type Payload = &'static str;
type State<'s> = Mutex<ScopeExecutor<'s, Payload, Waker>>;
type Abort = Arc<Mutex<TaskAbortHandle<Waker>>>;

fn lock<T>(mutex: &Mutex<T>) -> MutexGuard<'_, T> {
    mutex.lock().unwrap_or_else(|error| error.into_inner())
}

#[derive(Clone)]
struct Handle<'s>(Weak<State<'s>>, Arc<Timers>);

/// Who to wake, and when.
struct Timers(Mutex<Vec<(Instant, Waker)>>);

impl Timers {
    /// Waits for the next moment at which somebody is to be woken, and wakes all who are due.
    fn wait(&self) {
        let mut timers = lock(&self.0);
        if let Some(next) = timers.iter().map(|timer| timer.0).min() {
            while Instant::now() < next {}
            let now = Instant::now();
            timers.retain(|timer| {
                if timer.0 <= now {
                    timer.1.wake_by_ref();
                }
                timer.0 > now
            });
        }
    }
}

struct Wrapped<'s, F, T> {
    future: Pin<Box<F>>,
    scope: Handle<'s>,
    abort: Abort,
    core: WrapFuture<T, Payload>,
}

impl<F, T> Future for Wrapped<'_, F, T>
where
    F: Future<Output = Result<T, Payload>>,
{
    type Output = ();

    fn poll(mut self: Pin<&mut Self>, cx: &mut Context<'_>) -> Poll<()> {
        let this = &mut *self;
        if !this.core.poll_start(&mut lock(&this.abort), cx.waker().clone()) {
            return Poll::Ready(());
        }
        let polled = match this.future.as_mut().poll(cx) {
            Poll::Ready(Ok(value)) => Ok(Poll::Ready(value)),
            Poll::Ready(Err(payload)) => Err(payload),
            Poll::Pending => Ok(Poll::Pending),
        };
        let state = this.scope.0.upgrade().unwrap();
        let result = this.core.poll_finish(polled, &mut lock(&state));
        result
    }
}

impl<F, T> Unpin for Wrapped<'_, F, T> {}

fn wrap<'s, F, T>(future: F, scope: Handle<'s>) -> (Task<'s>, JoinHandle<T, Payload, Abort>)
where
    F: Future<Output = Result<T, Payload>> + Send + 's,
    T: Send + 's,
{
    let abort = Arc::new(Mutex::new(TaskAbortHandle::new()));
    let (core, join) = WrapFuture::new(abort.clone());
    (pin_send(Wrapped { future: Box::pin(future), scope, abort, core }), join)
}

struct Join<'s, T> {
    scope: Handle<'s>,
    handle: JoinHandle<T, Payload, Abort>,
}

impl<T> Join<'_, T> {
    fn abort(&self) {
        let waker = lock(self.handle.abort_handle()).abort();
        if let Some(waker) = waker {
            waker.wake();
        }
    }
}

impl<T> Unpin for Join<'_, T> {}

impl<T> Future for Join<'_, T> {
    type Output = Result<T, JoinError<Payload>>;

    fn poll(mut self: Pin<&mut Self>, cx: &mut Context<'_>) -> Poll<Self::Output> {
        assert!(!self.handle.is_complete());
        self.handle.poll(cx)
    }
}

impl<T> Drop for Join<'_, T> {
    fn drop(&mut self) {
        if let Some(state) = self.scope.0.upgrade() {
            self.handle.close(&mut lock(&state));
        }
    }
}

impl<'s> Handle<'s> {
    fn spawn<F, T>(&self, future: F) -> Join<'s, T>
    where
        F: Future<Output = Result<T, Payload>> + Send + 's,
        T: Send + 's,
    {
        let (task, handle) = wrap(future, self.clone());
        let state = self.0.upgrade().unwrap();
        let waker = lock(&state).spawn(task);
        if let Some(waker) = waker {
            waker.wake();
        }
        Join { scope: self.clone(), handle }
    }
}

struct Flag(AtomicBool);

impl Wake for Flag {
    fn wake(self: Arc<Self>) {
        self.0.store(true, Ordering::SeqCst);
    }
}

/// Runs a scope to its end: its value, or what it panics with.
fn run<'s, B, F, T>(cancel: bool, body: B) -> Result<T, Payload>
where
    B: FnOnce(Handle<'s>) -> F,
    F: Future<Output = Result<T, Payload>> + Send + 's,
    T: Send + 's,
{
    let state = Arc::new(Mutex::new(ScopeExecutor::new()));
    let timers = Arc::new(Timers(Mutex::new(Vec::new())));
    let handle = Handle(Arc::downgrade(&state), timers.clone());
    let (task, main) = wrap(body(SmuggleDataIntoBlock(handle.clone()).into_inner()), handle);
    let mut scope = Scope::new(&mut lock(&state), task, main);
    scope.cancel_remaining_tasks_on_exit(cancel);

    let flag = Arc::new(Flag(AtomicBool::new(true)));
    let waker = Waker::from(flag.clone());
    let mut cx = Context::from_waker(&waker);
    loop {
        if !flag.0.load(Ordering::SeqCst) {
            timers.wait();
        }
        assert!(flag.0.swap(false, Ordering::SeqCst), "the scope hangs");
        assert!(!lock(&state).is_polling());
        let mut set = lock(&state).poll_start(waker.clone());
        let polled = set.poll_next_unpin(&mut cx);
        let (executed, again) = lock(&state).poll_finish(set, polled);
        if again {
            waker.wake_by_ref();
        }
        let polled = scope.poll(executed, &mut lock(&state), &mut cx);
        match polled {
            ScopePoll::Pending => (),
            ScopePoll::Ready(value) => return Ok(value),
            ScopePoll::Panic(payload) => return Err(payload),
            ScopePoll::Cancelled => unreachable!(),
        }
    }
}

struct YieldNow(bool);

impl Future for YieldNow {
    type Output = ();

    fn poll(mut self: Pin<&mut Self>, cx: &mut Context<'_>) -> Poll<()> {
        if self.0 {
            return Poll::Ready(());
        }
        self.0 = true;
        cx.waker().wake_by_ref();
        Poll::Pending
    }
}

fn yield_now() -> YieldNow {
    YieldNow(false)
}

struct Sleep(Instant, Arc<Timers>);

impl Future for Sleep {
    type Output = ();

    fn poll(self: Pin<&mut Self>, cx: &mut Context<'_>) -> Poll<()> {
        if Instant::now() >= self.0 {
            Poll::Ready(())
        } else {
            lock(&self.1 .0).push((self.0, cx.waker().clone()));
            Poll::Pending
        }
    }
}

impl Handle<'_> {
    fn sleep(&self, millis: u64) -> Sleep {
        Sleep(Instant::now() + Duration::from_millis(millis), self.1.clone())
    }
}

/// Lets everyone through once `expected` have arrived.
struct Barrier {
    expected: usize,
    arrived: Mutex<(usize, Vec<Waker>)>,
}

struct Wait<'b>(&'b Barrier, bool);

impl Barrier {
    fn new(expected: usize) -> Self {
        Barrier { expected, arrived: Mutex::new((0, Vec::new())) }
    }

    fn wait(&self) -> Wait<'_> {
        Wait(self, false)
    }
}

impl Future for Wait<'_> {
    type Output = ();

    fn poll(mut self: Pin<&mut Self>, cx: &mut Context<'_>) -> Poll<()> {
        let barrier = self.0;
        let mut arrived = lock(&barrier.arrived);
        if !self.1 {
            self.1 = true;
            arrived.0 += 1;
        }
        if arrived.0 >= barrier.expected {
            for waker in arrived.1.drain(..) {
                waker.wake();
            }
            Poll::Ready(())
        } else {
            arrived.1.push(cx.waker().clone());
            Poll::Pending
        }
    }
}

/// The spawned tasks are actually run in parallel.
#[test]
fn tasks_run_in_parallel() {
    let barrier = Barrier::new(2);
    let barrier = &barrier;
    let result = run(false, |scope| async move {
        let a = scope.spawn(async move { Ok(barrier.wait().await) });
        let b = scope.spawn(async move { Ok(barrier.wait().await) });
        assert!(a.await.is_ok());
        assert!(b.await.is_ok());
        Ok(())
    });
    assert_eq!(result, Ok(()));
}

/// Same as above but with a large number of tasks.
#[test]
fn tasks_run_in_parallel_many() {
    let taskcount = 1024;
    let barrier = Barrier::new(taskcount);
    let barrier = &barrier;
    let result = run(false, |scope| async move {
        for _ in 0..taskcount {
            scope.spawn(async move { Ok(barrier.wait().await) });
        }
        Ok(())
    });
    assert_eq!(result, Ok(()));
    assert_eq!(lock(&barrier.arrived).0, 1024);
}

/// Spawn tasks immediately, during the first poll.
#[test]
fn scope_spawn_immediate() {
    let result = run(false, |scope| async move {
        let a = scope.spawn(async { Ok(1u8) });
        let b = scope.spawn(async { Ok(2u8) });
        assert_eq!(a.await.ok(), Some(1));
        assert_eq!(b.await.ok(), Some(2));
        Ok(())
    });
    assert_eq!(result, Ok(()));
}

fn chain<'s>(scope: Handle<'s>, depth: usize, count: &'s AtomicUsize) -> Task<'s> {
    pin_send(async move {
        count.fetch_add(1, Ordering::SeqCst);
        if depth > 0 {
            let next = chain(scope.clone(), depth - 1, count);
            scope.spawn(async move { Ok(next.await) });
        }
    })
}

/// Spawn new tasks after the main task has completed.
#[test]
fn spawn_late() {
    let count = AtomicUsize::new(0);
    let count = &count;
    let result = run(false, |scope| async move {
        let first = chain(scope.clone(), 7, count);
        scope.spawn(async move { Ok(first.await) });
        Ok(())
    });
    assert_eq!(result, Ok(()));
    assert_eq!(count.load(Ordering::SeqCst), 8);
}

/// Cancelling a task that has no pending poll notifications works as expected.
#[test]
fn scope_spawn_and_cancel() {
    let result = run(false, |scope| async move {
        let handle = scope.spawn(async { Ok(pending::<()>().await) });

        // Ensure the new tasks gets spawned and polled at least once
        yield_now().await;
        yield_now().await;

        handle.abort();
        let error = handle.await.err().expect("cancelled task completed successfully");
        assert!(error.is_cancelled());
        Ok(())
    });
    assert_eq!(result, Ok(()));
}

/// Cancelling a task that was never polled works as expected.
#[test]
fn spawn_and_cancel_immediate() {
    let result = run(false, |scope| async move {
        let handle = scope.spawn(async { Ok(pending::<()>().await) });
        handle.abort();
        let error = handle.await.err().expect("cancelled task completed successfully");
        assert!(error.is_cancelled());
        Ok(())
    });
    assert_eq!(result, Ok(()));
}

/// The panic of a subtask does not propagate when explicitly handled by its handle.
#[test]
fn handled_subtask_panic() {
    let result = run(false, |scope| async move {
        let handle = scope.spawn(async { Err::<(), _>("subtask") });
        let error = handle.await.err().expect("panicking task completed successfully");
        assert!(error.is_panic());
        Ok(())
    });
    assert_eq!(result, Ok(()));
}

/// The error contains the very same payload that the task panicked with.
#[test]
fn handled_subtask_panic_propagates_payload() {
    let result = run(false, |scope| async move {
        let handle = scope.spawn(async { Err::<(), _>("dummy panic") });
        let error = handle.await.err().expect("panicking task completed successfully");
        assert!(error.is_panic());
        assert_eq!(error.into_panic(), "dummy panic");
        Ok(())
    });
    assert_eq!(result, Ok(()));
}

/// The main task still runs to completion even if a subtask panics, and the scope panics if the
/// panic is unhandled.
#[test]
fn unhandled_subtask_panic() {
    let completed = AtomicBool::new(false);
    let done = &completed;
    let result = run(false, |scope| async move {
        scope.spawn(async { Err::<(), _>("subtask") });

        // Ensure the subtask is polled and has a chance to panic.
        yield_now().await;
        yield_now().await;

        done.store(true, Ordering::SeqCst);
        Ok(())
    });
    assert!(result.is_err());
    assert!(completed.load(Ordering::SeqCst));
}

/// The actual payload is propagated when there is an unhandled panic in a subtask.
#[test]
fn unhandled_subtask_panic_propagates_payload() {
    let result = run(false, |scope| async move {
        scope.spawn(async { Err::<(), _>("dummy panic") });
        yield_now().await;
        yield_now().await;
        Ok(())
    });
    assert_eq!(result, Err("dummy panic"));
}

#[test]
fn run_a_few() {
    let text = "test".to_string();
    let text = &text;
    let result = run(false, |scope| async move {
        let timer = scope.sleep(20);
        let a = scope.spawn(async move {
            timer.await;
            Ok(text.clone())
        });
        let timer = scope.sleep(20);
        let b = scope.spawn(async move {
            timer.await;
            Ok(text.clone())
        });
        assert_eq!(a.await.ok().as_deref(), Some("test"));
        assert_eq!(b.await.ok().as_deref(), Some("test"));
        Ok(())
    });
    assert_eq!(result, Ok(()));
}

#[test]
fn basic_spawn_immediate() {
    let result = run(false, |scope| async move {
        let a = scope.spawn(async { Ok(()) });
        let b = scope.spawn(async { Ok(()) });
        let start = Instant::now();
        assert!(a.await.is_ok());
        assert!(start.elapsed() < Duration::from_millis(100), "JoinHandle for task A timed out");
        assert!(b.await.is_ok());
        assert!(start.elapsed() < Duration::from_millis(100), "JoinHandle for task A timed out");
        Ok(())
    });
    assert_eq!(result, Ok(()));
}

async fn pingpong(
    tx: oneshot::Sender<i32>,
    rx: oneshot::Receiver<i32>,
    ping: bool,
) -> Result<i32, Payload> {
    if ping {
        tx.send(1).unwrap();
        Ok(rx.await.unwrap())
    } else {
        let value = rx.await.unwrap();
        tx.send(2).unwrap();
        Ok(value)
    }
}

/// Futures within the window of an ordered buffer are executed concurrently.
#[test]
fn buffered_concurrent() {
    let result = run(false, |scope| async move {
        let (tx1, rx1) = oneshot::channel();
        let (tx2, rx2) = oneshot::channel();

        // These tasks need to be run concurrently to complete.
        let mut stream = Buffered::new((), 2);
        for task in [pingpong(tx1, rx2, true), pingpong(tx2, rx1, false)] {
            let (task, handle) = wrap(task, scope.clone());
            let waker = lock(&scope.0.upgrade().unwrap()).spawn(task);
            if let Some(waker) = waker {
                waker.wake();
            }
            stream.feed(Poll::Ready(Some(handle)));
        }

        for expected in [2, 1] {
            let next = poll_fn(|cx| match stream.poll_next(cx) {
                StreamPoll::Pending => Poll::Pending,
                polled => Poll::Ready(polled),
            });
            assert!(matches!(next.await, StreamPoll::Item(value) if value == expected));
        }
        Ok(())
    });
    assert_eq!(result, Ok(()));
}

/// Futures within the window of an unordered buffer are executed concurrently.
#[test]
fn buffer_unordered_concurrent() {
    let result = run(false, |scope| async move {
        let (tx1, rx1) = oneshot::channel();
        let (tx2, rx2) = oneshot::channel();

        // These tasks need to be run concurrently to complete.
        let mut stream = BufferUnordered::new(2);
        for task in [pingpong(tx1, rx2, true), pingpong(tx2, rx1, false)] {
            let (task, handle) = wrap(task, scope.clone());
            let waker = lock(&scope.0.upgrade().unwrap()).spawn(task);
            if let Some(waker) = waker {
                waker.wake();
            }
            stream.feed(Poll::Ready(Some(handle)));
        }

        for _ in 0..2 {
            let next = poll_fn(|cx| match stream.poll_next(cx) {
                StreamPoll::Pending => Poll::Pending,
                polled => Poll::Ready(polled),
            });
            assert!(matches!(next.await, StreamPoll::Item(1 | 2)));
        }
        Ok(())
    });
    assert_eq!(result, Ok(()));
}

#[test]
fn spawn_immediate_2() {
    let data = "some data to be borrowed".to_string();
    let data = &data;
    let result = run(false, |scope| async move {
        let task_a = scope.spawn(async move { Ok(data.clone()) });
        let task_b = scope.spawn(async move { Ok(data.clone()) });
        assert_eq!(task_a.await.ok().as_ref(), Some(data));
        assert_eq!(task_b.await.ok().as_ref(), Some(data));
        Ok(())
    });
    assert_eq!(result, Ok(()));
}

#[test]
fn spawn_many() {
    let count = AtomicUsize::new(0);
    let count = &count;
    let start = Instant::now();
    let result = run(false, |scope| async move {
        for _ in 0..1024 {
            let timer = scope.sleep(20);
            scope.spawn(async move {
                timer.await;
                count.fetch_add(1, Ordering::SeqCst);
                Ok(())
            });
        }
        Ok(())
    });
    assert!(start.elapsed() < Duration::from_millis(40), "AsyncScope took too long to run");
    assert_eq!(result, Ok(()));
    assert_eq!(count.load(Ordering::SeqCst), 1024);
}

#[test]
fn spawn_many_immediate() {
    let count = AtomicUsize::new(0);
    let count = &count;
    let result = run(false, |scope| async move {
        for _ in 0..1024 {
            scope.spawn(async move {
                count.fetch_add(1, Ordering::SeqCst);
                Ok(())
            });
        }
        Ok(())
    });
    assert_eq!(result, Ok(()));
    assert_eq!(count.load(Ordering::SeqCst), 1024);
}

#[test]
fn basic_spawn_and_cancel() {
    let result = run(false, |scope| async move {
        let timer = scope.sleep(100);
        let handle = scope.spawn(async { Ok(timer.await) });
        scope.sleep(5).await;
        handle.abort();
        let error = handle.await.err().expect("cancelled future completed successfully?");
        assert!(error.is_cancelled());
        Ok(())
    });
    assert_eq!(result, Ok(()));
}

#[test]
fn unhandled_panic_in_subtask() {
    let completed = AtomicBool::new(false);
    let done = &completed;
    let result = run(false, |scope| async move {
        scope.spawn(async { Err::<(), _>("subtask") });
        scope.sleep(10).await;
        done.store(true, Ordering::SeqCst);
        Ok(())
    });
    assert!(result.is_err());
    assert!(completed.load(Ordering::SeqCst));
}

/// The panic of the main task wins over those of the spawned tasks.
#[test]
fn main_panic_wins() {
    let result = run(false, |scope| async move {
        scope.spawn(async { Err::<(), _>("subtask") });
        yield_now().await;
        yield_now().await;
        Err::<(), _>("main")
    });
    assert_eq!(result, Err("main"));
}

/// Of several unhandled panics the first one is kept.
#[test]
fn first_unhandled_panic_is_kept() {
    let result = run(false, |scope| async move {
        scope.spawn(async { Err::<(), _>("first") });
        yield_now().await;
        yield_now().await;
        scope.spawn(async { Err::<(), _>("second") });
        Ok(())
    });
    assert_eq!(result, Err("first"));
}

/// A panic that sits in a handle which is then dropped counts as unhandled.
#[test]
fn panic_in_a_dropped_handle_is_unhandled() {
    let result = run(false, |scope| async move {
        let handle = scope.spawn(async { Err::<(), _>("unseen") });
        yield_now().await;
        yield_now().await;
        yield_now().await;
        drop(handle);
        Ok(())
    });
    assert_eq!(result, Err("unseen"));
}

/// An abort after the task has completed changes nothing.
#[test]
fn abort_after_completion_keeps_the_value() {
    let result = run(false, |scope| async move {
        let handle = scope.spawn(async { Ok(5u8) });
        yield_now().await;
        yield_now().await;
        yield_now().await;
        handle.abort();
        Ok(handle.await.ok())
    });
    assert_eq!(result, Ok(Some(5)));
}

/// A scope that drops its remaining tasks does not wait for them.
#[test]
fn remaining_tasks_are_cancelled_on_exit() {
    let result = run(true, |scope| async move {
        scope.spawn(async { Ok(pending::<()>().await) });
        yield_now().await;
        Ok(3u8)
    });
    assert_eq!(result, Ok(3));
}
