//! The executor, with futures that are ready or never will be.

use std::future::pending;
use std::sync::atomic::{AtomicUsize, Ordering};
use std::sync::Arc;
use std::task::{Context, Poll};

use async_scope::executor::Executor;
use async_scope::exports::pin_send;
use async_scope::outside::Task;
use async_scope::scope::{Scope, ScopeExecutor, ScopePoll};
use async_scope::wrapper::WrapFuture;
use async_scope::JoinError;
use futures_util::task::noop_waker;
use futures_util::StreamExt;

/// Polls all tasks of an executor once, as its owner does.
fn poll<W>(executor: &mut Executor<'_, W>, waker: W, cx: &mut Context<'_>) -> (Poll<()>, bool) {
    let mut set = executor.poll_start(waker);
    let polled = set.poll_next_unpin(cx);
    executor.poll_finish(set, polled)
}

fn count<'a>(counter: &Arc<AtomicUsize>) -> Task<'a> {
    let counter = counter.clone();
    pin_send(async move {
        counter.fetch_add(1, Ordering::SeqCst);
    })
}

#[test]
fn empty_executor_is_ready() {
    let waker = noop_waker();
    let mut cx = Context::from_waker(&waker);
    let mut executor = Executor::<u8>::new();
    assert_eq!(poll(&mut executor, 1, &mut cx), (Poll::Ready(()), false));
}

#[test]
fn spawned_task_is_queued_before_it_runs() {
    let waker = noop_waker();
    let mut cx = Context::from_waker(&waker);
    let counter = Arc::new(AtomicUsize::new(0));
    let mut executor = Executor::new();
    assert_eq!(executor.spawn(count(&counter)), None);

    // The task is only added now, so the executor has to be polled again.
    assert_eq!(poll(&mut executor, 1, &mut cx), (Poll::Pending, true));
    assert_eq!(counter.load(Ordering::SeqCst), 0);

    // One task completes, so there may be more.
    assert_eq!(poll(&mut executor, 2, &mut cx), (Poll::Pending, true));
    assert_eq!(counter.load(Ordering::SeqCst), 1);

    assert_eq!(poll(&mut executor, 3, &mut cx), (Poll::Ready(()), false));
}

#[test]
fn directly_spawned_task_runs_at_once() {
    let waker = noop_waker();
    let mut cx = Context::from_waker(&waker);
    let counter = Arc::new(AtomicUsize::new(0));
    let mut executor = Executor::new();
    executor.spawn_direct(count(&counter));
    executor.spawn_direct(count(&counter));
    assert_eq!(poll(&mut executor, 1, &mut cx), (Poll::Pending, true));
    assert_eq!(poll(&mut executor, 1, &mut cx), (Poll::Pending, true));
    assert_eq!(poll(&mut executor, 1, &mut cx), (Poll::Ready(()), false));
    assert_eq!(counter.load(Ordering::SeqCst), 2);
}

#[test]
fn pending_task_keeps_the_executor_pending() {
    let waker = noop_waker();
    let mut cx = Context::from_waker(&waker);
    let mut executor = Executor::new();
    executor.spawn_direct(pin_send(pending::<()>()));
    let mut set = executor.poll_start(1);
    let polled = set.poll_next_unpin(&mut cx);
    assert_eq!(polled, Poll::Pending);
    assert_eq!(set.len(), 1);
    assert_eq!(executor.poll_finish(set, polled), (Poll::Pending, false));

    executor.clear();
    assert_eq!(poll(&mut executor, 1, &mut cx), (Poll::Ready(()), false));
}

#[test]
fn clearing_drops_all_tasks() {
    let counter = Arc::new(AtomicUsize::new(0));
    let mut executor = Executor::<u8>::new();
    executor.spawn_direct(count(&counter));
    executor.spawn(count(&counter));
    assert_eq!(Arc::strong_count(&counter), 3);
    executor.clear();
    assert_eq!(Arc::strong_count(&counter), 1);
    let set = executor.poll_start(1);
    assert_eq!(executor.poll_finish(set, Poll::Ready(None)), (Poll::Ready(()), false));
}

#[test]
fn spawning_wakes_the_last_poll_once() {
    let counter = Arc::new(AtomicUsize::new(0));
    let mut executor = Executor::new();
    let set = executor.poll_start(7);
    assert!(executor.is_polling());
    assert_eq!(executor.spawn(count(&counter)), Some(7));
    assert_eq!(executor.spawn(count(&counter)), None);
    assert_eq!(executor.poll_finish(set, Poll::Ready(None)), (Poll::Pending, true));
    assert!(!executor.is_polling());

    let set = executor.poll_start(8);
    assert_eq!(set.len(), 2);
}

#[test]
fn boxed_future_gives_the_same_value() {
    let waker = noop_waker();
    let mut cx = Context::from_waker(&waker);
    let text = "borrowed".to_string();
    let mut future = pin_send(async { text.as_str() });
    assert_eq!(std::future::Future::poll(std::pin::Pin::new(&mut future), &mut cx), Poll::Ready("borrowed"));
}

#[test]
fn first_panic_is_kept() {
    let mut scope = ScopeExecutor::<u8, u8>::new();
    assert_eq!(scope.unhandled_panic(), None);
    scope.set_unhandled_panic(1);
    scope.set_unhandled_panic(2);
    assert_eq!(scope.unhandled_panic(), Some(1));
    assert_eq!(scope.unhandled_panic(), None);
}

#[test]
fn scope_executor_runs_its_tasks() {
    let waker = noop_waker();
    let mut cx = Context::from_waker(&waker);
    let counter = Arc::new(AtomicUsize::new(0));
    let mut scope = ScopeExecutor::<u8, u8>::new();
    scope.spawn_direct(count(&counter));
    assert!(!scope.is_polling());
    let mut set = scope.poll_start(4);
    assert!(scope.is_polling());
    assert_eq!(scope.spawn(count(&counter)), Some(4));
    let polled = set.poll_next_unpin(&mut cx);
    assert_eq!(polled, Poll::Ready(Some(())));
    assert_eq!(scope.poll_finish(set, polled), (Poll::Pending, true));
    scope.clear();
    let set = scope.poll_start(5);
    assert_eq!(set.len(), 0);
    assert_eq!(counter.load(Ordering::SeqCst), 1);
}

#[test]
fn scope_resolves_by_its_main_task() {
    let mut scope = ScopeExecutor::<u8, u8>::new();
    assert!(matches!(Scope::<u8, u8, ()>::resolve(Poll::Pending, &mut scope), ScopePoll::Pending));
    assert!(matches!(
        Scope::<u8, u8, ()>::resolve(Poll::Ready(Ok(1)), &mut scope),
        ScopePoll::Ready(1)
    ));
    scope.set_unhandled_panic(9);
    assert!(matches!(
        Scope::<u8, u8, ()>::resolve(Poll::Ready(Err(JoinError::panicked(2))), &mut scope),
        ScopePoll::Panic(2)
    ));
    assert!(matches!(
        Scope::<u8, u8, ()>::resolve(Poll::Ready(Err(JoinError::cancelled())), &mut scope),
        ScopePoll::Cancelled
    ));
    assert!(matches!(
        Scope::<u8, u8, ()>::resolve(Poll::Ready(Ok(1)), &mut scope),
        ScopePoll::Panic(9)
    ));
    assert!(matches!(
        Scope::<u8, u8, ()>::resolve(Poll::Ready(Ok(1)), &mut scope),
        ScopePoll::Ready(1)
    ));
}

#[test]
fn scope_waits_for_its_tasks_by_default() {
    let waker = noop_waker();
    let mut cx = Context::from_waker(&waker);
    let mut state = ScopeExecutor::<u8, u8>::new();
    let (mut task, main) = WrapFuture::<u8, u8>::new(());
    let mut scope = Scope::new(&mut state, pin_send(pending::<()>()), main);
    assert!(task.poll_finish(Ok(Poll::Ready(3)), &mut state).is_ready());

    assert!(matches!(scope.poll(Poll::Pending, &mut state, &mut cx), ScopePoll::Pending));
    assert!(!scope.is_complete());
    scope.cancel_remaining_tasks_on_exit(true);
    assert!(matches!(scope.poll(Poll::Pending, &mut state, &mut cx), ScopePoll::Ready(3)));
    assert!(scope.is_complete());
}
