//! A task and its handle.

use std::task::{Context, Poll};

use async_scope::join::{receive, record_unseen};
use async_scope::scope::ScopeExecutor;
use async_scope::wrapper::{record_undelivered, TaskAbortHandle, WrapFuture};
use async_scope::{JoinError, JoinHandle};
use futures_channel::oneshot;
use futures_util::task::noop_waker;

type Executor = ScopeExecutor<'static, &'static str, u8>;

fn task() -> (WrapFuture<i32, &'static str>, JoinHandle<i32, &'static str, char>) {
    WrapFuture::new('a')
}

#[test]
fn handle_gives_the_value_of_its_task() {
    let waker = noop_waker();
    let mut cx = Context::from_waker(&waker);
    let mut scope = Executor::new();
    let (mut task, mut handle) = task();
    assert_eq!(*handle.abort_handle(), 'a');
    assert!(handle.poll(&mut cx).is_pending());
    assert!(task.poll_finish(Ok(Poll::Pending), &mut scope).is_pending());
    assert!(task.can_finish());
    assert!(handle.poll(&mut cx).is_pending());
    assert!(!handle.is_complete());
    assert!(task.poll_finish(Ok(Poll::Ready(42)), &mut scope).is_ready());
    assert!(!task.can_finish());
    assert!(matches!(handle.poll(&mut cx), Poll::Ready(Ok(42))));
    assert!(handle.is_complete());
    assert_eq!(scope.unhandled_panic(), None);
}

#[test]
fn handle_gives_the_panic_of_its_task() {
    let waker = noop_waker();
    let mut cx = Context::from_waker(&waker);
    let mut scope = Executor::new();
    let (mut task, mut handle) = task();
    assert!(task.poll_finish(Err("oops"), &mut scope).is_ready());
    match handle.poll(&mut cx) {
        Poll::Ready(Err(error)) => assert_eq!(error.into_panic(), "oops"),
        _ => panic!("the panic did not arrive"),
    }
    handle.close(&mut scope);
    assert_eq!(scope.unhandled_panic(), None);
}

#[test]
fn aborted_task_is_cancelled() {
    let waker = noop_waker();
    let mut cx = Context::from_waker(&waker);
    let (mut task, mut handle) = task();
    let mut abort = TaskAbortHandle::new();
    assert!(task.poll_start(&mut abort, 1));
    assert_eq!(abort.abort(), Some(1));
    assert_eq!(abort.abort(), None);
    assert!(!task.poll_start(&mut abort, 2));
    assert!(!task.can_finish());
    assert!(abort.register(3));
    assert_eq!(abort.abort(), None);
    match handle.poll(&mut cx) {
        Poll::Ready(Err(error)) => assert!(error.is_cancelled()),
        _ => panic!("the task was not cancelled"),
    }
}

#[test]
fn undelivered_panic_is_recorded() {
    let mut scope = Executor::new();
    let (mut task, mut handle) = task();
    handle.close(&mut scope);
    drop(handle);
    assert!(task.poll_finish(Err("lost"), &mut scope).is_ready());
    assert_eq!(scope.unhandled_panic(), Some("lost"));
}

#[test]
fn undelivered_value_is_dropped() {
    let mut scope = Executor::new();
    let (mut task, handle) = task();
    drop(handle);
    assert!(task.poll_finish(Ok(Poll::Ready(1)), &mut scope).is_ready());
    assert_eq!(scope.unhandled_panic(), None);
}

#[test]
fn unseen_panic_is_recorded() {
    let mut scope = Executor::new();
    let (mut task, mut handle) = task();
    assert!(task.poll_finish(Err("unseen"), &mut scope).is_ready());
    assert_eq!(scope.unhandled_panic(), None);
    handle.close(&mut scope);
    assert_eq!(scope.unhandled_panic(), Some("unseen"));
}

#[test]
fn finished_task_tells_what_to_send() {
    let (mut sender, mut handle) = task();
    assert!(sender.finish(Ok(Poll::Pending)).is_none());
    let (half, result) = sender.finish(Ok(Poll::Ready(5))).unwrap();
    assert_eq!(result, Ok(5));
    assert!(!sender.can_finish());

    // Nothing was sent, and nothing will be.
    drop(half);
    let waker = noop_waker();
    let mut cx = Context::from_waker(&waker);
    assert!(matches!(handle.poll(&mut cx), Poll::Ready(Err(error)) if error.is_cancelled()));
}

#[test]
fn closed_handle_is_complete() {
    let mut scope = Executor::new();
    let (_task, mut handle) = task();
    handle.close(&mut scope);
    assert!(handle.is_complete());
    handle.close(&mut scope);
    assert!(handle.is_complete());
    assert_eq!(scope.unhandled_panic(), None);
}

#[test]
fn records_only_panics() {
    let mut scope = Executor::new();
    record_undelivered::<u8, _, _>(Ok(()), &mut scope);
    record_undelivered::<u8, _, _>(Err(Ok(1)), &mut scope);
    record_unseen::<u8, _, _>(Ok(Ok(1)), &mut scope);
    record_unseen::<u8, _, _>(Err(oneshot::Canceled), &mut scope);
    assert_eq!(scope.unhandled_panic(), None);
    record_undelivered::<u8, _, _>(Err(Err("a")), &mut scope);
    assert_eq!(scope.unhandled_panic(), Some("a"));
    record_unseen::<u8, _, _>(Ok(Err("b")), &mut scope);
    assert_eq!(scope.unhandled_panic(), Some("b"));
}

#[test]
fn finished_task_is_remembered() {
    let mut abort = TaskAbortHandle::<u8>::new();
    assert!(!abort.is_finished());
    abort.finish();
    assert!(abort.is_finished());

    let (mut aborted, _handle) = task();
    let mut abort = TaskAbortHandle::new();
    assert!(aborted.poll_start(&mut abort, 1));
    abort.abort();
    assert!(!abort.is_finished());
    assert!(!aborted.poll_start(&mut abort, 2));
    assert!(abort.is_finished());
}

/// A panic stays with a handle that is alive.
#[test]
fn panic_waits_in_a_living_handle() {
    let mut scope = Executor::new();
    let (mut task, handle) = task();
    assert!(task.poll_finish(Err("kept"), &mut scope).is_ready());
    assert_eq!(scope.unhandled_panic(), None);
    assert!(!handle.is_complete());
}

#[test]
fn handle_turns_what_it_receives_into_results() {
    assert!(matches!(receive::<u8, u8>(Ok(Ok(1))), Ok(1)));
    assert_eq!(receive::<u8, u8>(Ok(Err(2))).err().map(JoinError::into_panic), Some(2));
    assert!(receive::<u8, u8>(Err(oneshot::Canceled)).err().unwrap().is_cancelled());
}
