//! Streams whose work is done by tasks. A task completes when the test says so.

use std::task::{Context, Poll};

use async_scope::scope::ScopeExecutor;
use async_scope::stream::buffer_unordered::{settle, BufferUnordered};
use async_scope::stream::buffered::Buffered;
use async_scope::stream::spawn::{end, Channel, Spawn};
use async_scope::stream::{extend_hint, next_item, StreamPoll};
use async_scope::wrapper::WrapFuture;
use async_scope::{JoinError, JoinHandle};
use futures_channel::oneshot;
use futures_util::task::noop_waker;

type Executor = ScopeExecutor<'static, &'static str, u8>;
type Task<T> = WrapFuture<T, &'static str>;
type Handle<T> = JoinHandle<T, &'static str, u8>;

fn task<T>(id: u8) -> (Task<T>, Handle<T>) {
    WrapFuture::new(id)
}

fn finish<T>(task: &mut Task<T>, scope: &mut Executor, value: T) {
    assert!(task.can_finish());
    assert!(task.poll_finish(Ok(Poll::Ready(value)), scope).is_ready());
}

fn crash<T>(task: &mut Task<T>, scope: &mut Executor, payload: &'static str) {
    assert!(task.can_finish());
    assert!(task.poll_finish(Err(payload), scope).is_ready());
}

/// Results come in the order of the futures, whatever the order in which they complete.
#[test]
fn buffered_out_of_order() {
    let waker = noop_waker();
    let mut cx = Context::from_waker(&waker);
    let mut scope = Executor::new();
    let (mut task1, handle1) = task::<i32>(1);
    let (mut task2, handle2) = task::<i32>(2);

    let mut stream = Buffered::new((), 2);
    assert!(stream.wants_more());
    assert!(stream.feed(Poll::Ready(Some(handle1))));
    assert!(!stream.feed(Poll::Ready(Some(handle2))));

    finish(&mut task2, &mut scope, 1);

    // The second future has resolved but that shouldn't result in the stream returning a value.
    assert!(matches!(stream.poll_next(&mut cx), StreamPoll::Pending));

    finish(&mut task1, &mut scope, 2);
    assert!(matches!(stream.poll_next(&mut cx), StreamPoll::Item(2)));
    assert!(matches!(stream.poll_next(&mut cx), StreamPoll::Item(1)));
    assert!(!stream.feed(Poll::Ready(None)));
    assert!(matches!(stream.poll_next(&mut cx), StreamPoll::End));
}

#[test]
fn buffered_never_exceeds_its_limit() {
    let waker = noop_waker();
    let mut cx = Context::from_waker(&waker);
    let mut scope = Executor::new();
    let mut stream = Buffered::new((), 1);
    let (mut task1, handle1) = task::<u8>(1);
    assert!(!stream.feed(Poll::Ready(Some(handle1))));
    assert!(!stream.wants_more());
    assert_eq!(stream.size_hint((3, Some(4))), (4, Some(5)));
    assert!(!stream.is_terminated());

    finish(&mut task1, &mut scope, 9);
    assert!(matches!(stream.poll_next(&mut cx), StreamPoll::Item(9)));
    assert!(stream.wants_more());
    assert!(!stream.feed(Poll::Pending));
    assert!(stream.wants_more());
    assert!(!stream.feed(Poll::Ready(None)));
    assert!(!stream.wants_more());
    assert!(stream.is_terminated());
}

/// A source that is only pending has not ended, so neither has the stream.
#[test]
fn buffered_waits_for_its_source() {
    let waker = noop_waker();
    let mut cx = Context::from_waker(&waker);
    let mut stream = Buffered::<(), u8, &'static str, u8>::new((), 2);
    assert!(!stream.feed(Poll::Pending));
    assert!(matches!(stream.poll_next(&mut cx), StreamPoll::Pending));
    assert!(!stream.is_terminated());
    assert!(!stream.feed(Poll::Ready(None)));
    assert!(matches!(stream.poll_next(&mut cx), StreamPoll::End));
    assert!(stream.is_terminated());
}

#[test]
fn buffered_takes_any_limit() {
    let stream = Buffered::<(), u8, &'static str, u8>::new((), usize::MAX);
    assert!(stream.wants_more());
    let stream = Buffered::<(), u8, &'static str, u8>::new((), 0);
    assert!(!stream.wants_more());
}

/// A task that panics or is cancelled leaves the buffer, and the next one has its turn.
#[test]
fn buffered_goes_on_after_a_panic() {
    let waker = noop_waker();
    let mut cx = Context::from_waker(&waker);
    let mut scope = Executor::new();
    let (mut task1, handle1) = task::<u8>(1);
    let (task2, handle2) = task::<u8>(2);
    let (mut task3, handle3) = task::<u8>(3);
    let mut stream = Buffered::new((), 3);
    assert!(stream.feed(Poll::Ready(Some(handle1))));
    assert!(stream.feed(Poll::Ready(Some(handle2))));
    assert!(!stream.feed(Poll::Ready(Some(handle3))));
    crash(&mut task1, &mut scope, "one");
    drop(task2);
    finish(&mut task3, &mut scope, 30);
    assert!(matches!(stream.poll_next(&mut cx), StreamPoll::Panic("one")));
    assert!(matches!(stream.poll_next(&mut cx), StreamPoll::Cancelled));
    assert!(matches!(stream.poll_next(&mut cx), StreamPoll::Item(30)));
}

/// A dropped stream gives out the means to abort its tasks, and leaves no panic unseen.
#[test]
fn buffered_gives_out_all_tasks_when_dropped() {
    let mut scope = Executor::new();
    let mut stream = Buffered::new('s', 3);
    let (mut task1, handle1) = task::<u8>(10);
    let (mut task2, handle2) = task::<u8>(20);
    let (mut task3, handle3) = task::<u8>(30);
    stream.feed(Poll::Ready(Some(handle1)));
    stream.feed(Poll::Ready(Some(handle2)));
    stream.feed(Poll::Ready(Some(handle3)));
    finish(&mut task1, &mut scope, 1);
    crash(&mut task2, &mut scope, "two");
    assert_eq!(scope.unhandled_panic(), None);
    assert_eq!(stream.cancel(&mut scope), vec![10, 20, 30]);
    assert_eq!(scope.unhandled_panic(), Some("two"));
    assert_eq!(stream.size_hint((0, Some(0))), (0, Some(0)));

    // The stream is gone, so a task that still panics is recorded by itself.
    crash(&mut task3, &mut scope, "three");
    assert_eq!(scope.unhandled_panic(), Some("three"));
}

#[test]
fn buffered_gives_access_to_its_source() {
    let mut stream = Buffered::<Vec<u8>, u8, &'static str, u8>::new(vec![1], 2);
    assert_eq!(stream.get_ref(), &vec![1]);
    stream.get_mut().push(2);
    assert_eq!(stream.get_ref(), &vec![1, 2]);
    assert!(stream.wants_more());
}

/// Results can come out of order.
#[test]
fn buffer_unordered_out_of_order() {
    let waker = noop_waker();
    let mut cx = Context::from_waker(&waker);
    let mut scope = Executor::new();
    let (mut task1, handle1) = task::<i32>(1);
    let (mut task2, handle2) = task::<i32>(2);
    let mut stream = BufferUnordered::new(2);
    assert!(stream.feed(Poll::Ready(Some(handle1))));
    assert!(!stream.feed(Poll::Ready(Some(handle2))));

    finish(&mut task2, &mut scope, 1);
    assert!(matches!(stream.poll_next(&mut cx), StreamPoll::Item(1)));
    finish(&mut task1, &mut scope, 2);
    assert!(matches!(stream.poll_next(&mut cx), StreamPoll::Item(2)));
    assert!(stream.wants_more());
    assert!(!stream.feed(Poll::Ready(None)));
    assert!(matches!(stream.poll_next(&mut cx), StreamPoll::End));
    assert!(stream.is_terminated());
}

/// Futures outside of the buffered window are not executed until some space clears up in it.
#[test]
fn out_of_window() {
    let waker = noop_waker();
    let mut cx = Context::from_waker(&waker);
    let mut scope = Executor::new();
    let (mut task1, handle1) = task::<i32>(1);
    let (mut task2, handle2) = task::<i32>(2);
    let (mut task3, handle3) = task::<i32>(3);
    let mut stream = BufferUnordered::new(2);
    assert!(stream.feed(Poll::Ready(Some(handle1))));
    assert!(!stream.feed(Poll::Ready(Some(handle2))));

    // The third task is outside of the buffer so it should not resolve.
    finish(&mut task3, &mut scope, 1);
    assert!(!stream.wants_more());
    assert!(matches!(stream.poll_next(&mut cx), StreamPoll::Pending));

    finish(&mut task2, &mut scope, 2);
    assert!(matches!(stream.poll_next(&mut cx), StreamPoll::Item(2)));

    // And now the newly added future can resolve too.
    assert!(stream.wants_more());
    assert!(!stream.feed(Poll::Ready(Some(handle3))));
    assert!(matches!(stream.poll_next(&mut cx), StreamPoll::Item(1)));

    finish(&mut task1, &mut scope, 3);
    assert!(matches!(stream.poll_next(&mut cx), StreamPoll::Item(3)));
    assert!(!stream.feed(Poll::Ready(None)));
    assert!(matches!(stream.poll_next(&mut cx), StreamPoll::End));
}

#[test]
fn buffer_unordered_counts_its_tasks() {
    let waker = noop_waker();
    let mut cx = Context::from_waker(&waker);
    let mut scope = Executor::new();
    let (_task1, handle1) = task::<u8>(1);
    let (mut task2, handle2) = task::<u8>(2);
    let mut stream = BufferUnordered::new(2);
    assert!(stream.feed(Poll::Ready(Some(handle1))));
    assert!(!stream.feed(Poll::Ready(Some(handle2))));
    assert!(!stream.wants_more());
    assert_eq!(stream.size_hint((1, Some(usize::MAX))), (3, None));
    crash(&mut task2, &mut scope, "two");
    assert!(matches!(stream.poll_next(&mut cx), StreamPoll::Panic("two")));
    assert!(stream.wants_more());
    assert_eq!(stream.size_hint((1, Some(2))), (2, Some(3)));
    assert!(matches!(stream.poll_next(&mut cx), StreamPoll::Pending));
    assert_eq!(*stream.handles(), vec![1, 2]);
    stream.forget(&vec![false, true]);
    assert_eq!(*stream.handles(), vec![1]);
    assert!(!stream.feed(Poll::Ready(None)));
    assert!(!stream.is_terminated());
    assert_eq!(stream.cancel(&mut scope), vec![1]);
    assert_eq!(scope.unhandled_panic(), None);
    assert_eq!(stream.size_hint((0, Some(0))), (0, Some(0)));
    assert!(stream.is_terminated());
    assert!(matches!(stream.poll_next(&mut cx), StreamPoll::End));
}

/// A source that is only pending has not ended, so neither has the stream.
#[test]
fn buffer_unordered_waits_for_its_source() {
    let waker = noop_waker();
    let mut cx = Context::from_waker(&waker);
    let mut stream = BufferUnordered::<u8, &'static str, u8>::new(2);
    assert!(!stream.feed(Poll::Pending));
    assert!(matches!(stream.poll_next(&mut cx), StreamPoll::Pending));
    assert!(!stream.is_terminated());
    assert!(!stream.feed(Poll::Ready(None)));
    assert!(matches!(stream.poll_next(&mut cx), StreamPoll::End));
}

/// A dropped stream leaves no panic unseen.
#[test]
fn buffer_unordered_gives_out_all_tasks_when_dropped() {
    let mut scope = Executor::new();
    let (mut task1, handle1) = task::<u8>(1);
    let (mut task2, handle2) = task::<u8>(2);
    let mut stream = BufferUnordered::new(2);
    stream.feed(Poll::Ready(Some(handle1)));
    stream.feed(Poll::Ready(Some(handle2)));
    crash(&mut task2, &mut scope, "two");
    assert_eq!(scope.unhandled_panic(), None);
    assert_eq!(stream.cancel(&mut scope), vec![1, 2]);
    assert_eq!(scope.unhandled_panic(), Some("two"));

    // The stream is gone, so a task that still panics is recorded by itself.
    crash(&mut task1, &mut scope, "one");
    assert_eq!(scope.unhandled_panic(), Some("one"));
}

#[test]
fn buffer_unordered_settles_what_a_task_came_to() {
    assert!(matches!(settle::<u8, u8>(Poll::Pending, false), StreamPoll::Pending));
    assert!(matches!(settle::<u8, u8>(Poll::Ready(None), false), StreamPoll::End));
    assert!(matches!(settle::<u8, u8>(Poll::Ready(None), true), StreamPoll::Pending));
    assert!(matches!(settle::<u8, u8>(Poll::Ready(Some(Ok(Ok(1)))), true), StreamPoll::Item(1)));
    assert!(matches!(
        settle::<u8, u8>(Poll::Ready(Some(Ok(Err(5)))), true),
        StreamPoll::Panic(5)
    ));
    assert!(matches!(
        settle::<u8, u8>(Poll::Ready(Some(Err(oneshot::Canceled))), true),
        StreamPoll::Cancelled
    ));
}

#[test]
fn hints_saturate_or_vanish() {
    assert_eq!(extend_hint((usize::MAX, Some(usize::MAX)), 1), (usize::MAX, None));
    assert_eq!(extend_hint((1, Some(2)), 3), (4, Some(5)));
    assert_eq!(extend_hint((1, None), 3), (4, None));
}

#[test]
fn items_follow_what_tasks_came_to() {
    assert!(matches!(next_item::<u8, u8>(Ok(1)), StreamPoll::Item(1)));
    assert!(matches!(next_item::<u8, u8>(Err(JoinError::panicked(2))), StreamPoll::Panic(2)));
    assert!(matches!(next_item::<u8, u8>(Err(JoinError::cancelled())), StreamPoll::Cancelled));
}

#[test]
fn channel_gives_values_in_order() {
    let mut channel = Channel::<u8, &str>::new(2);
    assert_eq!(channel.push(1), None);
    assert!(channel.poll_push("producer").is_ready());
    channel.push(2);
    assert!(channel.poll_push("producer").is_ready());
    channel.push(3);
    assert!(channel.poll_push("producer").is_pending());
    assert_eq!(channel.poll_pop("consumer"), (Poll::Ready(1), Some("producer")));
    assert!(channel.poll_push("producer").is_ready());
    assert_eq!(channel.poll_pop("consumer"), (Poll::Ready(2), Some("producer")));
    assert_eq!(channel.poll_pop("consumer"), (Poll::Ready(3), None));
    assert_eq!(channel.poll_pop("consumer"), (Poll::Pending, None));
    assert_eq!(channel.push(4), Some("consumer"));
    assert_eq!(channel.poll_pop("consumer"), (Poll::Ready(4), None));
}

/// With a limit of 0 the producer waits for each value to be taken, and is woken then.
#[test]
fn channel_without_buffer_synchronizes() {
    let mut channel = Channel::<u8, &str>::new(0);
    assert_eq!(channel.poll_pop("consumer"), (Poll::Pending, None));
    assert_eq!(channel.push(1), Some("consumer"));
    assert!(channel.poll_push("producer").is_pending());
    assert_eq!(channel.poll_pop("consumer"), (Poll::Ready(1), Some("producer")));
    assert!(channel.poll_push("producer").is_ready());
}

#[test]
fn channel_takes_any_limit() {
    let mut channel = Channel::<u8, u8>::new(usize::MAX);
    channel.push(1);
    assert!(channel.poll_push(0).is_ready());
    assert_eq!(channel.poll_pop(0), (Poll::Ready(1), Some(0)));
}

/// The panic of the task comes at the proper point in the stream and not before.
#[test]
fn panic_after_n() {
    let waker = noop_waker();
    let mut cx = Context::from_waker(&waker);
    let mut scope = Executor::new();
    let mut channel = Channel::<(), &str>::new(4);
    let (mut task, handle) = task::<()>(1);
    let mut stream = Spawn::new(handle);
    for index in 0..10 {
        if index == 3 {
            crash(&mut task, &mut scope, "three");
            break;
        }
        channel.push(());
        assert!(channel.poll_push("producer").is_ready());
    }

    assert!(matches!(stream.poll_next(&mut channel, "", &mut cx).0, StreamPoll::Item(())));
    assert!(matches!(stream.poll_next(&mut channel, "", &mut cx).0, StreamPoll::Item(())));
    assert!(matches!(stream.poll_next(&mut channel, "", &mut cx).0, StreamPoll::Item(())));
    assert!(!stream.is_complete());
    assert!(matches!(stream.poll_next(&mut channel, "", &mut cx).0, StreamPoll::Panic("three")));
    assert!(stream.is_complete());
}

#[test]
fn spawned_stream_ends_with_its_task() {
    let waker = noop_waker();
    let mut cx = Context::from_waker(&waker);
    let mut scope = Executor::new();
    let mut channel = Channel::<u8, &str>::new(1);
    let (mut task, handle) = task::<()>(1);
    let mut stream = Spawn::new(handle);
    assert!(matches!(
        stream.poll_next(&mut channel, "consumer", &mut cx),
        (StreamPoll::Pending, None)
    ));
    assert_eq!(channel.push(6), Some("consumer"));
    assert!(channel.poll_push("producer").is_ready());
    finish(&mut task, &mut scope, ());
    assert!(matches!(
        stream.poll_next(&mut channel, "consumer", &mut cx),
        (StreamPoll::Item(6), Some("producer"))
    ));
    assert!(matches!(
        stream.poll_next(&mut channel, "consumer", &mut cx),
        (StreamPoll::End, None)
    ));
    assert!(stream.is_complete());
    assert_eq!(stream.cancel(&mut scope), 1);
    assert_eq!(scope.unhandled_panic(), None);
}

/// A dropped stream leaves no panic unseen.
#[test]
fn dropped_spawned_stream_records_its_panic() {
    let mut scope = Executor::new();
    let (mut task, handle) = task::<()>(4);
    let stream = Spawn::new(handle);
    crash(&mut task, &mut scope, "unseen");
    assert_eq!(stream.cancel(&mut scope), 4);
    assert_eq!(scope.unhandled_panic(), Some("unseen"));
}

/// The producer gets as many values ahead as the limit allows.
#[test]
fn producer_gets_ahead() {
    let mut channel = Channel::<u8, u8>::new(3);
    for value in 0..3 {
        channel.push(value);
        assert!(channel.poll_push(0).is_ready());
    }
    channel.push(3);
    assert!(channel.poll_push(0).is_pending());
}

#[test]
fn streams_end_as_their_tasks_do() {
    assert!(matches!(end::<u8, u8>(Poll::Pending), StreamPoll::Pending));
    assert!(matches!(end::<u8, u8>(Poll::Ready(Ok(()))), StreamPoll::End));
    assert!(matches!(end::<u8, u8>(Poll::Ready(Err(JoinError::panicked(1)))), StreamPoll::Panic(1)));
    assert!(matches!(
        end::<u8, u8>(Poll::Ready(Err(JoinError::cancelled()))),
        StreamPoll::Cancelled
    ));
}
