//! The building blocks.

use std::task::Poll;

use async_scope::exports::SmuggleDataIntoBlock;
use async_scope::util::cell::{OneshotCell, TakeError};
use async_scope::util::complete::RequirePending;
use async_scope::util::split_arc::Full;
use async_scope::util::sync::SyncWrapper;
use async_scope::util::uncontended::Uncontended;
use async_scope::util::variance::{Covariant, Invariant};
use async_scope::util::waker::WakerSlot;

#[test]
fn cell_passes_one_value() {
    let mut cell = OneshotCell::<u8, char>::new();
    assert!(!cell.is_complete());
    assert_eq!(cell.take(), Err(TakeError::Pending));
    assert_eq!(cell.poll_take('w'), Poll::Pending);
    assert_eq!(cell.store(1), Ok(Some('w')));
    assert!(cell.is_complete());
    assert_eq!(cell.store(2), Err(2));
    assert_eq!(cell.close(), (false, None));
    assert_eq!(cell.take(), Ok(1));
    assert_eq!(cell.take(), Err(TakeError::Closed));
    assert_eq!(cell.store(3), Err(3));
    assert_eq!(cell.poll_take('x'), Poll::Ready(None));
    assert!(cell.is_complete());
}

#[test]
fn cell_is_polled_for_its_value() {
    let mut cell = OneshotCell::<u8, char>::new();
    assert_eq!(cell.store(4), Ok(None));
    assert_eq!(cell.poll_take('w'), Poll::Ready(Some(4)));
}

#[test]
fn closed_cell_takes_no_value() {
    let mut cell = OneshotCell::<u8, char>::new();
    assert_eq!(cell.poll_take('w'), Poll::Pending);
    assert_eq!(cell.close(), (true, Some('w')));
    assert_eq!(cell.close(), (false, None));
    assert_eq!(cell.store(1), Err(1));
    assert_eq!(cell.take(), Err(TakeError::Closed));
    assert_eq!(cell.poll_take('w'), Poll::Ready(None));
}

#[test]
fn cell_is_locked_while_a_store_goes_on() {
    let mut cell = OneshotCell::<u8, char>::new();
    assert!(cell.begin_store());
    assert!(!cell.begin_store());
    assert!(!cell.is_complete());
    assert_eq!(cell.close(), (false, None));
    assert_eq!(cell.take(), Err(TakeError::Pending));
    assert_eq!(cell.store(5), Err(5));
    assert_eq!(cell.finish_store(6), None);
    assert_eq!(cell.take(), Ok(6));
}

#[test]
fn shared_value_goes_with_the_last_full_handle() {
    let mut shared = Full::new("header", "value");
    assert_eq!(*Full::value(&shared), "value");
    assert_eq!(*Full::header(&shared), "header");
    Full::downgrade(&mut shared);
    Full::add_full(&mut shared);
    Full::add_partial(&mut shared);
    assert_eq!(Full::drop_full(&mut shared), (None, None));
    assert_eq!(*Full::value(&shared), "value");
    assert_eq!(Full::drop_full(&mut shared), (Some("value"), None));
    assert_eq!(*Full::header(&shared), "header");
    assert_eq!(Full::drop_partial(&mut shared), None);
    assert_eq!(Full::drop_partial(&mut shared), Some("header"));
}

#[test]
fn last_handle_drops_both_values() {
    let mut shared = Full::new(1u8, 2u8);
    assert_eq!(Full::drop_full(&mut shared), (Some(2), Some(1)));
}

#[test]
fn two_full_handles_are_dropped_in_turns() {
    let mut shared = Full::new(1u8, 2u8);
    Full::add_full(&mut shared);
    assert_eq!(Full::release_value(&mut shared), None);
    assert_eq!(Full::release_value(&mut shared), Some(2));
    assert_eq!(Full::release_header(&mut shared), None);
    assert_eq!(Full::release_header(&mut shared), Some(1));
}

#[test]
fn uncontended_value_is_lent_once() {
    let mut cell = Uncontended::new(vec![1]);
    assert!(!cell.is_locked());
    let mut value = cell.lock();
    assert!(cell.is_locked());
    value.push(2);
    cell.unlock(value);
    assert!(!cell.is_locked());
    assert_eq!(cell.lock(), vec![1, 2]);
}

#[test]
fn completed_future_is_remembered() {
    let mut check = RequirePending::new();
    assert!(!check.is_ready());
    check.set_ready();
    assert!(check.is_ready());
    check.set_ready();
    assert!(check.is_ready());
    assert!(!RequirePending::default().is_ready());
}

#[test]
fn waker_is_handed_out_once() {
    let mut slot = WakerSlot::new();
    assert_eq!(slot.take(), None);
    slot.register(1u8);
    slot.register(2u8);
    assert_eq!(slot.take(), Some(2));
    assert_eq!(slot.take(), None);
}

#[test]
fn wrapped_values_come_back() {
    assert_eq!(SyncWrapper::new(5).into_inner(), 5);
    assert_eq!(SmuggleDataIntoBlock("text").into_inner(), "text");
}

#[test]
fn markers_have_one_value() {
    assert_eq!(format!("{:?}", Invariant::new()), format!("{:?}", Invariant::default()));
    assert_eq!(format!("{:?}", Covariant::new()), format!("{:?}", Covariant::default()));
}
