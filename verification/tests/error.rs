//! Errors and options.

use async_scope::{JoinError, Options};

#[test]
fn cancelled_error_holds_no_panic() {
    let error = JoinError::<u8>::cancelled();
    assert!(error.is_cancelled());
    assert!(!error.is_panic());
    assert_eq!(error.message(), "task was cancelled");
    assert_eq!(error.debug_name(), "Cancelled");
    let error = error.try_into_panic().err().unwrap();
    assert!(error.is_cancelled());
}

#[test]
fn panic_error_holds_its_payload() {
    let error = JoinError::panicked(7u8);
    assert!(error.is_panic());
    assert!(!error.is_cancelled());
    assert_eq!(error.message(), "task panicked");
    assert_eq!(error.debug_name(), "Panic(..)");
    assert_eq!(error.try_into_panic().ok(), Some(7));
    assert_eq!(JoinError::panicked("text").into_panic(), "text");
}

#[test]
fn any_payload_can_be_carried() {
    let payload: Box<dyn std::any::Any + Send> = Box::new(5i32);
    let payload = JoinError::panicked(payload).into_panic();
    assert_eq!(payload.downcast_ref::<i32>(), Some(&5));
}

#[test]
fn options_are_set_one_by_one() {
    let text = format!("{:?}", Options::new());
    assert_eq!(text, format!("{:?}", Options::default()));
    assert!(text.contains("catch_panics: true"));
    assert!(text.contains("cancel_remaining_tasks_on_exit: false"));
    assert!(text.contains("max_polls_without_yield: 128"));

    let options = Options::new()
        .max_polls_without_yield(5)
        .catch_panics(false)
        .cancel_remaining_tasks_on_exit(true);
    let text = format!("{:?}", options.clone());
    assert!(text.contains("catch_panics: false"));
    assert!(text.contains("cancel_remaining_tasks_on_exit: true"));
    assert!(text.contains("max_polls_without_yield: 5"));
}
