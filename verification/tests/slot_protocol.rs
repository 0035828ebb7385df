//! The slot state machine and the submitter's poll protocol.

use async_uring::ops::{Operations, SubmitPoll, completion_result};
use async_uring::state::{CancelData, OperationState};
use async_uring::Error;

#[test]
fn completion_result_maps_errno() {
    assert_eq!(completion_result(0), Ok(0));
    assert_eq!(completion_result(13), Ok(13));
    assert_eq!(completion_result(i32::MAX), Ok(i32::MAX as u32));
    assert_eq!(completion_result(-1), Err(Error::Io(1)));
    assert_eq!(completion_result(-104), Err(Error::Io(104)));
    assert_eq!(completion_result(i32::MIN), Err(Error::Io(i32::MIN)));
}

#[test]
fn fresh_table_reports_nothing_started() {
    let mut ops = Operations::new_from_size(4);
    assert!(matches!(ops.poll_submit(0), SubmitPoll::NotStarted));
    assert!(matches!(ops.poll_submit(3), SubmitPoll::NotStarted));
}

#[test]
fn started_op_pends_then_completes() {
    let mut ops = Operations::new_from_size(4);
    assert!(ops.start_submit(0, Ok(())).is_ok());
    // in flight: the poll pends
    assert!(matches!(ops.poll_submit(0), SubmitPoll::Pending));
    // the worker routes the completion
    let (notify, dropped) = ops.wake(0, 13);
    assert!(notify);
    assert!(dropped.is_none());
    // the next poll reports it, exactly once
    match ops.poll_submit(0) {
        SubmitPoll::Done(r) => assert_eq!(r, Ok(13)),
        _ => panic!("completed operation not reported"),
    }
    assert!(matches!(ops.poll_submit(0), SubmitPoll::NotStarted));
}

#[test]
fn failed_submit_leaves_shadow_idle() {
    let mut ops = Operations::new_from_size(4);
    let r = ops.start_submit(1, Err(Error::Io(11)));
    assert_eq!(r, Err(Error::Io(11)));
    // the shadow stayed idle: the next poll starts fresh
    assert!(matches!(ops.poll_submit(1), SubmitPoll::NotStarted));
}

#[test]
fn kernel_error_surfaces_once() {
    let mut ops = Operations::new_from_size(4);
    assert!(ops.start_submit(0, Ok(())).is_ok());
    let (notify, dropped) = ops.wake(0, -104);
    assert!(notify);
    assert!(dropped.is_none());
    match ops.poll_submit(0) {
        SubmitPoll::Done(r) => assert_eq!(r, Err(Error::Io(104))),
        _ => panic!("failed operation not reported"),
    }
    assert!(matches!(ops.poll_submit(0), SubmitPoll::NotStarted));
}

#[test]
fn cancellation_retains_payload_until_completion() {
    let mut ops = Operations::new_from_size(4);
    assert!(ops.start_submit(0, Ok(())).is_ok());
    // the owning future is dropped mid-flight: the buffer moves into the slot
    let cancelled = ops.try_cancel(0, CancelData { wake: false, buf: vec![0u8; 64] });
    assert!(cancelled);
    // the slot holds the payload while the kernel may still write the buffer
    match &ops.get(0).unwrap().state {
        OperationState::Cancelled(data) => {
            assert!(!data.wake);
            assert_eq!(data.buf.len(), 64);
        },
        _ => panic!("cancelled slot lost its payload"),
    }
    // the completion arrives: the payload is surrendered, nobody is woken
    let (notify, dropped) = ops.wake(0, 1);
    assert!(!notify, "a cancelled operation must not wake the old waker");
    let data = dropped.expect("the retained buffer must come back for dropping");
    assert_eq!(data.buf.len(), 64);
}

#[test]
fn cancelling_a_finished_op_returns_payload() {
    let mut ops = Operations::new_from_size(4);
    assert!(ops.start_submit(0, Ok(())).is_ok());
    ops.wake(0, 5);
    // too late to cancel: the payload is not stored
    let cancelled = ops.try_cancel(0, CancelData { wake: true, buf: Vec::new() });
    assert!(!cancelled);
    match ops.poll_submit(0) {
        SubmitPoll::Done(r) => assert_eq!(r, Ok(5)),
        _ => panic!("completed operation not reported"),
    }
}
