//! The worker's routing, registration, close handling and cleanup pipeline.

use async_uring::event::EventData;
use async_uring::ops::{Operations, PollState};
use async_uring::state::CancelData;
use async_uring::Error;
use async_uring::worker::{CleanupPoll, CloseRequest, UringRuntimeWorker, WorkerEffect};

fn register(worker: &mut UringRuntimeWorker, fd: Option<i32>) -> u32 {
    match worker.handle_register(fd, Operations::new_from_size(4)) {
        WorkerEffect::Registered(Ok(id)) => id,
        _ => panic!("registration failed"),
    }
}

fn idle_snapshot(id: u32) -> CloseRequest {
    CloseRequest { id, shadows: vec![PollState::Idle; 4] }
}

#[test]
fn registration_issues_dense_ids() {
    let mut worker = UringRuntimeWorker::new();
    assert_eq!(register(&mut worker, Some(5)), 0);
    assert_eq!(register(&mut worker, Some(6)), 1);
    assert_eq!(register(&mut worker, None), 2);
}

#[test]
fn completion_routes_to_the_slot() {
    let mut worker = UringRuntimeWorker::new();
    let id = register(&mut worker, Some(5));
    // the user task hands a read to the ring on the shared table
    worker
        .resources
        .get_mut(id)
        .ops
        .start_submit(0, Ok(()))
        .unwrap();
    let effect = worker.handle_completion(EventData { resource: id, id: 0 }, 13);
    match effect {
        WorkerEffect::Woke { resource, op, notify, dropped } => {
            assert_eq!(resource, id);
            assert_eq!(op, 0);
            assert!(notify);
            assert!(dropped.is_none());
        },
        _ => panic!("completion not routed"),
    }
}

#[test]
fn unknown_completion_is_dropped_and_the_worker_keeps_going() {
    let mut worker = UringRuntimeWorker::new();
    let effect = worker.handle_completion(EventData { resource: 9, id: 0 }, 1);
    assert!(matches!(effect, WorkerEffect::Dropped { resource: 9, op: 0 }));
    // the worker still takes messages
    assert_eq!(register(&mut worker, Some(5)), 0);
}

#[test]
fn close_at_rest_releases_the_fd_and_the_id_is_reused() {
    let mut worker = UringRuntimeWorker::new();
    let id = register(&mut worker, Some(7));
    match worker.handle_close(&idle_snapshot(id)) {
        WorkerEffect::Removed { resource, fd, kernel_closed } => {
            assert_eq!(resource, id);
            assert_eq!(fd, Some(7));
            assert!(!kernel_closed);
        },
        _ => panic!("resource at rest not released"),
    }
    // a second close of the same id finds nothing: the fd is released once
    assert!(matches!(
        worker.handle_close(&idle_snapshot(id)),
        WorkerEffect::Ignored { .. }
    ));
    // the freed id is handed out again
    assert_eq!(register(&mut worker, Some(8)), id);
}

#[test]
fn mid_read_drop_closes_the_fd_exactly_once() {
    let mut worker = UringRuntimeWorker::new();
    let id = register(&mut worker, Some(9));
    // a read is in flight when the handle is dropped
    worker
        .resources
        .get_mut(id)
        .ops
        .start_submit(0, Ok(()))
        .unwrap();
    let snapshot = CloseRequest {
        id,
        shadows: worker.resources.get_mut(id).ops.shadows.clone(),
    };
    assert!(matches!(
        worker.handle_close(&snapshot),
        WorkerEffect::PushedToCleanup { .. }
    ));
    // the buffers stay alive: the pipeline waits for the completion
    assert!(matches!(worker.advance_cleanup(), CleanupPoll::Pending));
    // the kernel finishes the read
    assert!(matches!(
        worker.handle_completion(EventData { resource: id, id: 0 }, 1),
        WorkerEffect::Woke { .. }
    ));
    // the pipeline finishes its pass over the slots and releases the
    // resource, exactly once
    let mut released = 0;
    for _ in 0..4 {
        if let CleanupPoll::Finished { resource, fd, kernel_closed } = worker.advance_cleanup() {
            assert_eq!(resource, id);
            assert_eq!(fd, Some(9));
            assert!(!kernel_closed);
            released += 1;
        }
    }
    assert_eq!(released, 1, "the fd must be released exactly once");
    assert!(matches!(worker.advance_cleanup(), CleanupPoll::Pending));
    assert!(matches!(
        worker.handle_close(&idle_snapshot(id)),
        WorkerEffect::Ignored { .. }
    ));
}

#[test]
fn double_close_while_draining_is_ignored() {
    let mut worker = UringRuntimeWorker::new();
    let id = register(&mut worker, Some(3));
    worker
        .resources
        .get_mut(id)
        .ops
        .start_submit(1, Ok(()))
        .unwrap();
    let snapshot = CloseRequest {
        id,
        shadows: worker.resources.get_mut(id).ops.shadows.clone(),
    };
    assert!(matches!(
        worker.handle_close(&snapshot),
        WorkerEffect::PushedToCleanup { .. }
    ));
    // the second handle's drop sends another request: nothing happens
    let again = CloseRequest {
        id,
        shadows: worker.resources.get_mut(id).ops.shadows.clone(),
    };
    assert!(matches!(
        worker.handle_close(&again),
        WorkerEffect::Ignored { .. }
    ));
}

#[test]
fn cancelled_read_payload_is_discarded_on_completion() {
    let mut worker = UringRuntimeWorker::new();
    let id = register(&mut worker, Some(4));
    // a read in flight; the owning future is dropped and cancels it
    worker
        .resources
        .get_mut(id)
        .ops
        .start_submit(0, Ok(()))
        .unwrap();
    let cancelled = worker
        .resources
        .get_mut(id)
        .ops
        .try_cancel(0, CancelData { wake: false, buf: vec![0u8; 16] });
    assert!(cancelled);
    // the peer sends one byte: the worker delivers the completion and
    // silently discards the retained buffer
    match worker.handle_completion(EventData { resource: id, id: 0 }, 1) {
        WorkerEffect::Woke { notify, dropped, .. } => {
            assert!(!notify, "nobody is left to wake");
            assert_eq!(dropped.expect("retained buffer surrendered").buf.len(), 16);
        },
        _ => panic!("completion of the cancelled read not delivered"),
    }
    // the drop's close request now finds the resource at rest
    assert!(matches!(
        worker.handle_close(&idle_snapshot(id)),
        WorkerEffect::Removed { fd: Some(4), .. }
    ));
}

#[test]
fn errors_describe_themselves() {
    assert_eq!(Error::Io(11).describe(), "I/O error");
    assert_eq!(
        Error::TooManyResources.describe(),
        "too many resources registered"
    );
    assert_eq!(Error::BufferTooLarge.describe(), "buffer too large");
    assert_eq!(Error::ResourceClosing.describe(), "resource is closing");
    assert_eq!(Error::NoRuntime.describe(), "runtime is dead or unreachable");
}

#[test]
fn stop_is_recorded() {
    let mut worker = UringRuntimeWorker::new();
    assert!(!worker.stopped);
    assert!(matches!(worker.handle_stop(), WorkerEffect::Stopped));
    assert!(worker.stopped);
}
