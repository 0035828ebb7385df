//! The user-facing handles: echo, end of stream, split halves, closing,
//! and the stopped runtime.

use async_uring::event::EventData;
use async_uring::handles::{
    IoPoll, NopStream, OpCode, TcpStream, CLOSE_OP_ID, READ_OP_ID, WRITE_OP_ID,
};
use async_uring::ops::Operations;
use async_uring::resource::Resource;
use async_uring::worker::{CloseRequest, UringRuntimeWorker, WorkerEffect};
use async_uring::Error;

fn tcp_handle(id: u32, fd: i32) -> TcpStream {
    TcpStream::new(Resource::new(id, Operations::new_from_size(4), false), fd)
}

#[test]
fn echo_reads_back_the_thirteen_bytes() {
    let payload = b"Hello, world!";
    assert_eq!(payload.len(), 13);
    let mut server = tcp_handle(0, 5);

    // the server's read goes to the ring
    let mut buf = vec![0u8; 1024];
    match server.poll_read(true, buf.len(), Ok(())) {
        IoPoll::Submitted(d) => {
            assert_eq!(d.op, OpCode::Recv);
            assert_eq!(d.fd, 5);
            assert_eq!(d.len, 1024);
            assert_eq!(
                d.user_data,
                EventData { resource: 0, id: READ_OP_ID }.encode()
            );
        },
        _ => panic!("fresh read not submitted"),
    }
    // the peer's thirteen bytes arrive; the worker wakes the slot
    server.resource.ops.wake(READ_OP_ID, 13);
    match server.poll_read(true, buf.len(), Ok(())) {
        IoPoll::Ready(r) => assert_eq!(r, Ok(13)),
        _ => panic!("finished read not reported"),
    }
    buf[..13].copy_from_slice(payload);

    // the server writes the same bytes back
    match server.poll_write(true, 13, Ok(())) {
        IoPoll::Submitted(d) => {
            assert_eq!(d.op, OpCode::Send);
            assert_eq!(d.len, 13);
            assert_eq!(
                d.user_data,
                EventData { resource: 0, id: WRITE_OP_ID }.encode()
            );
        },
        _ => panic!("fresh write not submitted"),
    }
    server.resource.ops.wake(WRITE_OP_ID, 13);
    match server.poll_write(true, 13, Ok(())) {
        IoPoll::Ready(r) => assert_eq!(r, Ok(13)),
        _ => panic!("finished write not reported"),
    }
}

#[test]
fn end_of_stream_is_a_zero_count() {
    let mut server = tcp_handle(0, 5);
    assert!(matches!(server.poll_read(true, 512, Ok(())), IoPoll::Submitted(_)));
    // the peer closed: the kernel reports zero bytes
    server.resource.ops.wake(READ_OP_ID, 0);
    match server.poll_read(true, 512, Ok(())) {
        IoPoll::Ready(r) => assert_eq!(r, Ok(0)),
        _ => panic!("end of stream not reported"),
    }
}

#[test]
fn reads_pend_while_in_flight() {
    let mut server = tcp_handle(0, 5);
    assert!(matches!(server.poll_read(true, 512, Ok(())), IoPoll::Submitted(_)));
    assert!(matches!(server.poll_read(true, 512, Ok(())), IoPoll::Pending));
    assert!(matches!(server.poll_read(true, 512, Ok(())), IoPoll::Pending));
}

#[test]
fn oversized_buffer_is_refused() {
    if let Some(too_big) = (u32::MAX as usize).checked_add(1) {
        let mut server = tcp_handle(0, 5);
        match server.poll_read(true, too_big, Ok(())) {
            IoPoll::Ready(r) => assert_eq!(r, Err(Error::BufferTooLarge)),
            _ => panic!("oversized read not refused"),
        }
        match server.poll_write(true, too_big, Ok(())) {
            IoPoll::Ready(r) => assert_eq!(r, Err(Error::BufferTooLarge)),
            _ => panic!("oversized write not refused"),
        }
    }
}

#[test]
fn submit_error_surfaces_and_the_slot_recovers() {
    let mut server = tcp_handle(0, 5);
    match server.poll_read(true, 512, Err(Error::Io(11))) {
        IoPoll::Ready(r) => assert_eq!(r, Err(Error::Io(11))),
        _ => panic!("submit error not surfaced"),
    }
    // the next poll starts fresh
    assert!(matches!(server.poll_read(true, 512, Ok(())), IoPoll::Submitted(_)));
}

#[test]
fn shutdown_submits_a_real_close_and_blocks_new_io() {
    let mut server = tcp_handle(3, 5);
    match server.poll_shutdown(true, Ok(())) {
        IoPoll::Submitted(d) => {
            assert_eq!(d.op, OpCode::Close);
            assert_eq!(d.fd, 5);
            assert_eq!(
                d.user_data,
                EventData { resource: 3, id: CLOSE_OP_ID }.encode()
            );
        },
        _ => panic!("close entry not submitted"),
    }
    // while the close is in flight, another shutdown poll submits nothing
    assert!(matches!(server.poll_shutdown(true, Ok(())), IoPoll::Pending));
    // a fresh read after shutdown started is refused
    match server.poll_read(true, 512, Ok(())) {
        IoPoll::Ready(r) => assert_eq!(r, Err(Error::ResourceClosing)),
        _ => panic!("read after shutdown not refused"),
    }
    // the close completion finishes the shutdown
    server.resource.ops.wake(CLOSE_OP_ID, 0);
    match server.poll_shutdown(true, Ok(())) {
        IoPoll::Ready(r) => assert_eq!(r, Ok(0)),
        _ => panic!("finished close not reported"),
    }
}

#[test]
fn split_halves_read_and_write_in_parallel() {
    let stream = tcp_handle(2, 8);
    let (mut rh, mut wh) = stream.into_split();
    assert_eq!(rh.resource.id, 2);
    assert_eq!(wh.resource.id, 2);

    // the read half reads while the write half writes
    assert!(matches!(rh.poll_read(true, 256, Ok(())), IoPoll::Submitted(_)));
    assert!(matches!(wh.poll_write(true, 13, Ok(())), IoPoll::Submitted(_)));
    rh.resource.ops.wake(READ_OP_ID, 13);
    wh.resource.ops.wake(WRITE_OP_ID, 13);
    match rh.poll_read(true, 256, Ok(())) {
        IoPoll::Ready(r) => assert_eq!(r, Ok(13)),
        _ => panic!("read half did not finish"),
    }
    match wh.poll_write(true, 13, Ok(())) {
        IoPoll::Ready(r) => assert_eq!(r, Ok(13)),
        _ => panic!("write half did not finish"),
    }

    // dropping both halves sends two close requests; the fd goes once
    let mut worker = UringRuntimeWorker::new();
    match worker.handle_register(Some(8), Operations::new_from_size(4)) {
        WorkerEffect::Registered(Ok(id)) => assert_eq!(id, 0),
        _ => panic!("registration failed"),
    }
    let first = CloseRequest { id: 0, shadows: rh.resource.ops.shadows.clone() };
    let second = CloseRequest { id: 0, shadows: wh.resource.ops.shadows.clone() };
    assert!(matches!(
        worker.handle_close(&first),
        WorkerEffect::Removed { fd: Some(8), .. }
    ));
    assert!(matches!(
        worker.handle_close(&second),
        WorkerEffect::Ignored { .. }
    ));
}

#[test]
fn stopped_runtime_refuses_every_operation() {
    let mut server = tcp_handle(0, 5);
    match server.poll_read(false, 512, Ok(())) {
        IoPoll::Ready(r) => assert_eq!(r, Err(Error::NoRuntime)),
        _ => panic!("read on a stopped runtime not refused"),
    }
    match server.poll_write(false, 1, Ok(())) {
        IoPoll::Ready(r) => assert_eq!(r, Err(Error::NoRuntime)),
        _ => panic!("write on a stopped runtime not refused"),
    }
    match server.poll_shutdown(false, Ok(())) {
        IoPoll::Ready(r) => assert_eq!(r, Err(Error::NoRuntime)),
        _ => panic!("shutdown on a stopped runtime not refused"),
    }
    let mut nops = NopStream::new(Resource::new(1, Operations::new_from_size(4), false));
    match nops.poll_next(false, Ok(())) {
        IoPoll::Ready(r) => assert_eq!(r, Err(Error::NoRuntime)),
        _ => panic!("nop on a stopped runtime not refused"),
    }
}
