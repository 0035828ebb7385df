//! The nop stream: a million completions, every count zero.

use async_uring::handles::{IoPoll, NopStream, OpCode, NOP_OP_ID};
use async_uring::ops::Operations;
use async_uring::resource::Resource;

#[test]
fn a_million_nops_complete_with_zero() {
    let mut stream = NopStream::new(Resource::new(0, Operations::new_from_size(4), false));
    let rounds: u32 = 1_000_000;
    let mut completed: u32 = 0;
    for _ in 0..rounds {
        match stream.poll_next(true, Ok(())) {
            IoPoll::Submitted(d) => assert_eq!(d.op, OpCode::Nop),
            _ => panic!("fresh nop not submitted"),
        }
        // the kernel answers a nop with result zero
        stream.resource.ops.wake(NOP_OP_ID, 0);
        match stream.poll_next(true, Ok(())) {
            IoPoll::Ready(r) => {
                assert_eq!(r, Ok(0));
                completed += 1;
            },
            _ => panic!("finished nop not reported"),
        }
    }
    assert_eq!(completed, rounds);
}
