//! The user-facing I/O handles: TCP streams, their split halves, and the
//! nop stream used for measurement.
//!
//! A handle ties a resource to fixed operation ids — read on slot 0, write
//! on slot 1, close on slot 2; the nop stream uses slot 0. Each poll either
//! reports a finished operation, keeps waiting, or builds a fresh
//! submission-queue entry and hands it to the ring.
//!
//! The ring itself lives outside this library: a poll here describes the
//! entry to submit as a plain value, and takes the outcome of the caller's
//! hand-over to the ring as an argument, so the protocol around the ring is
//! verified for every outcome of it.

use vstd::prelude::*;

use crate::Error;
use crate::event::{EventData, spec_encode_event};
use crate::ops::{Operations, SubmitPoll, ops_equiv};
use crate::resource::Resource;

verus! {

/// The operation id of a TCP receive: slot 0.
pub const READ_OP_ID: u32 = 0;

/// The operation id of a TCP send: slot 1.
pub const WRITE_OP_ID: u32 = 1;

/// The operation id of a close: slot 2.
pub const CLOSE_OP_ID: u32 = 2;

/// The operation id of a nop: slot 0.
pub const NOP_OP_ID: u32 = 0;

/// The opcode of a submission-queue entry built by this runtime.
#[derive(Clone, Copy, Debug, PartialEq, Eq, Structural)]
pub enum OpCode {
    /// No kernel work: completes immediately with result zero.
    Nop,
    /// Receive into a buffer.
    Recv,
    /// Send from a buffer.
    Send,
    /// Close the descriptor.
    Close,
}

/// A plain description of one submission-queue entry. The buffer a receive
/// or send references is the caller's; its address joins the entry when the
/// ring builds it.
#[derive(Clone, Copy, Debug, PartialEq, Eq, Structural)]
pub struct SqeDesc {
    /// The opcode.
    pub op: OpCode,
    /// The target descriptor; `-1` where the opcode takes none.
    pub fd: i32,
    /// The buffer length, for the opcodes that take one; zero otherwise.
    pub len: u32,
    /// The user-data word: the packed event of the submitting slot.
    pub user_data: u64,
}

/// What one user-facing poll of a handle reports.
pub enum IoPoll {
    /// The operation completed: the kernel's count, or the error.
    Ready(Result<u32, Error>),
    /// A fresh entry was built and handed to the ring; the task suspends
    /// until its completion arrives.
    Submitted(SqeDesc),
    /// The operation is still in flight; the task stays suspended.
    Pending,
}

/// The receive entry for a resource's read slot: fails exactly when the
/// buffer does not fit the 32-bit length field.
pub open spec fn spec_recv_desc(fd: i32, resource: u32, buf_len: usize) -> Result<SqeDesc, Error> {
    if buf_len > u32::MAX {
        Err(Error::BufferTooLarge)
    } else {
        Ok(
            SqeDesc {
                op: OpCode::Recv,
                fd,
                len: buf_len as u32,
                user_data: spec_encode_event(EventData { resource, id: READ_OP_ID }),
            },
        )
    }
}

/// The send entry for a resource's write slot: fails exactly when the
/// buffer does not fit the 32-bit length field.
pub open spec fn spec_send_desc(fd: i32, resource: u32, buf_len: usize) -> Result<SqeDesc, Error> {
    if buf_len > u32::MAX {
        Err(Error::BufferTooLarge)
    } else {
        Ok(
            SqeDesc {
                op: OpCode::Send,
                fd,
                len: buf_len as u32,
                user_data: spec_encode_event(EventData { resource, id: WRITE_OP_ID }),
            },
        )
    }
}

/// The close entry for a resource.
pub open spec fn spec_close_desc(fd: i32, resource: u32) -> SqeDesc {
    SqeDesc {
        op: OpCode::Close,
        fd,
        len: 0,
        user_data: spec_encode_event(EventData { resource, id: CLOSE_OP_ID }),
    }
}

/// The nop entry for a resource.
pub open spec fn spec_nop_desc(resource: u32) -> SqeDesc {
    SqeDesc {
        op: OpCode::Nop,
        fd: -1i32,
        len: 0,
        user_data: spec_encode_event(EventData { resource, id: NOP_OP_ID }),
    }
}

/// One user-facing poll of a handle's slot, as a function of the state the
/// handle observes: whether the runtime is alive, whether the next entry to
/// build is there (`desc`), and how the hand-over to the ring went
/// (`submit`). With the runtime gone every operation reports `NoRuntime`;
/// a fresh operation on a closing resource is refused unless the poll is
/// the closing one itself.
pub open spec fn spec_io_poll(
    ops: Operations,
    alive: bool,
    blocked: bool,
    op: u32,
    desc: Result<SqeDesc, Error>,
    submit: Result<(), Error>,
) -> IoPoll {
    if !alive {
        IoPoll::Ready(Err(Error::NoRuntime))
    } else {
        match ops.spec_poll(op as int) {
            SubmitPoll::Done(res) => IoPoll::Ready(res),
            SubmitPoll::Pending => IoPoll::Pending,
            SubmitPoll::NotStarted => {
                if blocked {
                    IoPoll::Ready(Err(Error::ResourceClosing))
                } else {
                    match desc {
                        Err(e) => IoPoll::Ready(Err(e)),
                        Ok(d) => match submit {
                            Ok(u) => IoPoll::Submitted(d),
                            Err(e) => IoPoll::Ready(Err(e)),
                        },
                    }
                }
            },
        }
    }
}

/// How the whole table stands after one poll of slot `op`: with the
/// runtime gone, a refused or failed start, or an operation still in
/// flight, nothing moves; a consumed completion resets that slot's shadow
/// and nothing else; a fresh start leaves the slot `Waiting`, the shadow
/// `Submitting` exactly when the hand-over succeeded — and no other slot or
/// shadow ever changes under a poll.
pub open spec fn spec_poll_transition(
    pre: Operations,
    post: Operations,
    alive: bool,
    blocked: bool,
    op: u32,
    desc: Result<SqeDesc, Error>,
    submit: Result<(), Error>,
) -> bool {
    if !alive {
        post.slots@ == pre.slots@ && post.shadows@ == pre.shadows@
    } else {
        match pre.spec_poll(op as int) {
            SubmitPoll::Done(res) => post.slots@ == pre.slots@ && post.shadows@
                == pre.shadows@.update(op as int, crate::ops::PollState::Idle),
            SubmitPoll::Pending => post.slots@ == pre.slots@ && post.shadows@ == pre.shadows@,
            SubmitPoll::NotStarted => {
                if blocked || desc is Err {
                    post.slots@ == pre.slots@ && post.shadows@ == pre.shadows@
                } else {
                    &&& post.slots@ == pre.slots@.update(
                        op as int,
                        crate::state::Operation { state: crate::state::OperationState::Waiting },
                    )
                    &&& submit is Ok ==> post.shadows@ == pre.shadows@.update(
                        op as int,
                        crate::ops::PollState::Submitting,
                    )
                    &&& submit is Err ==> post.shadows@ == pre.shadows@
                }
            },
        }
    }
}

/// A handle's resource is usable: its table is well formed and holds the
/// fixed slots.
pub open spec fn handle_wf(res: Resource) -> bool {
    res.ops.wf() && res.ops.spec_len() > CLOSE_OP_ID as int
}

/// Law: while a close (or any operation) is in flight on its slot, a
/// further poll of that slot reports `Pending` and, by the poll transition,
/// moves nothing: no second entry is ever submitted for a slot that awaits
/// its completion.
pub proof fn lemma_in_flight_poll_submits_nothing(
    ops: Operations,
    op: u32,
    desc: Result<SqeDesc, Error>,
    submit: Result<(), Error>,
)
    requires
        (op as int) < ops.spec_len(),
        ops.in_flight(op as int),
    ensures
        spec_io_poll(ops, true, false, op, desc, submit) == IoPoll::Pending,
        forall|post: Operations|
            #[trigger] spec_poll_transition(ops, post, true, false, op, desc, submit)
                ==> post.slots@ == ops.slots@ && post.shadows@ == ops.shadows@,
{
}

/// Law: once shutdown has started, a fresh read or write on the resource is
/// refused with `ResourceClosing`.
pub proof fn lemma_closing_refuses_new_io(
    ops: Operations,
    op: u32,
    desc: Result<SqeDesc, Error>,
    submit: Result<(), Error>,
)
    requires
        ops.spec_poll(op as int) is NotStarted,
    ensures
        spec_io_poll(ops, true, true, op, desc, submit) == IoPoll::Ready(
            Err::<u32, Error>(Error::ResourceClosing),
        ),
{
}

/// The shared poll step of every handle: check the runtime, poll the slot,
/// and where a fresh operation may start, hand the prepared entry to the
/// ring. `allow_closing` is set only by the close path, which must proceed
/// on a closing resource.
fn io_poll_step(
    res: &mut Resource,
    alive: bool,
    allow_closing: bool,
    op: u32,
    desc: Result<SqeDesc, Error>,
    submit: Result<(), Error>,
) -> (r: IoPoll)
    requires
        handle_wf(*old(res)),
        (op as int) < old(res).ops.spec_len(),
        // polling a slot whose operation was cancelled is the dropped
        // future's business alone; nothing is owed there
        !(old(res).ops.slots@[op as int].state is Cancelled),
    ensures
        handle_wf(*final(res)),
        final(res).id == old(res).id,
        final(res).closing == old(res).closing,
        final(res).ops.spec_len() == old(res).ops.spec_len(),
        r == spec_io_poll(
            old(res).ops,
            alive,
            old(res).closing && !allow_closing,
            op,
            desc,
            submit,
        ),
        spec_poll_transition(
            old(res).ops,
            final(res).ops,
            alive,
            old(res).closing && !allow_closing,
            op,
            desc,
            submit,
        ),
    {
        if !alive {
            return IoPoll::Ready(Err(Error::NoRuntime));
        }
        match res.ops.poll_submit(op) {
            SubmitPoll::Done(result) => IoPoll::Ready(result),
            SubmitPoll::Pending => IoPoll::Pending,
            SubmitPoll::NotStarted => {
                if res.closing && !allow_closing {
                    return IoPoll::Ready(Err(Error::ResourceClosing));
                }
                match desc {
                    Err(e) => IoPoll::Ready(Err(e)),
                    Ok(d) => match res.ops.start_submit(op, submit) {
                        Ok(u) => IoPoll::Submitted(d),
                        Err(e) => IoPoll::Ready(Err(e)),
                    },
                }
            },
        }
    }

/// A TCP stream registered with the runtime.
pub struct TcpStream {
    /// The registered resource.
    pub resource: Resource,
    /// The raw descriptor the entries name.
    pub fd: i32,
}

/// The read-only half of a split TCP stream.
pub struct ReadHalf {
    /// The shared resource.
    pub resource: Resource,
    /// The raw descriptor the entries name.
    pub fd: i32,
}

/// The write-only half of a split TCP stream.
pub struct WriteHalf {
    /// The shared resource.
    pub resource: Resource,
    /// The raw descriptor the entries name.
    pub fd: i32,
}

/// The poll of a read slot: a finished receive's count (zero marks the end
/// of the stream), or a fresh receive entry over the caller's buffer.
fn poll_read_impl(res: &mut Resource, fd: i32, alive: bool, buf_len: usize, submit: Result<
    (),
    Error,
>) -> (r: IoPoll)
    requires
        handle_wf(*old(res)),
        !(old(res).ops.slots@[READ_OP_ID as int].state is Cancelled),
    ensures
        handle_wf(*final(res)),
        final(res).id == old(res).id,
        final(res).closing == old(res).closing,
        r == spec_io_poll(
            old(res).ops,
            alive,
            old(res).closing,
            READ_OP_ID,
            spec_recv_desc(fd, old(res).id, buf_len),
            submit,
        ),
        spec_poll_transition(
            old(res).ops,
            final(res).ops,
            alive,
            old(res).closing,
            READ_OP_ID,
            spec_recv_desc(fd, old(res).id, buf_len),
            submit,
        ),
        r matches IoPoll::Submitted(d) ==> d.user_data == spec_encode_event(
            EventData { resource: old(res).id, id: READ_OP_ID },
        ),
{
    let desc: Result<SqeDesc, Error> = if buf_len > u32::MAX as usize {
        Err(Error::BufferTooLarge)
    } else {
        Ok(
            SqeDesc {
                op: OpCode::Recv,
                fd,
                len: buf_len as u32,
                user_data: EventData { resource: res.id, id: READ_OP_ID }.encode(),
            },
        )
    };
    io_poll_step(res, alive, false, READ_OP_ID, desc, submit)
}

/// The poll of a write slot: a finished send's count (partial writes are
/// reported honestly), or a fresh send entry over the caller's buffer.
fn poll_write_impl(res: &mut Resource, fd: i32, alive: bool, buf_len: usize, submit: Result<
    (),
    Error,
>) -> (r: IoPoll)
    requires
        handle_wf(*old(res)),
        !(old(res).ops.slots@[WRITE_OP_ID as int].state is Cancelled),
    ensures
        handle_wf(*final(res)),
        final(res).id == old(res).id,
        final(res).closing == old(res).closing,
        r == spec_io_poll(
            old(res).ops,
            alive,
            old(res).closing,
            WRITE_OP_ID,
            spec_send_desc(fd, old(res).id, buf_len),
            submit,
        ),
        spec_poll_transition(
            old(res).ops,
            final(res).ops,
            alive,
            old(res).closing,
            WRITE_OP_ID,
            spec_send_desc(fd, old(res).id, buf_len),
            submit,
        ),
        r matches IoPoll::Submitted(d) ==> d.user_data == spec_encode_event(
            EventData { resource: old(res).id, id: WRITE_OP_ID },
        ),
{
    let desc: Result<SqeDesc, Error> = if buf_len > u32::MAX as usize {
        Err(Error::BufferTooLarge)
    } else {
        Ok(
            SqeDesc {
                op: OpCode::Send,
                fd,
                len: buf_len as u32,
                user_data: EventData { resource: res.id, id: WRITE_OP_ID }.encode(),
            },
        )
    };
    io_poll_step(res, alive, false, WRITE_OP_ID, desc, submit)
}

/// The poll of the close slot: marks the resource closing first, so reads
/// and writes refuse fresh work from now on, then drives a close entry.
fn poll_shutdown_impl(res: &mut Resource, fd: i32, alive: bool, submit: Result<(), Error>) -> (r:
    IoPoll)
    requires
        handle_wf(*old(res)),
        !(old(res).ops.slots@[CLOSE_OP_ID as int].state is Cancelled),
    ensures
        handle_wf(*final(res)),
        final(res).id == old(res).id,
        final(res).closing,
        r == spec_io_poll(
            old(res).ops,
            alive,
            false,
            CLOSE_OP_ID,
            Ok(spec_close_desc(fd, old(res).id)),
            submit,
        ),
        spec_poll_transition(
            old(res).ops,
            final(res).ops,
            alive,
            false,
            CLOSE_OP_ID,
            Ok(spec_close_desc(fd, old(res).id)),
            submit,
        ),
        r matches IoPoll::Submitted(d) ==> d.user_data == spec_encode_event(
            EventData { resource: old(res).id, id: CLOSE_OP_ID },
        ),
{
    res.set_closing();
    let desc: Result<SqeDesc, Error> = Ok(
        SqeDesc {
            op: OpCode::Close,
            fd,
            len: 0,
            user_data: EventData { resource: res.id, id: CLOSE_OP_ID }.encode(),
        },
    );
    io_poll_step(res, alive, true, CLOSE_OP_ID, desc, submit)
}

impl TcpStream {
    /// The handle over a freshly registered resource.
    pub fn new(resource: Resource, fd: i32) -> (r: TcpStream)
        ensures
            r.resource == resource,
            r.fd == fd,
    {
        TcpStream { resource, fd }
    }

    /// Poll a receive into a buffer of `buf_len` bytes. `alive` is whether
    /// the runtime still runs; `submit` is the outcome of the caller's
    /// hand-over to the ring, used only when a fresh entry is built.
    pub fn poll_read(&mut self, alive: bool, buf_len: usize, submit: Result<(), Error>) -> (r:
        IoPoll)
        requires
            handle_wf(old(self).resource),
            !(old(self).resource.ops.slots@[READ_OP_ID as int].state is Cancelled),
        ensures
            handle_wf(final(self).resource),
            final(self).fd == old(self).fd,
            final(self).resource.id == old(self).resource.id,
            r == spec_io_poll(
                old(self).resource.ops,
                alive,
                old(self).resource.closing,
                READ_OP_ID,
                spec_recv_desc(old(self).fd, old(self).resource.id, buf_len),
                submit,
            ),
            spec_poll_transition(
                old(self).resource.ops,
                final(self).resource.ops,
                alive,
                old(self).resource.closing,
                READ_OP_ID,
                spec_recv_desc(old(self).fd, old(self).resource.id, buf_len),
                submit,
            ),
    {
        poll_read_impl(&mut self.resource, self.fd, alive, buf_len, submit)
    }

    /// Poll a send from a buffer of `buf_len` bytes.
    pub fn poll_write(&mut self, alive: bool, buf_len: usize, submit: Result<(), Error>) -> (r:
        IoPoll)
        requires
            handle_wf(old(self).resource),
            !(old(self).resource.ops.slots@[WRITE_OP_ID as int].state is Cancelled),
        ensures
            handle_wf(final(self).resource),
            final(self).fd == old(self).fd,
            final(self).resource.id == old(self).resource.id,
            r == spec_io_poll(
                old(self).resource.ops,
                alive,
                old(self).resource.closing,
                WRITE_OP_ID,
                spec_send_desc(old(self).fd, old(self).resource.id, buf_len),
                submit,
            ),
            spec_poll_transition(
                old(self).resource.ops,
                final(self).resource.ops,
                alive,
                old(self).resource.closing,
                WRITE_OP_ID,
                spec_send_desc(old(self).fd, old(self).resource.id, buf_len),
                submit,
            ),
    {
        poll_write_impl(&mut self.resource, self.fd, alive, buf_len, submit)
    }

    /// Poll the shutdown of the stream: a real close entry goes to the
    /// ring, and the poll completes when its completion arrives.
    pub fn poll_shutdown(&mut self, alive: bool, submit: Result<(), Error>) -> (r: IoPoll)
        requires
            handle_wf(old(self).resource),
            !(old(self).resource.ops.slots@[CLOSE_OP_ID as int].state is Cancelled),
        ensures
            handle_wf(final(self).resource),
            final(self).fd == old(self).fd,
            final(self).resource.id == old(self).resource.id,
            final(self).resource.closing,
            r == spec_io_poll(
                old(self).resource.ops,
                alive,
                false,
                CLOSE_OP_ID,
                Ok(spec_close_desc(old(self).fd, old(self).resource.id)),
                submit,
            ),
            spec_poll_transition(
                old(self).resource.ops,
                final(self).resource.ops,
                alive,
                false,
                CLOSE_OP_ID,
                Ok(spec_close_desc(old(self).fd, old(self).resource.id)),
                submit,
            ),
    {
        poll_shutdown_impl(&mut self.resource, self.fd, alive, submit)
    }

    /// Split the stream into a read half and a write half sharing the
    /// resource; in the running system the two halves hold clones of the
    /// one resource, and dropping both closes it exactly once.
    pub fn into_split(self) -> (r: (ReadHalf, WriteHalf))
        requires
            handle_wf(self.resource),
        ensures
            handle_wf(r.0.resource),
            handle_wf(r.1.resource),
            r.0.fd == self.fd && r.1.fd == self.fd,
            r.0.resource.id == self.resource.id && r.1.resource.id == self.resource.id,
            r.0.resource.closing == self.resource.closing,
            r.1.resource.closing == self.resource.closing,
            ops_equiv(self.resource.ops, r.0.resource.ops),
            ops_equiv(self.resource.ops, r.1.resource.ops),
    {
        let dup = self.resource.dup();
        (ReadHalf { resource: dup, fd: self.fd }, WriteHalf { resource: self.resource, fd: self.fd })
    }
}

impl ReadHalf {
    /// Poll a receive into a buffer of `buf_len` bytes, as the whole stream
    /// does.
    pub fn poll_read(&mut self, alive: bool, buf_len: usize, submit: Result<(), Error>) -> (r:
        IoPoll)
        requires
            handle_wf(old(self).resource),
            !(old(self).resource.ops.slots@[READ_OP_ID as int].state is Cancelled),
        ensures
            handle_wf(final(self).resource),
            final(self).fd == old(self).fd,
            final(self).resource.id == old(self).resource.id,
            r == spec_io_poll(
                old(self).resource.ops,
                alive,
                old(self).resource.closing,
                READ_OP_ID,
                spec_recv_desc(old(self).fd, old(self).resource.id, buf_len),
                submit,
            ),
            spec_poll_transition(
                old(self).resource.ops,
                final(self).resource.ops,
                alive,
                old(self).resource.closing,
                READ_OP_ID,
                spec_recv_desc(old(self).fd, old(self).resource.id, buf_len),
                submit,
            ),
    {
        poll_read_impl(&mut self.resource, self.fd, alive, buf_len, submit)
    }
}

impl WriteHalf {
    /// Poll a send from a buffer of `buf_len` bytes, as the whole stream
    /// does.
    pub fn poll_write(&mut self, alive: bool, buf_len: usize, submit: Result<(), Error>) -> (r:
        IoPoll)
        requires
            handle_wf(old(self).resource),
            !(old(self).resource.ops.slots@[WRITE_OP_ID as int].state is Cancelled),
        ensures
            handle_wf(final(self).resource),
            final(self).fd == old(self).fd,
            final(self).resource.id == old(self).resource.id,
            r == spec_io_poll(
                old(self).resource.ops,
                alive,
                old(self).resource.closing,
                WRITE_OP_ID,
                spec_send_desc(old(self).fd, old(self).resource.id, buf_len),
                submit,
            ),
            spec_poll_transition(
                old(self).resource.ops,
                final(self).resource.ops,
                alive,
                old(self).resource.closing,
                WRITE_OP_ID,
                spec_send_desc(old(self).fd, old(self).resource.id, buf_len),
                submit,
            ),
    {
        poll_write_impl(&mut self.resource, self.fd, alive, buf_len, submit)
    }

    /// Poll the shutdown of the stream through the write half.
    pub fn poll_shutdown(&mut self, alive: bool, submit: Result<(), Error>) -> (r: IoPoll)
        requires
            handle_wf(old(self).resource),
            !(old(self).resource.ops.slots@[CLOSE_OP_ID as int].state is Cancelled),
        ensures
            handle_wf(final(self).resource),
            final(self).fd == old(self).fd,
            final(self).resource.id == old(self).resource.id,
            final(self).resource.closing,
            r == spec_io_poll(
                old(self).resource.ops,
                alive,
                false,
                CLOSE_OP_ID,
                Ok(spec_close_desc(old(self).fd, old(self).resource.id)),
                submit,
            ),
            spec_poll_transition(
                old(self).resource.ops,
                final(self).resource.ops,
                alive,
                false,
                CLOSE_OP_ID,
                Ok(spec_close_desc(old(self).fd, old(self).resource.id)),
                submit,
            ),
    {
        poll_shutdown_impl(&mut self.resource, self.fd, alive, submit)
    }
}

/// An unending source of nop completions, for measuring the runtime.
pub struct NopStream {
    /// The registered resource; it has no descriptor.
    pub resource: Resource,
}

impl NopStream {
    /// The handle over a freshly registered resource.
    pub fn new(resource: Resource) -> (r: NopStream)
        ensures
            r.resource == resource,
    {
        NopStream { resource }
    }

    /// Poll the next nop completion: a finished nop's result, or a fresh
    /// nop entry.
    pub fn poll_next(&mut self, alive: bool, submit: Result<(), Error>) -> (r: IoPoll)
        requires
            handle_wf(old(self).resource),
            !(old(self).resource.ops.slots@[NOP_OP_ID as int].state is Cancelled),
        ensures
            handle_wf(final(self).resource),
            final(self).resource.id == old(self).resource.id,
            r == spec_io_poll(
                old(self).resource.ops,
                alive,
                old(self).resource.closing,
                NOP_OP_ID,
                Ok(spec_nop_desc(old(self).resource.id)),
                submit,
            ),
            spec_poll_transition(
                old(self).resource.ops,
                final(self).resource.ops,
                alive,
                old(self).resource.closing,
                NOP_OP_ID,
                Ok(spec_nop_desc(old(self).resource.id)),
                submit,
            ),
    {
        let desc: Result<SqeDesc, Error> = Ok(
            SqeDesc {
                op: OpCode::Nop,
                fd: -1i32,
                len: 0,
                user_data: EventData { resource: self.resource.id, id: NOP_OP_ID }.encode(),
            },
        );
        io_poll_step(&mut self.resource, alive, false, NOP_OP_ID, desc, submit)
    }
}

/// Law: once the runtime is stopped, every user-facing poll — read, write,
/// shutdown or nop — reports `NoRuntime`, whatever the handle's state.
pub proof fn lemma_stopped_runtime_refuses_io(
    ops: Operations,
    blocked: bool,
    op: u32,
    desc: Result<SqeDesc, Error>,
    submit: Result<(), Error>,
)
    ensures
        spec_io_poll(ops, false, blocked, op, desc, submit) == IoPoll::Ready(
            Err::<u32, Error>(Error::NoRuntime),
        ),
{
}

} // verus!
