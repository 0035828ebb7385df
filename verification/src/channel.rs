//! The worker's inbox: a many-producer single-consumer queue.
//!
//! In the running system the queue sits behind a lock, with a sidecar
//! `empty` flag the producers set and the consumer clears, and a waker the
//! producers notify. The consumer also keeps a local count of messages left
//! over from its last drain, so it can take them without re-reading the
//! flag. This module is the sequential model of that state, one actor
//! stepping at a time; the sender and receiver handles of the running
//! system both act on the one value here.

use std::collections::VecDeque;

use vstd::prelude::*;

use crate::Error;

verus! {

/// What one poll of the inbox reports to the consumer.
pub enum ChannelPoll<T> {
    /// The oldest queued message.
    Message(T),
    /// Every producer is gone and nothing is pending: the stream ends.
    Closed,
    /// Nothing queued; the consumer suspends until a producer notifies it.
    Pending,
}

/// The channel state: the queue, the producers' `empty` sidecar flag, the
/// consumer's local count of messages it knows remain, and the number of
/// live producer handles.
pub struct Channel<T> {
    /// The queued messages, oldest first.
    pub msgs: VecDeque<T>,
    /// The sidecar flag: no message has been queued since the last drain.
    pub empty: bool,
    /// The consumer's local count of messages left from its last drain.
    pub len: usize,
    /// How many producer handles are live.
    pub senders: usize,
    /// The consumer is still there to drain the queue.
    pub receiver_alive: bool,
}

impl<T> Channel<T> {
    /// The state is well formed: the flag is honest — set only when the
    /// queue is empty, clear only when it is not — and the local count
    /// never exceeds the queue.
    pub open spec fn wf(self) -> bool {
        &&& self.empty ==> self.len == 0 && self.msgs@.len() == 0
        &&& !self.empty ==> self.msgs@.len() > 0
        &&& self.len <= self.msgs@.len()
    }

    /// A fresh channel: empty, no producers yet.
    pub fn new() -> (r: Channel<T>)
        ensures
            r.wf(),
            r.msgs@.len() == 0,
            r.senders == 0,
            r.receiver_alive,
    {
        Channel {
            msgs: VecDeque::new(),
            empty: true,
            len: 0,
            senders: 0,
            receiver_alive: true,
        }
    }

    /// Hand out one more producer handle.
    pub fn sender(&mut self)
        requires
            old(self).senders < usize::MAX,
        ensures
            *final(self) == (Channel { senders: (old(self).senders + 1) as usize, ..*old(self) }),
    {
        self.senders = self.senders + 1;
    }

    /// A producer handle is dropped.
    pub fn drop_sender(&mut self)
        requires
            old(self).senders > 0,
        ensures
            *final(self) == (Channel { senders: (old(self).senders - 1) as usize, ..*old(self) }),
    {
        self.senders = self.senders - 1;
    }

    /// The consumer is dropped; producers fail from now on.
    pub fn close_receiver(&mut self)
        ensures
            *final(self) == (Channel { receiver_alive: false, ..*old(self) }),
    {
        self.receiver_alive = false;
    }

    /// A producer queues a message, clears the flag, and (in the running
    /// system) notifies the consumer's waker. Fails with `NoRuntime` exactly
    /// when the consumer is gone.
    pub fn send(&mut self, msg: T) -> (r: Result<(), Error>)
        requires
            old(self).wf(),
        ensures
            final(self).wf(),
            final(self).senders == old(self).senders,
            final(self).receiver_alive == old(self).receiver_alive,
            old(self).receiver_alive ==> r is Ok && final(self).msgs@ == old(self).msgs@.push(msg)
                && !final(self).empty && final(self).len == old(self).len,
            !old(self).receiver_alive ==> (r matches Err(e) && e == Error::NoRuntime)
                && final(self).msgs@ == old(self).msgs@ && final(self).empty == old(self).empty
                && final(self).len == old(self).len,
    {
        if !self.receiver_alive {
            return Err(Error::NoRuntime);
        }
        self.msgs.push_back(msg);
        self.empty = false;
        Ok(())
    }

    /// The consumer takes the oldest message, refreshes its local count,
    /// and sets the flag when it drained the queue.
    fn get_msg(&mut self) -> (r: Option<T>)
        requires
            old(self).wf(),
        ensures
            final(self).wf(),
            final(self).senders == old(self).senders,
            final(self).receiver_alive == old(self).receiver_alive,
            old(self).msgs@.len() > 0 ==> r == Some(old(self).msgs@[0]) && final(self).msgs@ == old(
                self,
            ).msgs@.drop_first(),
            old(self).msgs@.len() == 0 ==> r is None && final(self).msgs@ == old(self).msgs@,
            final(self).len == final(self).msgs@.len(),
            final(self).empty == (final(self).msgs@.len() == 0),
    {
        let msg = self.msgs.pop_front();
        self.len = self.msgs.len();
        if self.len == 0 {
            self.empty = true;
        } else {
            self.empty = false;
        }
        msg
    }

    /// The consumer's poll: a leftover or newly queued message if there is
    /// one, the end of the stream once every producer is gone, and
    /// suspension otherwise (registering the waker in the running system).
    /// Messages come out oldest first.
    pub fn poll_next(&mut self) -> (r: ChannelPoll<T>)
        requires
            old(self).wf(),
            old(self).receiver_alive,
        ensures
            final(self).wf(),
            final(self).senders == old(self).senders,
            final(self).receiver_alive,
            old(self).len > 0 || (old(self).senders > 0 && !old(self).empty) ==> (r matches
                ChannelPoll::Message(m) && m == old(self).msgs@[0] && final(self).msgs@ == old(
                self,
            ).msgs@.drop_first()),
            old(self).len == 0 && old(self).senders == 0 ==> r is Closed && final(self).msgs@
                == old(self).msgs@,
            old(self).len == 0 && old(self).senders > 0 && old(self).empty ==> r is Pending
                && final(self).msgs@ == old(self).msgs@,
    {
        if self.len > 0 {
            match self.get_msg() {
                Some(msg) => ChannelPoll::Message(msg),
                None => {
                    proof {
                        assert(false);
                    }
                    ChannelPoll::Pending
                },
            }
        } else if self.senders == 0 {
            ChannelPoll::Closed
        } else if self.empty {
            ChannelPoll::Pending
        } else {
            match self.get_msg() {
                Some(msg) => ChannelPoll::Message(msg),
                None => {
                    proof {
                        assert(false);
                    }
                    ChannelPoll::Pending
                },
            }
        }
    }
}

} // verus!
