//! The worker's inbox: order, suspension, and the ends of its life.

use async_uring::channel::{Channel, ChannelPoll};
use async_uring::Error;

#[test]
fn messages_come_out_oldest_first() {
    let mut ch: Channel<u32> = Channel::new();
    ch.sender();
    ch.send(1).unwrap();
    ch.send(2).unwrap();
    ch.send(3).unwrap();
    for expected in [1, 2, 3] {
        match ch.poll_next() {
            ChannelPoll::Message(m) => assert_eq!(m, expected),
            _ => panic!("queued message not delivered"),
        }
    }
    assert!(matches!(ch.poll_next(), ChannelPoll::Pending));
}

#[test]
fn empty_inbox_suspends_the_consumer() {
    let mut ch: Channel<u32> = Channel::new();
    ch.sender();
    assert!(matches!(ch.poll_next(), ChannelPoll::Pending));
    ch.send(7).unwrap();
    assert!(matches!(ch.poll_next(), ChannelPoll::Message(7)));
}

#[test]
fn stream_ends_when_every_producer_is_gone() {
    let mut ch: Channel<u32> = Channel::new();
    ch.sender();
    ch.drop_sender();
    assert!(matches!(ch.poll_next(), ChannelPoll::Closed));
}

#[test]
fn sending_to_a_dropped_consumer_fails() {
    let mut ch: Channel<u32> = Channel::new();
    ch.sender();
    ch.close_receiver();
    assert_eq!(ch.send(1), Err(Error::NoRuntime));
}
