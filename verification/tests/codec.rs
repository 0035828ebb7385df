//! The packed encodings: event words and operation-state words.

use async_uring::event::EventData;
use async_uring::state::PackedState;

#[test]
fn event_round_trip_simple() {
    let d = EventData { resource: 7, id: 2 };
    let w = d.encode();
    assert_eq!(w, 0x0000_0007_0000_0002u64);
    let back = EventData::decode(w);
    assert_eq!(back, d);
}

#[test]
fn event_round_trip_edges() {
    let cases = [
        (0u32, 0u32),
        (0, 1),
        (1, 0),
        (u32::MAX, 0),
        (0, u32::MAX),
        (u32::MAX, u32::MAX),
        (0xDEAD_BEEF, 0x1234_5678),
    ];
    for (resource, id) in cases {
        let d = EventData { resource, id };
        assert_eq!(EventData::decode(d.encode()), d);
    }
}

#[test]
fn event_word_round_trip() {
    for w in [0u64, 1, u64::MAX, 0x0123_4567_89AB_CDEF] {
        assert_eq!(EventData::decode(w).encode(), w);
    }
}

#[test]
fn event_word_matches_real_ring_entry() {
    // the user-data word survives the real submission-entry builder intact
    let d = EventData { resource: 41, id: 2 };
    let entry = io_uring::opcode::Nop::new().build().user_data(d.encode());
    let back = EventData::decode(entry.get_user_data());
    assert_eq!(back, d);
}

#[test]
fn state_waiting_round_trip() {
    let w = PackedState::Waiting.pack();
    assert_eq!(w, 1);
    assert!(matches!(PackedState::unpack(w), PackedState::Waiting));
}

#[test]
fn state_finished_round_trip() {
    for val in [i32::MIN, -1, 0, 1, i32::MAX] {
        let w = PackedState::Finished(val).pack();
        assert_eq!(w & 3, 2, "tag of Finished({val})");
        match PackedState::unpack(w) {
            PackedState::Finished(back) => assert_eq!(back, val),
            _ => panic!("Finished({val}) decoded to another state"),
        }
    }
}

#[test]
fn state_cancelled_round_trip() {
    // any 4-byte-aligned payload address survives the tag bits
    for addr in [0u64, 4, 8, 0x1000, 0xFFFF_FFFF_FFFF_FFFC] {
        let w = PackedState::Cancelled(addr).pack();
        assert_eq!(w & 3, 3, "tag of Cancelled({addr:#x})");
        match PackedState::unpack(w) {
            PackedState::Cancelled(back) => assert_eq!(back, addr),
            _ => panic!("Cancelled({addr:#x}) decoded to another state"),
        }
    }
}
