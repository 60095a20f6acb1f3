//! The waiter: bytes come in pieces of any size.

use urpc_client::error::Error;
use urpc_client::descriptor::Descriptor;
use urpc_client::payload::{Payload, Shape};
use urpc_client::request::{Reply, Request};
use urpc_client::session::Session;
use urpc_client::waiter::ReplyWaiter;

fn waiting(mut req: Request, capacity: u16) -> ReplyWaiter {
    let mut session = Session::new(capacity);
    let mut send_buf = vec![0u8; 128];
    req.request(&mut session, &mut send_buf).unwrap();
    ReplyWaiter::new(req, session)
}

fn send_bytes_reply() -> (Vec<u8>, Reply) {
    let stream = vec![1, 0, 0, 0, 5, 0, b'w', b'o', b'r', b'l', b'd'];
    let reply = Reply { fixed_payload: Payload::Unit, inbound_buffer: Some(b"world".to_vec()) };
    (stream, reply)
}

#[test]
fn waiter_asks_for_the_header_first_and_then_for_what_it_announces() {
    let mut waiter = waiting(Request::ping([1, 2, 3, 4]), 32);
    assert_eq!(waiter.bytes_needed(), 6);
    assert!(!waiter.is_complete());
    waiter.feed(&[1, 0]);
    assert_eq!(waiter.bytes_needed(), 4);
    waiter.feed(&[4, 0, 0, 0]);
    assert_eq!(waiter.bytes_needed(), 4);
    assert!(!waiter.is_complete());
    assert_eq!(waiter.outcome(), None);
    waiter.feed(&[1, 2, 3]);
    assert_eq!(waiter.bytes_needed(), 1);
    waiter.feed(&[4]);
    assert_eq!(waiter.bytes_needed(), 0);
    assert!(waiter.is_complete());
    assert_eq!(
        waiter.outcome(),
        Some(Ok(Reply { fixed_payload: Payload::Quad([1, 2, 3, 4]), inbound_buffer: None }))
    );
}

#[test]
fn any_split_in_two_gives_the_same_reply() {
    let (stream, reply) = send_bytes_reply();
    for cut in 0..=stream.len() {
        let mut waiter = waiting(Request::send_bytes(vec![]), 32);
        waiter.feed(&stream[..cut]);
        waiter.feed(&stream[cut..]);
        assert_eq!(waiter.outcome(), Some(Ok(reply.clone())), "cut at {}", cut);
    }
    let mut whole = waiting(Request::send_bytes(vec![]), 32);
    whole.feed(&stream);
    assert_eq!(whole.outcome(), Some(Ok(reply)));
}

#[test]
fn any_split_in_three_gives_the_same_reply() {
    let (stream, reply) = send_bytes_reply();
    for first in 0..=stream.len() {
        for second in first..=stream.len() {
            let mut waiter = waiting(Request::send_bytes(vec![]), 32);
            waiter.feed(&stream[..first]);
            waiter.feed(&stream[first..second]);
            waiter.feed(&stream[second..]);
            assert_eq!(waiter.outcome(), Some(Ok(reply.clone())));
            let (_, session) = waiter.into_parts();
            assert_eq!(session.outstanding(), None);
        }
    }
}

#[test]
fn byte_by_byte_gives_the_same_reply() {
    let (stream, reply) = send_bytes_reply();
    let mut waiter = waiting(Request::send_bytes(vec![]), 32);
    for (at, byte) in stream.iter().enumerate() {
        assert!(!waiter.is_complete(), "whole after {} bytes", at);
        waiter.feed(&[*byte]);
    }
    assert_eq!(waiter.outcome(), Some(Ok(reply)));
}

#[test]
fn any_split_gives_the_same_error() {
    // The header names channel 2.
    let stream = [2u8, 0, 1, 0, 0, 0, 7];
    for cut in 0..=stream.len() {
        let mut waiter = waiting(Request::add(3, 4), 32);
        waiter.feed(&stream[..cut]);
        waiter.feed(&stream[cut..]);
        assert_eq!(waiter.outcome(), Some(Err(Error::UnexpectedReply)));
        let (_, session) = waiter.into_parts();
        assert_eq!(session.outstanding(), None);
    }
}

#[test]
fn bytes_behind_the_reply_are_not_taken() {
    let mut waiter = waiting(Request::add(3, 4), 32);
    waiter.feed(&[1, 0, 1, 0, 0, 0, 7, 0xAA, 0xBB, 0xCC]);
    let reply = Reply { fixed_payload: Payload::Byte(7), inbound_buffer: None };
    assert_eq!(waiter.outcome(), Some(Ok(reply.clone())));
    assert_eq!(waiter.bytes_taken(), 7);
    waiter.feed(&[1, 0, 1, 0, 0, 0, 9]);
    assert_eq!(waiter.outcome(), Some(Ok(reply)));
    assert_eq!(waiter.bytes_needed(), 0);
    assert_eq!(waiter.bytes_taken(), 7);
}

#[test]
fn waiter_counts_the_bytes_it_takes() {
    let mut waiter = waiting(Request::ping([1, 2, 3, 4]), 32);
    assert_eq!(waiter.bytes_taken(), 0);
    waiter.feed(&[1, 0]);
    assert_eq!(waiter.bytes_taken(), 2);
    waiter.feed(&[4, 0, 0, 0, 1]);
    assert_eq!(waiter.bytes_taken(), 7);
    waiter.cut_off();
    assert_eq!(waiter.bytes_taken(), 7);
    // A header for another request is taken, and nothing behind it.
    let mut waiter = waiting(Request::ping([1, 2, 3, 4]), 32);
    waiter.feed(&[2, 0, 4, 0, 0, 0, 1, 2, 3, 4]);
    assert_eq!(waiter.outcome(), Some(Err(Error::UnexpectedReply)));
    assert_eq!(waiter.bytes_taken(), 6);
}

#[test]
fn reply_without_buffer_is_the_fixed_payload_whatever_the_length_field_says() {
    let extras: [&[u8]; 3] = [&[], &[0xEE], &[1, 0, 1, 0, 0, 0, 9]];
    for (lo, hi) in [(0u8, 0u8), (1, 0), (7, 0), (0xFF, 0xFF)] {
        for extra in extras {
            let mut stream = vec![1, 0, 1, 0, lo, hi, 7];
            stream.extend_from_slice(extra);
            let mut waiter = waiting(Request::add(3, 4), 32);
            assert_eq!(
                waiter.block_rcv_reply(&stream, 7),
                Ok(Reply { fixed_payload: Payload::Byte(7), inbound_buffer: None })
            );
            assert_eq!(waiter.bytes_taken(), 7);
        }
    }
    for extra in extras {
        let mut stream = vec![1, 0, 4, 0, 9, 9, 1, 2, 3, 4];
        stream.extend_from_slice(extra);
        let mut waiter = waiting(Request::ping([0; 4]), 32);
        assert_eq!(
            waiter.block_rcv_reply(&stream, 10),
            Ok(Reply { fixed_payload: Payload::Quad([1, 2, 3, 4]), inbound_buffer: None })
        );
        assert_eq!(waiter.bytes_taken(), 10);
    }
}

#[test]
fn reply_with_buffer_is_payload_first_and_buffer_behind() {
    let kind = Descriptor { id: 8, arg: Shape::Unit, has_outbound_buffer: false, reply: Shape::Pair, has_inbound_buffer: true };
    for len in [0usize, 1, 3, 20] {
        let buffer: Vec<u8> = (0..len).map(|i| 100 + i as u8).collect();
        let mut stream = vec![1, 0, 2, 0, len as u8, 0, 0x11, 0x22];
        stream.extend_from_slice(&buffer);
        let whole = stream.len();
        stream.extend_from_slice(&[0xEE, 0xEE]);
        let mut session = Session::new(64);
        let mut send_buf = vec![0u8; 16];
        let mut req = Request::new(kind, Payload::Unit, None).unwrap();
        req.request(&mut session, &mut send_buf).unwrap();
        let mut waiter = ReplyWaiter::new(req, session);
        let reply = waiter.block_rcv_reply(&stream, whole).unwrap();
        assert_eq!(reply.fixed_payload, Payload::Pair(0x11, 0x22));
        assert_eq!(reply.inbound_buffer.as_ref().map(|b| b.len()), Some(len));
        assert_eq!(reply.inbound_buffer, Some(buffer));
        assert_eq!(waiter.bytes_taken(), whole);
    }
}

#[test]
fn empty_chunk_changes_nothing() {
    let mut waiter = waiting(Request::add(3, 4), 32);
    waiter.feed(&[]);
    assert_eq!(waiter.bytes_needed(), 6);
    waiter.feed(&[1, 0, 1]);
    waiter.feed(&[]);
    assert_eq!(waiter.bytes_needed(), 3);
    assert_eq!(waiter.outcome(), None);
}

#[test]
fn reply_without_body_is_whole_with_its_header() {
    let mut waiter = waiting(Request::send_bytes(b"x".to_vec()), 32);
    waiter.feed(&[1, 0, 0, 0, 0, 0]);
    assert!(waiter.is_complete());
    assert_eq!(
        waiter.outcome(),
        Some(Ok(Reply { fixed_payload: Payload::Unit, inbound_buffer: Some(vec![]) }))
    );
}

#[test]
fn stream_that_ends_early_is_a_transport_error() {
    let stream = [1u8, 0, 4, 0, 0, 0, 1, 2, 3, 4];
    for len in 0..stream.len() {
        let mut waiter = waiting(Request::ping([1, 2, 3, 4]), 32);
        assert_eq!(waiter.block_rcv_reply(&stream[..len], 32), Err(Error::Transport), "{} bytes", len);
        assert!(waiter.is_complete());
        let (_, mut session) = waiter.into_parts();
        assert_eq!(session.outstanding(), None);
        let mut send_buf = vec![0u8; 16];
        assert_eq!(Request::add(1, 1).request(&mut session, &mut send_buf), Ok(9));
    }
    let mut waiter = waiting(Request::ping([1, 2, 3, 4]), 32);
    assert_eq!(
        waiter.block_rcv_reply(&stream, 32),
        Ok(Reply { fixed_payload: Payload::Quad([1, 2, 3, 4]), inbound_buffer: None })
    );
}

#[test]
fn frame_longer_than_the_receive_buffer_is_a_decoding_error() {
    let stream = [1u8, 0, 4, 0, 0, 0, 1, 2, 3, 4];
    let mut waiter = waiting(Request::ping([1, 2, 3, 4]), 32);
    assert_eq!(waiter.block_rcv_reply(&stream, 9), Err(Error::Decoding));
    let (_, session) = waiter.into_parts();
    assert_eq!(session.outstanding(), None);
    let mut waiter = waiting(Request::ping([1, 2, 3, 4]), 32);
    assert_eq!(
        waiter.block_rcv_reply(&stream, 10),
        Ok(Reply { fixed_payload: Payload::Quad([1, 2, 3, 4]), inbound_buffer: None })
    );
}

#[test]
fn receive_buffer_shorter_than_a_header_is_a_decoding_error() {
    let mut waiter = waiting(Request::add(1, 2), 32);
    assert_eq!(waiter.block_rcv_reply(&[1, 0, 1, 0, 0, 0, 3], 5), Err(Error::Decoding));
    let (_, session) = waiter.into_parts();
    assert_eq!(session.outstanding(), None);

    let mut waiter = waiting(Request::add(1, 2), 32);
    waiter.start(5);
    assert!(waiter.is_complete());
    assert_eq!(waiter.bytes_needed(), 0);
    assert_eq!(waiter.outcome(), Some(Err(Error::Decoding)));
}

#[test]
fn new_waiter_takes_the_largest_frame_of_its_session() {
    // Capacity 4: header and four bytes fit, and the session refuses more.
    let mut waiter = waiting(Request::ping([0; 4]), 4);
    waiter.feed(&[1, 0, 4, 0, 0, 0, 9, 8, 7, 6]);
    assert_eq!(
        waiter.outcome(),
        Some(Ok(Reply { fixed_payload: Payload::Quad([9, 8, 7, 6]), inbound_buffer: None }))
    );
    let mut waiter = waiting(Request::send_bytes(vec![]), 4);
    waiter.feed(&[1, 0, 0, 0, 5, 0]);
    assert_eq!(waiter.outcome(), Some(Err(Error::Decoding)));
}

#[test]
fn start_drops_what_an_earlier_wait_left() {
    let mut waiter = waiting(Request::add(1, 2), 32);
    waiter.feed(&[1, 0, 1]);
    assert_eq!(waiter.bytes_needed(), 3);
    waiter.start(16);
    assert_eq!(waiter.bytes_needed(), 6);
    waiter.feed(&[1, 0, 1, 0, 0, 0, 3]);
    assert_eq!(
        waiter.outcome(),
        Some(Ok(Reply { fixed_payload: Payload::Byte(3), inbound_buffer: None }))
    );
}

#[test]
fn cut_off_ends_a_wait_that_is_under_way() {
    let mut waiter = waiting(Request::add(1, 2), 32);
    waiter.feed(&[1, 0, 1, 0, 0, 0]);
    waiter.cut_off();
    assert_eq!(waiter.outcome(), Some(Err(Error::Transport)));
    assert_eq!(waiter.bytes_needed(), 0);
    let (req, session) = waiter.into_parts();
    assert_eq!(session.outstanding(), None);
    assert_eq!(req.chan_id(), 1);
}

#[test]
fn cut_off_keeps_an_outcome_that_is_there() {
    let mut waiter = waiting(Request::add(1, 2), 32);
    waiter.feed(&[1, 0, 1, 0, 0, 0, 3]);
    waiter.cut_off();
    assert_eq!(
        waiter.outcome(),
        Some(Ok(Reply { fixed_payload: Payload::Byte(3), inbound_buffer: None }))
    );
}

#[test]
fn waiting_with_nothing_outstanding_is_protocol_misuse() {
    let mut waiter = ReplyWaiter::new(Request::add(1, 2), Session::new(32));
    assert_eq!(waiter.block_rcv_reply(&[1, 0, 1, 0, 0, 0, 3], 32), Err(Error::ProtocolMisuse));
}

#[test]
fn waiter_of_another_request_does_not_take_the_reply() {
    let mut session = Session::new(32);
    let mut send_buf = vec![0u8; 32];
    let mut sent = Request::add(1, 2);
    sent.request(&mut session, &mut send_buf).unwrap();
    // A ping that never went out waits on the session of the add.
    let mut waiter = ReplyWaiter::new(Request::ping([0; 4]), session);
    waiter.feed(&[1, 0, 1, 0, 0, 0, 3]);
    assert_eq!(waiter.outcome(), Some(Err(Error::ProtocolMisuse)));
    assert_eq!(waiter.bytes_needed(), 0);
    assert_eq!(waiter.bytes_taken(), 7);
    let (_, mut session) = waiter.into_parts();
    assert_eq!(session.outstanding(), None);
    assert_eq!(sent.take_reply(&mut session), None);
}

#[test]
fn option_bits_of_the_header_are_not_looked_at() {
    for opts in [0u8, 1, 0x80, 0xFF] {
        let mut waiter = waiting(Request::add(1, 2), 32);
        assert_eq!(
            waiter.block_rcv_reply(&[1, opts, 1, 0, 0, 0, 42], 32),
            Ok(Reply { fixed_payload: Payload::Byte(42), inbound_buffer: None })
        );
    }
}

#[test]
fn whole_reply_is_received_whatever_follows_it() {
    let frame = [1u8, 0, 0, 0, 3, 0, 7, 8, 9];
    for tail in [&[][..], &[0xAA][..], &[1, 0, 0, 0, 0, 0][..]] {
        let mut stream = frame.to_vec();
        stream.extend_from_slice(tail);
        let mut waiter = waiting(Request::send_bytes(vec![]), 3);
        assert_eq!(
            waiter.block_rcv_reply(&stream, 9),
            Ok(Reply { fixed_payload: Payload::Unit, inbound_buffer: Some(vec![7, 8, 9]) })
        );
        let (_, session) = waiter.into_parts();
        assert_eq!(session.outstanding(), None);
    }
}
