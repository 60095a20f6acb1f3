//! Whole exchanges against the server side of `urpc`, which stands in for
//! the far end of the transport.

use urpc::server::{ParseResult, RequestType, RpcServer};
use urpc::{OptBufNo, OptBufYes};
use urpc_client::descriptor::Descriptor;
use urpc_client::error::Error;
use urpc_client::payload::{Payload, Shape};
use urpc_client::request::{Reply, Request};
use urpc_client::session::Session;
use urpc_client::waiter::ReplyWaiter;
use urpc_client::wire::{REP_HEADER_LEN, REQ_HEADER_LEN};

/// Runs the frame through the server's parser and returns the header it
/// saw with the bytes behind it.
fn serve(frame: &[u8]) -> (urpc::RequestHeader, Vec<u8>) {
    let mut server = RpcServer::new(4096);
    match server.parse(&frame[..REQ_HEADER_LEN]).unwrap() {
        ParseResult::Request((header, rest)) => (header, rest.to_vec()),
        ParseResult::NeedBytes(n) => {
            assert_eq!(frame.len(), REQ_HEADER_LEN + n);
            match server.parse(&frame[REQ_HEADER_LEN..]).unwrap() {
                ParseResult::Request((header, rest)) => (header, rest.to_vec()),
                ParseResult::NeedBytes(_) => panic!("the server wants a third read"),
            }
        }
    }
}

#[test]
fn add_round_trip_returns_seven() {
    let mut session = Session::new(32);
    let mut send_buf = vec![0u8; 32];
    let mut req = Request::add(3, 4);
    let n = req.request(&mut session, &mut send_buf).unwrap();
    assert_eq!(n, REQ_HEADER_LEN + 2);
    assert_eq!(&send_buf[..n], &[2, 1, 0, 2, 0, 0, 0, 3, 4]);

    let (header, rest) = serve(&send_buf[..n]);
    assert_eq!(header.method_idx, 2);
    let call = RequestType::<(u8, u8), OptBufNo, u8, OptBufNo>::from_bytes(header, &rest).unwrap();
    assert_eq!(call.body, (3, 4));
    let mut reply_buf = vec![0u8; 32];
    let m = call.reply(7u8, &mut reply_buf).unwrap();
    assert_eq!(m, REP_HEADER_LEN + 1);

    let mut waiter = ReplyWaiter::new(req, session);
    let reply = waiter.block_rcv_reply(&reply_buf[..m], 32).unwrap();
    assert_eq!(reply, Reply { fixed_payload: Payload::Byte(7), inbound_buffer: None });
}

#[test]
fn ping_round_trip_echoes_payload() {
    let mut session = Session::new(32);
    let mut send_buf = vec![0u8; 32];
    let mut req = Request::ping([1, 2, 3, 4]);
    let n = req.request(&mut session, &mut send_buf).unwrap();
    assert_eq!(n, REQ_HEADER_LEN + 4);
    assert_eq!(&send_buf[..n], &[0, 1, 0, 4, 0, 0, 0, 1, 2, 3, 4]);

    let (header, rest) = serve(&send_buf[..n]);
    assert_eq!(header.method_idx, 0);
    let call = RequestType::<[u8; 4], OptBufNo, [u8; 4], OptBufNo>::from_bytes(header, &rest).unwrap();
    let echo = call.body;
    assert_eq!(echo, [1, 2, 3, 4]);
    let mut reply_buf = vec![0u8; 32];
    let m = call.reply(echo, &mut reply_buf).unwrap();
    assert_eq!(&reply_buf[..m], &[1, 0, 4, 0, 0, 0, 1, 2, 3, 4]);

    let mut waiter = ReplyWaiter::new(req, session);
    let reply = waiter.block_rcv_reply(&reply_buf[..m], 32).unwrap();
    assert_eq!(reply.fixed_payload, Payload::Quad([1, 2, 3, 4]));
    assert_eq!(reply.inbound_buffer, None);
}

#[test]
fn send_bytes_round_trip_returns_attached_buffer() {
    let mut session = Session::new(32);
    let mut send_buf = vec![0u8; 32];
    let mut req = Request::send_bytes(b"hello".to_vec());
    let n = req.request(&mut session, &mut send_buf).unwrap();
    assert_eq!(n, REQ_HEADER_LEN + 5);
    assert_eq!(&send_buf[..n], &[1, 1, 0, 0, 0, 5, 0, b'h', b'e', b'l', b'l', b'o']);

    let (header, rest) = serve(&send_buf[..n]);
    assert_eq!(header.method_idx, 1);
    let (call, sent) = RequestType::<(), OptBufYes, (), OptBufYes>::from_bytes(header, &rest).unwrap();
    assert_eq!(sent, b"hello");
    let mut reply_buf = vec![0u8; 32];
    let attached = b"olleh!!";
    call.get_opt_buf(&mut reply_buf)[..attached.len()].copy_from_slice(attached);
    let m = call.reply((), attached.len() as u16, &mut reply_buf).unwrap();
    assert_eq!(m, REP_HEADER_LEN + attached.len());

    let mut waiter = ReplyWaiter::new(req, session);
    let reply = waiter.block_rcv_reply(&reply_buf[..m], 32).unwrap();
    assert_eq!(reply.fixed_payload, Payload::Unit);
    assert_eq!(reply.inbound_buffer, Some(attached.to_vec()));
}

#[test]
fn request_with_argument_and_buffer_reaches_the_server_whole() {
    let kind = Descriptor {
        id: 9,
        arg: Shape::Byte,
        has_outbound_buffer: true,
        reply: Shape::Pair,
        has_inbound_buffer: true,
    };
    let mut session = Session::new(64);
    let mut send_buf = vec![0u8; 64];
    let mut req = Request::new(kind, Payload::Byte(0xAB), Some(vec![10, 20, 30])).unwrap();
    let n = req.request(&mut session, &mut send_buf).unwrap();
    assert_eq!(&send_buf[..n], &[9, 1, 0, 1, 0, 3, 0, 0xAB, 10, 20, 30]);

    let (header, rest) = serve(&send_buf[..n]);
    assert_eq!(header.method_idx, 9);
    assert_eq!(header.body_len(), 1);
    assert_eq!(header.buf_len(), 3);
    let (call, sent) = RequestType::<u8, OptBufYes, (u8, u8), OptBufYes>::from_bytes(header, &rest).unwrap();
    assert_eq!(call.body, 0xAB);
    assert_eq!(sent, &[10, 20, 30]);

    // The reply: header, fixed payload, byte buffer.
    let reply = [1, 0, 2, 0, 4, 0, 0x11, 0x22, 4, 3, 2, 1];
    let mut waiter = ReplyWaiter::new(req, session);
    let reply = waiter.block_rcv_reply(&reply, 64).unwrap();
    assert_eq!(reply.fixed_payload, Payload::Pair(0x11, 0x22));
    assert_eq!(reply.inbound_buffer, Some(vec![4, 3, 2, 1]));
}

#[test]
fn session_serves_one_call_after_the_other() {
    let mut session = Session::new(32);
    let mut send_buf = vec![0u8; 32];
    for round in 0u8..3 {
        let mut req = Request::add(round, 1);
        let n = req.request(&mut session, &mut send_buf).unwrap();
        assert_eq!(n, 9);
        let mut waiter = ReplyWaiter::new(req, session);
        let reply = waiter.block_rcv_reply(&[1, 0, 1, 0, 0, 0, round + 1], 32).unwrap();
        assert_eq!(reply.fixed_payload, Payload::Byte(round + 1));
        let (_, back) = waiter.into_parts();
        session = back;
        assert_eq!(session.outstanding(), None);
    }
}

#[test]
fn error_reply_of_the_server_leaves_the_payload_due() {
    let mut session = Session::new(32);
    let mut send_buf = vec![0u8; 32];
    let mut req = Request::ping([9, 9, 9, 9]);
    let n = req.request(&mut session, &mut send_buf).unwrap();
    let (header, rest) = serve(&send_buf[..n]);
    let call = RequestType::<[u8; 4], OptBufNo, [u8; 4], OptBufNo>::from_bytes(header, &rest).unwrap();
    let mut reply_buf = vec![0u8; 32];
    let m = call.reply_err(1, &mut reply_buf).unwrap();
    assert_eq!(m, REP_HEADER_LEN);

    // The server sends a header and nothing behind it: the four bytes of the
    // payload never come.
    let mut waiter = ReplyWaiter::new(req, session);
    assert_eq!(waiter.block_rcv_reply(&reply_buf[..m], 32), Err(Error::Transport));
    let (_, session) = waiter.into_parts();
    assert_eq!(session.outstanding(), None);
}
