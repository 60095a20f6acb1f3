//! The protocol engine of the `urpc` crate, and what this library takes
//! for granted about it.
//!
//! Nothing in this file is proved. Each function here calls into `urpc`
//! and does nothing else; its contract says what the source of `urpc` 0.2
//! shows of that call, over a model of what an `RpcClient` holds.

use vstd::prelude::*;
use crate::wire::{reply_header, request_frame, MAX_FIELD_LEN, REP_HEADER_LEN, REQ_HEADER_LEN};

verus! {

/// `urpc::client::RpcClient`, the client side of the protocol. Its fields
/// are private: what it holds is known here only by the two names below.
#[verifier::external_type_specification]
#[verifier::external_body]
pub struct ExRpcClient(urpc::client::RpcClient);

/// Channel that an `RpcClient` gives to every request: it is made with
/// this number and never changes it.
pub const CHANNEL: u8 = 1;

/// Where an `RpcClient` stands in the exchange of one request and reply.
pub enum Phase {
    /// No request is outstanding.
    Idle,
    /// A request went out; the header of its reply is awaited.
    AwaitingHeader { chan: u8, expects_buffer: bool },
    /// The header came; the rest of the frame is awaited.
    AwaitingBody { chan: u8, body_len: nat, buffer_len: nat },
    /// The whole reply lies in the slot, not yet taken. The client cuts the
    /// bytes that came behind the header in two: `buffer` is their front, as
    /// long as the header gave for the byte buffer, and `body` what follows,
    /// as long as the header gave for the fixed payload.
    ReplyReady { chan: u8, buffer: Seq<u8>, body: Seq<u8> },
}

/// The phase that a client is in: what its `state` field holds, and, once a
/// reply is whole, the bytes of that reply in its slot.
pub uninterp spec fn client_phase(client: urpc::client::RpcClient) -> Phase;

/// The size of the reply slot that a client was made with: the length of
/// its `buf` field, which no method changes.
pub uninterp spec fn client_capacity(client: urpc::client::RpcClient) -> nat;

/// `urpc::client::RpcClient::new`: an idle client whose reply slot holds
/// `max_buf_len` bytes.
#[verifier::external_body]
pub(crate) fn client_new(max_buf_len: u16) -> (client: urpc::client::RpcClient)
    ensures
        client_phase(client) == Phase::Idle,
        client_capacity(client) == max_buf_len,
{
    urpc::client::RpcClient::new(max_buf_len)
}

/// The bytes of an optional byte buffer; none where there is no buffer.
pub open spec fn buffer_bytes(buffer: Option<&[u8]>) -> Seq<u8> {
    match buffer {
        Some(bytes) => bytes@,
        None => Seq::empty(),
    }
}

/// The phase that `req` leaves a client in: an idle client then awaits the
/// header of the reply; a busy one stays as it was.
pub open spec fn req_step(phase: Phase, expects_buffer: bool) -> Phase {
    match phase {
        Phase::Idle => Phase::AwaitingHeader { chan: CHANNEL, expects_buffer },
        _ => phase,
    }
}

/// What `req` returns and writes: an idle client writes the frame to the
/// front of the buffer and returns its length; a busy one fails and writes
/// nothing.
pub open spec fn req_writes(
    phase: Phase,
    frame: Seq<u8>,
    before: Seq<u8>,
    result: Option<usize>,
    after: Seq<u8>,
) -> bool {
    match phase {
        Phase::Idle => {
            &&& result matches Some(n)
            &&& n == frame.len()
            &&& after == frame + before.skip(frame.len() as int)
        },
        _ => {
            &&& result is None
            &&& after == before
        },
    }
}

/// `urpc::client::RpcClient::req` for a request without fixed argument.
/// The header is seeded through `urpc::server::RpcServer::parse`, the one
/// public way to a `RequestHeader`: it carries the method and zeroes, and
/// `req` fills in channel and lengths. The caller must leave room for the
/// frame, since `req` panics where the buffer is too short for it.
#[verifier::external_body]
pub(crate) fn client_req_unit(
    client: &mut urpc::client::RpcClient,
    method: u8,
    buffer: Option<&[u8]>,
    expects_buffer: bool,
    buf: &mut Vec<u8>,
) -> (result: Option<usize>)
    requires
        buffer_bytes(buffer).len() <= MAX_FIELD_LEN,
        old(buf)@.len() >= REQ_HEADER_LEN + buffer_bytes(buffer).len(),
    ensures
        client_capacity(*final(client)) == client_capacity(*old(client)),
        client_phase(*final(client)) == req_step(client_phase(*old(client)), expects_buffer),
        req_writes(
            client_phase(*old(client)),
            request_frame(method, CHANNEL, Seq::empty(), buffer_bytes(buffer)),
            old(buf)@,
            result,
            final(buf)@,
        ),
{
    let seed = [method, 0, 0, 0, 0, 0, 0];
    match urpc::server::RpcServer::new(1).parse(&seed) {
        Ok(urpc::server::ParseResult::Request((mut header, _))) => {
            client.req(&mut header, &(), buffer, expects_buffer, buf.as_mut_slice()).ok()
        },
        _ => None,
    }
}

/// `urpc::client::RpcClient::req` for a request whose fixed argument is one
/// byte; the header is seeded as in `client_req_unit`.
#[verifier::external_body]
pub(crate) fn client_req_byte(
    client: &mut urpc::client::RpcClient,
    method: u8,
    body: u8,
    buffer: Option<&[u8]>,
    expects_buffer: bool,
    buf: &mut Vec<u8>,
) -> (result: Option<usize>)
    requires
        buffer_bytes(buffer).len() <= MAX_FIELD_LEN,
        old(buf)@.len() >= REQ_HEADER_LEN + 1 + buffer_bytes(buffer).len(),
    ensures
        client_capacity(*final(client)) == client_capacity(*old(client)),
        client_phase(*final(client)) == req_step(client_phase(*old(client)), expects_buffer),
        req_writes(
            client_phase(*old(client)),
            request_frame(method, CHANNEL, seq![body], buffer_bytes(buffer)),
            old(buf)@,
            result,
            final(buf)@,
        ),
{
    let seed = [method, 0, 0, 0, 0, 0, 0];
    match urpc::server::RpcServer::new(1).parse(&seed) {
        Ok(urpc::server::ParseResult::Request((mut header, _))) => {
            client.req(&mut header, &body, buffer, expects_buffer, buf.as_mut_slice()).ok()
        },
        _ => None,
    }
}

/// `urpc::client::RpcClient::req` for a request whose fixed argument is a
/// pair of bytes; the header is seeded as in `client_req_unit`.
#[verifier::external_body]
pub(crate) fn client_req_pair(
    client: &mut urpc::client::RpcClient,
    method: u8,
    body: (u8, u8),
    buffer: Option<&[u8]>,
    expects_buffer: bool,
    buf: &mut Vec<u8>,
) -> (result: Option<usize>)
    requires
        buffer_bytes(buffer).len() <= MAX_FIELD_LEN,
        old(buf)@.len() >= REQ_HEADER_LEN + 2 + buffer_bytes(buffer).len(),
    ensures
        client_capacity(*final(client)) == client_capacity(*old(client)),
        client_phase(*final(client)) == req_step(client_phase(*old(client)), expects_buffer),
        req_writes(
            client_phase(*old(client)),
            request_frame(method, CHANNEL, seq![body.0, body.1], buffer_bytes(buffer)),
            old(buf)@,
            result,
            final(buf)@,
        ),
{
    let seed = [method, 0, 0, 0, 0, 0, 0];
    match urpc::server::RpcServer::new(1).parse(&seed) {
        Ok(urpc::server::ParseResult::Request((mut header, _))) => {
            client.req(&mut header, &body, buffer, expects_buffer, buf.as_mut_slice()).ok()
        },
        _ => None,
    }
}

/// `urpc::client::RpcClient::req` for a request whose fixed argument is
/// four bytes; the header is seeded as in `client_req_unit`.
#[verifier::external_body]
pub(crate) fn client_req_quad(
    client: &mut urpc::client::RpcClient,
    method: u8,
    body: [u8; 4],
    buffer: Option<&[u8]>,
    expects_buffer: bool,
    buf: &mut Vec<u8>,
) -> (result: Option<usize>)
    requires
        buffer_bytes(buffer).len() <= MAX_FIELD_LEN,
        old(buf)@.len() >= REQ_HEADER_LEN + 4 + buffer_bytes(buffer).len(),
    ensures
        client_capacity(*final(client)) == client_capacity(*old(client)),
        client_phase(*final(client)) == req_step(client_phase(*old(client)), expects_buffer),
        req_writes(
            client_phase(*old(client)),
            request_frame(method, CHANNEL, body@, buffer_bytes(buffer)),
            old(buf)@,
            result,
            final(buf)@,
        ),
{
    let seed = [method, 0, 0, 0, 0, 0, 0];
    match urpc::server::RpcServer::new(1).parse(&seed) {
        Ok(urpc::server::ParseResult::Request((mut header, _))) => {
            client.req(&mut header, &body, buffer, expects_buffer, buf.as_mut_slice()).ok()
        },
        _ => None,
    }
}

/// What one call of `parse` does to a client in `phase` whose slot holds
/// `capacity` bytes: the phase it leaves, and what it returns, with the tests
/// in the order in which `parse` makes them. A header that announces nothing
/// finishes the reply in the same call. Every failure leaves the client
/// idle; which error `urpc` names for it is not said here.
pub open spec fn parse_step(phase: Phase, capacity: nat, bytes: Seq<u8>) -> (Phase, Option<(usize, Option<u8>)>) {
    match phase {
        Phase::AwaitingHeader { chan, expects_buffer } => {
            let header = reply_header(bytes);
            let rest = header.body_len + header.buffer_len;
            if bytes.len() < REP_HEADER_LEN {
                (Phase::Idle, None)
            } else if header.chan != chan {
                (Phase::Idle, None)
            } else if header.body_len > capacity {
                (Phase::Idle, None)
            } else if !expects_buffer && header.buffer_len != 0 {
                (Phase::Idle, None)
            } else if expects_buffer && rest > capacity {
                (Phase::Idle, None)
            } else if rest != 0 {
                (
                    Phase::AwaitingBody { chan, body_len: header.body_len, buffer_len: header.buffer_len },
                    Some((rest as usize, None)),
                )
            } else {
                (
                    Phase::ReplyReady { chan, buffer: Seq::empty(), body: Seq::empty() },
                    Some((REP_HEADER_LEN, Some(chan))),
                )
            }
        },
        Phase::AwaitingBody { chan, body_len, buffer_len } => {
            if bytes.len() < body_len + buffer_len {
                (Phase::Idle, None)
            } else {
                (
                    Phase::ReplyReady {
                        chan,
                        buffer: bytes.subrange(0, buffer_len as int),
                        body: bytes.subrange(buffer_len as int, (buffer_len + body_len) as int),
                    },
                    Some((REP_HEADER_LEN, Some(chan))),
                )
            }
        },
        _ => (Phase::Idle, None),
    }
}

/// `urpc::client::RpcClient::parse`: takes the bytes of one read and moves
/// the client on as `parse_step` says. Any failure leaves the client idle.
#[verifier::external_body]
pub(crate) fn client_parse(client: &mut urpc::client::RpcClient, bytes: &[u8]) -> (result: Option<(usize, Option<u8>)>)
    ensures
        client_capacity(*final(client)) == client_capacity(*old(client)),
        client_phase(*final(client)) == parse_step(client_phase(*old(client)), client_capacity(*old(client)), bytes@).0,
        result == parse_step(client_phase(*old(client)), client_capacity(*old(client)), bytes@).1,
{
    client.parse(bytes).ok()
}

/// `urpc::client::RpcClient::take_reply`: where a whole reply on channel
/// `chan` lies in the slot, hands out the two pieces that the client cut it
/// in, `body` first and `buffer` second, and leaves the client idle;
/// otherwise changes nothing.
#[verifier::external_body]
pub(crate) fn client_take_reply(client: &mut urpc::client::RpcClient, chan: u8) -> (reply: Option<(Vec<u8>, Vec<u8>)>)
    ensures
        client_capacity(*final(client)) == client_capacity(*old(client)),
        match client_phase(*old(client)) {
            Phase::ReplyReady { chan: ready, buffer, body } if ready == chan => {
                &&& client_phase(*final(client)) == Phase::Idle
                &&& reply matches Some(parts)
                &&& parts.0@ == body
                &&& parts.1@ == buffer
            },
            _ => {
                &&& client_phase(*final(client)) == client_phase(*old(client))
                &&& reply is None
            },
        },
{
    match client.take_reply(chan) {
        Some((_, body, buffer)) => Some((body.to_vec(), buffer.to_vec())),
        None => None,
    }
}

} // verus!
