//! Layout of the frames on the wire.
//!
//! A request is a seven byte header, the fixed argument, then the optional
//! byte buffer. A reply is a six byte header, the fixed payload, then the
//! optional byte buffer. Lengths are sixteen bit, little endian.

use vstd::prelude::*;

verus! {

/// Size in bytes of the header of a request frame.
pub const REQ_HEADER_LEN: usize = 7;

/// Size in bytes of the header of a reply frame.
pub const REP_HEADER_LEN: usize = 6;

/// Largest length that a length field of a header can carry.
pub const MAX_FIELD_LEN: usize = 0xFFFF;

/// The number that two bytes spell, low byte first.
pub open spec fn le16(lo_byte: u8, hi_byte: u8) -> nat {
    (lo_byte as nat) + 256 * (hi_byte as nat)
}

/// Low byte of a length.
pub open spec fn lo(n: nat) -> u8 {
    (n % 256) as u8
}

/// High byte of a length below 65536.
pub open spec fn hi(n: nat) -> u8 {
    ((n / 256) % 256) as u8
}

/// Header of a request: method, channel, options, length of the fixed
/// argument, length of the byte buffer.
pub open spec fn request_header(method: u8, chan: u8, body_len: nat, buffer_len: nat) -> Seq<u8> {
    seq![method, chan, 0u8, lo(body_len), hi(body_len), lo(buffer_len), hi(buffer_len)]
}

/// A whole request frame: header, fixed argument, byte buffer.
pub open spec fn request_frame(method: u8, chan: u8, body: Seq<u8>, buffer: Seq<u8>) -> Seq<u8> {
    request_header(method, chan, body.len(), buffer.len()) + body + buffer
}

/// What the header of a reply says.
pub struct ReplyHeader {
    /// Channel of the request that is answered.
    pub chan: u8,
    /// Option bits; the client does not look at them.
    pub opts: u8,
    /// What the header says of the length of the fixed payload. The session
    /// goes by the kind of request instead.
    pub body_len: nat,
    /// Length of the byte buffer.
    pub buffer_len: nat,
}

/// The header that the first six bytes of `bytes` spell.
pub open spec fn reply_header(bytes: Seq<u8>) -> ReplyHeader
    recommends
        bytes.len() >= REP_HEADER_LEN,
{
    ReplyHeader {
        chan: bytes[0],
        opts: bytes[1],
        body_len: le16(bytes[2], bytes[3]),
        buffer_len: le16(bytes[4], bytes[5]),
    }
}

/// The parts of a request frame.
#[derive(Clone, PartialEq, Eq, Debug)]
pub struct RequestFrame {
    /// Number of the method that is called.
    pub method: u8,
    /// Channel that the reply is to come back on.
    pub chan: u8,
    /// Bytes of the fixed argument.
    pub body: Vec<u8>,
    /// Bytes of the byte buffer; empty where the request has none.
    pub buffer: Vec<u8>,
}

/// The parts of a request frame as contracts see them.
pub struct RequestParts {
    /// Number of the method that is called.
    pub method: u8,
    /// Channel that the reply is to come back on.
    pub chan: u8,
    /// Bytes of the fixed argument.
    pub body: Seq<u8>,
    /// Bytes of the byte buffer.
    pub buffer: Seq<u8>,
}

impl View for RequestFrame {
    type V = RequestParts;

    open spec fn view(&self) -> RequestParts {
        RequestParts { method: self.method, chan: self.chan, body: self.body@, buffer: self.buffer@ }
    }
}

/// The parts of the request frame at the front of `bytes`: the header says
/// how long the fixed argument and the byte buffer are, and they follow it
/// in that order. There are none where `bytes` ends before the frame does.
pub open spec fn request_parts(bytes: Seq<u8>) -> Option<RequestParts> {
    let body_len = le16(bytes[3], bytes[4]);
    let buffer_len = le16(bytes[5], bytes[6]);
    if bytes.len() < REQ_HEADER_LEN || bytes.len() < REQ_HEADER_LEN + body_len + buffer_len {
        None
    } else {
        Some(
            RequestParts {
                method: bytes[0],
                chan: bytes[1],
                body: bytes.subrange(REQ_HEADER_LEN as int, REQ_HEADER_LEN + body_len),
                buffer: bytes.subrange(
                    REQ_HEADER_LEN + body_len,
                    REQ_HEADER_LEN + body_len + buffer_len,
                ),
            },
        )
    }
}

/// Copies the bytes of `from` between `start` and `end`.
fn copy_range(from: &[u8], start: usize, end: usize) -> (copy: Vec<u8>)
    requires
        start <= end <= from@.len(),
    ensures
        copy@ == from@.subrange(start as int, end as int),
{
    let mut copy: Vec<u8> = Vec::new();
    let mut at: usize = start;
    while at < end
        invariant
            start <= at <= end <= from@.len(),
            copy@ == from@.subrange(start as int, at as int),
        decreases end - at,
    {
        copy.push(from[at]);
        at = at + 1;
        assert(copy@ =~= from@.subrange(start as int, at as int));
    }
    copy
}

impl RequestFrame {
    /// Takes the request frame at the front of `bytes` apart, as the far end
    /// of the transport does.
    pub fn parse(bytes: &[u8]) -> (frame: Option<RequestFrame>)
        ensures
            request_parts(bytes@) == match frame {
                Some(parts) => Some(parts@),
                None => None,
            },
    {
        if bytes.len() < REQ_HEADER_LEN {
            return None;
        }
        let body_len: usize = bytes[3] as usize + 256 * (bytes[4] as usize);
        let buffer_len: usize = bytes[5] as usize + 256 * (bytes[6] as usize);
        if bytes.len() - REQ_HEADER_LEN < body_len + buffer_len {
            return None;
        }
        let body = copy_range(bytes, REQ_HEADER_LEN, REQ_HEADER_LEN + body_len);
        let buffer = copy_range(
            bytes,
            REQ_HEADER_LEN + body_len,
            REQ_HEADER_LEN + body_len + buffer_len,
        );
        Some(RequestFrame { method: bytes[0], chan: bytes[1], body, buffer })
    }
}

/// A length of up to 65535 is the number that its two bytes spell.
pub proof fn length_round_trip(n: nat)
    requires
        n <= MAX_FIELD_LEN,
    ensures
        le16(lo(n), hi(n)) == n,
{
}

/// A request frame that is taken apart gives back the method, the channel,
/// the fixed argument and the byte buffer that it was made of, whatever
/// follows it on the wire.
pub proof fn request_round_trip(method: u8, chan: u8, body: Seq<u8>, buffer: Seq<u8>, rest: Seq<u8>)
    requires
        body.len() <= MAX_FIELD_LEN,
        buffer.len() <= MAX_FIELD_LEN,
    ensures
        request_parts(request_frame(method, chan, body, buffer) + rest) == Some(
            RequestParts { method, chan, body, buffer },
        ),
{
    let frame = request_frame(method, chan, body, buffer);
    let bytes = frame + rest;
    length_round_trip(body.len());
    length_round_trip(buffer.len());
    assert(bytes[0] == method && bytes[1] == chan);
    assert(bytes[3] == lo(body.len()) && bytes[4] == hi(body.len()));
    assert(bytes[5] == lo(buffer.len()) && bytes[6] == hi(buffer.len()));
    assert(bytes.subrange(REQ_HEADER_LEN as int, REQ_HEADER_LEN + body.len()) =~= body);
    assert(bytes.subrange(REQ_HEADER_LEN + body.len(), REQ_HEADER_LEN + body.len() + buffer.len())
        =~= buffer);
}

} // verus!
