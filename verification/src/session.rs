//! The state of one connection: at most one request is outstanding, and
//! the bytes that come in are held against it.
//!
//! What follows the header of a reply is the fixed payload, whose length is
//! known from the kind of request, and behind it the byte buffer, whose
//! length the header tells, where the kind has one. The client of `urpc`
//! gathers those bytes; which of them are the payload and which the buffer
//! is decided here.

use vstd::prelude::*;
use crate::engine::{
    buffer_bytes, client_capacity, client_new, client_parse, client_phase, client_req_byte,
    client_req_pair, client_req_quad, client_req_unit, client_take_reply, Phase, CHANNEL,
};
use crate::error::Error;
use crate::payload::{Payload, Shape};
use crate::wire::{reply_header, request_frame, MAX_FIELD_LEN, REP_HEADER_LEN, REQ_HEADER_LEN};

verus! {

/// The record of the request that is outstanding.
#[derive(Clone, Copy, PartialEq, Eq, Debug)]
pub struct Outstanding {
    /// Number of the method that was called.
    pub request_id: u8,
    /// Shape of the fixed payload that is due with the reply.
    pub reply: Shape,
    /// Whether a byte buffer is due with the reply.
    pub expects_inbound_buffer: bool,
}

impl Outstanding {
    /// Number of bytes that follow a header: the fixed payload of the reply,
    /// and the byte buffer as long as the header says, but only where a byte
    /// buffer is due. Where none is due the length field of the header is
    /// not looked at.
    pub open spec fn remaining_len(self, header: Seq<u8>) -> nat {
        if self.expects_inbound_buffer {
            self.reply.size() + reply_header(header).buffer_len
        } else {
            self.reply.size()
        }
    }
}

/// The two parts of a reply as they came over the wire.
#[derive(Clone, PartialEq, Eq, Debug)]
pub struct RawReply {
    /// Bytes of the fixed payload: what came first behind the header.
    pub body: Vec<u8>,
    /// Bytes of the byte buffer: what came behind the fixed payload; empty
    /// where the reply has none.
    pub buffer: Vec<u8>,
}

/// What the session itself remembers of the phase of its client.
enum Mirror {
    Idle,
    Header,
    Body,
    Ready,
}

/// Where the exchange of one request and its reply stands.
pub enum State {
    /// No request is outstanding.
    Idle,
    /// A request went out; the header of its reply is awaited.
    AwaitingHeader,
    /// The header came; this many bytes are awaited behind it.
    AwaitingBody { remaining_len: nat },
    /// The whole reply came and is not yet taken: these bytes followed its
    /// header.
    ReplyReady { received: Seq<u8> },
}

/// The state of one connection.
pub struct Session {
    client: urpc::client::RpcClient,
    capacity: u16,
    mirror: Mirror,
    outstanding: Option<Outstanding>,
}

/// A session as contracts see it.
pub struct SessionView {
    /// Where the exchange stands.
    pub state: State,
    /// Largest reply, fixed payload and byte buffer together, that the
    /// session takes.
    pub capacity: nat,
    /// The outstanding request, if there is one.
    pub outstanding: Option<Outstanding>,
}

/// Whether a frame with this argument and byte buffer can be written into
/// `room` bytes.
pub open spec fn frame_fits(arg: Payload, outbound: Seq<u8>, room: nat) -> bool {
    &&& outbound.len() <= MAX_FIELD_LEN
    &&& REQ_HEADER_LEN + arg.bytes().len() + outbound.len() <= room
}

/// The send buffer after an attempt to write `frame` to its front.
pub open spec fn written(before: Seq<u8>, frame: Seq<u8>, result: Result<usize, Error>) -> Seq<u8> {
    if result is Ok {
        frame + before.skip(frame.len() as int)
    } else {
        before
    }
}

impl SessionView {
    /// A request is on record exactly while the exchange is under way; what
    /// is awaited behind a header is at least one byte and no less than the
    /// fixed payload; a whole reply holds its fixed payload.
    pub open spec fn coherent(self) -> bool {
        match self.state {
            State::Idle => self.outstanding is None,
            State::AwaitingHeader => self.outstanding is Some,
            State::AwaitingBody { remaining_len } => {
                &&& self.outstanding matches Some(record)
                &&& record.reply.size() <= remaining_len
                &&& 0 < remaining_len <= usize::MAX
            },
            State::ReplyReady { received } => {
                &&& self.outstanding matches Some(record)
                &&& record.reply.size() <= received.len()
            },
        }
    }

    /// The session with nothing outstanding.
    pub open spec fn idle(self) -> SessionView {
        SessionView { state: State::Idle, capacity: self.capacity, outstanding: None }
    }

    /// The session in another state, with the same request on record.
    pub open spec fn moved(self, state: State) -> SessionView {
        SessionView { state, ..self }
    }

    /// The session after a request was begun with `room` bytes to write its
    /// frame into, and what the attempt returned: the length of the frame,
    /// `ProtocolMisuse` while a request is outstanding, and otherwise
    /// `Encoding` where the frame does not fit. A failed attempt leaves the
    /// session as it was.
    pub open spec fn begun(self, record: Outstanding, arg: Payload, outbound: Seq<u8>, room: nat) -> (
        SessionView,
        Result<usize, Error>,
    ) {
        if self.outstanding is Some {
            (self, Err(Error::ProtocolMisuse))
        } else if !frame_fits(arg, outbound, room) {
            (self, Err(Error::Encoding))
        } else {
            (
                SessionView {
                    state: State::AwaitingHeader,
                    capacity: self.capacity,
                    outstanding: Some(record),
                },
                Ok((REQ_HEADER_LEN + arg.bytes().len() + outbound.len()) as usize),
            )
        }
    }

    /// What holding a header against the outstanding request gives: whether
    /// a byte buffer is due, where the header is whole and names the channel
    /// of the request; `UnexpectedReply` where it names another channel;
    /// `Decoding` where it is cut short; `ProtocolMisuse` where no header is
    /// awaited.
    pub open spec fn validated(self, header: Seq<u8>) -> Result<bool, Error> {
        match (self.state, self.outstanding) {
            (State::AwaitingHeader, Some(record)) => if header.len() < REP_HEADER_LEN {
                Err(Error::Decoding)
            } else if header[0] != CHANNEL {
                Err(Error::UnexpectedReply)
            } else {
                Ok(record.expects_inbound_buffer)
            },
            _ => Err(Error::ProtocolMisuse),
        }
    }

    /// The session after `parse` took `bytes`, and what `parse` returned:
    /// the number of bytes to read next, which is none once the reply is
    /// whole.
    ///
    /// While the header is awaited, `bytes` is held against the outstanding
    /// request. A header that passes tells how many bytes follow it: the
    /// fixed payload, and the byte buffer where one is due. More than the
    /// session takes is an error of decoding; nothing at all makes the reply
    /// whole at once; otherwise those bytes are awaited next. While they are
    /// awaited, `bytes` must hold them all: the reply is then whole, and
    /// what lies behind them in `bytes` is not looked at. In any other state
    /// the bytes came out of turn. Every error ends the exchange.
    pub open spec fn parsed(self, bytes: Seq<u8>) -> (SessionView, Result<usize, Error>) {
        match (self.state, self.outstanding) {
            (State::AwaitingHeader, Some(record)) => {
                let remaining = record.remaining_len(bytes);
                match self.validated(bytes) {
                    Err(error) => (self.idle(), Err(error)),
                    Ok(_) => if remaining > self.capacity {
                        (self.idle(), Err(Error::Decoding))
                    } else if remaining == 0 {
                        (self.moved(State::ReplyReady { received: Seq::empty() }), Ok(0))
                    } else {
                        (
                            self.moved(State::AwaitingBody { remaining_len: remaining }),
                            Ok(remaining as usize),
                        )
                    },
                }
            },
            (State::AwaitingBody { remaining_len }, Some(_)) => if bytes.len() < remaining_len {
                (self.idle(), Err(Error::Decoding))
            } else {
                (self.moved(State::ReplyReady { received: bytes.take(remaining_len as int) }), Ok(0))
            },
            _ => (self.idle(), Err(Error::ProtocolMisuse)),
        }
    }

    /// The two parts of the whole reply that waits on channel `chan`: the
    /// fixed payload is what came first behind the header, as long as the
    /// shape on record says, and the byte buffer is what came behind it.
    /// There are none where no whole reply waits on that channel.
    pub open spec fn ready(self, chan: u8) -> Option<(Seq<u8>, Seq<u8>)> {
        match (self.state, self.outstanding) {
            (State::ReplyReady { received }, Some(record)) if chan == CHANNEL => Some(
                (
                    received.take(record.reply.size() as int),
                    received.skip(record.reply.size() as int),
                ),
            ),
            _ => None,
        }
    }

    /// What `parse` leaves is coherent, and where it succeeds it asks for
    /// more bytes exactly where the reply is not whole yet.
    pub proof fn parsed_moves_on(self, bytes: Seq<u8>)
        requires
            self.coherent(),
        ensures
            self.parsed(bytes).0.coherent(),
            self.parsed(bytes).1 matches Ok(next) ==> if next > 0 {
                self.parsed(bytes).0.state is AwaitingBody
            } else {
                self.parsed(bytes).0.state is ReplyReady
            },
    {
        let header = reply_header(bytes);
        assert(header.buffer_len <= MAX_FIELD_LEN);
    }
}

impl View for Session {
    type V = SessionView;

    closed spec fn view(&self) -> SessionView {
        SessionView {
            state: match client_phase(self.client) {
                Phase::Idle => State::Idle,
                Phase::AwaitingHeader { .. } => State::AwaitingHeader,
                Phase::AwaitingBody { body_len, buffer_len, .. } => State::AwaitingBody {
                    remaining_len: body_len + buffer_len,
                },
                Phase::ReplyReady { buffer, body, .. } => State::ReplyReady { received: buffer + body },
            },
            capacity: client_capacity(self.client),
            outstanding: self.outstanding,
        }
    }
}

impl Session {
    /// What holds of every session between calls: what the session
    /// remembers is what its client holds, the client was told the length
    /// of the fixed payload as the shape on record has it, and a byte buffer
    /// only where one is due.
    pub closed spec fn wf(&self) -> bool {
        &&& self.capacity == client_capacity(self.client)
        &&& match client_phase(self.client) {
            Phase::Idle => self.mirror is Idle && self.outstanding is None,
            Phase::AwaitingHeader { chan, expects_buffer } => {
                &&& self.mirror is Header
                &&& chan == CHANNEL
                &&& self.outstanding matches Some(record)
                &&& record.expects_inbound_buffer == expects_buffer
            },
            Phase::AwaitingBody { chan, body_len, buffer_len } => {
                &&& self.mirror is Body
                &&& chan == CHANNEL
                &&& self.outstanding matches Some(record)
                &&& body_len == record.reply.size()
                &&& 0 < body_len + buffer_len <= usize::MAX
            },
            Phase::ReplyReady { chan, buffer, body } => {
                &&& self.mirror is Ready
                &&& chan == CHANNEL
                &&& self.outstanding matches Some(record)
                &&& body.len() == record.reply.size()
            },
        }
    }

    /// A well-formed session is coherent.
    pub proof fn wf_coherent(&self)
        requires
            self.wf(),
        ensures
            self@.coherent(),
    {
    }

    /// A session with no request outstanding, which takes replies of up to
    /// `max_buf_len` bytes behind the header.
    pub fn new(max_buf_len: u16) -> (session: Session)
        ensures
            session.wf(),
            session@ == (SessionView { state: State::Idle, capacity: max_buf_len as nat, outstanding: None }),
    {
        Session { client: client_new(max_buf_len), capacity: max_buf_len, mirror: Mirror::Idle, outstanding: None }
    }

    /// The outstanding request, if there is one.
    pub fn outstanding(&self) -> (record: Option<Outstanding>)
        ensures
            record == self@.outstanding,
    {
        self.outstanding
    }

    /// Largest reply, fixed payload and byte buffer together, that the
    /// session takes.
    pub fn capacity(&self) -> (capacity: u16)
        requires
            self.wf(),
        ensures
            capacity == self@.capacity,
    {
        self.capacity
    }

    /// Writes the frame of a request to the front of `send_buf` and puts the
    /// request on record as the outstanding one: the number of its method,
    /// the shape of the fixed payload of its reply, and whether a byte
    /// buffer is due with the reply. Returns the length of the frame.
    ///
    /// Fails with `ProtocolMisuse` while a request is outstanding, and
    /// otherwise with `Encoding` where the frame does not fit. A call that
    /// fails changes nothing.
    pub fn begin_request(
        &mut self,
        request_id: u8,
        arg: Payload,
        outbound: Option<&[u8]>,
        reply: Shape,
        expects_inbound_buffer: bool,
        send_buf: &mut Vec<u8>,
    ) -> (result: Result<usize, Error>)
        requires
            old(self).wf(),
        ensures
            final(self).wf(),
            (final(self)@, result) == old(self)@.begun(
                Outstanding { request_id, reply, expects_inbound_buffer },
                arg,
                buffer_bytes(outbound),
                old(send_buf)@.len(),
            ),
            final(send_buf)@ == written(
                old(send_buf)@,
                request_frame(request_id, CHANNEL, arg.bytes(), buffer_bytes(outbound)),
                result,
            ),
    {
        if self.outstanding.is_some() {
            return Err(Error::ProtocolMisuse);
        }
        let extra: usize = match outbound {
            Some(bytes) => bytes.len(),
            None => 0,
        };
        let fixed: usize = REQ_HEADER_LEN + arg.kind().len();
        if extra > MAX_FIELD_LEN || send_buf.len() < fixed || send_buf.len() - fixed < extra {
            return Err(Error::Encoding);
        }
        let sent = match arg {
            Payload::Unit => client_req_unit(
                &mut self.client,
                request_id,
                outbound,
                expects_inbound_buffer,
                send_buf,
            ),
            Payload::Byte(a) => client_req_byte(
                &mut self.client,
                request_id,
                a,
                outbound,
                expects_inbound_buffer,
                send_buf,
            ),
            Payload::Pair(a, b) => client_req_pair(
                &mut self.client,
                request_id,
                (a, b),
                outbound,
                expects_inbound_buffer,
                send_buf,
            ),
            Payload::Quad(q) => client_req_quad(
                &mut self.client,
                request_id,
                q,
                outbound,
                expects_inbound_buffer,
                send_buf,
            ),
        };
        match sent {
            Some(n) => {
                self.mirror = Mirror::Header;
                self.outstanding = Some(Outstanding { request_id, reply, expects_inbound_buffer });
                Ok(n)
            },
            None => Err(Error::ProtocolMisuse),
        }
    }

    /// Holds the header of a reply against the outstanding request, and
    /// changes nothing. Returns whether a byte buffer is due with the reply.
    ///
    /// Fails with `UnexpectedReply` where the header names another channel
    /// than that of the outstanding request, with `Decoding` where it is
    /// shorter than a header, and with `ProtocolMisuse` where no header is
    /// awaited.
    pub fn validate_reply_header(&self, header: &[u8]) -> (result: Result<bool, Error>)
        requires
            self.wf(),
        ensures
            result == self@.validated(header@),
    {
        match (&self.mirror, self.outstanding) {
            (Mirror::Header, Some(record)) => {
                if header.len() < REP_HEADER_LEN {
                    Err(Error::Decoding)
                } else if header[0] != CHANNEL {
                    Err(Error::UnexpectedReply)
                } else {
                    Ok(record.expects_inbound_buffer)
                }
            },
            _ => Err(Error::ProtocolMisuse),
        }
    }

    /// The header that the client is given in place of the one that came:
    /// channel and option bits as they came; for the length of the fixed
    /// payload, the length of the shape on record; for the length of the
    /// byte buffer, what came where a byte buffer is due, and nothing where
    /// none is.
    fn header_for_client(record: Outstanding, header: &[u8]) -> (handed: [u8; 6])
        requires
            header@.len() >= REP_HEADER_LEN,
        ensures
            reply_header(handed@).chan == header@[0],
            reply_header(handed@).body_len == record.reply.size(),
            reply_header(handed@).body_len + reply_header(handed@).buffer_len
                == record.remaining_len(header@),
            !record.expects_inbound_buffer ==> reply_header(handed@).buffer_len == 0,
    {
        let fixed: u8 = match record.reply {
            Shape::Unit => 0,
            Shape::Byte => 1,
            Shape::Pair => 2,
            Shape::Quad => 4,
        };
        if record.expects_inbound_buffer {
            [header[0], header[1], fixed, 0, header[4], header[5]]
        } else {
            [header[0], header[1], fixed, 0, 0, 0]
        }
    }

    /// Takes the bytes of one read and moves the exchange on. Returns the
    /// number of bytes to read next; none once the reply is whole.
    ///
    /// While the header is awaited, `bytes` is the header: the session
    /// holds it against the outstanding request and returns the length of
    /// what follows the header: the fixed payload, and the byte buffer where
    /// one is due. Where nothing follows, the reply is whole at once. While
    /// the rest is awaited, `bytes` is the rest: the reply is then whole and
    /// waits to be taken.
    ///
    /// Any failure ends the exchange: the session is idle after it.
    pub fn parse(&mut self, bytes: &[u8]) -> (result: Result<usize, Error>)
        requires
            old(self).wf(),
        ensures
            final(self).wf(),
            (final(self)@, result) == old(self)@.parsed(bytes@),
    {
        let checked = self.validate_reply_header(bytes);
        let moved = match (&self.mirror, self.outstanding) {
            (Mirror::Header, Some(record)) => {
                if bytes.len() >= REP_HEADER_LEN {
                    let handed = Session::header_for_client(record, bytes);
                    client_parse(&mut self.client, handed.as_slice())
                } else {
                    client_parse(&mut self.client, bytes)
                }
            },
            _ => {
                proof {
                    let held = client_phase(old(self).client);
                    if let Phase::AwaitingBody { chan, body_len, buffer_len } = held {
                        let taken = (body_len + buffer_len) as int;
                        if bytes@.len() >= taken {
                            assert(bytes@.subrange(0, buffer_len as int) + bytes@.subrange(
                                buffer_len as int,
                                taken,
                            ) =~= bytes@.take(taken));
                        }
                    }
                }
                client_parse(&mut self.client, bytes)
            },
        };
        match moved {
            Some((next, done)) => {
                if done.is_some() {
                    self.mirror = Mirror::Ready;
                    Ok(0)
                } else {
                    self.mirror = Mirror::Body;
                    Ok(next)
                }
            },
            None => {
                let reported = match self.mirror {
                    Mirror::Body => Error::Decoding,
                    _ => match checked {
                        Err(error) => error,
                        Ok(_) => Error::Decoding,
                    },
                };
                self.mirror = Mirror::Idle;
                self.outstanding = None;
                Err(reported)
            },
        }
    }

    /// Hands out the reply on channel `chan` where it is whole, and with
    /// that clears the record of the outstanding request. Of the bytes that
    /// followed the header, the first are the fixed payload, as many as its
    /// shape takes, and the rest are the byte buffer. Returns nothing, and
    /// changes nothing, where no whole reply on that channel waits.
    pub fn take_reply(&mut self, chan: u8) -> (reply: Option<RawReply>)
        requires
            old(self).wf(),
        ensures
            final(self).wf(),
            match old(self)@.ready(chan) {
                Some(parts) => {
                    &&& final(self)@ == old(self)@.idle()
                    &&& reply matches Some(raw)
                    &&& raw.body@ == parts.0
                    &&& raw.buffer@ == parts.1
                },
                None => {
                    &&& final(self)@ == old(self)@
                    &&& reply is None
                },
            },
    {
        let fixed: usize = match self.outstanding {
            Some(record) => record.reply.len(),
            None => 0,
        };
        match client_take_reply(&mut self.client, chan) {
            Some((payload_end, buffer_end)) => {
                // The client hands out the bytes that came in two pieces,
                // cut where it was told the byte buffer ends. Joined again
                // they are the bytes as they came.
                let mut received = buffer_end;
                let mut tail = payload_end;
                received.append(&mut tail);
                let buffer = received.split_off(fixed);
                self.mirror = Mirror::Idle;
                self.outstanding = None;
                Some(RawReply { body: received, buffer })
            },
            None => None,
        }
    }

    /// Clears the record of the outstanding request, if there is one, and
    /// with it what has come of its reply: the session is idle afterwards
    /// and takes a new request.
    pub fn complete(&mut self)
        requires
            old(self).wf(),
        ensures
            final(self).wf(),
            final(self)@ == old(self)@.idle(),
    {
        self.client = client_new(self.capacity);
        self.mirror = Mirror::Idle;
        self.outstanding = None;
    }
}

} // verus!
