//! A request that is ready to be sent, and the reply that answers it.

use vstd::prelude::*;
use vstd::slice::slice_to_vec;
use crate::descriptor::Descriptor;
use crate::engine::CHANNEL;
use crate::error::Error;
use crate::payload::Payload;
use crate::session::{written, Outstanding, RawReply, Session, SessionView};
use crate::wire::request_frame;

verus! {

/// The reply to a request: its fixed payload, and its byte buffer where the
/// kind of request has one.
#[derive(Clone, PartialEq, Eq, Debug)]
pub struct Reply {
    /// The fixed payload.
    pub fixed_payload: Payload,
    /// The byte buffer; there is one exactly where the descriptor of the
    /// request says so.
    pub inbound_buffer: Option<Vec<u8>>,
}

/// A reply as contracts see it.
pub struct ReplyView {
    /// The fixed payload.
    pub fixed_payload: Payload,
    /// The byte buffer.
    pub inbound_buffer: Option<Seq<u8>>,
}

impl View for Reply {
    type V = ReplyView;

    open spec fn view(&self) -> ReplyView {
        ReplyView {
            fixed_payload: self.fixed_payload,
            inbound_buffer: match self.inbound_buffer {
                Some(bytes) => Some(bytes@),
                None => None,
            },
        }
    }
}

impl Reply {
    /// A copy of this reply.
    pub fn duplicate(&self) -> (copy: Reply)
        ensures
            copy@ == self@,
    {
        Reply {
            fixed_payload: self.fixed_payload,
            inbound_buffer: match &self.inbound_buffer {
                Some(bytes) => Some(slice_to_vec(bytes.as_slice())),
                None => None,
            },
        }
    }
}

/// The outcome of a call as contracts see it.
pub open spec fn outcome_view(outcome: Result<Reply, Error>) -> Result<ReplyView, Error> {
    match outcome {
        Ok(reply) => Ok(reply@),
        Err(error) => Err(error),
    }
}

/// The reply that the two parts of a frame make for a request of kind
/// `descriptor`: `body` is what came first behind the header, and the fixed
/// payload is read from its front; `buffer` is what came behind the fixed
/// payload, and comes with the reply exactly where the descriptor has a byte
/// buffer in its reply. A body too short for the shape of the payload cannot
/// be decoded.
pub open spec fn reply_of(descriptor: Descriptor, body: Seq<u8>, buffer: Seq<u8>) -> Result<ReplyView, Error> {
    match Payload::decoded(descriptor.reply, body) {
        Some(fixed_payload) => Ok(
            ReplyView {
                fixed_payload,
                inbound_buffer: if descriptor.has_inbound_buffer {
                    Some(buffer)
                } else {
                    None
                },
            },
        ),
        None => Err(Error::Decoding),
    }
}

/// One call in the making: the kind of request, its fixed argument and,
/// where the kind has one, the byte buffer to send along.
pub struct Request {
    descriptor: Descriptor,
    arg: Payload,
    outbound: Option<Vec<u8>>,
    chan: u8,
}

/// A request as contracts see it.
pub struct RequestView {
    /// The kind of request.
    pub descriptor: Descriptor,
    /// The fixed argument.
    pub arg: Payload,
    /// The byte buffer to send along; empty where the kind has none.
    pub outbound: Seq<u8>,
    /// The channel that the request went out on; 0 until it did.
    pub chan: u8,
}

impl RequestView {
    /// The record that a session keeps of this request while it is
    /// outstanding.
    pub open spec fn record(self) -> Outstanding {
        Outstanding {
            request_id: self.descriptor.id,
            reply: self.descriptor.reply,
            expects_inbound_buffer: self.descriptor.has_inbound_buffer,
        }
    }

    /// The frame that this request is sent as.
    pub open spec fn frame(self) -> Seq<u8> {
        request_frame(self.descriptor.id, CHANNEL, self.arg.bytes(), self.outbound)
    }

    /// This request, the session and the result after the request tried to
    /// go out on `session` with `room` bytes to write its frame into. A
    /// request that went out knows its channel.
    pub open spec fn sent(self, session: SessionView, room: nat) -> (RequestView, SessionView, Result<usize, Error>) {
        let (after, result) = session.begun(self.record(), self.arg, self.outbound, room);
        (
            if result is Ok {
                RequestView { chan: CHANNEL, ..self }
            } else {
                self
            },
            after,
            result,
        )
    }

    /// The parts of the whole reply that waits in `session` for this
    /// request: the session must have this request on record and hold a
    /// whole reply on the channel that the request went out on.
    pub open spec fn claim(self, session: SessionView) -> Option<(Seq<u8>, Seq<u8>)> {
        if session.outstanding == Some(self.record()) {
            session.ready(self.chan)
        } else {
            None
        }
    }

    /// The session after this request tried to take its reply, and what
    /// the request got.
    pub open spec fn took(self, session: SessionView) -> (SessionView, Option<Result<ReplyView, Error>>) {
        match self.claim(session) {
            Some(parts) => (session.idle(), Some(reply_of(self.descriptor, parts.0, parts.1))),
            None => (session, None),
        }
    }
}

impl View for Request {
    type V = RequestView;

    closed spec fn view(&self) -> RequestView {
        RequestView {
            descriptor: self.descriptor,
            arg: self.arg,
            outbound: match self.outbound {
                Some(bytes) => bytes@,
                None => Seq::empty(),
            },
            chan: self.chan,
        }
    }
}

impl Request {
    #[verifier::type_invariant]
    spec fn well_formed(self) -> bool {
        &&& self.arg.shape() == self.descriptor.arg
        &&& self.outbound is Some <==> self.descriptor.has_outbound_buffer
    }

    /// A request of kind `descriptor`. There is none where the argument has
    /// another shape than the kind asks for, or where a byte buffer is
    /// given for a kind that sends none, or none for a kind that sends one.
    pub fn new(descriptor: Descriptor, arg: Payload, outbound: Option<Vec<u8>>) -> (request: Option<Request>)
        ensures
            request is Some <==> arg.shape() == descriptor.arg && (outbound is Some
                <==> descriptor.has_outbound_buffer),
            request matches Some(made) ==> made@ == (RequestView {
                descriptor,
                arg,
                outbound: match outbound {
                    Some(bytes) => bytes@,
                    None => Seq::empty(),
                },
                chan: 0,
            }),
    {
        if arg.kind() == descriptor.arg && outbound.is_some() == descriptor.has_outbound_buffer {
            Some(Request { descriptor, arg, outbound, chan: 0 })
        } else {
            None
        }
    }

    /// A `Ping` with four bytes to be echoed.
    pub fn ping(payload: [u8; 4]) -> (request: Request)
        ensures
            request@ == (RequestView {
                descriptor: Descriptor::ping(),
                arg: Payload::Quad(payload),
                outbound: Seq::empty(),
                chan: 0,
            }),
    {
        Request { descriptor: Descriptor::ping(), arg: Payload::Quad(payload), outbound: None, chan: 0 }
    }

    /// A `SendBytes` that carries `bytes`.
    pub fn send_bytes(bytes: Vec<u8>) -> (request: Request)
        ensures
            request@ == (RequestView {
                descriptor: Descriptor::send_bytes(),
                arg: Payload::Unit,
                outbound: bytes@,
                chan: 0,
            }),
    {
        Request { descriptor: Descriptor::send_bytes(), arg: Payload::Unit, outbound: Some(bytes), chan: 0 }
    }

    /// An `Add` of two numbers.
    pub fn add(a: u8, b: u8) -> (request: Request)
        ensures
            request@ == (RequestView {
                descriptor: Descriptor::add(),
                arg: Payload::Pair(a, b),
                outbound: Seq::empty(),
                chan: 0,
            }),
    {
        Request { descriptor: Descriptor::add(), arg: Payload::Pair(a, b), outbound: None, chan: 0 }
    }

    /// The kind of this request.
    pub fn descriptor(&self) -> (descriptor: Descriptor)
        ensures
            descriptor == self@.descriptor,
    {
        self.descriptor
    }

    /// The channel that the request went out on; 0 until it did.
    pub fn chan_id(&self) -> (chan: u8)
        ensures
            chan == self@.chan,
    {
        self.chan
    }

    /// Writes the frame of this request to the front of `send_buf` and makes
    /// it the outstanding request of `session`. Returns the length of the
    /// frame: header, fixed argument and byte buffer.
    ///
    /// Fails with `ProtocolMisuse` while a request is outstanding, and
    /// otherwise with `Encoding` where `send_buf` is too small for the frame
    /// or the byte buffer is longer than 65535 bytes. A call that fails
    /// changes nothing.
    pub fn request(&mut self, session: &mut Session, send_buf: &mut Vec<u8>) -> (result: Result<usize, Error>)
        requires
            old(session).wf(),
        ensures
            final(session).wf(),
            (final(self)@, final(session)@, result) == old(self)@.sent(
                old(session)@,
                old(send_buf)@.len(),
            ),
            final(send_buf)@ == written(old(send_buf)@, old(self)@.frame(), result),
    {
        proof {
            use_type_invariant(&*self);
        }
        let sent = match &self.outbound {
            Some(bytes) => session.begin_request(
                self.descriptor.id,
                self.arg,
                Some(bytes.as_slice()),
                self.descriptor.reply,
                self.descriptor.has_inbound_buffer,
                send_buf,
            ),
            None => session.begin_request(
                self.descriptor.id,
                self.arg,
                None,
                self.descriptor.reply,
                self.descriptor.has_inbound_buffer,
                send_buf,
            ),
        };
        if sent.is_ok() {
            self.chan = CHANNEL;
        }
        sent
    }

    /// The reply that the two parts of a frame make for this request.
    pub fn decode_reply(&self, raw: RawReply) -> (outcome: Result<Reply, Error>)
        ensures
            outcome_view(outcome) == reply_of(self@.descriptor, raw.body@, raw.buffer@),
    {
        match Payload::decode(self.descriptor.reply, raw.body.as_slice()) {
            Some(fixed_payload) => Ok(
                Reply {
                    fixed_payload,
                    inbound_buffer: if self.descriptor.has_inbound_buffer {
                        Some(raw.buffer)
                    } else {
                        None
                    },
                },
            ),
            None => Err(Error::Decoding),
        }
    }

    /// Takes the reply to this request out of `session` where it is whole:
    /// the session then has no request outstanding. Returns nothing, and
    /// changes nothing, where the session does not have this request on
    /// record or the reply is not whole yet.
    pub fn take_reply(&self, session: &mut Session) -> (outcome: Option<Result<Reply, Error>>)
        requires
            old(session).wf(),
        ensures
            final(session).wf(),
            final(session)@ == self@.took(old(session)@).0,
            self@.took(old(session)@).1 == match outcome {
                Some(got) => Some(outcome_view(got)),
                None => None,
            },
    {
        let on_record = match session.outstanding() {
            Some(record) => record.request_id == self.descriptor.id && record.reply
                == self.descriptor.reply && record.expects_inbound_buffer
                == self.descriptor.has_inbound_buffer,
            None => false,
        };
        if !on_record {
            return None;
        }
        match session.take_reply(self.chan) {
            Some(raw) => Some(self.decode_reply(raw)),
            None => None,
        }
    }
}

} // verus!
