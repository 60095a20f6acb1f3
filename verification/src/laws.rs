//! What holds of every exchange, stated over the same descriptions that the
//! contracts of the functions use.

use vstd::prelude::*;
use crate::descriptor::Descriptor;
use crate::engine::CHANNEL;
use crate::error::Error;
use crate::payload::{payload_round_trip, Payload};
use crate::request::{reply_of, ReplyView, RequestView};
use crate::session::{Outstanding, SessionView, State};
use crate::waiter::{absorb_in_two, WaiterView};
use crate::wire::{reply_header, request_parts, request_round_trip, MAX_FIELD_LEN, REP_HEADER_LEN};

verus! {

/// The frame of a request, taken apart at the far end, gives back the number
/// of the method, the bytes of the fixed argument and the byte buffer, and
/// the fixed argument can be read back from its bytes.
pub proof fn request_survives_the_wire(request: RequestView, rest: Seq<u8>)
    requires
        request.outbound.len() <= MAX_FIELD_LEN,
    ensures
        request_parts(request.frame() + rest) matches Some(parts) && {
            &&& parts.method == request.descriptor.id
            &&& parts.body == request.arg.bytes()
            &&& parts.buffer == request.outbound
            &&& Payload::decoded(request.arg.shape(), parts.body) == Some(request.arg)
        },
{
    payload_round_trip(request.arg, Seq::empty());
    assert(request.arg.bytes() + Seq::<u8>::empty() =~= request.arg.bytes());
    request_round_trip(
        request.descriptor.id,
        CHANNEL,
        request.arg.bytes(),
        request.outbound,
        rest,
    );
}

/// While a request is outstanding, no request of any kind goes out: the
/// attempt fails with `ProtocolMisuse` and changes neither the request nor
/// the session.
pub proof fn busy_session_refuses(session: SessionView, request: RequestView, room: nat)
    requires
        session.outstanding is Some,
    ensures
        request.sent(session, room) == (request, session, Err::<usize, Error>(Error::ProtocolMisuse)),
{
}

/// A request that went out is outstanding: a second one that is tried behind
/// it fails with `ProtocolMisuse`, whatever its kind and however much room
/// it is given.
pub proof fn second_request_is_refused(
    session: SessionView,
    first: RequestView,
    room: nat,
    second: RequestView,
    other_room: nat,
)
    requires
        first.sent(session, room).2 is Ok,
    ensures
        second.sent(first.sent(session, room).1, other_room) == (
            second,
            first.sent(session, room).1,
            Err::<usize, Error>(Error::ProtocolMisuse),
        ),
{
}

/// A header that names another channel than that of the outstanding request
/// is refused as an unexpected reply. The exchange is over with it: the
/// session is idle, and no request finds a reply in it.
pub proof fn foreign_header_is_refused(session: SessionView, header: Seq<u8>, request: RequestView)
    requires
        header.len() >= REP_HEADER_LEN,
        header[0] != CHANNEL,
        session.state is AwaitingHeader,
        session.outstanding is Some,
    ensures
        session.parsed(header) == (session.idle(), Err::<usize, Error>(Error::UnexpectedReply)),
        request.took(session.parsed(header).0).1 is None,
{
}

/// A waiter that gets such a header ends the wait with `UnexpectedReply`,
/// whatever bytes follow the header, and takes none of them.
pub proof fn foreign_header_ends_the_wait(waiter: WaiterView, header: Seq<u8>, rest: Seq<u8>)
    requires
        header.len() == REP_HEADER_LEN,
        header[0] != CHANNEL,
        waiter.session.state is AwaitingHeader,
        waiter.session.outstanding is Some,
        waiter.outcome is None,
        waiter.pending.len() == 0,
        waiter.read_len == REP_HEADER_LEN,
    ensures
        waiter.absorb(header + rest).outcome == Some(Err::<ReplyView, Error>(Error::UnexpectedReply)),
        waiter.absorb(header + rest).session == waiter.session.idle(),
        waiter.absorb(header + rest).taken() == waiter.pos + REP_HEADER_LEN,
{
    reveal(WaiterView::absorb);
    reveal(WaiterView::settled);
    let whole = REP_HEADER_LEN as int;
    let filled = WaiterView { pending: waiter.pending + header.take(whole), ..waiter };
    let ended = filled.settled();
    assert(filled.pending =~= header);
    assert(ended.outcome == Some(Err::<ReplyView, Error>(Error::UnexpectedReply)));
    assert(waiter.absorb(header) == ended.absorb(header.skip(whole)));
    assert(ended.absorb(header.skip(whole)) == ended);
    assert(ended.absorb(rest) == ended);
    absorb_in_two(waiter, header, rest);
}

/// A header for the outstanding request tells how many bytes follow it: the
/// fixed payload of the reply, as long as its shape is, and the byte buffer,
/// as long as the header says, where the kind of request has one. Where it
/// has none, the length field of the header counts for nothing. The session
/// awaits that many bytes next, unless they are more than it takes.
pub proof fn header_tells_what_follows(session: SessionView, record: Outstanding, header: Seq<u8>)
    requires
        header.len() >= REP_HEADER_LEN,
        header[0] == CHANNEL,
        session.state is AwaitingHeader,
        session.outstanding == Some(record),
    ensures
        record.remaining_len(header) == record.reply.size() + if record.expects_inbound_buffer {
            reply_header(header).buffer_len
        } else {
            0
        },
        0 < record.remaining_len(header) <= session.capacity ==> session.parsed(header) == (
            session.moved(State::AwaitingBody { remaining_len: record.remaining_len(header) }),
            Ok::<usize, Error>(record.remaining_len(header) as usize),
        ),
        record.remaining_len(header) == 0 ==> session.parsed(header) == (
            session.moved(State::ReplyReady { received: Seq::empty() }),
            Ok::<usize, Error>(0),
        ),
        record.remaining_len(header) > session.capacity ==> session.parsed(header) == (
            session.idle(),
            Err::<usize, Error>(Error::Decoding),
        ),
        record.remaining_len(header) <= usize::MAX,
{
    assert(reply_header(header).buffer_len <= MAX_FIELD_LEN);
}

/// The reply to a request whose kind has no byte buffer in its reply carries
/// none, whatever bytes came.
pub proof fn no_buffer_unless_declared(descriptor: Descriptor, body: Seq<u8>, buffer: Seq<u8>)
    requires
        !descriptor.has_inbound_buffer,
    ensures
        reply_of(descriptor, body, buffer) matches Ok(reply) ==> reply.inbound_buffer is None,
{
}

/// The session as it stands once the header and the bytes that follow it
/// have both gone through `parse`; where the header already ends the
/// exchange, or finishes the reply, the bytes that follow are not read.
pub open spec fn after_frame(session: SessionView, header: Seq<u8>, rest: Seq<u8>) -> SessionView {
    let after_header = session.parsed(header).0;
    if after_header.state is AwaitingBody {
        after_header.parsed(rest).0
    } else {
        after_header
    }
}

/// Whatever kind the request is of, the reply that it takes out of the
/// session is the one that the frame spells: the fixed payload is read from
/// the bytes that came first behind the header, as many as its shape takes,
/// and the byte buffer is what came behind those, as long as the header
/// says. Such a reply can always be decoded.
pub proof fn reply_is_what_the_frame_spells(
    session: SessionView,
    request: RequestView,
    header: Seq<u8>,
    rest: Seq<u8>,
)
    requires
        session.state is AwaitingHeader,
    ensures
        request.took(after_frame(session, header, rest)).1 matches Some(outcome) ==> {
            &&& outcome is Ok
            &&& outcome == reply_of(
                request.descriptor,
                rest.take(request.descriptor.reply.size() as int),
                rest.subrange(
                    request.descriptor.reply.size() as int,
                    request.record().remaining_len(header) as int,
                ),
            )
        },
{
    let fixed = request.descriptor.reply.size() as int;
    let follows = request.record().remaining_len(header) as int;
    if request.took(after_frame(session, header, rest)).1 is Some {
        if session.parsed(header).0.state is AwaitingBody {
            let received = rest.take(follows);
            assert(received.take(fixed) =~= rest.take(fixed));
            assert(received.skip(fixed) =~= rest.subrange(fixed, follows));
        } else {
            assert(rest.take(0) =~= Seq::<u8>::empty());
            assert(rest.subrange(0, 0) =~= Seq::<u8>::empty());
            assert(Seq::<u8>::empty().take(0) =~= Seq::<u8>::empty());
            assert(Seq::<u8>::empty().skip(0) =~= Seq::<u8>::empty());
        }
    }
}

/// The byte buffer of a reply is as long as its header says: for a request
/// whose kind has a byte buffer in its reply, the buffer that the request
/// takes out of the session has the length that the header announced, and
/// holds the bytes that came behind the fixed payload.
pub proof fn buffer_is_as_long_as_announced(
    session: SessionView,
    request: RequestView,
    header: Seq<u8>,
    rest: Seq<u8>,
)
    requires
        session.state is AwaitingHeader,
        request.descriptor.has_inbound_buffer,
    ensures
        request.took(after_frame(session, header, rest)).1 matches Some(outcome) ==> {
            &&& outcome matches Ok(reply)
            &&& reply.inbound_buffer matches Some(buffer)
            &&& buffer.len() == reply_header(header).buffer_len
            &&& buffer == rest.subrange(
                request.descriptor.reply.size() as int,
                (request.descriptor.reply.size() + reply_header(header).buffer_len) as int,
            )
        },
{
    reply_is_what_the_frame_spells(session, request, header, rest);
}

/// A chunk that holds all of the read in progress settles that read; what
/// is left of the chunk comes in afterwards.
proof fn read_is_settled(waiter: WaiterView, chunk: Seq<u8>, read: Seq<u8>)
    requires
        waiter.outcome is None,
        waiter.pending.len() == 0,
        read.len() == waiter.read_len,
        read.len() > 0,
        read.len() <= chunk.len(),
        chunk.take(read.len() as int) == read,
    ensures
        waiter.absorb(chunk) == (WaiterView { pending: read, ..waiter }).settled().absorb(
            chunk.skip(read.len() as int),
        ),
{
    reveal(WaiterView::absorb);
    assert(waiter.pending + chunk.take(waiter.needed()) =~= read);
}

/// A wait that has ended takes no more bytes in.
proof fn ended_wait_drops(waiter: WaiterView, chunk: Seq<u8>)
    requires
        waiter.outcome is Some,
    ensures
        waiter.absorb(chunk) == waiter,
{
    reveal(WaiterView::absorb);
}

/// The reply that a well-formed frame spells for the request of the waiter.
pub open spec fn spelled(waiter: WaiterView, payload: Payload, buffer: Seq<u8>) -> ReplyView {
    ReplyView {
        fixed_payload: payload,
        inbound_buffer: if waiter.request.descriptor.has_inbound_buffer {
            Some(buffer)
        } else {
            None
        },
    }
}

/// Whether `header` is the header of a reply to the request of the waiter
/// that carries `payload` and `buffer`: it names the channel of the request,
/// the payload has the shape that the kind of request has, and the buffer is
/// as long as the header says where the kind has one, and empty where it has
/// none. What the header says of the length of the fixed payload, and, for a
/// kind without byte buffer, of the length of the buffer, does not matter.
pub open spec fn announces(waiter: WaiterView, header: Seq<u8>, payload: Payload, buffer: Seq<u8>) -> bool {
    &&& header.len() == REP_HEADER_LEN
    &&& header[0] == CHANNEL
    &&& payload.shape() == waiter.request.descriptor.reply
    &&& if waiter.request.descriptor.has_inbound_buffer {
        buffer.len() == reply_header(header).buffer_len
    } else {
        buffer.len() == 0
    }
}

/// What the header of a well-formed reply does to a waiter that holds it as
/// its whole first read: the wait goes on to the read that the header
/// announces, or ends at once where it announces nothing.
proof fn header_read_settles(waiter: WaiterView, header: Seq<u8>, payload: Payload, buffer: Seq<u8>)
    requires
        announces(waiter, header, payload, buffer),
        waiter.session.state is AwaitingHeader,
        waiter.session.outstanding == Some(waiter.request.record()),
        waiter.request.chan == CHANNEL,
        payload.bytes().len() + buffer.len() <= waiter.session.capacity,
        waiter.pos + waiter.read_len + buffer.len() + payload.bytes().len() <= waiter.buf_len,
        waiter.pending == header,
        waiter.read_len == REP_HEADER_LEN,
    ensures
        payload.bytes().len() + buffer.len() == 0 ==> waiter.settled() == waiter.ended(
            waiter.session.idle(),
            Ok(spelled(waiter, payload, buffer)),
        ),
        payload.bytes().len() + buffer.len() != 0 ==> waiter.settled() == (WaiterView {
            session: waiter.session.moved(
                State::AwaitingBody { remaining_len: payload.bytes().len() + buffer.len() },
            ),
            pending: Seq::empty(),
            pos: waiter.pos + waiter.read_len,
            read_len: payload.bytes().len() + buffer.len(),
            ..waiter
        }),
{
    reveal(WaiterView::settled);
    let body = payload.bytes();
    payload_round_trip(payload, Seq::empty());
    assert(reply_header(header).buffer_len <= MAX_FIELD_LEN);
    assert(waiter.request.record().remaining_len(header) == body.len() + buffer.len());
    if body.len() + buffer.len() == 0 {
        assert(body =~= Seq::<u8>::empty());
        assert(buffer =~= Seq::<u8>::empty());
        assert(Seq::<u8>::empty().take(0) =~= Seq::<u8>::empty());
        assert(Seq::<u8>::empty().skip(0) =~= Seq::<u8>::empty());
        assert(body + Seq::<u8>::empty() =~= body);
    }
}

/// What the rest of a well-formed reply does to a waiter that holds it as
/// its whole second read: the wait ends with the reply.
proof fn rest_read_settles(waiter: WaiterView, payload: Payload, buffer: Seq<u8>)
    requires
        waiter.session.state == (State::AwaitingBody { remaining_len: payload.bytes().len() + buffer.len() }),
        waiter.session.outstanding == Some(waiter.request.record()),
        waiter.request.chan == CHANNEL,
        payload.shape() == waiter.request.descriptor.reply,
        waiter.pending == payload.bytes() + buffer,
    ensures
        waiter.settled() == waiter.ended(waiter.session.idle(), Ok(spelled(waiter, payload, buffer))),
{
    reveal(WaiterView::settled);
    let body = payload.bytes();
    let received = body + buffer;
    payload_round_trip(payload, Seq::empty());
    assert(body + Seq::<u8>::empty() =~= body);
    assert(received.take(received.len() as int) =~= received);
    assert(received.take(body.len() as int) =~= body);
    assert(received.skip(body.len() as int) =~= buffer);
}

/// A waiter at the start of its wait takes the frame of a well-formed reply
/// in two reads, or in one where nothing follows the header, and ends the
/// wait with the reply.
proof fn frame_is_absorbed(
    begun: WaiterView,
    header: Seq<u8>,
    payload: Payload,
    buffer: Seq<u8>,
    rest: Seq<u8>,
)
    requires
        announces(begun, header, payload, buffer),
        begun.outcome is None,
        begun.pending.len() == 0,
        begun.pos == 0,
        begun.read_len == REP_HEADER_LEN,
        begun.session.state is AwaitingHeader,
        begun.session.outstanding == Some(begun.request.record()),
        begun.request.chan == CHANNEL,
        payload.bytes().len() + buffer.len() <= begun.session.capacity,
        REP_HEADER_LEN + payload.bytes().len() + buffer.len() <= begun.buf_len,
    ensures
        begun.absorb(header + payload.bytes() + buffer + rest).outcome == Some(
            Ok::<ReplyView, Error>(spelled(begun, payload, buffer)),
        ),
        begun.absorb(header + payload.bytes() + buffer + rest).session == begun.session.idle(),
        begun.absorb(header + payload.bytes() + buffer + rest).taken() == REP_HEADER_LEN
            + payload.bytes().len() + buffer.len(),
{
    let body = payload.bytes();
    let stream = header + body + buffer + rest;
    let follows = body.len() + buffer.len();
    let filled = WaiterView { pending: header, ..begun };
    let heard = filled.settled();
    let behind = stream.skip(REP_HEADER_LEN as int);
    assert(begun.absorb(stream) == heard.absorb(behind)) by {
        assert(stream.take(REP_HEADER_LEN as int) =~= header);
        read_is_settled(begun, stream, header);
    }
    header_read_settles(filled, header, payload, buffer);
    if follows == 0 {
        ended_wait_drops(heard, behind);
    } else {
        let refilled = WaiterView { pending: body + buffer, ..heard };
        assert(heard.absorb(behind) == refilled.settled().absorb(behind.skip(follows as int))) by {
            assert(behind.take(follows as int) =~= body + buffer);
            read_is_settled(heard, behind, body + buffer);
        }
        rest_read_settles(refilled, payload, buffer);
        ended_wait_drops(refilled.settled(), behind.skip(follows as int));
    }
}

/// A well-formed reply is received. Where the session awaits the header of
/// the reply to the request of the waiter, and the transport delivers a
/// header on the channel of the request, behind it a fixed payload of the
/// shape that the kind of request has, and behind that a byte buffer as long
/// as the header says where the kind has one, all of it within the capacity
/// of the session and the size of the receive buffer, the wait ends with
/// that payload and that buffer, and the session has nothing outstanding.
/// The waiter takes the frame and no byte more: what the transport holds
/// behind the frame changes nothing and stays where it is.
pub proof fn whole_reply_is_received(
    waiter: WaiterView,
    header: Seq<u8>,
    payload: Payload,
    buffer: Seq<u8>,
    rest: Seq<u8>,
    buf_len: nat,
)
    requires
        announces(waiter, header, payload, buffer),
        waiter.session.state is AwaitingHeader,
        waiter.session.outstanding == Some(waiter.request.record()),
        waiter.request.chan == CHANNEL,
        payload.bytes().len() + buffer.len() <= waiter.session.capacity,
        REP_HEADER_LEN + payload.bytes().len() + buffer.len() <= buf_len,
    ensures
        waiter.received(header + payload.bytes() + buffer + rest, buf_len).outcome == Some(
            Ok::<ReplyView, Error>(spelled(waiter, payload, buffer)),
        ),
        waiter.received(header + payload.bytes() + buffer + rest, buf_len).session
            == waiter.session.idle(),
        waiter.received(header + payload.bytes() + buffer + rest, buf_len).taken() == REP_HEADER_LEN
            + payload.bytes().len() + buffer.len(),
{
    frame_is_absorbed(waiter.started(buf_len), header, payload, buffer, rest);
}

} // verus!
