//! The ways in which a call can fail.

use vstd::prelude::*;

verus! {

/// Why a request could not be sent or its reply could not be had.
#[derive(Clone, Copy, PartialEq, Eq, Debug, Structural)]
pub enum Error {
    /// The frame does not fit: the send buffer is too small for it, or the
    /// byte buffer is longer than a length field can say.
    Encoding,
    /// The session was used out of turn: a request while another is
    /// outstanding, or bytes of a reply while none is awaited.
    ProtocolMisuse,
    /// The reply that came belongs to another request than the outstanding
    /// one. The stream can no longer be trusted.
    UnexpectedReply,
    /// The transport ended before the reply was whole.
    Transport,
    /// The reply cannot be taken apart: it is cut short, longer than the
    /// room made for it, carries a byte buffer where none is due, or its
    /// fixed payload is too short for its shape.
    Decoding,
}

} // verus!
