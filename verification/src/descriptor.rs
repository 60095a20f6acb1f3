//! What is known of a kind of request before any call is made.

use vstd::prelude::*;
use crate::payload::Shape;

verus! {

/// One kind of request: its number, the shapes of its fixed argument and
/// fixed reply, and whether a byte buffer travels with either.
#[derive(Clone, Copy, PartialEq, Eq, Debug)]
pub struct Descriptor {
    /// Number of the method; the server tells the kinds apart by it.
    pub id: u8,
    /// Shape of the fixed argument.
    pub arg: Shape,
    /// Whether a byte buffer follows the argument.
    pub has_outbound_buffer: bool,
    /// Shape of the fixed payload of the reply.
    pub reply: Shape,
    /// Whether a byte buffer comes with the reply.
    pub has_inbound_buffer: bool,
}

impl Descriptor {
    /// `Ping`, method 0: four bytes go out and four bytes come back.
    pub open spec fn spec_ping() -> Descriptor {
        Descriptor {
            id: 0,
            arg: Shape::Quad,
            has_outbound_buffer: false,
            reply: Shape::Quad,
            has_inbound_buffer: false,
        }
    }

    /// `SendBytes`, method 1: a byte buffer goes out and a byte buffer comes
    /// back; neither side has a fixed payload.
    pub open spec fn spec_send_bytes() -> Descriptor {
        Descriptor {
            id: 1,
            arg: Shape::Unit,
            has_outbound_buffer: true,
            reply: Shape::Unit,
            has_inbound_buffer: true,
        }
    }

    /// `Add`, method 2: two bytes go out and one byte comes back.
    pub open spec fn spec_add() -> Descriptor {
        Descriptor {
            id: 2,
            arg: Shape::Pair,
            has_outbound_buffer: false,
            reply: Shape::Byte,
            has_inbound_buffer: false,
        }
    }

    /// The descriptor of `Ping`.
    #[verifier::when_used_as_spec(spec_ping)]
    pub fn ping() -> (descriptor: Descriptor)
        ensures
            descriptor == Descriptor::spec_ping(),
    {
        Descriptor {
            id: 0,
            arg: Shape::Quad,
            has_outbound_buffer: false,
            reply: Shape::Quad,
            has_inbound_buffer: false,
        }
    }

    /// The descriptor of `SendBytes`.
    #[verifier::when_used_as_spec(spec_send_bytes)]
    pub fn send_bytes() -> (descriptor: Descriptor)
        ensures
            descriptor == Descriptor::spec_send_bytes(),
    {
        Descriptor {
            id: 1,
            arg: Shape::Unit,
            has_outbound_buffer: true,
            reply: Shape::Unit,
            has_inbound_buffer: true,
        }
    }

    /// The descriptor of `Add`.
    #[verifier::when_used_as_spec(spec_add)]
    pub fn add() -> (descriptor: Descriptor)
        ensures
            descriptor == Descriptor::spec_add(),
    {
        Descriptor {
            id: 2,
            arg: Shape::Pair,
            has_outbound_buffer: false,
            reply: Shape::Byte,
            has_inbound_buffer: false,
        }
    }
}

} // verus!
