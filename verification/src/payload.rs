//! The fixed payloads: values whose length on the wire is known from their
//! shape alone.

use vstd::prelude::*;

verus! {

/// The shape of a fixed payload.
#[derive(Clone, Copy, PartialEq, Eq, Debug, Structural)]
pub enum Shape {
    /// Nothing.
    Unit,
    /// One byte.
    Byte,
    /// Two bytes.
    Pair,
    /// Four bytes.
    Quad,
}

impl Shape {
    /// Number of bytes that a payload of this shape takes on the wire.
    pub open spec fn size(self) -> nat {
        match self {
            Shape::Unit => 0,
            Shape::Byte => 1,
            Shape::Pair => 2,
            Shape::Quad => 4,
        }
    }

    /// Number of bytes that a payload of this shape takes on the wire.
    pub fn len(self) -> (n: usize)
        ensures
            n == self.size(),
    {
        match self {
            Shape::Unit => 0,
            Shape::Byte => 1,
            Shape::Pair => 2,
            Shape::Quad => 4,
        }
    }
}

/// A fixed payload: the argument of a request, or the value in a reply.
#[derive(Clone, Copy, PartialEq, Eq, Debug)]
pub enum Payload {
    /// Nothing.
    Unit,
    /// One byte.
    Byte(u8),
    /// Two bytes.
    Pair(u8, u8),
    /// Four bytes.
    Quad([u8; 4]),
}

impl Payload {
    /// The shape of this payload.
    pub open spec fn shape(self) -> Shape {
        match self {
            Payload::Unit => Shape::Unit,
            Payload::Byte(_) => Shape::Byte,
            Payload::Pair(_, _) => Shape::Pair,
            Payload::Quad(_) => Shape::Quad,
        }
    }

    /// The bytes that stand for this payload on the wire: its own bytes in
    /// order, with nothing before or between them.
    pub open spec fn bytes(self) -> Seq<u8> {
        match self {
            Payload::Unit => Seq::empty(),
            Payload::Byte(a) => seq![a],
            Payload::Pair(a, b) => seq![a, b],
            Payload::Quad(q) => q@,
        }
    }

    /// The payload of shape `shape` that the front of `bytes` spells; none
    /// where `bytes` is too short for the shape. Bytes behind the payload
    /// are not looked at.
    pub open spec fn decoded(shape: Shape, bytes: Seq<u8>) -> Option<Payload> {
        if bytes.len() < shape.size() {
            None
        } else {
            Some(
                match shape {
                    Shape::Unit => Payload::Unit,
                    Shape::Byte => Payload::Byte(bytes[0]),
                    Shape::Pair => Payload::Pair(bytes[0], bytes[1]),
                    Shape::Quad => Payload::Quad([bytes[0], bytes[1], bytes[2], bytes[3]]),
                },
            )
        }
    }

    /// The shape of this payload.
    pub fn kind(&self) -> (shape: Shape)
        ensures
            shape == self.shape(),
    {
        match self {
            Payload::Unit => Shape::Unit,
            Payload::Byte(_) => Shape::Byte,
            Payload::Pair(_, _) => Shape::Pair,
            Payload::Quad(_) => Shape::Quad,
        }
    }

    /// Reads a payload of shape `shape` from the front of `bytes`.
    pub fn decode(shape: Shape, bytes: &[u8]) -> (payload: Option<Payload>)
        ensures
            payload == Payload::decoded(shape, bytes@),
    {
        if bytes.len() < shape.len() {
            return None;
        }
        match shape {
            Shape::Unit => Some(Payload::Unit),
            Shape::Byte => Some(Payload::Byte(bytes[0])),
            Shape::Pair => Some(Payload::Pair(bytes[0], bytes[1])),
            Shape::Quad => Some(Payload::Quad([bytes[0], bytes[1], bytes[2], bytes[3]])),
        }
    }
}

/// A payload that is written out and read back is the payload that was
/// written, whatever follows it on the wire.
pub proof fn payload_round_trip(payload: Payload, rest: Seq<u8>)
    ensures
        payload.bytes().len() == payload.shape().size(),
        Payload::decoded(payload.shape(), payload.bytes() + rest) == Some(payload),
{
    match payload {
        Payload::Quad(q) => {
            let bytes = q@ + rest;
            assert([bytes[0], bytes[1], bytes[2], bytes[3]]@ =~= q@);
            assert([bytes[0], bytes[1], bytes[2], bytes[3]] == q);
        },
        _ => {},
    }
}

} // verus!
