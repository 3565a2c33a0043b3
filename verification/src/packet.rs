use vstd::prelude::*;
use vstd::utf8::encode_utf8;

use crate::error::SendError;
use crate::wire::{be32_bytes, i32_bits, i32_to_bits, push_be32};

verus! {

// The protocol's atomic value unit. On the wire a packet is a one-byte type
// tag followed by a type-specific payload; the tags are distinct single-bit
// values, and numeric payloads travel in big-endian (network) order.

/// Tag of a `Byte` packet: a 1-byte payload.
pub const BYTE_PREFIX: u8 = 0x01;

/// Tag of an `Int32` packet: 4 payload bytes, signed, big-endian.
pub const I32_PREFIX: u8 = 0x02;

/// Tag of a `Float32` packet: 4 payload bytes, an IEEE-754 bit pattern, big-endian.
pub const F32_PREFIX: u8 = 0x04;

/// Tag of a `Str` packet: a 4-byte big-endian length, then that many UTF-8 bytes.
pub const STR_PREFIX: u8 = 0x08;

/// A typed protocol value. The `Float32` variant carries the IEEE-754 bit
/// pattern of the value, which is exactly what travels on the wire; turning
/// it into a native float is the transport layer's affair.
#[derive(Debug, Clone)]
pub enum Packet {
    Byte(u8),
    Int32(i32),
    Float32(u32),
    Str(String),
}

/// The mathematical model of a packet: the same shape, with the text of a
/// `Str` packet as its character sequence.
pub enum SpecPacket {
    Byte(u8),
    Int32(i32),
    Float32(u32),
    Str(Seq<char>),
}

impl View for Packet {
    type V = SpecPacket;

    open spec fn view(&self) -> SpecPacket {
        match self {
            Packet::Byte(v) => SpecPacket::Byte(*v),
            Packet::Int32(v) => SpecPacket::Int32(*v),
            Packet::Float32(v) => SpecPacket::Float32(*v),
            Packet::Str(s) => SpecPacket::Str(s@),
        }
    }
}

impl PartialEq for Packet {
    fn eq(&self, other: &Packet) -> (r: bool) {
        match (self, other) {
            (Packet::Byte(a), Packet::Byte(b)) => *a == *b,
            (Packet::Int32(a), Packet::Int32(b)) => *a == *b,
            (Packet::Float32(a), Packet::Float32(b)) => *a == *b,
            (Packet::Str(a), Packet::Str(b)) => *a == *b,
            _ => false,
        }
    }
}

impl vstd::std_specs::cmp::PartialEqSpecImpl for Packet {
    open spec fn obeys_eq_spec() -> bool {
        true
    }

    open spec fn eq_spec(&self, other: &Packet) -> bool {
        self@ == other@
    }
}

impl SpecPacket {
    /// The tag byte of this packet's variant.
    pub open spec fn spec_packet_type(self) -> u8 {
        match self {
            SpecPacket::Byte(_) => BYTE_PREFIX,
            SpecPacket::Int32(_) => I32_PREFIX,
            SpecPacket::Float32(_) => F32_PREFIX,
            SpecPacket::Str(_) => STR_PREFIX,
        }
    }

    /// Whether the packet fits the wire format's limits: a `Str` payload's
    /// length must fit the 4-byte length field.
    pub open spec fn wire_len_ok(self) -> bool {
        self matches SpecPacket::Str(text) ==> encode_utf8(text).len() <= u32::MAX
    }
}

/// The exact byte sequence that carries the packet: its tag, then its payload.
pub open spec fn spec_encode(p: SpecPacket) -> Seq<u8>
    recommends
        p.wire_len_ok(),
{
    match p {
        SpecPacket::Byte(v) => seq![BYTE_PREFIX, v],
        SpecPacket::Int32(v) => seq![I32_PREFIX] + be32_bytes(i32_bits(v)),
        SpecPacket::Float32(v) => seq![F32_PREFIX] + be32_bytes(v),
        SpecPacket::Str(text) => seq![STR_PREFIX] + be32_bytes(encode_utf8(text).len() as u32)
            + encode_utf8(text),
    }
}

impl Packet {
    /// The tag byte that announces this packet on the wire.
    pub fn packet_type(&self) -> (t: u8)
        ensures
            t == self@.spec_packet_type(),
    {
        match self {
            Packet::Byte(_) => BYTE_PREFIX,
            Packet::Int32(_) => I32_PREFIX,
            Packet::Float32(_) => F32_PREFIX,
            Packet::Str(_) => STR_PREFIX,
        }
    }
}

impl From<u8> for Packet {
    /// An opcode travels as a `Byte` packet.
    fn from(v: u8) -> (p: Packet) {
        Packet::Byte(v)
    }
}

impl vstd::std_specs::convert::FromSpecImpl<u8> for Packet {
    open spec fn obeys_from_spec() -> bool {
        true
    }

    open spec fn from_spec(v: u8) -> Packet {
        Packet::Byte(v)
    }
}

/// Appends one packet's encoding to the outgoing buffer. Every current
/// variant has a defined layout, so encoding always succeeds; the `Result`
/// leaves room for variants without one.
pub fn write_packet(writer: &mut Vec<u8>, packet: Packet) -> (r: Result<(), SendError>)
    requires
        packet@.wire_len_ok(),
    ensures
        r is Ok,
        final(writer)@ == old(writer)@ + spec_encode(packet@),
{
    writer.push(packet.packet_type());
    match packet {
        Packet::Byte(v) => {
            writer.push(v);
        },
        Packet::Int32(v) => {
            push_be32(writer, i32_to_bits(v));
        },
        Packet::Float32(v) => {
            push_be32(writer, v);
        },
        Packet::Str(s) => {
            let bytes = s.as_str().as_bytes();
            push_be32(writer, bytes.len() as u32);
            writer.extend_from_slice(bytes);
        },
    }
    assert(writer@ =~= old(writer)@ + spec_encode(packet@));
    Ok(())
}

} // verus!
