use vstd::prelude::*;
use vstd::utf8::{decode_utf8, encode_utf8, valid_utf8};

use crate::error::{IoErrorKind, RecvError};
use crate::packet::{
    spec_encode, Packet, SpecPacket, BYTE_PREFIX, F32_PREFIX, I32_PREFIX, STR_PREFIX,
};
use crate::stream::MemStream;
use crate::wire::{be32_value, bits_to_i32, i32_of_bits, lemma_be32_round_trip,
    lemma_i32_bits_round_trip, read_be32};

verus! {

// Decoding one packet from a byte stream. The decoder reads the tag byte,
// then exactly the payload the tag announces. A stream that ends mid-packet
// is a transport failure; a tag outside the defined set, or string bytes that
// are not UTF-8, are format violations. An unknown tag consumes nothing
// beyond the tag byte itself.

/// Relies on String::from_utf8: returns the text whose UTF-8 encoding is the
/// given bytes, and nothing exactly when the bytes are not valid UTF-8.
#[verifier::external_body]
fn string_from_utf8(bytes: Vec<u8>) -> (r: Option<String>)
    ensures
        r is Some <==> valid_utf8(bytes@),
        r matches Some(s) ==> s@ == decode_utf8(bytes@),
{
    String::from_utf8(bytes).ok()
}

/// What decoding one packet from the front of `b` yields: the packet and how
/// many bytes it occupied, or the error together with how many bytes the
/// failed attempt consumed. A read past the end of `b` consumes everything,
/// as a blocking transport read would.
pub open spec fn spec_read_packet(b: Seq<u8>) -> Result<(SpecPacket, int), (RecvError, int)> {
    if b.len() < 1 {
        Err((RecvError::Io(IoErrorKind::UnexpectedEof), b.len() as int))
    } else {
        let tag = b[0];
        if tag == BYTE_PREFIX {
            if b.len() >= 2 {
                Ok((SpecPacket::Byte(b[1]), 2))
            } else {
                Err((RecvError::Io(IoErrorKind::UnexpectedEof), b.len() as int))
            }
        } else if tag == I32_PREFIX {
            if b.len() >= 5 {
                Ok((SpecPacket::Int32(i32_of_bits(be32_value(b.subrange(1, 5)))), 5))
            } else {
                Err((RecvError::Io(IoErrorKind::UnexpectedEof), b.len() as int))
            }
        } else if tag == F32_PREFIX {
            if b.len() >= 5 {
                Ok((SpecPacket::Float32(be32_value(b.subrange(1, 5))), 5))
            } else {
                Err((RecvError::Io(IoErrorKind::UnexpectedEof), b.len() as int))
            }
        } else if tag == STR_PREFIX {
            if b.len() < 5 {
                Err((RecvError::Io(IoErrorKind::UnexpectedEof), b.len() as int))
            } else {
                let n = be32_value(b.subrange(1, 5)) as int;
                if b.len() < 5 + n {
                    Err((RecvError::Io(IoErrorKind::UnexpectedEof), b.len() as int))
                } else if valid_utf8(b.subrange(5, 5 + n)) {
                    Ok((SpecPacket::Str(decode_utf8(b.subrange(5, 5 + n))), 5 + n))
                } else {
                    Err((RecvError::InvalidFormat, 5 + n))
                }
            }
        } else {
            Err((RecvError::InvalidFormat, 1))
        }
    }
}

/// Reads exactly one packet from the stream by driving the decoder machine —
/// the same steps a transport takes — consuming exactly the bytes the model
/// says a decode of the stream's contents consumes.
pub fn read_packet(stream: &mut MemStream) -> (r: Result<Packet, RecvError>)
    ensures
        match spec_read_packet(old(stream).remaining()) {
            Ok((p, n)) => {
                &&& r matches Ok(q) && q@ == p
                &&& final(stream).remaining() == old(stream).remaining().skip(n)
            },
            Err((e, n)) => {
                &&& r matches Err(e2) && e2 == e
                &&& final(stream).remaining() == old(stream).remaining().skip(n)
            },
        },
{
    let ghost orig = stream.remaining();
    // The tag byte decides the variant.
    let tag_bytes = match stream.read_exact(1) {
        Ok(b) => b,
        Err(e) => {
            proof {
                assert(orig.skip(orig.len() as int) =~= Seq::<u8>::empty());
            }
            return Err(e);
        },
    };
    let dec = Decoder::AwaitTag.feed(tag_bytes);
    let dec = match dec {
        Decoder::Failed(e) => {
            proof {
                assert(stream.remaining() =~= orig.skip(1));
            }
            return Err(e);
        },
        d => d,
    };
    let payload_need = dec.need();
    // The fixed-size part the tag announced: the one payload byte, the four
    // numeric payload bytes, or the four length bytes of a string.
    let payload = match stream.read_exact(payload_need) {
        Ok(b) => {
            proof {
                assert(b@ =~= orig.subrange(1, 1 + payload_need as int));
            }
            b
        },
        Err(e) => {
            proof {
                assert(orig.skip(orig.len() as int) =~= Seq::<u8>::empty());
            }
            return Err(e);
        },
    };
    proof {
        if payload_need == 4 {
            assert(seq![payload@[0], payload@[1], payload@[2], payload@[3]] =~= payload@);
        }
    }
    let dec = dec.feed(payload);
    let dec = match dec {
        Decoder::Done(p) => {
            proof {
                assert(stream.remaining() =~= orig.skip(1 + payload_need as int));
            }
            return Ok(p);
        },
        d => d,
    };
    let text_need = dec.need();
    // Only a string packet is still open: its text bytes follow.
    let text = match stream.read_exact(text_need) {
        Ok(b) => {
            proof {
                assert(b@ =~= orig.subrange(5, 5 + text_need as int));
                assert(stream.remaining() =~= orig.skip(5 + text_need as int));
            }
            b
        },
        Err(e) => {
            proof {
                assert(orig.skip(orig.len() as int) =~= Seq::<u8>::empty());
            }
            return Err(e);
        },
    };
    match dec.feed(text) {
        Decoder::Done(p) => Ok(p),
        Decoder::Failed(e) => Err(e),
        _ => vstd::pervasive::unreached(),
    }
}

/// The decoder as a fed state machine, for a transport that must be asked
/// for each read explicitly: each state says how many bytes it needs next,
/// and feeding exactly those bytes steps the machine until a packet is done
/// or the input is rejected. A read that cannot be satisfied is the
/// transport's failure to report; the machine itself never sees it.
#[derive(Debug)]
pub enum Decoder {
    /// Needs the tag byte.
    AwaitTag,
    /// Needs the 1-byte payload of a `Byte` packet.
    AwaitByte,
    /// Needs the 4 payload bytes of an `Int32` packet.
    AwaitI32,
    /// Needs the 4 payload bytes of a `Float32` packet.
    AwaitF32,
    /// Needs the 4-byte length field of a `Str` packet.
    AwaitStrLen,
    /// Needs that many text bytes of a `Str` packet.
    AwaitStrBytes(u32),
    /// One packet is complete.
    Done(Packet),
    /// The input violated the wire format.
    Failed(RecvError),
}

impl Decoder {
    /// How many bytes the machine needs next.
    pub open spec fn spec_need(self) -> nat {
        match self {
            Decoder::AwaitTag => 1,
            Decoder::AwaitByte => 1,
            Decoder::AwaitI32 => 4,
            Decoder::AwaitF32 => 4,
            Decoder::AwaitStrLen => 4,
            Decoder::AwaitStrBytes(n) => n as nat,
            Decoder::Done(_) => 0,
            Decoder::Failed(_) => 0,
        }
    }

    /// How many bytes to read and feed next; zero once done or failed.
    pub fn need(&self) -> (n: usize)
        ensures
            n == self.spec_need(),
    {
        match self {
            Decoder::AwaitTag => 1,
            Decoder::AwaitByte => 1,
            Decoder::AwaitI32 => 4,
            Decoder::AwaitF32 => 4,
            Decoder::AwaitStrLen => 4,
            Decoder::AwaitStrBytes(n) => *n as usize,
            Decoder::Done(_) => 0,
            Decoder::Failed(_) => 0,
        }
    }

    /// Steps the machine on exactly the bytes it asked for.
    pub fn feed(self, bytes: Vec<u8>) -> (next: Decoder)
        requires
            bytes@.len() == self.spec_need(),
            !(self is Done),
            !(self is Failed),
        ensures
            self is AwaitTag ==> next == (if bytes@[0] == BYTE_PREFIX {
                Decoder::AwaitByte
            } else if bytes@[0] == I32_PREFIX {
                Decoder::AwaitI32
            } else if bytes@[0] == F32_PREFIX {
                Decoder::AwaitF32
            } else if bytes@[0] == STR_PREFIX {
                Decoder::AwaitStrLen
            } else {
                Decoder::Failed(RecvError::InvalidFormat)
            }),
            self is AwaitByte ==> (next matches Decoder::Done(p) && p@ == SpecPacket::Byte(
                bytes@[0],
            )),
            self is AwaitI32 ==> (next matches Decoder::Done(p) && p@ == SpecPacket::Int32(
                i32_of_bits(be32_value(bytes@)),
            )),
            self is AwaitF32 ==> (next matches Decoder::Done(p) && p@ == SpecPacket::Float32(
                be32_value(bytes@),
            )),
            self is AwaitStrLen ==> next == Decoder::AwaitStrBytes(be32_value(bytes@)),
            self is AwaitStrBytes ==> (if valid_utf8(bytes@) {
                next matches Decoder::Done(p) && p@ == SpecPacket::Str(decode_utf8(bytes@))
            } else {
                next == Decoder::Failed(RecvError::InvalidFormat)
            }),
    {
        match self {
            Decoder::AwaitTag => {
                let tag = bytes[0];
                if tag == BYTE_PREFIX {
                    Decoder::AwaitByte
                } else if tag == I32_PREFIX {
                    Decoder::AwaitI32
                } else if tag == F32_PREFIX {
                    Decoder::AwaitF32
                } else if tag == STR_PREFIX {
                    Decoder::AwaitStrLen
                } else {
                    Decoder::Failed(RecvError::InvalidFormat)
                }
            },
            Decoder::AwaitByte => Decoder::Done(Packet::Byte(bytes[0])),
            Decoder::AwaitI32 => {
                let bits = read_be32(bytes[0], bytes[1], bytes[2], bytes[3]);
                proof {
                    assert(seq![bytes@[0], bytes@[1], bytes@[2], bytes@[3]] =~= bytes@);
                }
                Decoder::Done(Packet::Int32(bits_to_i32(bits)))
            },
            Decoder::AwaitF32 => {
                let bits = read_be32(bytes[0], bytes[1], bytes[2], bytes[3]);
                proof {
                    assert(seq![bytes@[0], bytes@[1], bytes@[2], bytes@[3]] =~= bytes@);
                }
                Decoder::Done(Packet::Float32(bits))
            },
            Decoder::AwaitStrLen => {
                let len = read_be32(bytes[0], bytes[1], bytes[2], bytes[3]);
                proof {
                    assert(seq![bytes@[0], bytes@[1], bytes@[2], bytes@[3]] =~= bytes@);
                }
                Decoder::AwaitStrBytes(len)
            },
            Decoder::AwaitStrBytes(_) => match string_from_utf8(bytes) {
                Some(s) => Decoder::Done(Packet::Str(s)),
                None => Decoder::Failed(RecvError::InvalidFormat),
            },
            Decoder::Done(_) => Decoder::Failed(RecvError::InvalidFormat),
            Decoder::Failed(e) => Decoder::Failed(e),
        }
    }
}

/// Decoding what `spec_encode` produced gives the packet back and consumes
/// exactly its encoding, whatever bytes follow it on the stream.
pub proof fn lemma_round_trip(p: SpecPacket, rest: Seq<u8>)
    requires
        p.wire_len_ok(),
    ensures
        spec_read_packet(spec_encode(p) + rest) == Ok::<(SpecPacket, int), (RecvError, int)>(
            (p, spec_encode(p).len() as int),
        ),
{
    let b = spec_encode(p) + rest;
    match p {
        SpecPacket::Byte(v) => {
            assert(b[0] == BYTE_PREFIX && b[1] == v);
        },
        SpecPacket::Int32(v) => {
            assert(b.subrange(1, 5) =~= crate::wire::be32_bytes(crate::wire::i32_bits(v)));
            lemma_be32_round_trip(crate::wire::i32_bits(v));
            lemma_i32_bits_round_trip(v);
        },
        SpecPacket::Float32(v) => {
            assert(b.subrange(1, 5) =~= crate::wire::be32_bytes(v));
            lemma_be32_round_trip(v);
        },
        SpecPacket::Str(text) => {
            let payload = encode_utf8(text);
            assert(b.subrange(1, 5) =~= crate::wire::be32_bytes(payload.len() as u32));
            lemma_be32_round_trip(payload.len() as u32);
            assert(b.subrange(5, 5 + payload.len() as int) =~= payload);
            vstd::utf8::encode_utf8_valid_utf8(text);
            vstd::utf8::encode_utf8_decode_utf8(text);
        },
    }
}

} // verus!
