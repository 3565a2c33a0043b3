use vstd::prelude::*;

verus! {

// Big-endian (network order) layout of 32-bit values, as the wire format uses it,
// together with the two's-complement bit pattern of a signed 32-bit value.

/// The four bytes of `v` in big-endian order.
pub open spec fn be32_bytes(v: u32) -> Seq<u8> {
    seq![
        (v / 0x1000000) as u8,
        ((v / 0x10000) % 0x100) as u8,
        ((v / 0x100) % 0x100) as u8,
        (v % 0x100) as u8,
    ]
}

/// The value whose big-endian bytes are `b`.
pub open spec fn be32_value(b: Seq<u8>) -> u32
    recommends
        b.len() == 4,
{
    (b[0] * 0x1000000 + b[1] * 0x10000 + b[2] * 0x100 + b[3]) as u32
}

/// The unsigned 32-bit pattern that stands for the signed value `v` in two's complement.
pub open spec fn i32_bits(v: i32) -> u32 {
    if v >= 0 {
        v as u32
    } else {
        (v + 0x100000000) as u32
    }
}

/// The signed value whose two's-complement pattern is `u`.
pub open spec fn i32_of_bits(u: u32) -> i32 {
    if u < 0x80000000 {
        u as i32
    } else {
        (u - 0x100000000) as i32
    }
}

/// Reading back the big-endian bytes of a value gives the value.
pub proof fn lemma_be32_round_trip(v: u32)
    ensures
        be32_value(be32_bytes(v)) == v,
{
}

/// The signed-to-bits map and its inverse cancel.
pub proof fn lemma_i32_bits_round_trip(v: i32)
    ensures
        i32_of_bits(i32_bits(v)) == v,
{
}

/// Writes the four big-endian bytes of `v` onto the end of `out`.
pub fn push_be32(out: &mut Vec<u8>, v: u32)
    ensures
        final(out)@ == old(out)@ + be32_bytes(v),
{
    out.push((v / 0x1000000) as u8);
    out.push(((v / 0x10000) % 0x100) as u8);
    out.push(((v / 0x100) % 0x100) as u8);
    out.push((v % 0x100) as u8);
    assert(out@ =~= old(out)@ + be32_bytes(v));
}

/// Reads a value from four big-endian bytes.
pub fn read_be32(b0: u8, b1: u8, b2: u8, b3: u8) -> (v: u32)
    ensures
        v == be32_value(seq![b0, b1, b2, b3]),
{
    b0 as u32 * 0x1000000 + b1 as u32 * 0x10000 + b2 as u32 * 0x100 + b3 as u32
}

/// The two's-complement pattern of `v`, computed without an out-of-range cast.
pub fn i32_to_bits(v: i32) -> (u: u32)
    ensures
        u == i32_bits(v),
{
    if v >= 0 {
        v as u32
    } else {
        let wide: i64 = v as i64 + 0x100000000;
        wide as u32
    }
}

/// The signed value of the two's-complement pattern `u`.
pub fn bits_to_i32(u: u32) -> (v: i32)
    ensures
        v == i32_of_bits(u),
{
    if u < 0x80000000 {
        u as i32
    } else {
        let wide: i64 = u as i64 - 0x100000000;
        wide as i32
    }
}

} // verus!
