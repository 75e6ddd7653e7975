//! Big-endian byte order for the integer fields of TDRV headers and chunks.
use vstd::prelude::*;

verus! {

pub open spec fn be16_bytes(v: u16) -> Seq<u8> {
    seq![(v >> 8u16) as u8, v as u8]
}

pub open spec fn be16_value(b0: u8, b1: u8) -> u16 {
    ((b0 as u16) << 8u16) | (b1 as u16)
}

pub open spec fn be32_bytes(v: u32) -> Seq<u8> {
    seq![(v >> 24u32) as u8, (v >> 16u32) as u8, (v >> 8u32) as u8, v as u8]
}

pub open spec fn be32_value(b0: u8, b1: u8, b2: u8, b3: u8) -> u32 {
    ((b0 as u32) << 24u32) | ((b1 as u32) << 16u32) | ((b2 as u32) << 8u32) | (b3 as u32)
}

pub open spec fn be64_bytes(v: u64) -> Seq<u8> {
    seq![
        (v >> 56u64) as u8,
        (v >> 48u64) as u8,
        (v >> 40u64) as u8,
        (v >> 32u64) as u8,
        (v >> 24u64) as u8,
        (v >> 16u64) as u8,
        (v >> 8u64) as u8,
        v as u8,
    ]
}

pub open spec fn be64_value(b: Seq<u8>) -> u64 {
    ((b[0] as u64) << 56u64) | ((b[1] as u64) << 48u64) | ((b[2] as u64) << 40u64) | ((b[3] as u64)
        << 32u64) | ((b[4] as u64) << 24u64) | ((b[5] as u64) << 16u64) | ((b[6] as u64) << 8u64)
        | (b[7] as u64)
}

pub proof fn lemma_be16(v: u16, b0: u8, b1: u8)
    ensures
        be16_value((v >> 8u16) as u8, v as u8) == v,
        (be16_value(b0, b1) >> 8u16) as u8 == b0,
        be16_value(b0, b1) as u8 == b1,
{
    assert((((((v >> 8u16) as u8) as u16) << 8u16) | ((v as u8) as u16)) == v) by (bit_vector);
    assert((((((b0 as u16) << 8u16) | (b1 as u16)) >> 8u16) as u8) == b0) by (bit_vector);
    assert(((((b0 as u16) << 8u16) | (b1 as u16)) as u8) == b1) by (bit_vector);
}

pub proof fn lemma_be32(v: u32, b0: u8, b1: u8, b2: u8, b3: u8)
    ensures
        be32_value((v >> 24u32) as u8, (v >> 16u32) as u8, (v >> 8u32) as u8, v as u8) == v,
        (be32_value(b0, b1, b2, b3) >> 24u32) as u8 == b0,
        (be32_value(b0, b1, b2, b3) >> 16u32) as u8 == b1,
        (be32_value(b0, b1, b2, b3) >> 8u32) as u8 == b2,
        be32_value(b0, b1, b2, b3) as u8 == b3,
{
    assert(((((((v >> 24u32) as u8) as u32) << 24u32) | ((((v >> 16u32) as u8) as u32) << 16u32)
        | ((((v >> 8u32) as u8) as u32) << 8u32) | ((v as u8) as u32))) == v) by (bit_vector);
    let x = be32_value(b0, b1, b2, b3);
    assert(x == ((b0 as u32) << 24u32) | ((b1 as u32) << 16u32) | ((b2 as u32) << 8u32) | (b3 as u32));
    assert(((((b0 as u32) << 24u32) | ((b1 as u32) << 16u32) | ((b2 as u32) << 8u32) | (b3 as u32))
        >> 24u32) as u8 == b0) by (bit_vector);
    assert(((((b0 as u32) << 24u32) | ((b1 as u32) << 16u32) | ((b2 as u32) << 8u32) | (b3 as u32))
        >> 16u32) as u8 == b1) by (bit_vector);
    assert(((((b0 as u32) << 24u32) | ((b1 as u32) << 16u32) | ((b2 as u32) << 8u32) | (b3 as u32))
        >> 8u32) as u8 == b2) by (bit_vector);
    assert((((b0 as u32) << 24u32) | ((b1 as u32) << 16u32) | ((b2 as u32) << 8u32) | (b3 as u32))
        as u8 == b3) by (bit_vector);
}

pub proof fn lemma_be64_value_of_bytes(v: u64)
    ensures
        be64_value(be64_bytes(v)) == v,
{
    let b = be64_bytes(v);
    assert(be64_value(b) == ((((v >> 56u64) as u8) as u64) << 56u64) | ((((v >> 48u64) as u8) as u64)
        << 48u64) | ((((v >> 40u64) as u8) as u64) << 40u64) | ((((v >> 32u64) as u8) as u64) << 32u64)
        | ((((v >> 24u64) as u8) as u64) << 24u64) | ((((v >> 16u64) as u8) as u64) << 16u64)
        | ((((v >> 8u64) as u8) as u64) << 8u64) | ((v as u8) as u64));
    assert(((((v >> 56u64) as u8) as u64) << 56u64) | ((((v >> 48u64) as u8) as u64) << 48u64) | ((((v
        >> 40u64) as u8) as u64) << 40u64) | ((((v >> 32u64) as u8) as u64) << 32u64) | ((((v
        >> 24u64) as u8) as u64) << 24u64) | ((((v >> 16u64) as u8) as u64) << 16u64) | ((((v
        >> 8u64) as u8) as u64) << 8u64) | ((v as u8) as u64) == v) by (bit_vector);
}

pub proof fn lemma_be64_bytes_of_value(b: Seq<u8>)
    requires
        b.len() == 8,
    ensures
        be64_bytes(be64_value(b)) == b,
{
    let (b0, b1, b2, b3, b4, b5, b6, b7) = (b[0], b[1], b[2], b[3], b[4], b[5], b[6], b[7]);
    let x = be64_value(b);
    assert(x == ((b0 as u64) << 56u64) | ((b1 as u64) << 48u64) | ((b2 as u64) << 40u64) | ((b3 as u64)
        << 32u64) | ((b4 as u64) << 24u64) | ((b5 as u64) << 16u64) | ((b6 as u64) << 8u64) | (b7 as u64));
    assert({
        let y = ((b0 as u64) << 56u64) | ((b1 as u64) << 48u64) | ((b2 as u64) << 40u64) | ((b3 as u64)
            << 32u64) | ((b4 as u64) << 24u64) | ((b5 as u64) << 16u64) | ((b6 as u64) << 8u64) | (b7 as u64);
        &&& (y >> 56u64) as u8 == b0
        &&& (y >> 48u64) as u8 == b1
        &&& (y >> 40u64) as u8 == b2
        &&& (y >> 32u64) as u8 == b3
        &&& (y >> 24u64) as u8 == b4
        &&& (y >> 16u64) as u8 == b5
        &&& (y >> 8u64) as u8 == b6
        &&& y as u8 == b7
    }) by (bit_vector);
    assert(be64_bytes(x) =~= b);
}

} // verus!
