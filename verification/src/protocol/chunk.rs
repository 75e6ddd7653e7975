use vstd::prelude::*;

use crate::errors::TealDriveError;
use crate::limits::MAX_CHUNK_SIZE;
use crate::protocol::be::{
    be32_bytes, be32_value, be64_bytes, be64_value, lemma_be32, lemma_be64_bytes_of_value,
    lemma_be64_value_of_bytes,
};
use crate::protocol::frame::{append_bytes, TransferId};

verus! {

broadcast use vstd::array::group_array_axioms;

pub const RAW_CHUNK_HEADER_LEN: usize = 32;

/// The fixed part of a raw chunk: transfer, index, offset and length.
#[derive(Debug, Clone, PartialEq, Eq)]
pub struct RawChunkHeader {
    pub transfer_id: TransferId,
    pub chunk_index: u32,
    pub offset: u64,
    pub chunk_len: u32,
}

/// One piece of an upload or download, sent as raw bytes.
#[derive(Debug, Clone, PartialEq, Eq)]
pub struct RawChunk {
    pub transfer_id: TransferId,
    pub chunk_index: u32,
    pub offset: u64,
    pub chunk_bytes: Vec<u8>,
}

/// The 32 header bytes of a chunk of `len` bytes, integers big-endian.
pub open spec fn spec_chunk_header_bytes(id: Seq<u8>, index: u32, offset: u64, len: u32) -> Seq<u8> {
    id + be32_bytes(index) + be64_bytes(offset) + be32_bytes(len)
}

/// The bytes of a chunk on the wire, or why it cannot be sent.
pub open spec fn spec_encode_chunk(c: RawChunk) -> Result<Seq<u8>, TealDriveError> {
    if c.chunk_bytes@.len() > MAX_CHUNK_SIZE {
        Err(TealDriveError::InvalidChunk)
    } else {
        Ok(
            spec_chunk_header_bytes(
                c.transfer_id.0@,
                c.chunk_index,
                c.offset,
                c.chunk_bytes@.len() as u32,
            ) + c.chunk_bytes@,
        )
    }
}

/// What reading a chunk from `b` gives: transfer id, index, offset and the
/// bytes, whose count must match the announced length.
pub open spec fn spec_decode_chunk(b: Seq<u8>) -> Result<(Seq<u8>, u32, u64, Seq<u8>), TealDriveError> {
    if b.len() < RAW_CHUNK_HEADER_LEN {
        Err(TealDriveError::InvalidChunk)
    } else {
        let len = be32_value(b[28], b[29], b[30], b[31]);
        if len > MAX_CHUNK_SIZE {
            Err(TealDriveError::InvalidChunk)
        } else if b.len() - RAW_CHUNK_HEADER_LEN != len {
            Err(TealDriveError::InvalidChunk)
        } else {
            Ok(
                (
                    b.subrange(0, 16),
                    be32_value(b[16], b[17], b[18], b[19]),
                    be64_value(b.subrange(20, 28)),
                    b.subrange(32, b.len() as int),
                ),
            )
        }
    }
}

impl RawChunk {
    pub fn decode(bytes: &[u8]) -> (res: Result<Self, TealDriveError>)
        ensures
            match (res, spec_decode_chunk(bytes@)) {
                (Ok(c), Ok((id, index, offset, data))) => c.transfer_id.0@ == id && c.chunk_index
                    == index && c.offset == offset && c.chunk_bytes@ == data,
                (Err(e), Err(s)) => e == s,
                _ => false,
            },
    {
        if bytes.len() < RAW_CHUNK_HEADER_LEN {
            return Err(TealDriveError::InvalidChunk);
        }
        let transfer_id = TransferId::from_bytes(
            [
                bytes[0],
                bytes[1],
                bytes[2],
                bytes[3],
                bytes[4],
                bytes[5],
                bytes[6],
                bytes[7],
                bytes[8],
                bytes[9],
                bytes[10],
                bytes[11],
                bytes[12],
                bytes[13],
                bytes[14],
                bytes[15],
            ],
        );
        let chunk_index: u32 = ((bytes[16] as u32) << 24u32) | ((bytes[17] as u32) << 16u32) | ((
        bytes[18] as u32) << 8u32) | (bytes[19] as u32);
        let offset: u64 = ((bytes[20] as u64) << 56u64) | ((bytes[21] as u64) << 48u64) | ((
        bytes[22] as u64) << 40u64) | ((bytes[23] as u64) << 32u64) | ((bytes[24] as u64) << 24u64)
            | ((bytes[25] as u64) << 16u64) | ((bytes[26] as u64) << 8u64) | (bytes[27] as u64);
        let chunk_len: u32 = ((bytes[28] as u32) << 24u32) | ((bytes[29] as u32) << 16u32) | ((
        bytes[30] as u32) << 8u32) | (bytes[31] as u32);
        let chunk_len_usize = chunk_len as usize;
        if chunk_len_usize > MAX_CHUNK_SIZE {
            return Err(TealDriveError::InvalidChunk);
        }
        if bytes.len() - RAW_CHUNK_HEADER_LEN != chunk_len_usize {
            return Err(TealDriveError::InvalidChunk);
        }
        let (_, rest) = bytes.split_at(RAW_CHUNK_HEADER_LEN);
        let mut chunk_bytes: Vec<u8> = Vec::new();
        append_bytes(&mut chunk_bytes, rest);
        proof {
            assert(transfer_id.0@ =~= bytes@.subrange(0, 16));
            assert(offset == be64_value(bytes@.subrange(20, 28)));
            assert(chunk_bytes@ =~= bytes@.subrange(32, bytes@.len() as int));
        }
        Ok(RawChunk { transfer_id, chunk_index, offset, chunk_bytes })
    }

    pub fn encode(&self) -> (res: Result<Vec<u8>, TealDriveError>)
        ensures
            match (res, spec_encode_chunk(*self)) {
                (Ok(v), Ok(s)) => v@ == s,
                (Err(e), Err(s)) => e == s,
                _ => false,
            },
    {
        if self.chunk_bytes.len() > MAX_CHUNK_SIZE {
            return Err(TealDriveError::InvalidChunk);
        }
        let chunk_len = self.chunk_bytes.len() as u32;
        let index = self.chunk_index;
        let offset = self.offset;
        let fixed: [u8; 16] = [
            (index >> 24u32) as u8,
            (index >> 16u32) as u8,
            (index >> 8u32) as u8,
            index as u8,
            (offset >> 56u64) as u8,
            (offset >> 48u64) as u8,
            (offset >> 40u64) as u8,
            (offset >> 32u64) as u8,
            (offset >> 24u64) as u8,
            (offset >> 16u64) as u8,
            (offset >> 8u64) as u8,
            offset as u8,
            (chunk_len >> 24u32) as u8,
            (chunk_len >> 16u32) as u8,
            (chunk_len >> 8u32) as u8,
            chunk_len as u8,
        ];
        let mut out: Vec<u8> = Vec::new();
        append_bytes(&mut out, self.transfer_id.as_bytes().as_slice());
        append_bytes(&mut out, fixed.as_slice());
        append_bytes(&mut out, self.chunk_bytes.as_slice());
        assert(fixed@ =~= be32_bytes(index) + be64_bytes(offset) + be32_bytes(chunk_len));
        assert(out@ =~= spec_chunk_header_bytes(self.transfer_id.0@, index, offset, chunk_len)
            + self.chunk_bytes@);
        Ok(out)
    }
}

/// A chunk within the size limit encodes, and decoding its bytes gives back
/// its transfer id, index, offset and bytes.
pub proof fn lemma_chunk_roundtrip(c: RawChunk)
    requires
        c.chunk_bytes@.len() <= MAX_CHUNK_SIZE,
    ensures
        spec_encode_chunk(c) is Ok,
        spec_decode_chunk(spec_encode_chunk(c)->Ok_0) == Ok::<
            (Seq<u8>, u32, u64, Seq<u8>),
            TealDriveError,
        >((c.transfer_id.0@, c.chunk_index, c.offset, c.chunk_bytes@)),
{
    let len = c.chunk_bytes@.len() as u32;
    let b = spec_encode_chunk(c)->Ok_0;
    lemma_be32(c.chunk_index, 0, 0, 0, 0);
    lemma_be32(len, 0, 0, 0, 0);
    lemma_be64_value_of_bytes(c.offset);
    assert(b.len() == 32 + c.chunk_bytes@.len());
    assert(b.subrange(0, 16) =~= c.transfer_id.0@);
    assert(b.subrange(20, 28) =~= be64_bytes(c.offset));
    assert(b.subrange(32, b.len() as int) =~= c.chunk_bytes@);
    assert(b[28] == (len >> 24u32) as u8);
}

/// Bytes that decode as a chunk are exactly the encoding of what they decode to.
pub proof fn lemma_chunk_bytes_roundtrip(b: Seq<u8>)
    requires
        spec_decode_chunk(b) is Ok,
    ensures
        ({
            let (id, index, offset, data) = spec_decode_chunk(b)->Ok_0;
            spec_chunk_header_bytes(id, index, offset, data.len() as u32) + data == b
        }),
{
    let (id, index, offset, data) = spec_decode_chunk(b)->Ok_0;
    lemma_be32(0, b[16], b[17], b[18], b[19]);
    lemma_be32(0, b[28], b[29], b[30], b[31]);
    lemma_be64_bytes_of_value(b.subrange(20, 28));
    assert(data.len() as u32 == be32_value(b[28], b[29], b[30], b[31]));
    assert(spec_chunk_header_bytes(id, index, offset, data.len() as u32) + data =~= b);
}

} // verus!
