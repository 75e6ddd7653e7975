use vstd::prelude::*;

use crate::errors::TealDriveError;
use crate::limits::MAX_FRAME_PAYLOAD;
use crate::protocol::header::{spec_decode_header, spec_encode_header, header_well_formed, TdrvHeader, HEADER_LEN};

verus! {

/// Sixteen random bytes from a version-4 UUID.
///
/// Calls `uuid::Uuid::new_v4` and hands back its bytes. They are random; what
/// holds of every outcome is what `new_v4` fixes by masking: the version
/// nibble of byte 6 is 4 and the top two bits of byte 8 are `10`.
#[verifier::external_body]
pub(crate) fn random_uuid_bytes() -> (bytes: [u8; 16])
    ensures
        is_v4_uuid(bytes@),
{
    *uuid::Uuid::new_v4().as_bytes()
}

/// The marks of a version-4 UUID: version 4 in the high nibble of byte 6, the
/// RFC variant in the top bits of byte 8.
pub open spec fn is_v4_uuid(bytes: Seq<u8>) -> bool {
    &&& bytes.len() == 16
    &&& bytes[6] & 0xf0u8 == 0x40u8
    &&& bytes[8] & 0xc0u8 == 0x80u8
}

/// The identifier of one client request, the 16 bytes of a UUID.
#[derive(Debug, Clone, Copy, PartialEq, Eq, Hash)]
pub struct RequestId(pub [u8; 16]);

impl RequestId {
    /// A fresh random identifier.
    pub fn new() -> (id: Self)
        ensures
            is_v4_uuid(id.0@),
    {
        RequestId(random_uuid_bytes())
    }

    pub fn from_bytes(bytes: [u8; 16]) -> (id: Self)
        ensures
            id.0@ == bytes@,
    {
        RequestId(bytes)
    }

    pub fn as_bytes(&self) -> (bytes: &[u8; 16])
        ensures
            bytes@ == self.0@,
    {
        &self.0
    }
}

impl Default for RequestId {
    fn default() -> (id: Self)
        ensures
            is_v4_uuid(id.0@),
    {
        Self::new()
    }
}

/// The identifier of one upload or download, the 16 bytes of a UUID.
#[derive(Debug, Clone, Copy, PartialEq, Eq, Hash)]
pub struct TransferId(pub [u8; 16]);

impl TransferId {
    /// A fresh random identifier.
    pub fn new() -> (id: Self)
        ensures
            is_v4_uuid(id.0@),
    {
        TransferId(random_uuid_bytes())
    }

    pub fn from_bytes(bytes: [u8; 16]) -> (id: Self)
        ensures
            id.0@ == bytes@,
    {
        TransferId(bytes)
    }

    pub fn as_bytes(&self) -> (bytes: &[u8; 16])
        ensures
            bytes@ == self.0@,
    {
        &self.0
    }
}

impl Default for TransferId {
    fn default() -> (id: Self)
        ensures
            is_v4_uuid(id.0@),
    {
        Self::new()
    }
}

/// Appends the bytes of `src` to `out`.
pub fn append_bytes(out: &mut Vec<u8>, src: &[u8])
    ensures
        final(out)@ == old(out)@ + src@,
{
    let ghost start = out@;
    let mut i: usize = 0;
    while i < src.len()
        invariant
            i <= src@.len(),
            out@ == start + src@.subrange(0, i as int),
        decreases src@.len() - i,
    {
        out.push(src[i]);
        i = i + 1;
        assert(start + src@.subrange(0, i as int) =~= out@);
    }
    assert(src@.subrange(0, i as int) =~= src@);
}

/// A header followed by its payload.
#[derive(Debug, Clone, PartialEq, Eq)]
pub struct TdrvFrame {
    pub header: TdrvHeader,
    pub payload: Vec<u8>,
}

/// The bytes of a frame on the wire.
pub open spec fn spec_encode_frame(f: TdrvFrame) -> Result<Seq<u8>, TealDriveError> {
    if f.payload@.len() > MAX_FRAME_PAYLOAD {
        Err(TealDriveError::PayloadTooLarge)
    } else if f.header.payload_len != f.payload@.len() {
        Err(TealDriveError::PayloadLengthMismatch)
    } else {
        Ok(spec_encode_header(f.header) + f.payload@)
    }
}

/// What reading a frame from `bytes` gives: the header, then a payload of
/// exactly the announced length.
pub open spec fn spec_decode_frame(bytes: Seq<u8>) -> Result<(TdrvHeader, Seq<u8>), TealDriveError> {
    if bytes.len() < HEADER_LEN {
        Err(TealDriveError::InvalidHeaderLength)
    } else {
        match spec_decode_header(bytes.subrange(0, HEADER_LEN as int)) {
            Err(e) => Err(e),
            Ok(h) => {
                let payload = bytes.subrange(HEADER_LEN as int, bytes.len() as int);
                if h.payload_len != payload.len() {
                    Err(TealDriveError::PayloadLengthMismatch)
                } else if payload.len() > MAX_FRAME_PAYLOAD {
                    Err(TealDriveError::PayloadTooLarge)
                } else {
                    Ok((h, payload))
                }
            },
        }
    }
}

/// A frame that encodes and reads back: a well-formed header announcing the
/// payload's true length.
pub open spec fn frame_well_formed(f: TdrvFrame) -> bool {
    &&& header_well_formed(f.header)
    &&& f.header.payload_len == f.payload@.len()
}

impl TdrvFrame {
    /// Pairs a header with a payload, setting the announced length to the
    /// payload's length.
    pub fn new(header: TdrvHeader, payload: Vec<u8>) -> (res: Result<Self, TealDriveError>)
        ensures
            payload@.len() > MAX_FRAME_PAYLOAD ==> res == Err::<TdrvFrame, TealDriveError>(
                TealDriveError::PayloadTooLarge,
            ),
            payload@.len() <= MAX_FRAME_PAYLOAD ==> (res matches Ok(f) && f.payload@ == payload@
                && f.header == (TdrvHeader { payload_len: payload@.len() as u32, ..header })),
    {
        if payload.len() > MAX_FRAME_PAYLOAD {
            return Err(TealDriveError::PayloadTooLarge);
        }
        let mut header = header;
        header.payload_len = payload.len() as u32;
        Ok(TdrvFrame { header, payload })
    }

    pub fn encode(&self) -> (res: Result<Vec<u8>, TealDriveError>)
        ensures
            match (res, spec_encode_frame(*self)) {
                (Ok(v), Ok(s)) => v@ == s,
                (Err(e), Err(s)) => e == s,
                _ => false,
            },
    {
        if self.payload.len() > MAX_FRAME_PAYLOAD {
            return Err(TealDriveError::PayloadTooLarge);
        }
        if self.header.payload_len as usize != self.payload.len() {
            return Err(TealDriveError::PayloadLengthMismatch);
        }
        let header_bytes = self.header.encode();
        let mut out: Vec<u8> = Vec::new();
        append_bytes(&mut out, header_bytes.as_slice());
        append_bytes(&mut out, self.payload.as_slice());
        Ok(out)
    }

    pub fn decode(bytes: &[u8]) -> (res: Result<Self, TealDriveError>)
        ensures
            match (res, spec_decode_frame(bytes@)) {
                (Ok(f), Ok((h, p))) => f.header == h && f.payload@ == p,
                (Err(e), Err(s)) => e == s,
                _ => false,
            },
    {
        if bytes.len() < HEADER_LEN {
            return Err(TealDriveError::InvalidHeaderLength);
        }
        let (head, rest) = bytes.split_at(HEADER_LEN);
        let header = TdrvHeader::decode(head)?;
        let mut payload: Vec<u8> = Vec::new();
        append_bytes(&mut payload, rest);
        if header.payload_len as usize != payload.len() {
            return Err(TealDriveError::PayloadLengthMismatch);
        }
        if payload.len() > MAX_FRAME_PAYLOAD {
            return Err(TealDriveError::PayloadTooLarge);
        }
        Ok(TdrvFrame { header, payload })
    }
}

/// A well-formed frame encodes, and decoding its bytes gives the frame back.
pub proof fn lemma_frame_roundtrip(f: TdrvFrame)
    requires
        frame_well_formed(f),
    ensures
        spec_encode_frame(f) == Ok::<Seq<u8>, TealDriveError>(spec_encode_header(f.header) + f.payload@),
        spec_decode_frame(spec_encode_header(f.header) + f.payload@) == Ok::<
            (TdrvHeader, Seq<u8>),
            TealDriveError,
        >((f.header, f.payload@)),
{
    crate::protocol::header::lemma_header_roundtrip(f.header);
    let hb = spec_encode_header(f.header);
    let bytes = hb + f.payload@;
    assert(bytes.subrange(0, HEADER_LEN as int) =~= hb);
    assert(bytes.subrange(HEADER_LEN as int, bytes.len() as int) =~= f.payload@);
}

} // verus!
