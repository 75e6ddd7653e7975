use vstd::prelude::*;

use crate::errors::TealDriveError;
use crate::limits::MAX_FRAME_PAYLOAD;
use crate::protocol::be::{be16_bytes, be16_value, be32_bytes, be32_value, lemma_be16, lemma_be32};
use crate::protocol::compression::{
    compression_code, compression_of, compression_supported_v1, lemma_compression_code_roundtrip,
    Compression,
};
use crate::protocol::flags::{
    known_bits_only, lemma_flags_roundtrip, spec_flag_bits, spec_flags_of, TdrvFlags,
};
use crate::protocol::frame::RequestId;
use crate::protocol::message_type::{
    is_known_message_code, lemma_message_type_code_roundtrip, message_type_code, message_type_of,
    MessageType,
};

verus! {

broadcast use vstd::array::group_array_axioms;

pub const TDRV_VERSION: u8 = 1;
pub const HEADER_LEN: usize = 32;

/// The four magic bytes that open every header: `TDRV`.
pub open spec fn tdrv_magic() -> Seq<u8> {
    seq![0x54u8, 0x44u8, 0x52u8, 0x56u8]
}

/// The magic bytes `TDRV`.
pub fn tdrv_magic_bytes() -> (magic: [u8; 4])
    ensures
        magic@ == tdrv_magic(),
{
    let magic: [u8; 4] = [0x54, 0x44, 0x52, 0x56];
    assert(magic@ =~= tdrv_magic());
    magic
}

/// How a payload is encoded.
#[derive(Debug, Clone, Copy, PartialEq, Eq, Structural)]
pub enum Encoding {
    NoEncoding,
    MessagePack,
    RawBinary,
}

pub open spec fn encoding_code(e: Encoding) -> u8 {
    match e {
        Encoding::NoEncoding => 0u8,
        Encoding::MessagePack => 1u8,
        Encoding::RawBinary => 2u8,
    }
}

/// The encoding a wire byte names, or `InvalidEncoding`.
pub open spec fn encoding_of(code: u8) -> Result<Encoding, TealDriveError> {
    if code == 0 {
        Ok(Encoding::NoEncoding)
    } else if code == 1 {
        Ok(Encoding::MessagePack)
    } else if code == 2 {
        Ok(Encoding::RawBinary)
    } else {
        Err(TealDriveError::InvalidEncoding)
    }
}

impl Encoding {
    pub fn try_from(value: u8) -> (res: Result<Self, TealDriveError>)
        ensures
            res == encoding_of(value),
    {
        if value == 0 {
            Ok(Encoding::NoEncoding)
        } else if value == 1 {
            Ok(Encoding::MessagePack)
        } else if value == 2 {
            Ok(Encoding::RawBinary)
        } else {
            Err(TealDriveError::InvalidEncoding)
        }
    }

    pub fn code(self) -> (code: u8)
        ensures
            code == encoding_code(self),
    {
        match self {
            Encoding::NoEncoding => 0,
            Encoding::MessagePack => 1,
            Encoding::RawBinary => 2,
        }
    }
}

impl From<Encoding> for u8 {
    fn from(value: Encoding) -> (code: u8) {
        value.code()
    }
}

impl vstd::std_specs::convert::FromSpecImpl<Encoding> for u8 {
    open spec fn obeys_from_spec() -> bool {
        true
    }

    open spec fn from_spec(v: Encoding) -> u8 {
        encoding_code(v)
    }
}

/// Chunk messages carry raw bytes; every other message must not.
pub open spec fn encoding_fits_message(m: MessageType, e: Encoding) -> bool {
    if m == MessageType::UploadChunk || m == MessageType::DownloadChunk {
        e == Encoding::RawBinary
    } else {
        e != Encoding::RawBinary
    }
}

pub fn validate_encoding_for_message(message_type: MessageType, encoding: Encoding) -> (res: Result<
    (),
    TealDriveError,
>)
    ensures
        encoding_fits_message(message_type, encoding) <==> res is Ok,
        res is Err ==> res == Err::<(), TealDriveError>(TealDriveError::InvalidEncoding),
{
    match message_type {
        MessageType::UploadChunk | MessageType::DownloadChunk => {
            if encoding == Encoding::RawBinary {
                Ok(())
            } else {
                Err(TealDriveError::InvalidEncoding)
            }
        },
        _ => {
            if encoding == Encoding::RawBinary {
                Err(TealDriveError::InvalidEncoding)
            } else {
                Ok(())
            }
        },
    }
}

/// The fixed 32-byte header of a TDRV frame.
#[derive(Debug, Clone, PartialEq, Eq)]
pub struct TdrvHeader {
    pub magic: [u8; 4],
    pub version: u8,
    pub flags: TdrvFlags,
    pub message_type: MessageType,
    pub compression: Compression,
    pub encoding: Encoding,
    pub reserved: u8,
    pub request_id: RequestId,
    pub payload_len: u32,
}

/// The 32 bytes of a header, integers big-endian.
pub open spec fn spec_encode_header(h: TdrvHeader) -> Seq<u8> {
    h.magic@ + seq![h.version] + be16_bytes(spec_flag_bits(h.flags)) + be16_bytes(
        message_type_code(h.message_type),
    ) + seq![compression_code(h.compression), encoding_code(h.encoding), h.reserved]
        + h.request_id.0@ + be32_bytes(h.payload_len)
}

/// What reading a header from `b` gives. The checks come in this order, and
/// the first that fails names the error.
pub open spec fn spec_decode_header(b: Seq<u8>) -> Result<TdrvHeader, TealDriveError> {
    if b.len() != HEADER_LEN {
        Err(TealDriveError::InvalidHeaderLength)
    } else if b.subrange(0, 4) != tdrv_magic() {
        Err(TealDriveError::InvalidMagic)
    } else if b[4] != TDRV_VERSION {
        Err(TealDriveError::UnsupportedVersion)
    } else if !known_bits_only(be16_value(b[5], b[6])) {
        Err(TealDriveError::InvalidFlags)
    } else {
        let flags = spec_flags_of(be16_value(b[5], b[6]));
        let message_type = message_type_of(be16_value(b[7], b[8]));
        match compression_of(b[9]) {
            Err(e) => Err(e),
            Ok(compression) => if !compression_supported_v1(compression) {
                Err(TealDriveError::InvalidCompression)
            } else {
                match encoding_of(b[10]) {
                    Err(e) => Err(e),
                    Ok(encoding) => if b[11] != 0 {
                        Err(TealDriveError::ReservedFieldNonZero)
                    } else if flags.compressed != (compression != Compression::NoCompression) {
                        Err(TealDriveError::InvalidFlags)
                    } else if !encoding_fits_message(message_type, encoding) {
                        Err(TealDriveError::InvalidEncoding)
                    } else if be32_value(b[28], b[29], b[30], b[31]) > MAX_FRAME_PAYLOAD {
                        Err(TealDriveError::PayloadTooLarge)
                    } else {
                        Ok(
                            TdrvHeader {
                                magic: [b[0], b[1], b[2], b[3]],
                                version: b[4],
                                flags,
                                message_type,
                                compression,
                                encoding,
                                reserved: b[11],
                                request_id: RequestId(
                                    [
                                        b[12],
                                        b[13],
                                        b[14],
                                        b[15],
                                        b[16],
                                        b[17],
                                        b[18],
                                        b[19],
                                        b[20],
                                        b[21],
                                        b[22],
                                        b[23],
                                        b[24],
                                        b[25],
                                        b[26],
                                        b[27],
                                    ],
                                ),
                                payload_len: be32_value(b[28], b[29], b[30], b[31]),
                            },
                        )
                    },
                }
            },
        }
    }
}

/// A header that `decode` accepts once encoded.
pub open spec fn header_well_formed(h: TdrvHeader) -> bool {
    &&& h.magic@ == tdrv_magic()
    &&& h.version == TDRV_VERSION
    &&& compression_supported_v1(h.compression)
    &&& h.reserved == 0
    &&& h.flags.compressed == (h.compression != Compression::NoCompression)
    &&& encoding_fits_message(h.message_type, h.encoding)
    &&& h.payload_len <= MAX_FRAME_PAYLOAD
}

impl TdrvHeader {
    /// A V1 header for a MessagePack payload: no flags, no compression.
    pub fn new(message_type: MessageType, request_id: RequestId, payload_len: u32) -> (h: Self)
        ensures
            h.magic@ == tdrv_magic(),
            h.version == TDRV_VERSION,
            h.flags == TdrvFlags::spec_empty(),
            h.message_type == message_type,
            h.compression == Compression::NoCompression,
            h.encoding == Encoding::MessagePack,
            h.reserved == 0,
            h.request_id == request_id,
            h.payload_len == payload_len,
    {
        TdrvHeader {
            magic: tdrv_magic_bytes(),
            version: TDRV_VERSION,
            flags: TdrvFlags::empty(),
            message_type,
            compression: Compression::NoCompression,
            encoding: Encoding::MessagePack,
            reserved: 0,
            request_id,
            payload_len,
        }
    }

    pub fn encode(&self) -> (out: [u8; 32])
        ensures
            out@ == spec_encode_header(*self),
    {
        let flags = self.flags.bits();
        let code = self.message_type.code();
        let len = self.payload_len;
        let id = self.request_id.0;
        let out: [u8; 32] = [
            self.magic[0],
            self.magic[1],
            self.magic[2],
            self.magic[3],
            self.version,
            (flags >> 8u16) as u8,
            flags as u8,
            (code >> 8u16) as u8,
            code as u8,
            self.compression.code(),
            self.encoding.code(),
            self.reserved,
            id[0],
            id[1],
            id[2],
            id[3],
            id[4],
            id[5],
            id[6],
            id[7],
            id[8],
            id[9],
            id[10],
            id[11],
            id[12],
            id[13],
            id[14],
            id[15],
            (len >> 24u32) as u8,
            (len >> 16u32) as u8,
            (len >> 8u32) as u8,
            len as u8,
        ];
        assert(out@ =~= spec_encode_header(*self));
        out
    }

    pub fn decode(bytes: &[u8]) -> (res: Result<Self, TealDriveError>)
        ensures
            res == spec_decode_header(bytes@),
    {
        if bytes.len() != HEADER_LEN {
            return Err(TealDriveError::InvalidHeaderLength);
        }
        let magic: [u8; 4] = [bytes[0], bytes[1], bytes[2], bytes[3]];
        if !(bytes[0] == 0x54 && bytes[1] == 0x44 && bytes[2] == 0x52 && bytes[3] == 0x56) {
            assert(bytes@.subrange(0, 4) != tdrv_magic()) by {
                if bytes@.subrange(0, 4) == tdrv_magic() {
                    assert(bytes@.subrange(0, 4)[0] == bytes@[0]);
                    assert(bytes@.subrange(0, 4)[1] == bytes@[1]);
                    assert(bytes@.subrange(0, 4)[2] == bytes@[2]);
                    assert(bytes@.subrange(0, 4)[3] == bytes@[3]);
                }
            }
            return Err(TealDriveError::InvalidMagic);
        }
        assert(bytes@.subrange(0, 4) =~= tdrv_magic());
        let version = bytes[4];
        if version != TDRV_VERSION {
            return Err(TealDriveError::UnsupportedVersion);
        }
        let flag_bits: u16 = ((bytes[5] as u16) << 8u16) | (bytes[6] as u16);
        let flags = TdrvFlags::from_bits(flag_bits)?;
        let code: u16 = ((bytes[7] as u16) << 8u16) | (bytes[8] as u16);
        let message_type = MessageType::from_code(code);
        let compression = Compression::try_from(bytes[9])?;
        if !compression.is_v1_supported() {
            return Err(TealDriveError::InvalidCompression);
        }
        let encoding = Encoding::try_from(bytes[10])?;
        let reserved = bytes[11];
        if reserved != 0 {
            return Err(TealDriveError::ReservedFieldNonZero);
        }
        let not_plain = match compression {
            Compression::NoCompression => false,
            _ => true,
        };
        if flags.compressed != not_plain {
            return Err(TealDriveError::InvalidFlags);
        }
        validate_encoding_for_message(message_type, encoding)?;
        let request_id = RequestId::from_bytes(
            [
                bytes[12],
                bytes[13],
                bytes[14],
                bytes[15],
                bytes[16],
                bytes[17],
                bytes[18],
                bytes[19],
                bytes[20],
                bytes[21],
                bytes[22],
                bytes[23],
                bytes[24],
                bytes[25],
                bytes[26],
                bytes[27],
            ],
        );
        let payload_len: u32 = ((bytes[28] as u32) << 24u32) | ((bytes[29] as u32) << 16u32) | ((
        bytes[30] as u32) << 8u32) | (bytes[31] as u32);
        if payload_len as usize > MAX_FRAME_PAYLOAD {
            return Err(TealDriveError::PayloadTooLarge);
        }
        let h = TdrvHeader {
            magic,
            version,
            flags,
            message_type,
            compression,
            encoding,
            reserved,
            request_id,
            payload_len,
        };
        proof {
            let s = spec_decode_header(bytes@);
            assert(s is Ok);
            assert(s->Ok_0.magic@ =~= h.magic@);
            assert(s->Ok_0.request_id.0@ =~= h.request_id.0@);
            assert(s->Ok_0.request_id.0 =~= h.request_id.0);
        }
        Ok(h)
    }
}

impl TdrvFlags {
    pub open spec fn spec_empty() -> TdrvFlags {
        TdrvFlags {
            error: false,
            stream: false,
            final_frame: false,
            ack_required: false,
            compressed: false,
        }
    }
}

/// A well-formed header encodes to bytes that decode back to the same header.
pub proof fn lemma_header_roundtrip(h: TdrvHeader)
    requires
        header_well_formed(h),
    ensures
        spec_decode_header(spec_encode_header(h)) == Ok::<TdrvHeader, TealDriveError>(h),
{
    let b = spec_encode_header(h);
    let fb = spec_flag_bits(h.flags);
    let mc = message_type_code(h.message_type);
    lemma_flags_roundtrip(h.flags);
    lemma_be16(fb, 0, 0);
    lemma_be16(mc, 0, 0);
    lemma_be32(h.payload_len, 0, 0, 0, 0);
    lemma_message_type_code_roundtrip(h.message_type);
    lemma_compression_code_roundtrip(h.compression);
    assert(b.len() == 32);
    assert(b.subrange(0, 4) =~= h.magic@);
    assert(encoding_of(encoding_code(h.encoding)) == Ok::<Encoding, TealDriveError>(h.encoding));
    let d = spec_decode_header(b)->Ok_0;
    assert(d.magic@ =~= h.magic@);
    assert(d.magic =~= h.magic);
    assert(d.request_id.0@ =~= h.request_id.0@);
    assert(d.request_id.0 =~= h.request_id.0);
}

/// A header read from bytes whose message type code is known encodes back to
/// exactly those bytes.
pub proof fn lemma_header_bytes_roundtrip(b: Seq<u8>)
    requires
        spec_decode_header(b) is Ok,
        is_known_message_code(be16_value(b[7], b[8])),
    ensures
        spec_encode_header(spec_decode_header(b)->Ok_0) == b,
{
    let h = spec_decode_header(b)->Ok_0;
    lemma_be16(0, b[5], b[6]);
    lemma_be16(0, b[7], b[8]);
    lemma_be32(0, b[28], b[29], b[30], b[31]);
    let fb = be16_value(b[5], b[6]);
    assert(spec_flag_bits(spec_flags_of(fb)) == fb) by {
        let x = fb;
        assert(x & !0x001fu16 == 0 ==> (((if x & 1u16 != 0 { 1u16 } else { 0u16 }) | (if x & 2u16
            != 0 { 2u16 } else { 0u16 }) | (if x & 4u16 != 0 { 4u16 } else { 0u16 }) | (if x & 8u16
            != 0 { 8u16 } else { 0u16 }) | (if x & 16u16 != 0 { 16u16 } else { 0u16 })) == x))
            by (bit_vector);
    }
    assert(compression_code(h.compression) == b[9]);
    assert(encoding_code(h.encoding) == b[10]);
    assert(spec_encode_header(h) =~= b);
}

} // verus!
