use vstd::prelude::*;

use crate::errors::TealDriveError;

verus! {

pub const FLAG_ERROR: u16 = 0x0001;
pub const FLAG_STREAM: u16 = 0x0002;
pub const FLAG_FINAL: u16 = 0x0004;
pub const FLAG_ACK_REQUIRED: u16 = 0x0008;
pub const FLAG_COMPRESSED: u16 = 0x0010;
pub const KNOWN_FLAGS_MASK: u16 = 0x001f;

/// The flag bits of a TDRV header, one field per known bit.
#[derive(Debug, Clone, Copy, PartialEq, Eq, Structural)]
pub struct TdrvFlags {
    pub error: bool,
    pub stream: bool,
    pub final_frame: bool,
    pub ack_required: bool,
    pub compressed: bool,
}

pub open spec fn bit_if(set: bool, bit: u16) -> u16 {
    if set { bit } else { 0u16 }
}

/// The 16-bit wire value of a set of flags.
pub open spec fn spec_flag_bits(f: TdrvFlags) -> u16 {
    bit_if(f.error, FLAG_ERROR) | bit_if(f.stream, FLAG_STREAM) | bit_if(f.final_frame, FLAG_FINAL)
        | bit_if(f.ack_required, FLAG_ACK_REQUIRED) | bit_if(f.compressed, FLAG_COMPRESSED)
}

/// The flags a wire value stands for, when it sets no unknown bit.
pub open spec fn spec_flags_of(bits: u16) -> TdrvFlags {
    TdrvFlags {
        error: bits & FLAG_ERROR != 0,
        stream: bits & FLAG_STREAM != 0,
        final_frame: bits & FLAG_FINAL != 0,
        ack_required: bits & FLAG_ACK_REQUIRED != 0,
        compressed: bits & FLAG_COMPRESSED != 0,
    }
}

pub open spec fn known_bits_only(bits: u16) -> bool {
    bits & !KNOWN_FLAGS_MASK == 0
}

impl TdrvFlags {
    pub fn empty() -> (f: Self)
        ensures
            !f.error && !f.stream && !f.final_frame && !f.ack_required && !f.compressed,
    {
        TdrvFlags {
            error: false,
            stream: false,
            final_frame: false,
            ack_required: false,
            compressed: false,
        }
    }

    pub fn compressed() -> (f: Self)
        ensures
            !f.error && !f.stream && !f.final_frame && !f.ack_required && f.compressed,
    {
        TdrvFlags { compressed: true, ..Self::empty() }
    }

    pub fn bits(self) -> (bits: u16)
        ensures
            bits == spec_flag_bits(self),
    {
        let error_bit: u16 = if self.error { FLAG_ERROR } else { 0 };
        let stream_bit: u16 = if self.stream { FLAG_STREAM } else { 0 };
        let final_bit: u16 = if self.final_frame { FLAG_FINAL } else { 0 };
        let ack_bit: u16 = if self.ack_required { FLAG_ACK_REQUIRED } else { 0 };
        let compressed_bit: u16 = if self.compressed { FLAG_COMPRESSED } else { 0 };
        let bits: u16 = error_bit | stream_bit | final_bit | ack_bit | compressed_bit;
        bits
    }

    pub fn from_bits(bits: u16) -> (res: Result<Self, TealDriveError>)
        ensures
            known_bits_only(bits) ==> res == Ok::<TdrvFlags, TealDriveError>(spec_flags_of(bits)),
            !known_bits_only(bits) ==> res == Err::<TdrvFlags, TealDriveError>(TealDriveError::InvalidFlags),
    {
        if bits & !KNOWN_FLAGS_MASK != 0 {
            return Err(TealDriveError::InvalidFlags);
        }
        Ok(TdrvFlags {
            error: bits & FLAG_ERROR != 0,
            stream: bits & FLAG_STREAM != 0,
            final_frame: bits & FLAG_FINAL != 0,
            ack_required: bits & FLAG_ACK_REQUIRED != 0,
            compressed: bits & FLAG_COMPRESSED != 0,
        })
    }
}

/// Every set of flags goes on the wire with known bits only, and reading it
/// back gives the same flags.
pub proof fn lemma_flags_roundtrip(f: TdrvFlags)
    ensures
        known_bits_only(spec_flag_bits(f)),
        spec_flags_of(spec_flag_bits(f)) == f,
{
    let (e, s, fi, a, c) = (f.error, f.stream, f.final_frame, f.ack_required, f.compressed);
    let b = spec_flag_bits(f);
    assert(b == bit_if(e, 1u16) | bit_if(s, 2u16) | bit_if(fi, 4u16) | bit_if(a, 8u16) | bit_if(c, 16u16));
    assert(((if e { 1u16 } else { 0u16 }) | (if s { 2u16 } else { 0u16 }) | (if fi { 4u16 } else { 0u16 })
        | (if a { 8u16 } else { 0u16 }) | (if c { 16u16 } else { 0u16 })) & !0x001fu16 == 0) by (bit_vector);
    assert({
        let x = (if e { 1u16 } else { 0u16 }) | (if s { 2u16 } else { 0u16 }) | (if fi { 4u16 } else { 0u16 })
            | (if a { 8u16 } else { 0u16 }) | (if c { 16u16 } else { 0u16 });
        &&& (x & 1u16 != 0) == e
        &&& (x & 2u16 != 0) == s
        &&& (x & 4u16 != 0) == fi
        &&& (x & 8u16 != 0) == a
        &&& (x & 16u16 != 0) == c
    }) by (bit_vector);
}

} // verus!
