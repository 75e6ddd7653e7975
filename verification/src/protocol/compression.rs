use vstd::prelude::*;

use crate::errors::TealDriveError;

verus! {

/// Payload compression named in a TDRV header. V1 supports no compression and gzip.
#[derive(Debug, Clone, Copy, PartialEq, Eq, Structural)]
pub enum Compression {
    NoCompression,
    Gzip,
    DeflateFuture,
    ZstdFuture,
}

pub open spec fn compression_code(c: Compression) -> u8 {
    match c {
        Compression::NoCompression => 0u8,
        Compression::Gzip => 1u8,
        Compression::DeflateFuture => 2u8,
        Compression::ZstdFuture => 3u8,
    }
}

/// The compression a wire byte names, or `InvalidCompression`.
pub open spec fn compression_of(code: u8) -> Result<Compression, TealDriveError> {
    if code == 0 {
        Ok(Compression::NoCompression)
    } else if code == 1 {
        Ok(Compression::Gzip)
    } else if code == 2 {
        Ok(Compression::DeflateFuture)
    } else if code == 3 {
        Ok(Compression::ZstdFuture)
    } else {
        Err(TealDriveError::InvalidCompression)
    }
}

pub open spec fn compression_supported_v1(c: Compression) -> bool {
    c == Compression::NoCompression || c == Compression::Gzip
}

/// Reading the code of a compression gives it back.
pub proof fn lemma_compression_code_roundtrip(c: Compression)
    ensures
        compression_of(compression_code(c)) == Ok::<Compression, TealDriveError>(c),
{
}

impl Compression {
    pub fn is_v1_supported(self) -> (supported: bool)
        ensures
            supported == compression_supported_v1(self),
    {
        match self {
            Compression::NoCompression | Compression::Gzip => true,
            _ => false,
        }
    }

    pub fn code(self) -> (code: u8)
        ensures
            code == compression_code(self),
    {
        match self {
            Compression::NoCompression => 0,
            Compression::Gzip => 1,
            Compression::DeflateFuture => 2,
            Compression::ZstdFuture => 3,
        }
    }

    pub fn try_from(value: u8) -> (res: Result<Self, TealDriveError>)
        ensures
            res == compression_of(value),
    {
        if value == 0 {
            Ok(Compression::NoCompression)
        } else if value == 1 {
            Ok(Compression::Gzip)
        } else if value == 2 {
            Ok(Compression::DeflateFuture)
        } else if value == 3 {
            Ok(Compression::ZstdFuture)
        } else {
            Err(TealDriveError::InvalidCompression)
        }
    }
}

impl From<Compression> for u8 {
    fn from(value: Compression) -> (code: u8) {
        value.code()
    }
}

impl vstd::std_specs::convert::FromSpecImpl<Compression> for u8 {
    open spec fn obeys_from_spec() -> bool {
        true
    }

    open spec fn from_spec(v: Compression) -> u8 {
        compression_code(v)
    }
}

} // verus!
