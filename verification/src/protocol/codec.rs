use vstd::prelude::*;

use crate::errors::TealDriveError;
use crate::limits::MAX_CONTROL_PAYLOAD;

verus! {

/// Marks a control payload: a MessagePack map of named fields.
#[derive(Debug, Clone, Copy, PartialEq, Eq, Structural)]
pub struct MessagePackControlPayload;

/// Marks a raw binary payload, as the bytes of a chunk.
#[derive(Debug, Clone, Copy, PartialEq, Eq, Structural)]
pub struct RawBinaryPayload;

/// A control payload, encoded or about to be decoded, may hold at most
/// `MAX_CONTROL_PAYLOAD` bytes.
pub fn check_control_payload(bytes: &[u8]) -> (res: Result<(), TealDriveError>)
    ensures
        res is Ok <==> bytes@.len() <= MAX_CONTROL_PAYLOAD,
        res matches Err(e) ==> e == TealDriveError::PayloadTooLarge,
{
    if bytes.len() > MAX_CONTROL_PAYLOAD {
        return Err(TealDriveError::PayloadTooLarge);
    }
    Ok(())
}

} // verus!
