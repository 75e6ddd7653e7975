//! The helper's wire: each message is a 4-byte big-endian length and that
//! many bytes of MessagePack.
use vstd::prelude::*;

use crate::errors::{ErrorKind, TealDriveError};
use crate::helper::types::{
    command_disabled_in_v1, is_error_response, spec_command_disabled_in_v1, HelperRequest,
    HelperResponse,
};
use crate::protocol::be::{be32_bytes, be32_value, lemma_be32};
use crate::protocol::frame::append_bytes;

verus! {

pub const MAX_HELPER_REQUEST_SIZE: usize = 1048576;

pub const MAX_HELPER_RESPONSE_SIZE: usize = 1048576;

pub const HELPER_LEN_PREFIX_SIZE: usize = 4;

/// The helper's end of the wire.
#[derive(Debug, Clone, Copy, PartialEq, Eq, Structural)]
pub struct HelperIpc;

/// A payload framed for the wire: an empty payload cannot be sent, one
/// over `max_size` (or over what 4 bytes can count) is `too_large`.
pub open spec fn spec_frame(payload: Seq<u8>, max_size: usize, too_large: TealDriveError) -> Result<Seq<u8>, TealDriveError> {
    if payload.len() == 0 {
        Err(TealDriveError::HelperEncodeFailed)
    } else if payload.len() > max_size || payload.len() > u32::MAX {
        Err(too_large)
    } else {
        Ok(be32_bytes(payload.len() as u32) + payload)
    }
}

/// The payload of a framed message: the prefix must be there and count a
/// nonzero length no larger than `max_size` (else `too_large`), and exactly
/// that many bytes must follow.
pub open spec fn spec_unframe(bytes: Seq<u8>, max_size: usize, too_large: TealDriveError) -> Result<Seq<u8>, TealDriveError> {
    if bytes.len() < 4 {
        Err(TealDriveError::HelperMalformedResponse)
    } else {
        let len = be32_value(bytes[0], bytes[1], bytes[2], bytes[3]);
        if len == 0 {
            Err(TealDriveError::HelperMalformedResponse)
        } else if len > max_size {
            Err(too_large)
        } else if bytes.len() - 4 != len {
            Err(TealDriveError::HelperMalformedResponse)
        } else {
            Ok(bytes.subrange(4, bytes.len() as int))
        }
    }
}

pub fn encode_length_prefixed(payload: &[u8], max_size: usize, too_large: TealDriveError) -> (res: Result<
    Vec<u8>,
    TealDriveError,
>)
    ensures
        match (res, spec_frame(payload@, max_size, too_large)) {
            (Ok(f), Ok(s)) => f@ == s,
            (Err(e), Err(s)) => e == s,
            _ => false,
        },
{
    let n = payload.len();
    if n == 0 {
        return Err(TealDriveError::HelperEncodeFailed);
    }
    if n > max_size || n > u32::MAX as usize {
        return Err(too_large);
    }
    let len = n as u32;
    let mut frame: Vec<u8> = Vec::new();
    frame.push((len >> 24u32) as u8);
    frame.push((len >> 16u32) as u8);
    frame.push((len >> 8u32) as u8);
    frame.push(len as u8);
    assert(frame@ =~= be32_bytes(len));
    append_bytes(&mut frame, payload);
    Ok(frame)
}

/// The length a prefix counts, checked: nonzero and no larger than
/// `max_size` (else `too_large`).
pub open spec fn spec_check_prefix(prefix: Seq<u8>, max_size: usize, too_large: TealDriveError) -> Result<nat, TealDriveError>
    recommends
        prefix.len() == 4,
{
    let len = be32_value(prefix[0], prefix[1], prefix[2], prefix[3]);
    if len == 0 {
        Err(TealDriveError::HelperMalformedResponse)
    } else if len > max_size {
        Err(too_large)
    } else {
        Ok(len as nat)
    }
}

pub fn check_length_prefix(prefix: [u8; 4], max_size: usize, too_large: TealDriveError) -> (res: Result<
    usize,
    TealDriveError,
>)
    ensures
        match (res, spec_check_prefix(prefix@, max_size, too_large)) {
            (Ok(n), Ok(s)) => n == s,
            (Err(e), Err(s)) => e == s,
            _ => false,
        },
{
    let len: u32 = ((prefix[0] as u32) << 24u32) | ((prefix[1] as u32) << 16u32) | ((prefix[2] as u32)
        << 8u32) | (prefix[3] as u32);
    if len == 0 {
        return Err(TealDriveError::HelperMalformedResponse);
    }
    if len as usize > max_size {
        return Err(too_large);
    }
    Ok(len as usize)
}

pub fn decode_length_prefixed(bytes: &[u8], max_size: usize, too_large: TealDriveError) -> (res: Result<
    Vec<u8>,
    TealDriveError,
>)
    ensures
        match (res, spec_unframe(bytes@, max_size, too_large)) {
            (Ok(p), Ok(s)) => p@ == s,
            (Err(e), Err(s)) => e == s,
            _ => false,
        },
{
    let n = bytes.len();
    if n < HELPER_LEN_PREFIX_SIZE {
        return Err(TealDriveError::HelperMalformedResponse);
    }
    let len: u32 = ((bytes[0] as u32) << 24u32) | ((bytes[1] as u32) << 16u32) | ((bytes[2] as u32)
        << 8u32) | (bytes[3] as u32);
    if len == 0 {
        return Err(TealDriveError::HelperMalformedResponse);
    }
    if len as usize > max_size {
        return Err(too_large);
    }
    if n - HELPER_LEN_PREFIX_SIZE != len as usize {
        return Err(TealDriveError::HelperMalformedResponse);
    }
    let mut out: Vec<u8> = Vec::new();
    let mut i: usize = 4;
    while i < n
        invariant
            4 <= i <= n,
            n == bytes@.len(),
            out@ == bytes@.subrange(4, i as int),
        decreases n - i,
    {
        out.push(bytes[i]);
        i = i + 1;
        assert(out@ =~= bytes@.subrange(4, i as int));
    }
    Ok(out)
}

/// Framing a payload and reading the frame back gives the payload.
pub proof fn lemma_length_prefixed_roundtrip(payload: Seq<u8>, max_size: usize, too_large: TealDriveError)
    requires
        spec_frame(payload, max_size, too_large) is Ok,
    ensures
        spec_unframe(spec_frame(payload, max_size, too_large)->Ok_0, max_size, too_large) == Ok::<
            Seq<u8>,
            TealDriveError,
        >(payload),
{
    let len = payload.len() as u32;
    let f = be32_bytes(len) + payload;
    lemma_be32(len, 0, 0, 0, 0);
    assert(f[0] == (len >> 24u32) as u8 && f[1] == (len >> 16u32) as u8 && f[2] == (len >> 8u32) as u8
        && f[3] == len as u8);
    assert(f.subrange(4, f.len() as int) =~= payload);
}

/// The error a failed decode reports: size and framing errors stand, any
/// other is a decode failure.
pub open spec fn spec_helper_decode_error(error: TealDriveError) -> TealDriveError {
    match error {
        TealDriveError::HelperRequestTooLarge => TealDriveError::HelperRequestTooLarge,
        TealDriveError::HelperResponseTooLarge => TealDriveError::HelperResponseTooLarge,
        TealDriveError::HelperMalformedResponse => TealDriveError::HelperMalformedResponse,
        _ => TealDriveError::HelperDecodeFailed,
    }
}

pub fn helper_decode_error(error: TealDriveError) -> (e: TealDriveError)
    ensures
        e == spec_helper_decode_error(error),
{
    match error {
        TealDriveError::HelperRequestTooLarge => TealDriveError::HelperRequestTooLarge,
        TealDriveError::HelperResponseTooLarge => TealDriveError::HelperResponseTooLarge,
        TealDriveError::HelperMalformedResponse => TealDriveError::HelperMalformedResponse,
        _ => TealDriveError::HelperDecodeFailed,
    }
}

/// The helper's answer when no command runs: uid 0 is refused, commands V1
/// disables are refused as disabled, any other is not implemented.
pub fn handle_helper_request(request: &HelperRequest) -> (r: HelperResponse)
    ensures
        request.uid == 0 ==> is_error_response(
            r,
            *request,
            ErrorKind::PermissionDenied,
            "Helper refuses uid 0."@,
            "permission_denied"@,
        ),
        request.uid != 0 && spec_command_disabled_in_v1(request.command) ==> is_error_response(
            r,
            *request,
            ErrorKind::FeatureDisabled,
            "Helper command is disabled in TealDrive V1."@,
            "feature_disabled"@,
        ),
        request.uid != 0 && !spec_command_disabled_in_v1(request.command) ==> is_error_response(
            r,
            *request,
            ErrorKind::NotImplemented,
            "Helper command is not implemented yet."@,
            "not_implemented"@,
        ),
{
    if request.uid == 0 {
        return HelperResponse::permission_denied(request, "Helper refuses uid 0.");
    }
    if command_disabled_in_v1(request.command) {
        return HelperResponse::feature_disabled(request);
    }
    HelperResponse::not_implemented(request)
}

} // verus!
