//! Plain payload records: the handshake with its encodings as byte codes, the
//! session request, a path listing, a chunk header and an error report.
use vstd::prelude::*;

use crate::fs::metadata::FileEntry;

verus! {

#[verifier::external_type_specification]
#[verifier::external_body]
pub struct ExUuid(uuid::Uuid);

#[derive(Debug)]
pub struct ServerHelloPayload {
    pub protocol_version: u8,
    pub max_frame_size: u32,
    pub supported_encodings: Vec<u8>,
    pub supported_compression: Vec<u8>,
}

#[derive(Debug)]
pub struct ClientHelloPayload {
    pub selected_encoding: u8,
    pub selected_compression: u8,
}

#[derive(Debug)]
pub struct AuthSessionRequest {
    pub session_id: uuid::Uuid,
}

#[derive(Debug)]
pub struct ListDirectoryRequest {
    pub path: String,
}

#[derive(Debug)]
pub struct DirectoryListResponse {
    pub path: String,
    pub entries: Vec<FileEntry>,
}

/// The header of a chunk sent inside a control payload.
#[derive(Debug)]
pub struct ChunkHeader {
    pub transfer_id: uuid::Uuid,
    pub chunk_index: u32,
    pub offset: u64,
    pub chunk_len: u32,
}

#[derive(Debug)]
pub struct ErrorPayload {
    pub code: u16,
    pub error_kind: String,
    pub safe_message: String,
    pub request_id: uuid::Uuid,
    pub retryable: bool,
}

} // verus!
