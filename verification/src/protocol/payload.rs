use vstd::prelude::*;

use crate::config::{RelativePath, RootId};
use crate::errors::{ErrorPayload, TealDriveError};
use crate::limits::Limits;
use crate::policy::feature_gate::FeatureFlags;
use crate::protocol::compression::Compression;
use crate::protocol::frame::{RequestId, TransferId};
use crate::protocol::header::Encoding;
use crate::protocol::schema::{
    CapabilitySet, DirectoryCursor, FileCapabilities, FileKind, FilterMode, GroupName, OwnerName,
    SortMode, UnixMode,
};
use crate::strings::{eq_ignore_ascii_case, str_eq_ignore_ascii_case};

verus! {

/// The server's half of the handshake.
#[derive(Debug, Clone, PartialEq, Eq)]
pub struct ServerHelloPayload {
    pub protocol_version: u8,
    pub server_name: String,
    pub selected_encoding: Option<Encoding>,
    pub supported_encodings: Vec<Encoding>,
    pub supported_compressions: Vec<Compression>,
    pub max_frame_size: usize,
    pub max_control_payload_size: usize,
    pub max_chunk_size: usize,
    pub feature_flags: FeatureFlags,
}

/// The client's half of the handshake.
#[derive(Debug, Clone, PartialEq, Eq)]
pub struct ClientHelloPayload {
    pub protocol_version: u8,
    pub supported_encodings: Vec<Encoding>,
    pub supported_compressions: Vec<Compression>,
    pub max_frame_size: usize,
    pub max_control_payload_size: usize,
    pub max_chunk_size: usize,
    pub feature_flags: FeatureFlags,
}

impl ClientHelloPayload {
    /// A client may not ask for frames, control payloads or chunks larger
    /// than the server's limits.
    pub fn validate(&self, limits: &Limits) -> (res: Result<(), TealDriveError>)
        ensures
            res is Ok <==> (self.max_frame_size <= limits.max_frame_payload
                && self.max_control_payload_size <= limits.max_control_payload
                && self.max_chunk_size <= limits.max_chunk_size),
            res matches Err(e) ==> e == TealDriveError::Validation,
    {
        if self.max_frame_size > limits.max_frame_payload
            || self.max_control_payload_size > limits.max_control_payload
            || self.max_chunk_size > limits.max_chunk_size
        {
            return Err(TealDriveError::Validation);
        }
        Ok(())
    }
}

#[derive(Debug, Clone, PartialEq, Eq)]
pub struct ProtocolReadyPayload {
    pub protocol_version: u8,
    pub selected_encoding: Encoding,
    pub selected_compression: Compression,
    pub limits: Limits,
    pub server_time: Option<String>,
}

#[derive(Debug, Clone, PartialEq, Eq)]
pub struct ConnectionStatusPayload {
    pub protocol_ready: bool,
    pub message: Option<String>,
}

#[derive(Debug, Clone, PartialEq, Eq)]
pub struct ListDirectoryRequest {
    pub root_id: RootId,
    pub relative_path: RelativePath,
    pub cursor: Option<DirectoryCursor>,
    pub limit: usize,
    pub include_hidden: bool,
    pub sort: SortMode,
    pub filter: FilterMode,
}

impl ListDirectoryRequest {
    /// A page may not be larger than the server's largest page.
    pub fn validate(&self, limits: &Limits) -> (res: Result<(), TealDriveError>)
        ensures
            res is Ok <==> self.limit <= limits.max_directory_page_size,
            res matches Err(e) ==> e == TealDriveError::Validation,
    {
        if self.limit > limits.max_directory_page_size {
            return Err(TealDriveError::Validation);
        }
        Ok(())
    }
}

#[derive(Debug, Clone, PartialEq, Eq)]
pub struct DirectoryListResponse {
    pub entries: Vec<DirectoryEntryPayload>,
    pub next_cursor: Option<DirectoryCursor>,
    pub has_more: bool,
    pub total_estimate: Option<usize>,
    pub current_path: RelativePath,
    pub capabilities: CapabilitySet,
}

#[derive(Debug, Clone, PartialEq, Eq)]
pub struct DirectoryEntryPayload {
    pub name: String,
    pub file_type: FileKind,
    pub size: u64,
    pub modified: Option<String>,
    pub owner: Option<OwnerName>,
    pub group: Option<GroupName>,
    pub mode: Option<UnixMode>,
    pub permissions: Option<String>,
    pub is_hidden: bool,
    pub is_sensitive: bool,
    pub is_protected: bool,
    pub is_symlink: bool,
    pub symlink_target: Option<RelativePath>,
    pub is_web_root: bool,
    pub is_world_writable: bool,
    pub capabilities: FileCapabilities,
}

#[derive(Debug, Clone, PartialEq, Eq)]
pub struct FileMetadataRequest {
    pub root_id: RootId,
    pub relative_path: RelativePath,
}

#[derive(Debug, Clone, PartialEq, Eq)]
pub struct FileMetadataPayload {
    pub root_id: RootId,
    pub relative_path: RelativePath,
    pub entry: DirectoryEntryPayload,
}

#[derive(Debug, Clone, PartialEq, Eq)]
pub struct ReadTextFileRequest {
    pub root_id: RootId,
    pub relative_path: RelativePath,
    pub max_bytes: Option<usize>,
    pub encoding: Option<String>,
}

impl ReadTextFileRequest {
    /// A preview may not ask for more than the largest editable text, and
    /// only in UTF-8 (any ASCII case).
    pub fn validate(&self, limits: &Limits) -> (res: Result<(), TealDriveError>)
        ensures
            res is Ok <==> (!(self.max_bytes matches Some(m) && m > limits.max_text_edit_size)
                && !(self.encoding matches Some(e) && !eq_ignore_ascii_case(e@, "utf-8"@))),
            res matches Err(e) ==> e == TealDriveError::Validation,
    {
        if let Some(max) = self.max_bytes {
            if max > limits.max_text_edit_size {
                return Err(TealDriveError::Validation);
            }
        }
        if let Some(encoding) = &self.encoding {
            if !str_eq_ignore_ascii_case(encoding.as_str(), "utf-8") {
                return Err(TealDriveError::Validation);
            }
        }
        Ok(())
    }
}

#[derive(Debug, Clone, PartialEq, Eq)]
pub struct TextFileContentPayload {
    pub root_id: RootId,
    pub relative_path: RelativePath,
    pub name: String,
    pub content: String,
    pub encoding: String,
    pub size: u64,
    pub modified: Option<String>,
    pub owner: Option<OwnerName>,
    pub group: Option<GroupName>,
    pub mode: Option<UnixMode>,
    pub permissions: Option<String>,
    pub is_sensitive: bool,
    pub is_hidden: bool,
    pub is_read_only: bool,
    pub truncated: bool,
    pub line_count: Option<usize>,
    pub language_hint: Option<String>,
}

#[derive(Debug, Clone, PartialEq, Eq)]
pub struct SaveTextFileRequest {
    pub root_id: RootId,
    pub relative_path: RelativePath,
    pub content: String,
    pub expected_modified: Option<String>,
}

#[derive(Debug, Clone, PartialEq, Eq)]
pub struct UploadBeginRequest {
    pub root_id: RootId,
    pub relative_path: RelativePath,
    pub filename: String,
    pub total_size: u64,
    pub chunk_size: usize,
    pub sha256: Option<String>,
}

impl UploadBeginRequest {
    /// Upload chunks may not be larger than the server's chunk limit.
    pub fn validate(&self, limits: &Limits) -> (res: Result<(), TealDriveError>)
        ensures
            res is Ok <==> self.chunk_size <= limits.max_chunk_size,
            res matches Err(e) ==> e == TealDriveError::Validation,
    {
        if self.chunk_size > limits.max_chunk_size {
            return Err(TealDriveError::Validation);
        }
        Ok(())
    }
}

#[derive(Debug, Clone, PartialEq, Eq)]
pub struct UploadBeginResponse {
    pub transfer_id: TransferId,
    pub chunk_size: usize,
}

#[derive(Debug, Clone, PartialEq, Eq)]
pub struct UploadEndRequest {
    pub transfer_id: TransferId,
    pub total_size: u64,
    pub sha256: Option<String>,
}

#[derive(Debug, Clone, PartialEq, Eq)]
pub struct UploadEndResponse {
    pub transfer_id: TransferId,
    pub bytes_written: u64,
    pub sha256_verified: Option<bool>,
}

#[derive(Debug, Clone, PartialEq, Eq)]
pub struct UploadAbortRequest {
    pub transfer_id: TransferId,
    pub reason: Option<String>,
}

#[derive(Debug, Clone, PartialEq, Eq)]
pub struct DownloadBeginRequest {
    pub root_id: RootId,
    pub relative_path: RelativePath,
    pub requested_chunk_size: Option<usize>,
}

impl DownloadBeginRequest {
    /// A requested chunk size may not exceed the server's chunk limit.
    pub fn validate(&self, limits: &Limits) -> (res: Result<(), TealDriveError>)
        ensures
            res is Ok <==> !(self.requested_chunk_size matches Some(c) && c > limits.max_chunk_size),
            res matches Err(e) ==> e == TealDriveError::Validation,
    {
        if let Some(chunk_size) = self.requested_chunk_size {
            if chunk_size > limits.max_chunk_size {
                return Err(TealDriveError::Validation);
            }
        }
        Ok(())
    }
}

#[derive(Debug, Clone, PartialEq, Eq)]
pub struct DownloadBeginResponse {
    pub transfer_id: TransferId,
    pub size: u64,
    pub chunk_size: usize,
    pub sha256: Option<String>,
}

#[derive(Debug, Clone, PartialEq, Eq)]
pub struct DownloadEndPayload {
    pub transfer_id: TransferId,
    pub bytes_sent: u64,
    pub chunk_count: u32,
    pub sha256: Option<String>,
}

#[derive(Debug, Clone, PartialEq, Eq)]
pub struct CreateFolderRequest {
    pub root_id: RootId,
    pub parent_relative_path: RelativePath,
    pub folder_name: String,
}

#[derive(Debug, Clone, PartialEq, Eq)]
pub struct RenameFileRequest {
    pub root_id: RootId,
    pub relative_path: RelativePath,
    pub new_name: String,
}

#[derive(Debug, Clone, PartialEq, Eq)]
pub struct MoveFileRequest {
    pub root_id: RootId,
    pub relative_path: RelativePath,
    pub target_root_id: RootId,
    pub target_relative_path: RelativePath,
}

#[derive(Debug, Clone, PartialEq, Eq)]
pub struct CopyFileRequest {
    pub root_id: RootId,
    pub relative_path: RelativePath,
    pub target_root_id: RootId,
    pub target_relative_path: RelativePath,
}

#[derive(Debug, Clone, PartialEq, Eq)]
pub struct MoveToTrashRequest {
    pub root_id: RootId,
    pub relative_path: RelativePath,
}

#[derive(Debug, Clone, PartialEq, Eq)]
pub struct RestoreFromTrashRequest {
    pub trash_id: String,
    pub target_root_id: Option<RootId>,
    pub target_relative_path: Option<RelativePath>,
}

#[derive(Debug, Clone, PartialEq, Eq)]
pub struct MoveToTrashPayload {
    pub request_id: RequestId,
    pub operation: String,
    pub trash_id: String,
    pub display_name: String,
    pub deleted_at: u64,
    pub original_relative_path: RelativePath,
    pub original_root_id: RootId,
}

#[derive(Debug, Clone, PartialEq, Eq)]
pub struct DeletePermanentlyRequest {
    pub root_id: RootId,
    pub relative_path: RelativePath,
}

#[derive(Debug, Clone, PartialEq, Eq)]
pub struct ChmodFileRequest {
    pub root_id: RootId,
    pub relative_path: RelativePath,
    pub mode: UnixMode,
}

#[derive(Debug, Clone, PartialEq, Eq)]
pub struct CompressZipRequest {
    pub root_id: RootId,
    pub relative_paths: Vec<RelativePath>,
    pub target_relative_path: RelativePath,
}

#[derive(Debug, Clone, PartialEq, Eq)]
pub struct CompressTarGzRequest {
    pub root_id: RootId,
    pub relative_paths: Vec<RelativePath>,
    pub target_relative_path: RelativePath,
}

#[derive(Debug, Clone, PartialEq, Eq)]
pub struct ExtractArchiveRequest {
    pub root_id: RootId,
    pub archive_relative_path: RelativePath,
    pub target_relative_path: RelativePath,
}

#[derive(Debug, Clone, PartialEq, Eq)]
pub struct OperationStartedPayload {
    pub request_id: RequestId,
    pub operation: String,
}

#[derive(Debug, Clone, PartialEq, Eq)]
pub struct OperationProgressPayload {
    pub request_id: RequestId,
    pub operation: String,
    pub bytes_done: Option<u64>,
    pub bytes_total: Option<u64>,
    pub items_done: Option<u64>,
    pub items_total: Option<u64>,
}

#[derive(Debug, Clone, PartialEq, Eq)]
pub struct OperationDonePayload {
    pub request_id: RequestId,
    pub operation: String,
    pub safe_message: Option<String>,
}

#[derive(Debug, Clone, PartialEq, Eq)]
pub struct OperationFailedPayload {
    pub request_id: RequestId,
    pub operation: String,
    pub error: ErrorPayload,
}

#[derive(Debug, Clone, PartialEq, Eq)]
pub struct ValidationErrorPayload {
    pub error: ErrorPayload,
}

#[derive(Debug, Clone, PartialEq, Eq)]
pub struct PolicyDeniedPayload {
    pub error: ErrorPayload,
}

#[derive(Debug, Clone, PartialEq, Eq)]
pub struct PermissionDeniedPayload {
    pub error: ErrorPayload,
}

} // verus!
