use vstd::prelude::*;

use crate::config::{clone_opt_relative_path, clone_relative_path, clone_root_id, RelativePath, RootId};
use crate::errors::ErrorKind;
use crate::protocol::frame::{RequestId, TransferId};
use crate::protocol::schema::{
    DirectoryCursor, FileCapabilities, FileKind, FilterMode, GroupName, OwnerName, SortMode,
    UnixMode,
};

verus! {

/// One request from the server to the privileged helper.
#[derive(Debug, Clone, PartialEq, Eq)]
pub struct HelperRequest {
    pub request_id: RequestId,
    pub username: String,
    pub uid: u32,
    pub gid: u32,
    pub command: HelperCommand,
    pub root_id: RootId,
    pub relative_path: RelativePath,
    pub target_relative_path: Option<RelativePath>,
    pub policy_context: HelperPolicyContext,
    pub limits: HelperLimits,
    pub list_options: Option<HelperListDirectoryOptions>,
}

#[derive(Debug, Clone, Copy, PartialEq, Eq, Structural)]
pub enum HelperCommand {
    ListDirectory,
    FileMetadata,
    DownloadFile,
    ReadTextFile,
    ReadFile,
    WriteFile,
    CreateFolder,
    Rename,
    Move,
    Copy,
    MoveToTrash,
    RestoreFromTrash,
    DeletePermanently,
    Chmod,
    CompressZip,
    CompressTarGz,
    ExtractArchive,
}

/// What the server's policy already knows of the root.
#[derive(Debug, Clone, Copy, PartialEq, Eq, Structural)]
pub struct HelperPolicyContext {
    pub read_only_root: bool,
    pub is_web_root: bool,
}

#[derive(Debug, Clone, Copy, PartialEq, Eq, Structural)]
pub struct HelperLimits {
    pub max_directory_page_size: usize,
    pub max_text_edit_size: usize,
    pub max_chunk_size: usize,
    pub max_download_helper_bytes: usize,
}

#[derive(Debug, Clone, PartialEq, Eq)]
pub struct HelperListDirectoryOptions {
    pub cursor: Option<DirectoryCursor>,
    pub limit: usize,
    pub include_hidden: bool,
    pub sort: SortMode,
    pub filter: FilterMode,
}

/// The helper's answer to one request.
#[derive(Debug, Clone, PartialEq, Eq)]
pub struct HelperResponse {
    pub success: bool,
    pub error_kind: Option<ErrorKind>,
    pub safe_message: Option<String>,
    pub os_error_code: Option<i32>,
    pub bytes_read: u64,
    pub bytes_written: u64,
    pub audit_metadata: Option<HelperAuditMetadata>,
    pub payload: HelperResponsePayload,
}

#[derive(Debug, Clone, PartialEq, Eq)]
pub enum HelperResponsePayload {
    NoPayload,
    DirectoryList(HelperDirectoryList),
    FileMetadata(HelperDirectoryEntry),
    DownloadFile(HelperDownloadFile),
    TextFileContent(HelperTextFileContent),
    TrashEntry(HelperTrashEntry),
}

#[derive(Debug, Clone, PartialEq, Eq)]
pub struct HelperTrashEntry {
    pub trash_id: String,
    pub display_name: String,
    pub deleted_at: u64,
    pub original_relative_path: RelativePath,
    pub original_root_id: RootId,
}

#[derive(Debug, Clone, PartialEq, Eq)]
pub struct HelperTextFileContent {
    pub name: String,
    pub content: String,
    pub encoding: String,
    pub size: u64,
    pub modified: Option<String>,
    pub owner: Option<OwnerName>,
    pub group: Option<GroupName>,
    pub mode: Option<UnixMode>,
    pub permissions: Option<String>,
    pub is_sensitive: bool,
    pub is_hidden: bool,
    pub is_read_only: bool,
    pub truncated: bool,
    pub line_count: Option<usize>,
    pub language_hint: Option<String>,
}

#[derive(Debug, Clone, PartialEq, Eq)]
pub struct HelperDownloadFile {
    pub transfer_id: TransferId,
    pub total_bytes: u64,
    pub chunks: Vec<HelperDownloadChunk>,
}

#[derive(Debug, Clone, PartialEq, Eq)]
pub struct HelperDownloadChunk {
    pub chunk_index: u32,
    pub offset: u64,
    pub chunk_bytes: Vec<u8>,
}

#[derive(Debug, Clone, PartialEq, Eq)]
pub struct HelperDirectoryList {
    pub entries: Vec<HelperDirectoryEntry>,
    pub has_more: bool,
    pub next_cursor: Option<DirectoryCursor>,
    pub total_estimate: Option<usize>,
}

#[derive(Debug, Clone, PartialEq, Eq)]
pub struct HelperDirectoryEntry {
    pub name: String,
    pub file_type: FileKind,
    pub size: u64,
    pub modified: Option<String>,
    pub owner: Option<OwnerName>,
    pub group: Option<GroupName>,
    pub mode: Option<UnixMode>,
    pub permissions: Option<String>,
    pub is_hidden: bool,
    pub is_sensitive: bool,
    pub is_protected: bool,
    pub is_symlink: bool,
    pub symlink_target: Option<RelativePath>,
    pub is_web_root: bool,
    pub is_world_writable: bool,
    pub capabilities: FileCapabilities,
}

/// What the helper reports for the audit log; it names the request's paths
/// relative to their root, never absolute ones.
#[derive(Debug, Clone, PartialEq, Eq)]
pub struct HelperAuditMetadata {
    pub request_id: RequestId,
    pub command: HelperCommand,
    pub root_id: RootId,
    pub relative_path: RelativePath,
    pub target_relative_path: Option<RelativePath>,
    pub bytes_read: u64,
    pub bytes_written: u64,
    pub status: String,
    pub reason: Option<String>,
}

/// The audit record of `request` with the given byte count, status and reason.
pub open spec fn audit_for(
    m: HelperAuditMetadata,
    request: HelperRequest,
    bytes_read: u64,
    status: Seq<char>,
    reason: Option<Seq<char>>,
) -> bool {
    &&& m.request_id == request.request_id
    &&& m.command == request.command
    &&& m.root_id == request.root_id
    &&& m.relative_path == request.relative_path
    &&& m.target_relative_path == request.target_relative_path
    &&& m.bytes_read == bytes_read
    &&& m.bytes_written == 0
    &&& m.status@ == status
    &&& match (m.reason, reason) {
        (Some(r), Some(s)) => r@ == s,
        (None, None) => true,
        _ => false,
    }
}

/// `r` refuses `request` with this kind, message and audit reason.
pub open spec fn is_error_response(
    r: HelperResponse,
    request: HelperRequest,
    kind: ErrorKind,
    message: Seq<char>,
    reason: Seq<char>,
) -> bool {
    &&& !r.success
    &&& r.error_kind == Some(kind)
    &&& r.safe_message matches Some(m) && m@ == message
    &&& r.os_error_code is None
    &&& r.bytes_read == 0
    &&& r.bytes_written == 0
    &&& r.audit_metadata matches Some(a) && audit_for(a, request, 0, "denied"@, Some(reason))
    &&& r.payload == HelperResponsePayload::NoPayload
}

/// `r` answers `request` with success, this byte count, message and payload.
pub open spec fn is_success_response(
    r: HelperResponse,
    request: HelperRequest,
    bytes_read: u64,
    message: Option<Seq<char>>,
    payload: HelperResponsePayload,
) -> bool {
    &&& r.success
    &&& r.error_kind is None
    &&& match (r.safe_message, message) {
        (Some(m), Some(s)) => m@ == s,
        (None, None) => true,
        _ => false,
    }
    &&& r.os_error_code is None
    &&& r.bytes_read == bytes_read
    &&& r.bytes_written == 0
    &&& r.audit_metadata matches Some(a) && audit_for(a, request, bytes_read, "success"@, None)
    &&& r.payload == payload
}

fn audit_metadata(
    request: &HelperRequest,
    bytes_read: u64,
    status: &str,
    reason: Option<&str>,
) -> (m: HelperAuditMetadata)
    ensures
        audit_for(
            m,
            *request,
            bytes_read,
            status@,
            match reason {
                Some(r) => Some(r@),
                None => None,
            },
        ),
{
    HelperAuditMetadata {
        request_id: request.request_id,
        command: request.command,
        root_id: clone_root_id(&request.root_id),
        relative_path: clone_relative_path(&request.relative_path),
        target_relative_path: clone_opt_relative_path(&request.target_relative_path),
        bytes_read,
        bytes_written: 0,
        status: status.to_owned(),
        reason: match reason {
            Some(r) => Some(r.to_owned()),
            None => None,
        },
    }
}

fn success(
    request: &HelperRequest,
    bytes_read: u64,
    safe_message: Option<&str>,
    payload: HelperResponsePayload,
) -> (r: HelperResponse)
    ensures
        is_success_response(
            r,
            *request,
            bytes_read,
            match safe_message {
                Some(m) => Some(m@),
                None => None,
            },
            payload,
        ),
{
    HelperResponse {
        success: true,
        error_kind: None,
        safe_message: match safe_message {
            Some(m) => Some(m.to_owned()),
            None => None,
        },
        os_error_code: None,
        bytes_read,
        bytes_written: 0,
        audit_metadata: Some(audit_metadata(request, bytes_read, "success", None)),
        payload,
    }
}

impl HelperResponse {
    pub fn not_implemented(request: &HelperRequest) -> (r: Self)
        ensures
            is_error_response(
                r,
                *request,
                ErrorKind::NotImplemented,
                "Helper command is not implemented yet."@,
                "not_implemented"@,
            ),
    {
        Self::error(
            request,
            ErrorKind::NotImplemented,
            "Helper command is not implemented yet.",
            "not_implemented",
        )
    }

    pub fn feature_disabled(request: &HelperRequest) -> (r: Self)
        ensures
            is_error_response(
                r,
                *request,
                ErrorKind::FeatureDisabled,
                "Helper command is disabled in TealDrive V1."@,
                "feature_disabled"@,
            ),
    {
        Self::error(
            request,
            ErrorKind::FeatureDisabled,
            "Helper command is disabled in TealDrive V1.",
            "feature_disabled",
        )
    }

    pub fn permission_denied(request: &HelperRequest, message: &'static str) -> (r: Self)
        ensures
            is_error_response(r, *request, ErrorKind::PermissionDenied, message@, "permission_denied"@),
    {
        Self::error(request, ErrorKind::PermissionDenied, message, "permission_denied")
    }

    /// A refusal of `request`.
    pub fn error(
        request: &HelperRequest,
        error_kind: ErrorKind,
        safe_message: &str,
        reason: &str,
    ) -> (r: Self)
        ensures
            is_error_response(r, *request, error_kind, safe_message@, reason@),
    {
        HelperResponse {
            success: false,
            error_kind: Some(error_kind),
            safe_message: Some(safe_message.to_owned()),
            os_error_code: None,
            bytes_read: 0,
            bytes_written: 0,
            audit_metadata: Some(audit_metadata(request, 0, "denied", Some(reason))),
            payload: HelperResponsePayload::NoPayload,
        }
    }

    pub fn directory_list(request: &HelperRequest, list: HelperDirectoryList) -> (r: Self)
        ensures
            is_success_response(r, *request, 0, None, HelperResponsePayload::DirectoryList(list)),
    {
        success(request, 0, None, HelperResponsePayload::DirectoryList(list))
    }

    pub fn file_metadata(request: &HelperRequest, entry: HelperDirectoryEntry) -> (r: Self)
        ensures
            is_success_response(r, *request, 0, None, HelperResponsePayload::FileMetadata(entry)),
    {
        success(request, 0, None, HelperResponsePayload::FileMetadata(entry))
    }

    /// Success with a download; the bytes read are the file's total size.
    pub fn download_file(request: &HelperRequest, download: HelperDownloadFile) -> (r: Self)
        ensures
            is_success_response(
                r,
                *request,
                download.total_bytes,
                None,
                HelperResponsePayload::DownloadFile(download),
            ),
    {
        let bytes_read = download.total_bytes;
        success(request, bytes_read, None, HelperResponsePayload::DownloadFile(download))
    }

    /// Success with a text preview; the bytes read are the file's size.
    pub fn text_file_content(request: &HelperRequest, content: HelperTextFileContent) -> (r: Self)
        ensures
            is_success_response(
                r,
                *request,
                content.size,
                None,
                HelperResponsePayload::TextFileContent(content),
            ),
    {
        let bytes_read = content.size;
        success(request, bytes_read, None, HelperResponsePayload::TextFileContent(content))
    }

    pub fn trash_entry(request: &HelperRequest, entry: HelperTrashEntry) -> (r: Self)
        ensures
            is_success_response(
                r,
                *request,
                0,
                Some("Moved to trash."@),
                HelperResponsePayload::TrashEntry(entry),
            ),
    {
        success(request, 0, Some("Moved to trash."), HelperResponsePayload::TrashEntry(entry))
    }

    pub fn operation_done(request: &HelperRequest, safe_message: &'static str) -> (r: Self)
        ensures
            is_success_response(
                r,
                *request,
                0,
                Some(safe_message@),
                HelperResponsePayload::NoPayload,
            ),
    {
        success(request, 0, Some(safe_message), HelperResponsePayload::NoPayload)
    }
}

/// The commands that V1 refuses outright.
pub open spec fn spec_command_disabled_in_v1(command: HelperCommand) -> bool {
    command == HelperCommand::DeletePermanently || command == HelperCommand::Chmod
        || command == HelperCommand::ExtractArchive
}

pub fn command_disabled_in_v1(command: HelperCommand) -> (disabled: bool)
    ensures
        disabled == spec_command_disabled_in_v1(command),
{
    match command {
        HelperCommand::DeletePermanently | HelperCommand::Chmod | HelperCommand::ExtractArchive => true,
        _ => false,
    }
}

} // verus!
