//! How the helper turns refusals and filesystem failures into responses.
use vstd::prelude::*;

use crate::config::AllowedRoot;
use crate::errors::{ErrorKind, TealDriveError};
use crate::helper::types::{is_error_response, HelperCommand, HelperRequest, HelperResponse};
use crate::policy::roots::{require_allowed_root, spec_allowed_root};

verus! {

/// A refusal of `request` with this kind, message and audit reason.
pub fn helper_error(
    request: &HelperRequest,
    error_kind: ErrorKind,
    safe_message: &str,
    reason: &str,
) -> (r: HelperResponse)
    ensures
        is_error_response(r, *request, error_kind, safe_message@, reason@),
{
    HelperResponse::error(request, error_kind, safe_message, reason)
}

/// The kind, message and audit reason for a path refused by validation or
/// resolution.
pub open spec fn spec_path_failure(error: TealDriveError) -> (ErrorKind, Seq<char>, Seq<char>) {
    match error {
        TealDriveError::SymlinkDenied | TealDriveError::SymlinkEscape => (
            ErrorKind::PolicyDenied,
            "Symlink access denied."@,
            "symlink_denied"@,
        ),
        TealDriveError::InvalidPath | TealDriveError::PathEscapesRoot => (
            ErrorKind::InvalidPath,
            "Invalid path."@,
            "invalid_path"@,
        ),
        TealDriveError::InvalidTarget => (ErrorKind::InvalidTarget, "Invalid target."@, "invalid_target"@),
        TealDriveError::InvalidFilename
        | TealDriveError::NullByteRejected
        | TealDriveError::ReservedNameRejected => (
            ErrorKind::ValidationError,
            "Invalid filename."@,
            "invalid_filename"@,
        ),
        TealDriveError::NotFound => (ErrorKind::NotFound, "Path not found."@, "not_found"@),
        TealDriveError::TraversalRejected => (
            ErrorKind::PolicyDenied,
            "Path traversal rejected."@,
            "path_traversal"@,
        ),
        _ => (ErrorKind::InternalError, "Helper path validation failed."@, "path_validation_failed"@),
    }
}

fn path_failure(error: TealDriveError) -> (t: (ErrorKind, &'static str, &'static str))
    ensures
        (t.0, t.1@, t.2@) == spec_path_failure(error),
{
    match error {
        TealDriveError::SymlinkDenied | TealDriveError::SymlinkEscape => (
            ErrorKind::PolicyDenied,
            "Symlink access denied.",
            "symlink_denied",
        ),
        TealDriveError::InvalidPath | TealDriveError::PathEscapesRoot => (
            ErrorKind::InvalidPath,
            "Invalid path.",
            "invalid_path",
        ),
        TealDriveError::InvalidTarget => (ErrorKind::InvalidTarget, "Invalid target.", "invalid_target"),
        TealDriveError::InvalidFilename
        | TealDriveError::NullByteRejected
        | TealDriveError::ReservedNameRejected => (
            ErrorKind::ValidationError,
            "Invalid filename.",
            "invalid_filename",
        ),
        TealDriveError::NotFound => (ErrorKind::NotFound, "Path not found.", "not_found"),
        TealDriveError::TraversalRejected => (
            ErrorKind::PolicyDenied,
            "Path traversal rejected.",
            "path_traversal",
        ),
        _ => (ErrorKind::InternalError, "Helper path validation failed.", "path_validation_failed"),
    }
}

/// The refusal of `request` for a path error.
pub fn helper_error_from_tealdrive(request: &HelperRequest, error: TealDriveError) -> (r: HelperResponse)
    ensures
        is_error_response(
            r,
            *request,
            spec_path_failure(error).0,
            spec_path_failure(error).1,
            spec_path_failure(error).2,
        ),
{
    let (kind, message, reason) = path_failure(error);
    helper_error(request, kind, message, reason)
}

/// The class of a filesystem failure, as `std::io::ErrorKind` names it.
#[derive(Debug, Clone, Copy, PartialEq, Eq, Structural)]
pub enum IoErrorKind {
    NotFound,
    PermissionDenied,
    AlreadyExists,
    Other,
}

/// A filesystem failure: its class and the OS error number, when there is
/// one.
#[derive(Debug, Clone, Copy, PartialEq, Eq, Structural)]
pub struct IoFailure {
    pub kind: IoErrorKind,
    pub raw_os_error: Option<i32>,
}

/// Which operation failed, since each words its failures its own way.
#[derive(Debug, Clone, Copy, PartialEq, Eq, Structural)]
pub enum IoContext {
    /// Reading: listings, metadata, previews and downloads.
    Read,
    CreateFolder,
    Move,
    Rename,
    Copy,
    Trash,
}

/// The kind, message and audit reason for a filesystem failure. Reads go by
/// the OS error number alone; writes first by the failure's class, then by
/// the number.
pub open spec fn spec_io_failure(context: IoContext, f: IoFailure) -> (ErrorKind, Seq<char>, Seq<char>) {
    let internal = (ErrorKind::InternalError, "Filesystem error."@, "filesystem_error"@);
    let denied = (ErrorKind::PermissionDenied, "Permission denied."@, "permission_denied"@);
    let exists = (ErrorKind::AlreadyExists, "Target already exists."@, "already_exists"@);
    let disk_full = (ErrorKind::DiskFull, "Disk is full."@, "disk_full"@);
    let too_long = (ErrorKind::NameTooLong, "Name too long."@, "name_too_long"@);
    let not_dir = (ErrorKind::InvalidTarget, "Parent is not a directory."@, "parent_not_directory"@);
    match context {
        IoContext::Read => match f.raw_os_error {
            Some(13) | Some(1) => denied,
            Some(2) => (ErrorKind::NotFound, "Path not found."@, "not_found"@),
            Some(20) => (ErrorKind::InvalidPath, "Invalid path."@, "not_directory"@),
            Some(40) => (ErrorKind::SymlinkLoop, "Symlink loop."@, "symlink_loop"@),
            Some(36) => too_long,
            Some(30) => (ErrorKind::ReadOnlyFilesystem, "Read-only filesystem."@, "read_only_filesystem"@),
            _ => internal,
        },
        IoContext::CreateFolder => match f.kind {
            IoErrorKind::AlreadyExists => exists,
            IoErrorKind::NotFound => (ErrorKind::NotFound, "Parent not found."@, "not_found"@),
            IoErrorKind::PermissionDenied => denied,
            IoErrorKind::Other => match f.raw_os_error {
                Some(20) => not_dir,
                Some(28) => disk_full,
                Some(36) => too_long,
                _ => internal,
            },
        },
        IoContext::Move | IoContext::Rename => match f.kind {
            IoErrorKind::AlreadyExists => exists,
            IoErrorKind::NotFound => (ErrorKind::NotFound, "Source not found."@, "not_found"@),
            IoErrorKind::PermissionDenied => denied,
            IoErrorKind::Other => match f.raw_os_error {
                Some(18) => (
                    ErrorKind::CrossDeviceMove,
                    if context == IoContext::Move {
                        "Cross-device move is not supported."@
                    } else {
                        "Cross-device rename is not supported."@
                    },
                    "cross_device_move"@,
                ),
                Some(20) => not_dir,
                Some(28) => disk_full,
                Some(36) => too_long,
                _ => internal,
            },
        },
        IoContext::Copy => match f.kind {
            IoErrorKind::AlreadyExists => exists,
            IoErrorKind::NotFound => (ErrorKind::NotFound, "Source not found."@, "not_found"@),
            IoErrorKind::PermissionDenied => denied,
            IoErrorKind::Other => match f.raw_os_error {
                Some(28) => disk_full,
                Some(36) => too_long,
                _ => internal,
            },
        },
        IoContext::Trash => match f.kind {
            IoErrorKind::NotFound => (ErrorKind::NotFound, "Source not found."@, "not_found"@),
            IoErrorKind::PermissionDenied => denied,
            IoErrorKind::AlreadyExists => exists,
            IoErrorKind::Other => match f.raw_os_error {
                Some(28) => disk_full,
                _ => internal,
            },
        },
    }
}

fn raw_failure(context: IoContext, f: IoFailure) -> (t: (ErrorKind, &'static str, &'static str))
    requires
        context != IoContext::Read,
        f.kind == IoErrorKind::Other,
    ensures
        (t.0, t.1@, t.2@) == spec_io_failure(context, f),
{
    match (context, f.raw_os_error) {
        (IoContext::Move, Some(18)) => (
            ErrorKind::CrossDeviceMove,
            "Cross-device move is not supported.",
            "cross_device_move",
        ),
        (IoContext::Rename, Some(18)) => (
            ErrorKind::CrossDeviceMove,
            "Cross-device rename is not supported.",
            "cross_device_move",
        ),
        (IoContext::CreateFolder, Some(20)) | (IoContext::Move, Some(20)) | (IoContext::Rename, Some(20)) => (
            ErrorKind::InvalidTarget,
            "Parent is not a directory.",
            "parent_not_directory",
        ),
        (_, Some(28)) => (ErrorKind::DiskFull, "Disk is full.", "disk_full"),
        (IoContext::Trash, _) => (ErrorKind::InternalError, "Filesystem error.", "filesystem_error"),
        (_, Some(36)) => (ErrorKind::NameTooLong, "Name too long.", "name_too_long"),
        _ => (ErrorKind::InternalError, "Filesystem error.", "filesystem_error"),
    }
}

fn io_failure(context: IoContext, f: IoFailure) -> (t: (ErrorKind, &'static str, &'static str))
    ensures
        (t.0, t.1@, t.2@) == spec_io_failure(context, f),
{
    if context == IoContext::Read {
        return match f.raw_os_error {
            Some(13) | Some(1) => (ErrorKind::PermissionDenied, "Permission denied.", "permission_denied"),
            Some(2) => (ErrorKind::NotFound, "Path not found.", "not_found"),
            Some(20) => (ErrorKind::InvalidPath, "Invalid path.", "not_directory"),
            Some(40) => (ErrorKind::SymlinkLoop, "Symlink loop.", "symlink_loop"),
            Some(36) => (ErrorKind::NameTooLong, "Name too long.", "name_too_long"),
            Some(30) => (ErrorKind::ReadOnlyFilesystem, "Read-only filesystem.", "read_only_filesystem"),
            _ => (ErrorKind::InternalError, "Filesystem error.", "filesystem_error"),
        };
    }
    match f.kind {
        IoErrorKind::AlreadyExists => (ErrorKind::AlreadyExists, "Target already exists.", "already_exists"),
        IoErrorKind::PermissionDenied => (ErrorKind::PermissionDenied, "Permission denied.", "permission_denied"),
        IoErrorKind::NotFound => {
            if context == IoContext::CreateFolder {
                (ErrorKind::NotFound, "Parent not found.", "not_found")
            } else {
                (ErrorKind::NotFound, "Source not found.", "not_found")
            }
        },
        IoErrorKind::Other => raw_failure(context, f),
    }
}

/// No path or filesystem failure is answered with a message that names a
/// path: none holds a path separator.
pub proof fn lemma_failure_messages_name_no_path(error: TealDriveError, context: IoContext, f: IoFailure)
    ensures
        !spec_path_failure(error).1.contains('/'),
        !spec_io_failure(context, f).1.contains('/'),
{
    reveal_strlit("Symlink access denied.");
    reveal_strlit("Invalid path.");
    reveal_strlit("Invalid target.");
    reveal_strlit("Invalid filename.");
    reveal_strlit("Path not found.");
    reveal_strlit("Path traversal rejected.");
    reveal_strlit("Helper path validation failed.");
    reveal_strlit("Filesystem error.");
    reveal_strlit("Permission denied.");
    reveal_strlit("Target already exists.");
    reveal_strlit("Disk is full.");
    reveal_strlit("Name too long.");
    reveal_strlit("Parent is not a directory.");
    reveal_strlit("Symlink loop.");
    reveal_strlit("Read-only filesystem.");
    reveal_strlit("Parent not found.");
    reveal_strlit("Source not found.");
    reveal_strlit("Cross-device move is not supported.");
    reveal_strlit("Cross-device rename is not supported.");
}

/// The refusal of `request` for a filesystem failure.
pub fn helper_error_from_io(request: &HelperRequest, context: IoContext, failure: IoFailure) -> (r: HelperResponse)
    ensures
        is_error_response(
            r,
            *request,
            spec_io_failure(context, failure).0,
            spec_io_failure(context, failure).1,
            spec_io_failure(context, failure).2,
        ),
{
    let (kind, message, reason) = io_failure(context, failure);
    helper_error(request, kind, message, reason)
}

/// The checks every helper command makes first: the request must be for
/// this command (else not implemented), must not come from uid 0, and must
/// name a configured root. Gives the root, or the response that refuses.
pub open spec fn helper_precheck_ok(
    res: Result<AllowedRoot, HelperResponse>,
    request: HelperRequest,
    command: HelperCommand,
    roots: Seq<AllowedRoot>,
) -> bool {
    if request.command != command {
        res matches Err(r) && is_error_response(
            r,
            request,
            ErrorKind::NotImplemented,
            "Helper command is not implemented yet."@,
            "not_implemented"@,
        )
    } else if request.uid == 0 {
        res matches Err(r) && is_error_response(
            r,
            request,
            ErrorKind::PermissionDenied,
            "Helper refuses uid 0."@,
            "permission_denied"@,
        )
    } else {
        match spec_allowed_root(roots, request.root_id.0@) {
            Err(_) => res matches Err(r) && is_error_response(
                r,
                request,
                ErrorKind::InvalidPath,
                "Unknown root id."@,
                "invalid_root_id"@,
            ),
            Ok(root) => res == Ok::<AllowedRoot, HelperResponse>(root),
        }
    }
}

pub fn helper_precheck<'a>(request: &HelperRequest, command: HelperCommand, roots: &'a [AllowedRoot]) -> (res:
    Result<&'a AllowedRoot, HelperResponse>)
    ensures
        helper_precheck_ok(
            match res {
                Ok(r) => Ok(*r),
                Err(e) => Err(e),
            },
            *request,
            command,
            roots@,
        ),
{
    if request.command != command {
        return Err(HelperResponse::not_implemented(request));
    }
    if request.uid == 0 {
        return Err(HelperResponse::permission_denied(request, "Helper refuses uid 0."));
    }
    match require_allowed_root(roots, &request.root_id) {
        Ok(root) => Ok(root),
        Err(_) => Err(helper_error(request, ErrorKind::InvalidPath, "Unknown root id.", "invalid_root_id")),
    }
}

} // verus!
