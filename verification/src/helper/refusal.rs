//! The fixed refusals of the helper's commands.
use vstd::prelude::*;

use crate::errors::ErrorKind;
use crate::helper::errors::helper_error;
use crate::helper::types::{is_error_response, HelperRequest, HelperResponse};

verus! {

/// A refusal with a fixed kind, message and audit reason.
#[derive(Debug, Clone, Copy, PartialEq, Eq, Structural)]
pub enum Refusal {
    NotDirectory,
    SymlinkPreviewDenied,
    DirectoryPreviewUnsupported,
    PreviewNotRegularFile,
    PreviewTooLarge,
    BinaryFile,
    InvalidTextEncoding,
    SymlinkDownloadDenied,
    DirectoryDownloadUnsupported,
    DownloadNotRegularFile,
    DownloadTooLarge,
    MissingTarget,
    EmptyTarget,
    TargetEscapesRoot,
    TargetExists,
    DirectoryCopyUnsupported,
    MissingNewName,
    InvalidNewName,
    MissingFolderName,
    InvalidFolderName,
    TrashPathDenied,
    TrashDirFailed,
    TrashInfoDirFailed,
    TrashSerializeFailed,
    TrashWriteInfoFailed,
    InvalidTrashId,
    RootUnreachable,
    TrashEntryNotFound,
    TrashMetadataCorrupt,
    TrashFileMissing,
    OriginalRootMissing,
    OriginalRootUnreachable,
    OriginalPathEscapesRoot,
    OriginalExists,
}

/// The kind, message and audit reason of each refusal.
pub open spec fn spec_refusal(r: Refusal) -> (ErrorKind, Seq<char>, Seq<char>) {
    match r {
        Refusal::NotDirectory => (ErrorKind::InvalidPath, "Path is not a directory."@, "not_directory"@),
        Refusal::SymlinkPreviewDenied => (ErrorKind::PolicyDenied, "Symlink text preview denied."@, "symlink_denied"@),
        Refusal::DirectoryPreviewUnsupported => (
            ErrorKind::InvalidTarget,
            "Directories cannot be previewed as text."@,
            "directory_preview_unsupported"@,
        ),
        Refusal::PreviewNotRegularFile => (ErrorKind::InvalidTarget, "Target is not a regular file."@, "invalid_target"@),
        Refusal::PreviewTooLarge => (ErrorKind::FileTooLarge, "File is too large for text preview."@, "file_too_large"@),
        Refusal::BinaryFile => (
            ErrorKind::UnsupportedBinaryFile,
            "Binary files cannot be previewed as text."@,
            "unsupported_binary_file"@,
        ),
        Refusal::InvalidTextEncoding => (
            ErrorKind::InvalidTextEncoding,
            "File is not valid UTF-8 text."@,
            "invalid_text_encoding"@,
        ),
        Refusal::SymlinkDownloadDenied => (ErrorKind::PolicyDenied, "Symlink download denied."@, "symlink_denied"@),
        Refusal::DirectoryDownloadUnsupported => (
            ErrorKind::InvalidTarget,
            "Directories cannot be downloaded in this phase."@,
            "directory_download_unsupported"@,
        ),
        Refusal::DownloadNotRegularFile => (ErrorKind::InvalidTarget, "Target is not a regular file."@, "invalid_target"@),
        Refusal::DownloadTooLarge => (
            ErrorKind::FileTooLarge,
            "File is too large for bounded helper download."@,
            "file_too_large"@,
        ),
        Refusal::MissingTarget => (ErrorKind::ValidationError, "Target path is required."@, "missing_target"@),
        Refusal::EmptyTarget => (ErrorKind::InvalidTarget, "Target path cannot be empty."@, "empty_target"@),
        Refusal::TargetEscapesRoot => (ErrorKind::InvalidPath, "Target escapes root."@, "target_escapes_root"@),
        Refusal::TargetExists => (ErrorKind::AlreadyExists, "Target already exists."@, "already_exists"@),
        Refusal::DirectoryCopyUnsupported => (
            ErrorKind::InvalidTarget,
            "Directories cannot be copied."@,
            "directory_copy_unsupported"@,
        ),
        Refusal::MissingNewName => (ErrorKind::ValidationError, "New name is required."@, "missing_new_name"@),
        Refusal::InvalidNewName => (ErrorKind::ValidationError, "Invalid new name."@, "invalid_new_name"@),
        Refusal::MissingFolderName => (ErrorKind::ValidationError, "Folder name is required."@, "missing_folder_name"@),
        Refusal::InvalidFolderName => (ErrorKind::ValidationError, "Invalid folder name."@, "invalid_folder_name"@),
        Refusal::TrashPathDenied => (
            ErrorKind::InvalidTarget,
            "Cannot move trash directory contents."@,
            "trash_path_denied"@,
        ),
        Refusal::TrashDirFailed => (
            ErrorKind::InternalError,
            "Failed to create trash directory."@,
            "create_trash_dir_failed"@,
        ),
        Refusal::TrashInfoDirFailed => (
            ErrorKind::InternalError,
            "Failed to create trash info directory."@,
            "create_info_dir_failed"@,
        ),
        Refusal::TrashSerializeFailed => (
            ErrorKind::InternalError,
            "Failed to serialize trash metadata."@,
            "serialize_failed"@,
        ),
        Refusal::TrashWriteInfoFailed => (
            ErrorKind::InternalError,
            "Failed to write trash metadata."@,
            "write_info_failed"@,
        ),
        Refusal::InvalidTrashId => (ErrorKind::ValidationError, "Invalid trash id."@, "invalid_trash_id"@),
        Refusal::RootUnreachable => (ErrorKind::InvalidPath, "Cannot access root."@, "root_canonicalize_failed"@),
        Refusal::TrashEntryNotFound => (ErrorKind::NotFound, "Trash entry not found."@, "not_found"@),
        Refusal::TrashMetadataCorrupt => (ErrorKind::InternalError, "Corrupt trash metadata."@, "corrupt_metadata"@),
        Refusal::TrashFileMissing => (ErrorKind::NotFound, "Trash file not found."@, "trash_file_missing"@),
        Refusal::OriginalRootMissing => (ErrorKind::InvalidPath, "Original root not found."@, "original_root_missing"@),
        Refusal::OriginalRootUnreachable => (ErrorKind::InvalidPath, "Cannot access original root."@, "orig_root_error"@),
        Refusal::OriginalPathEscapesRoot => (
            ErrorKind::InvalidPath,
            "Original path escapes root."@,
            "original_path_escapes_root"@,
        ),
        Refusal::OriginalExists => (
            ErrorKind::AlreadyExists,
            "Original location already exists."@,
            "already_exists"@,
        ),
    }
}

fn refusal_text(r: Refusal) -> (t: (ErrorKind, &'static str, &'static str))
    ensures
        (t.0, t.1@, t.2@) == spec_refusal(r),
{
    match r {
        Refusal::NotDirectory => (ErrorKind::InvalidPath, "Path is not a directory.", "not_directory"),
        Refusal::SymlinkPreviewDenied => (ErrorKind::PolicyDenied, "Symlink text preview denied.", "symlink_denied"),
        Refusal::DirectoryPreviewUnsupported => (
            ErrorKind::InvalidTarget,
            "Directories cannot be previewed as text.",
            "directory_preview_unsupported",
        ),
        Refusal::PreviewNotRegularFile => (ErrorKind::InvalidTarget, "Target is not a regular file.", "invalid_target"),
        Refusal::PreviewTooLarge => (ErrorKind::FileTooLarge, "File is too large for text preview.", "file_too_large"),
        Refusal::BinaryFile => (
            ErrorKind::UnsupportedBinaryFile,
            "Binary files cannot be previewed as text.",
            "unsupported_binary_file",
        ),
        Refusal::InvalidTextEncoding => (
            ErrorKind::InvalidTextEncoding,
            "File is not valid UTF-8 text.",
            "invalid_text_encoding",
        ),
        Refusal::SymlinkDownloadDenied => (ErrorKind::PolicyDenied, "Symlink download denied.", "symlink_denied"),
        Refusal::DirectoryDownloadUnsupported => (
            ErrorKind::InvalidTarget,
            "Directories cannot be downloaded in this phase.",
            "directory_download_unsupported",
        ),
        Refusal::DownloadNotRegularFile => (ErrorKind::InvalidTarget, "Target is not a regular file.", "invalid_target"),
        Refusal::DownloadTooLarge => (
            ErrorKind::FileTooLarge,
            "File is too large for bounded helper download.",
            "file_too_large",
        ),
        Refusal::MissingTarget => (ErrorKind::ValidationError, "Target path is required.", "missing_target"),
        Refusal::EmptyTarget => (ErrorKind::InvalidTarget, "Target path cannot be empty.", "empty_target"),
        Refusal::TargetEscapesRoot => (ErrorKind::InvalidPath, "Target escapes root.", "target_escapes_root"),
        Refusal::TargetExists => (ErrorKind::AlreadyExists, "Target already exists.", "already_exists"),
        Refusal::DirectoryCopyUnsupported => (
            ErrorKind::InvalidTarget,
            "Directories cannot be copied.",
            "directory_copy_unsupported",
        ),
        Refusal::MissingNewName => (ErrorKind::ValidationError, "New name is required.", "missing_new_name"),
        Refusal::InvalidNewName => (ErrorKind::ValidationError, "Invalid new name.", "invalid_new_name"),
        Refusal::MissingFolderName => (ErrorKind::ValidationError, "Folder name is required.", "missing_folder_name"),
        Refusal::InvalidFolderName => (ErrorKind::ValidationError, "Invalid folder name.", "invalid_folder_name"),
        Refusal::TrashPathDenied => (
            ErrorKind::InvalidTarget,
            "Cannot move trash directory contents.",
            "trash_path_denied",
        ),
        Refusal::TrashDirFailed => (
            ErrorKind::InternalError,
            "Failed to create trash directory.",
            "create_trash_dir_failed",
        ),
        Refusal::TrashInfoDirFailed => (
            ErrorKind::InternalError,
            "Failed to create trash info directory.",
            "create_info_dir_failed",
        ),
        Refusal::TrashSerializeFailed => (
            ErrorKind::InternalError,
            "Failed to serialize trash metadata.",
            "serialize_failed",
        ),
        Refusal::TrashWriteInfoFailed => (
            ErrorKind::InternalError,
            "Failed to write trash metadata.",
            "write_info_failed",
        ),
        Refusal::InvalidTrashId => (ErrorKind::ValidationError, "Invalid trash id.", "invalid_trash_id"),
        Refusal::RootUnreachable => (ErrorKind::InvalidPath, "Cannot access root.", "root_canonicalize_failed"),
        Refusal::TrashEntryNotFound => (ErrorKind::NotFound, "Trash entry not found.", "not_found"),
        Refusal::TrashMetadataCorrupt => (ErrorKind::InternalError, "Corrupt trash metadata.", "corrupt_metadata"),
        Refusal::TrashFileMissing => (ErrorKind::NotFound, "Trash file not found.", "trash_file_missing"),
        Refusal::OriginalRootMissing => (ErrorKind::InvalidPath, "Original root not found.", "original_root_missing"),
        Refusal::OriginalRootUnreachable => (ErrorKind::InvalidPath, "Cannot access original root.", "orig_root_error"),
        Refusal::OriginalPathEscapesRoot => (
            ErrorKind::InvalidPath,
            "Original path escapes root.",
            "original_path_escapes_root",
        ),
        Refusal::OriginalExists => (
            ErrorKind::AlreadyExists,
            "Original location already exists.",
            "already_exists",
        ),
    }
}

/// The response that refuses `request` for `refusal`.
pub fn refuse(request: &HelperRequest, refusal: Refusal) -> (r: HelperResponse)
    ensures
        is_error_response(
            r,
            *request,
            spec_refusal(refusal).0,
            spec_refusal(refusal).1,
            spec_refusal(refusal).2,
        ),
{
    let (kind, message, reason) = refusal_text(refusal);
    helper_error(request, kind, message, reason)
}

/// No refusal's message names a path: none holds a path separator, so no
/// refusal can show where a root lies on the machine.
pub proof fn lemma_refusal_message_names_no_path(r: Refusal)
    ensures
        !spec_refusal(r).1.contains('/'),
{
    match r {
        Refusal::NotDirectory => reveal_strlit("Path is not a directory."),
        Refusal::SymlinkPreviewDenied => reveal_strlit("Symlink text preview denied."),
        Refusal::DirectoryPreviewUnsupported => reveal_strlit("Directories cannot be previewed as text."),
        Refusal::PreviewNotRegularFile => reveal_strlit("Target is not a regular file."),
        Refusal::PreviewTooLarge => reveal_strlit("File is too large for text preview."),
        Refusal::BinaryFile => reveal_strlit("Binary files cannot be previewed as text."),
        Refusal::InvalidTextEncoding => reveal_strlit("File is not valid UTF-8 text."),
        Refusal::SymlinkDownloadDenied => reveal_strlit("Symlink download denied."),
        Refusal::DirectoryDownloadUnsupported => reveal_strlit("Directories cannot be downloaded in this phase."),
        Refusal::DownloadNotRegularFile => reveal_strlit("Target is not a regular file."),
        Refusal::DownloadTooLarge => reveal_strlit("File is too large for bounded helper download."),
        Refusal::MissingTarget => reveal_strlit("Target path is required."),
        Refusal::EmptyTarget => reveal_strlit("Target path cannot be empty."),
        Refusal::TargetEscapesRoot => reveal_strlit("Target escapes root."),
        Refusal::TargetExists => reveal_strlit("Target already exists."),
        Refusal::DirectoryCopyUnsupported => reveal_strlit("Directories cannot be copied."),
        Refusal::MissingNewName => reveal_strlit("New name is required."),
        Refusal::InvalidNewName => reveal_strlit("Invalid new name."),
        Refusal::MissingFolderName => reveal_strlit("Folder name is required."),
        Refusal::InvalidFolderName => reveal_strlit("Invalid folder name."),
        Refusal::TrashPathDenied => reveal_strlit("Cannot move trash directory contents."),
        Refusal::TrashDirFailed => reveal_strlit("Failed to create trash directory."),
        Refusal::TrashInfoDirFailed => reveal_strlit("Failed to create trash info directory."),
        Refusal::TrashSerializeFailed => reveal_strlit("Failed to serialize trash metadata."),
        Refusal::TrashWriteInfoFailed => reveal_strlit("Failed to write trash metadata."),
        Refusal::InvalidTrashId => reveal_strlit("Invalid trash id."),
        Refusal::RootUnreachable => reveal_strlit("Cannot access root."),
        Refusal::TrashEntryNotFound => reveal_strlit("Trash entry not found."),
        Refusal::TrashMetadataCorrupt => reveal_strlit("Corrupt trash metadata."),
        Refusal::TrashFileMissing => reveal_strlit("Trash file not found."),
        Refusal::OriginalRootMissing => reveal_strlit("Original root not found."),
        Refusal::OriginalRootUnreachable => reveal_strlit("Cannot access original root."),
        Refusal::OriginalPathEscapesRoot => reveal_strlit("Original path escapes root."),
        Refusal::OriginalExists => reveal_strlit("Original location already exists."),
    }
}

} // verus!
