use vstd::prelude::*;

use crate::helper::errors::IoFailure;
use crate::protocol::frame::RequestId;
use crate::strings::str_eq;

verus! {

/// Errors of the TealDrive core. Each names a refusal the client may see.
#[derive(Debug, Clone, Copy, PartialEq, Eq, Structural)]
pub enum TealDriveError {
    Validation,
    PermissionDenied,
    PolicyDenied,
    FeatureDisabled,
    Protocol,
    NotImplemented,
    InvalidMagic,
    UnsupportedVersion,
    InvalidHeaderLength,
    ReservedFieldNonZero,
    PayloadTooLarge,
    UnknownMessageType,
    InvalidMessageDirection,
    InvalidFlags,
    InvalidEncoding,
    InvalidCompression,
    PayloadLengthMismatch,
    InvalidChunk,
    InvalidRootId,
    AbsolutePathRejected,
    TraversalRejected,
    NullByteRejected,
    InvalidFilename,
    InvalidPath,
    ReservedNameRejected,
    PathEscapesRoot,
    SymlinkDenied,
    SymlinkEscape,
    SensitiveFileDenied,
    HiddenFileDenied,
    ReadOnlyRoot,
    WebrootExecutableDenied,
    Internal,
    NotFound,
    AlreadyExists,
    InvalidTarget,
    CrossDeviceMove,
    DiskFull,
    FileTooLarge,
    UnsupportedBinaryFile,
    InvalidTextEncoding,
    HelperCommandNotImplemented,
    HelperDecodeFailed,
    HelperEncodeFailed,
    HelperMalformedResponse,
    HelperNonZeroExit,
    HelperRequestTooLarge,
    HelperResponseTooLarge,
    HelperSpawnFailed,
    HelperStdinFailed,
    HelperStdoutFailed,
    HelperTimeout,
}

/// Errors of the server around the core: sign-in, sessions, policy and
/// storage.
#[derive(Debug, Clone, PartialEq, Eq)]
pub enum TealError {
    AuthFailed,
    SessionNotFound,
    PermissionDenied,
    PolicyDenied,
    Io(IoFailure),
    Internal(String),
}

/// The kind of an error as the client sees it.
#[derive(Debug, Clone, Copy, PartialEq, Eq, Structural)]
pub enum ErrorKind {
    ValidationError,
    PermissionDenied,
    PolicyDenied,
    FeatureDisabled,
    NotFound,
    InvalidPath,
    RateLimited,
    ProtocolError,
    NotImplemented,
    InternalError,
    AlreadyExists,
    InvalidTarget,
    CrossDeviceMove,
    DiskFull,
    FileTooLarge,
    NameTooLong,
    ReadOnlyFilesystem,
    SymlinkLoop,
    UnsupportedBinaryFile,
    InvalidTextEncoding,
}

/// Why a policy refused an operation.
#[derive(Debug, Clone, Copy, PartialEq, Eq, Structural)]
pub enum PolicyReason {
    FeatureDisabled,
    SensitivePath,
    ReadOnlyRoot,
    WebRootExecutableUpload,
    PathTraversal,
    SymlinkEscape,
    SymlinkDenied,
    InvalidRootId,
    AbsolutePathRejected,
    NullByteRejected,
    InvalidFilename,
    ReservedName,
    PathEscapesRoot,
    HiddenFile,
    AccountRejected,
}

/// An error as sent to the client: a code, a kind and a message that holds
/// no path.
#[derive(Debug, Clone, PartialEq, Eq)]
pub struct ErrorPayload {
    pub code: String,
    pub error_kind: ErrorKind,
    pub safe_message: String,
    pub request_id: RequestId,
    pub operation: Option<String>,
    pub retryable: bool,
    pub policy_reason: Option<PolicyReason>,
    pub debug_ref: Option<String>,
}

impl ErrorPayload {
    /// The payload for an operation that V1 disables.
    pub fn feature_disabled(request_id: RequestId, operation: &str) -> (p: Self)
        ensures
            p.code@ == "FEATURE_DISABLED"@,
            p.error_kind == ErrorKind::FeatureDisabled,
            p.safe_message@ == "This operation is disabled in TealDrive V1."@,
            p.request_id == request_id,
            p.operation matches Some(op) && op@ == operation@,
            !p.retryable,
            p.policy_reason == Some(PolicyReason::FeatureDisabled),
            p.debug_ref is None,
    {
        ErrorPayload {
            code: "FEATURE_DISABLED".to_owned(),
            error_kind: ErrorKind::FeatureDisabled,
            safe_message: "This operation is disabled in TealDrive V1.".to_owned(),
            request_id,
            operation: Some(operation.to_owned()),
            retryable: false,
            policy_reason: Some(PolicyReason::FeatureDisabled),
            debug_ref: None,
        }
    }

    /// The payload for an operation a policy refused.
    pub fn policy_denied(
        request_id: RequestId,
        operation: &str,
        reason: PolicyReason,
        safe_message: &str,
    ) -> (p: Self)
        ensures
            p.code@ == "POLICY_DENIED"@,
            p.error_kind == ErrorKind::PolicyDenied,
            p.safe_message@ == safe_message@,
            p.request_id == request_id,
            p.operation matches Some(op) && op@ == operation@,
            !p.retryable,
            p.policy_reason == Some(reason),
            p.debug_ref is None,
    {
        ErrorPayload {
            code: "POLICY_DENIED".to_owned(),
            error_kind: ErrorKind::PolicyDenied,
            safe_message: safe_message.to_owned(),
            request_id,
            operation: Some(operation.to_owned()),
            retryable: false,
            policy_reason: Some(reason),
            debug_ref: None,
        }
    }
}

/// The error kind an errno name stands for.
pub open spec fn errno_kind(errno: Seq<char>) -> ErrorKind {
    if errno == "EACCES"@ || errno == "EPERM"@ {
        ErrorKind::PermissionDenied
    } else if errno == "ENOENT"@ {
        ErrorKind::NotFound
    } else if errno == "ENOTDIR"@ {
        ErrorKind::InvalidPath
    } else {
        ErrorKind::InternalError
    }
}

pub fn map_errno_name(errno: &str) -> (kind: ErrorKind)
    ensures
        kind == errno_kind(errno@),
{
    if str_eq(errno, "EACCES") || str_eq(errno, "EPERM") {
        ErrorKind::PermissionDenied
    } else if str_eq(errno, "ENOENT") {
        ErrorKind::NotFound
    } else if str_eq(errno, "ENOTDIR") {
        ErrorKind::InvalidPath
    } else {
        ErrorKind::InternalError
    }
}

} // verus!
