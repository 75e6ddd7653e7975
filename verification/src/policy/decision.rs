use vstd::prelude::*;

use crate::config::{string_views, AllowedRoot, AppConfig, RelativePath, RootId};
use crate::errors::{ErrorPayload, PolicyReason, TealDriveError};
use crate::fs::filename::SafeFileName;
use crate::policy::feature_gate::{gated_operation, FeatureGate, FeatureGateResult};
use crate::policy::roots::{lemma_first_root_named, require_allowed_root, spec_allowed_root};
use crate::policy::sensitive::{
    entry_name, hidden_policy_decision, matches_any, sensitive_edit_decision, sensitive_read_decision,
    spec_hidden_policy_decision, spec_sensitive_edit_decision, spec_sensitive_read_decision,
    SensitivePolicyDecision,
};
use crate::policy::webroot::{
    check_webroot_archive_extract, check_webroot_chmod_executable, check_webroot_upload,
    spec_check_webroot_upload,
};
use crate::protocol::frame::RequestId;
use crate::protocol::message_type::MessageType;

verus! {

/// What a policy says of one operation.
#[derive(Debug, Clone, Copy, PartialEq, Eq, Structural)]
pub enum PolicyDecision {
    Allow,
    Deny(PolicyReason),
    WarnAllowed(PolicyReason),
}

/// A file operation a client may ask for.
#[derive(Debug, Clone, Copy, PartialEq, Eq, Structural)]
pub enum FileOperation {
    ListDirectory,
    FileMetadata,
    ReadTextFile,
    DownloadFile,
    UploadFile,
    CreateFolder,
    RenameFile,
    MoveFile,
    CopyFile,
    MoveToTrash,
    RestoreFromTrash,
    DeletePermanently,
    ChmodFile,
    SaveTextFile,
    CompressZip,
    CompressTarGz,
    ExtractArchive,
    Chown,
}

/// The request message of an operation; creating folders and changing owners have none.
pub open spec fn operation_message(op: FileOperation) -> Option<MessageType> {
    match op {
        FileOperation::ListDirectory => Some(MessageType::ListDirectory),
        FileOperation::FileMetadata => Some(MessageType::GetFileMetadata),
        FileOperation::ReadTextFile => Some(MessageType::ReadTextFile),
        FileOperation::DownloadFile => Some(MessageType::DownloadBegin),
        FileOperation::UploadFile => Some(MessageType::UploadBegin),
        FileOperation::CreateFolder => None,
        FileOperation::RenameFile => Some(MessageType::RenameFile),
        FileOperation::MoveFile => Some(MessageType::MoveFile),
        FileOperation::CopyFile => Some(MessageType::CopyFile),
        FileOperation::MoveToTrash => Some(MessageType::MoveToTrash),
        FileOperation::RestoreFromTrash => Some(MessageType::RestoreFromTrash),
        FileOperation::DeletePermanently => Some(MessageType::DeletePermanently),
        FileOperation::ChmodFile => Some(MessageType::ChmodFile),
        FileOperation::SaveTextFile => Some(MessageType::SaveTextFile),
        FileOperation::CompressZip => Some(MessageType::CompressZip),
        FileOperation::CompressTarGz => Some(MessageType::CompressTarGz),
        FileOperation::ExtractArchive => Some(MessageType::ExtractArchive),
        FileOperation::Chown => None,
    }
}

/// The operations that change files.
pub open spec fn operation_is_write(op: FileOperation) -> bool {
    op == FileOperation::UploadFile || op == FileOperation::CreateFolder || op == FileOperation::RenameFile || op == FileOperation::MoveFile || op == FileOperation::CopyFile || op == FileOperation::MoveToTrash || op == FileOperation::RestoreFromTrash || op == FileOperation::DeletePermanently || op == FileOperation::ChmodFile || op == FileOperation::SaveTextFile || op == FileOperation::ExtractArchive || op == FileOperation::Chown
}

/// The name of an operation: the name of its variant.
pub open spec fn operation_name(op: FileOperation) -> Seq<char> {
    match op {
        FileOperation::ListDirectory => "ListDirectory"@,
        FileOperation::FileMetadata => "FileMetadata"@,
        FileOperation::ReadTextFile => "ReadTextFile"@,
        FileOperation::DownloadFile => "DownloadFile"@,
        FileOperation::UploadFile => "UploadFile"@,
        FileOperation::CreateFolder => "CreateFolder"@,
        FileOperation::RenameFile => "RenameFile"@,
        FileOperation::MoveFile => "MoveFile"@,
        FileOperation::CopyFile => "CopyFile"@,
        FileOperation::MoveToTrash => "MoveToTrash"@,
        FileOperation::RestoreFromTrash => "RestoreFromTrash"@,
        FileOperation::DeletePermanently => "DeletePermanently"@,
        FileOperation::ChmodFile => "ChmodFile"@,
        FileOperation::SaveTextFile => "SaveTextFile"@,
        FileOperation::CompressZip => "CompressZip"@,
        FileOperation::CompressTarGz => "CompressTarGz"@,
        FileOperation::ExtractArchive => "ExtractArchive"@,
        FileOperation::Chown => "Chown"@,
    }
}

impl FileOperation {
    pub fn as_message_type(self) -> (m: Option<MessageType>)
        ensures
            m == operation_message(self),
    {
        match self {
            FileOperation::ListDirectory => Some(MessageType::ListDirectory),
            FileOperation::FileMetadata => Some(MessageType::GetFileMetadata),
            FileOperation::ReadTextFile => Some(MessageType::ReadTextFile),
            FileOperation::DownloadFile => Some(MessageType::DownloadBegin),
            FileOperation::UploadFile => Some(MessageType::UploadBegin),
            FileOperation::CreateFolder => None,
            FileOperation::RenameFile => Some(MessageType::RenameFile),
            FileOperation::MoveFile => Some(MessageType::MoveFile),
            FileOperation::CopyFile => Some(MessageType::CopyFile),
            FileOperation::MoveToTrash => Some(MessageType::MoveToTrash),
            FileOperation::RestoreFromTrash => Some(MessageType::RestoreFromTrash),
            FileOperation::DeletePermanently => Some(MessageType::DeletePermanently),
            FileOperation::ChmodFile => Some(MessageType::ChmodFile),
            FileOperation::SaveTextFile => Some(MessageType::SaveTextFile),
            FileOperation::CompressZip => Some(MessageType::CompressZip),
            FileOperation::CompressTarGz => Some(MessageType::CompressTarGz),
            FileOperation::ExtractArchive => Some(MessageType::ExtractArchive),
            FileOperation::Chown => None,
        }
    }

    pub fn is_write(self) -> (w: bool)
        ensures
            w == operation_is_write(self),
    {
        match self {
            FileOperation::UploadFile | FileOperation::CreateFolder | FileOperation::RenameFile | FileOperation::MoveFile | FileOperation::CopyFile | FileOperation::MoveToTrash | FileOperation::RestoreFromTrash | FileOperation::DeletePermanently | FileOperation::ChmodFile | FileOperation::SaveTextFile | FileOperation::ExtractArchive | FileOperation::Chown => true,
            _ => false,
        }
    }

    /// The operation's name, as `{:?}` prints it.
    pub fn name(self) -> (name: &'static str)
        ensures
            name@ == operation_name(self),
    {
        match self {
            FileOperation::ListDirectory => "ListDirectory",
            FileOperation::FileMetadata => "FileMetadata",
            FileOperation::ReadTextFile => "ReadTextFile",
            FileOperation::DownloadFile => "DownloadFile",
            FileOperation::UploadFile => "UploadFile",
            FileOperation::CreateFolder => "CreateFolder",
            FileOperation::RenameFile => "RenameFile",
            FileOperation::MoveFile => "MoveFile",
            FileOperation::CopyFile => "CopyFile",
            FileOperation::MoveToTrash => "MoveToTrash",
            FileOperation::RestoreFromTrash => "RestoreFromTrash",
            FileOperation::DeletePermanently => "DeletePermanently",
            FileOperation::ChmodFile => "ChmodFile",
            FileOperation::SaveTextFile => "SaveTextFile",
            FileOperation::CompressZip => "CompressZip",
            FileOperation::CompressTarGz => "CompressTarGz",
            FileOperation::ExtractArchive => "ExtractArchive",
            FileOperation::Chown => "Chown",
        }
    }
}

/// What is recorded when a policy refuses an operation.
#[derive(Debug, Clone, PartialEq, Eq)]
pub struct PolicyAuditMetadata {
    pub action: FileOperation,
    pub root_id: RootId,
    pub relative_path: RelativePath,
    pub target_relative_path: Option<RelativePath>,
    pub reason: PolicyReason,
    pub safe_message: String,
}

/// The verdict on an operation, checks in this order: disabled features,
/// the root (unknown root is an error), a read-only root against writes,
/// hidden paths, sensitive names for previews, downloads and saves, the web
/// root's rules for uploads, mode changes and extraction, and a hidden target.
pub open spec fn spec_check_operation(
    config: AppConfig,
    op: FileOperation,
    root_id: Seq<char>,
    rel: Seq<char>,
    target: Option<Seq<char>>,
    target_filename: Option<Seq<char>>,
    include_hidden: bool,
) -> Result<PolicyDecision, TealDriveError> {
    if op == FileOperation::Chown && !config.features.chown {
        Ok(PolicyDecision::Deny(PolicyReason::FeatureDisabled))
    } else if operation_message(op) matches Some(m) && gated_operation(m, config.features) is Some {
        Ok(PolicyDecision::Deny(PolicyReason::FeatureDisabled))
    } else {
        match spec_allowed_root(config.roots@, root_id) {
            Err(e) => Err(e),
            Ok(root) => {
                let sp = config.sensitive_policy;
                if root.read_only && operation_is_write(op) {
                    Ok(PolicyDecision::Deny(PolicyReason::ReadOnlyRoot))
                } else if spec_hidden_policy_decision(include_hidden, rel)
                    == SensitivePolicyDecision::Deny {
                    Ok(PolicyDecision::Deny(PolicyReason::HiddenFile))
                } else if op == FileOperation::ReadTextFile && spec_sensitive_read_decision(rel, sp, false)
                    == SensitivePolicyDecision::Deny {
                    Ok(PolicyDecision::Deny(PolicyReason::SensitivePath))
                } else if op == FileOperation::ReadTextFile && spec_sensitive_read_decision(rel, sp, false)
                    == SensitivePolicyDecision::Warn {
                    Ok(PolicyDecision::WarnAllowed(PolicyReason::SensitivePath))
                } else if op == FileOperation::DownloadFile && spec_sensitive_read_decision(rel, sp, true)
                    == SensitivePolicyDecision::Warn {
                    Ok(PolicyDecision::WarnAllowed(PolicyReason::SensitivePath))
                } else if op == FileOperation::SaveTextFile && spec_sensitive_edit_decision(rel, sp)
                    == SensitivePolicyDecision::Deny {
                    Ok(PolicyDecision::Deny(PolicyReason::SensitivePath))
                } else if op == FileOperation::UploadFile && target_filename is Some {
                    Ok(
                        spec_check_webroot_upload(
                            root.is_web_root,
                            target_filename->0,
                            config.webroot_policy,
                        ),
                    )
                } else if op == FileOperation::ChmodFile {
                    Ok(
                        if root.is_web_root {
                            PolicyDecision::Deny(PolicyReason::WebRootExecutableUpload)
                        } else {
                            PolicyDecision::Allow
                        },
                    )
                } else if op == FileOperation::ExtractArchive {
                    Ok(
                        if root.is_web_root {
                            PolicyDecision::Deny(PolicyReason::WebRootExecutableUpload)
                        } else {
                            PolicyDecision::Allow
                        },
                    )
                } else if target matches Some(t) && spec_hidden_policy_decision(include_hidden, t)
                    == SensitivePolicyDecision::Deny {
                    Ok(PolicyDecision::Deny(PolicyReason::HiddenFile))
                } else {
                    Ok(PolicyDecision::Allow)
                }
            },
        }
    }
}

/// Decides operations against one configuration.
pub struct PolicyEngine<'a> {
    config: &'a AppConfig,
}

impl<'a> PolicyEngine<'a> {
    /// The configuration this engine decides against.
    pub closed spec fn spec_config(&self) -> AppConfig {
        *self.config
    }

    pub fn new(config: &'a AppConfig) -> (engine: Self)
        ensures
            engine.spec_config() == *config,
    {
        PolicyEngine { config }
    }

    pub fn check_operation(
        &self,
        operation: FileOperation,
        root_id: &RootId,
        relative_path: &RelativePath,
        target_relative_path: Option<&RelativePath>,
        target_filename: Option<&SafeFileName>,
        include_hidden: bool,
    ) -> (res: Result<PolicyDecision, TealDriveError>)
        ensures
            res == spec_check_operation(
                self.spec_config(),
                operation,
                root_id.0@,
                relative_path.0@,
                match target_relative_path {
                    Some(t) => Some(t.0@),
                    None => None,
                },
                match target_filename {
                    Some(f) => Some(f.0@),
                    None => None,
                },
                include_hidden,
            ),
    {
        if operation == FileOperation::Chown && !self.config.features.chown {
            return Ok(PolicyDecision::Deny(PolicyReason::FeatureDisabled));
        }
        if let Some(message_type) = operation.as_message_type() {
            match FeatureGate::check(message_type, &self.config.features) {
                FeatureGateResult::Disabled { .. } => {
                    return Ok(PolicyDecision::Deny(PolicyReason::FeatureDisabled));
                },
                FeatureGateResult::Allowed => {},
            }
        }
        let root = require_allowed_root(self.config.allowed_roots(), root_id)?;
        if let Some(decision) = self.check_root_operation(operation, root) {
            return Ok(decision);
        }
        if hidden_policy_decision(include_hidden, relative_path) == SensitivePolicyDecision::Deny {
            return Ok(PolicyDecision::Deny(PolicyReason::HiddenFile));
        }
        match operation {
            FileOperation::ReadTextFile => {
                match sensitive_read_decision(relative_path, &self.config.sensitive_policy, false) {
                    SensitivePolicyDecision::Deny => {
                        return Ok(PolicyDecision::Deny(PolicyReason::SensitivePath));
                    },
                    SensitivePolicyDecision::Warn => {
                        return Ok(PolicyDecision::WarnAllowed(PolicyReason::SensitivePath));
                    },
                    SensitivePolicyDecision::Allow => {},
                }
            },
            FileOperation::DownloadFile => {
                if sensitive_read_decision(relative_path, &self.config.sensitive_policy, true)
                    == SensitivePolicyDecision::Warn {
                    return Ok(PolicyDecision::WarnAllowed(PolicyReason::SensitivePath));
                }
            },
            FileOperation::SaveTextFile => {
                if sensitive_edit_decision(relative_path, &self.config.sensitive_policy)
                    == SensitivePolicyDecision::Deny {
                    return Ok(PolicyDecision::Deny(PolicyReason::SensitivePath));
                }
            },
            FileOperation::UploadFile => {
                if let Some(filename) = target_filename {
                    return Ok(
                        check_webroot_upload(root.is_web_root, filename, &self.config.webroot_policy),
                    );
                }
            },
            FileOperation::ChmodFile => {
                assert(0o111u32 & 0o111u32 != 0) by (bit_vector);
                return Ok(check_webroot_chmod_executable(root.is_web_root, 0o111));
            },
            FileOperation::ExtractArchive => {
                return Ok(check_webroot_archive_extract(root.is_web_root));
            },
            _ => {},
        }
        if let Some(target) = target_relative_path {
            if hidden_policy_decision(include_hidden, target) == SensitivePolicyDecision::Deny {
                return Ok(PolicyDecision::Deny(PolicyReason::HiddenFile));
            }
        }
        Ok(PolicyDecision::Allow)
    }

    fn check_root_operation(&self, operation: FileOperation, root: &AllowedRoot) -> (d: Option<
        PolicyDecision,
    >)
        ensures
            d == if root.read_only && operation_is_write(operation) {
                Some(PolicyDecision::Deny(PolicyReason::ReadOnlyRoot))
            } else {
                None
            },
    {
        if root.read_only && operation.is_write() {
            Some(PolicyDecision::Deny(PolicyReason::ReadOnlyRoot))
        } else {
            None
        }
    }
}

pub fn policy_denial_audit_metadata(
    action: FileOperation,
    root_id: RootId,
    relative_path: RelativePath,
    target_relative_path: Option<RelativePath>,
    reason: PolicyReason,
) -> (m: PolicyAuditMetadata)
    ensures
        m.action == action,
        m.root_id == root_id,
        m.relative_path == relative_path,
        m.target_relative_path == target_relative_path,
        m.reason == reason,
        m.safe_message@ == "Operation denied by TealDrive policy."@,
{
    PolicyAuditMetadata {
        action,
        root_id,
        relative_path,
        target_relative_path,
        reason,
        safe_message: "Operation denied by TealDrive policy.".to_owned(),
    }
}

/// The error a client sees when a policy refuses an operation.
pub fn policy_denial_error_payload(
    request_id: RequestId,
    operation: FileOperation,
    reason: PolicyReason,
) -> (p: ErrorPayload)
    ensures
        p.code@ == "POLICY_DENIED"@,
        p.error_kind == crate::errors::ErrorKind::PolicyDenied,
        p.safe_message@ == "Operation denied by TealDrive policy."@,
        p.request_id == request_id,
        p.operation matches Some(op) && op@ == operation_name(operation),
        !p.retryable,
        p.policy_reason == Some(reason),
        p.debug_ref is None,
{
    ErrorPayload::policy_denied(
        request_id,
        operation.name(),
        reason,
        "Operation denied by TealDrive policy.",
    )
}

/// Whether a feature flag keeps this operation off.
pub open spec fn feature_disabled(config: AppConfig, op: FileOperation) -> bool {
    ||| op == FileOperation::SaveTextFile && !config.features.save_text_file
    ||| op == FileOperation::ChmodFile && !config.features.chmod_file
    ||| op == FileOperation::ExtractArchive && !config.features.extract_archive
    ||| op == FileOperation::DeletePermanently && !config.features.delete_permanently
    ||| op == FileOperation::Chown && !config.features.chown
}

/// A disabled feature is refused as disabled, whatever root and path the
/// request names.
pub proof fn lemma_disabled_feature_denied(
    config: AppConfig,
    op: FileOperation,
    root_id: Seq<char>,
    rel: Seq<char>,
    target: Option<Seq<char>>,
    target_filename: Option<Seq<char>>,
    include_hidden: bool,
)
    requires
        feature_disabled(config, op),
    ensures
        spec_check_operation(config, op, root_id, rel, target, target_filename, include_hidden) == Ok::<
            PolicyDecision,
            TealDriveError,
        >(PolicyDecision::Deny(PolicyReason::FeatureDisabled)),
{
}

/// A read-only root refuses every operation that writes.
pub proof fn lemma_read_only_root_denies_writes(
    config: AppConfig,
    op: FileOperation,
    root_id: Seq<char>,
    rel: Seq<char>,
    target: Option<Seq<char>>,
    target_filename: Option<Seq<char>>,
    include_hidden: bool,
)
    requires
        operation_is_write(op),
        spec_allowed_root(config.roots@, root_id) matches Ok(root) && root.read_only,
    ensures
        spec_check_operation(config, op, root_id, rel, target, target_filename, include_hidden) matches Ok(
            PolicyDecision::Deny(_),
        ),
{
}

/// An operation that does not write is never refused for its root being
/// read-only: listing, metadata, previews and downloads go on as on any root.
pub proof fn lemma_read_only_root_allows_reads(
    config: AppConfig,
    op: FileOperation,
    root_id: Seq<char>,
    rel: Seq<char>,
    target: Option<Seq<char>>,
    target_filename: Option<Seq<char>>,
    include_hidden: bool,
)
    requires
        !operation_is_write(op),
    ensures
        spec_check_operation(config, op, root_id, rel, target, target_filename, include_hidden)
            != Ok::<PolicyDecision, TealDriveError>(PolicyDecision::Deny(PolicyReason::ReadOnlyRoot)),
{
}

/// Previews and downloads of a name listed to warn on go on with a warning:
/// once the root is configured and the hidden-path rule lets the path
/// through, a path whose entry name matches a warn-read pattern gets
/// `WarnAllowed(SensitivePath)` for a preview and for a download, never a
/// denial.
pub proof fn lemma_warned_reads_go_on(
    config: AppConfig,
    root_id: Seq<char>,
    rel: Seq<char>,
    target: Option<Seq<char>>,
    target_filename: Option<Seq<char>>,
    include_hidden: bool,
)
    requires
        spec_allowed_root(config.roots@, root_id) is Ok,
        include_hidden || !crate::fs::path::spec_is_hidden_relative(rel),
        matches_any(string_views(config.sensitive_policy.warn_read_patterns@), entry_name(rel)),
    ensures
        spec_check_operation(
            config,
            FileOperation::ReadTextFile,
            root_id,
            rel,
            target,
            target_filename,
            include_hidden,
        ) == Ok::<PolicyDecision, TealDriveError>(PolicyDecision::WarnAllowed(PolicyReason::SensitivePath)),
        spec_check_operation(
            config,
            FileOperation::DownloadFile,
            root_id,
            rel,
            target,
            target_filename,
            include_hidden,
        ) == Ok::<PolicyDecision, TealDriveError>(PolicyDecision::WarnAllowed(PolicyReason::SensitivePath)),
{
}

/// A preview is refused as sensitive only for an entry name that matches a
/// deny-edit pattern and no warn-read pattern; a download is never refused
/// as sensitive.
pub proof fn lemma_reads_refused_only_for_deny_edit_names(
    config: AppConfig,
    root_id: Seq<char>,
    rel: Seq<char>,
    target: Option<Seq<char>>,
    target_filename: Option<Seq<char>>,
    include_hidden: bool,
)
    ensures
        spec_check_operation(
            config,
            FileOperation::ReadTextFile,
            root_id,
            rel,
            target,
            target_filename,
            include_hidden,
        ) == Ok::<PolicyDecision, TealDriveError>(PolicyDecision::Deny(PolicyReason::SensitivePath))
            ==> matches_any(string_views(config.sensitive_policy.deny_edit_patterns@), entry_name(rel))
            && !matches_any(string_views(config.sensitive_policy.warn_read_patterns@), entry_name(rel)),
        spec_check_operation(
            config,
            FileOperation::DownloadFile,
            root_id,
            rel,
            target,
            target_filename,
            include_hidden,
        ) != Ok::<PolicyDecision, TealDriveError>(PolicyDecision::Deny(PolicyReason::SensitivePath)),
{
}

/// A hidden path is refused unless the request asks for hidden entries, once
/// the feature flags and the root have let the operation through.
pub proof fn lemma_hidden_path_denied(
    config: AppConfig,
    op: FileOperation,
    root_id: Seq<char>,
    rel: Seq<char>,
    target: Option<Seq<char>>,
    target_filename: Option<Seq<char>>,
)
    requires
        crate::fs::path::spec_is_hidden_relative(rel),
        !feature_disabled(config, op),
        spec_allowed_root(config.roots@, root_id) matches Ok(root) && !(root.read_only
            && operation_is_write(op)),
    ensures
        spec_check_operation(config, op, root_id, rel, target, target_filename, false) == Ok::<
            PolicyDecision,
            TealDriveError,
        >(PolicyDecision::Deny(PolicyReason::HiddenFile)),
{
}

/// Nothing is allowed, with or without a warning, unless the root is
/// configured, the feature is on, a read-only root is not written, and the
/// path is not a hidden one the request did not ask for.
pub proof fn lemma_allowed_only_when_permitted(
    config: AppConfig,
    op: FileOperation,
    root_id: Seq<char>,
    rel: Seq<char>,
    target: Option<Seq<char>>,
    target_filename: Option<Seq<char>>,
    include_hidden: bool,
)
    requires
        spec_check_operation(config, op, root_id, rel, target, target_filename, include_hidden) matches Ok(
            d,
        ) && (d == PolicyDecision::Allow || d is WarnAllowed),
    ensures
        !feature_disabled(config, op),
        spec_allowed_root(config.roots@, root_id) matches Ok(root) && !(root.read_only
            && operation_is_write(op)),
        spec_hidden_policy_decision(include_hidden, rel) == SensitivePolicyDecision::Allow,
{
}

} // verus!
