//! What every file service does before and around its helper call.
use vstd::prelude::*;

use crate::config::{
    clone_opt_relative_path, clone_opt_string, clone_relative_path, clone_root_id, AllowedRoot,
    AppConfig, RelativePath, RootId, UserContext,
};
use crate::download::transfer::MAX_DOWNLOAD_HELPER_BYTES;
use crate::errors::{ErrorKind, TealDriveError};
use crate::fs::filename::SafeFileName;
use crate::helper::types::{HelperResponse};
use crate::protocol::payload::OperationDonePayload;
use crate::fs::path::{spec_validate_relative_path, validate_relative_path};
use crate::helper::types::{
    HelperCommand, HelperDirectoryEntry, HelperLimits, HelperListDirectoryOptions,
    HelperPolicyContext, HelperRequest,
};
use crate::policy::decision::{spec_check_operation, FileOperation, PolicyDecision, PolicyEngine};
use crate::policy::roots::{require_allowed_root, spec_allowed_root};
use crate::protocol::frame::RequestId;
use crate::protocol::payload::DirectoryEntryPayload;
use crate::protocol::schema::{GroupName, OwnerName};

verus! {

/// The checks before a helper call: the path validates, the root is
/// configured, and the policy (deciding on `engine`) does not refuse. A
/// `Deny` becomes `PolicyDenied`. `hidden` is what the policy is told of
/// hidden files; `None` means the root's own setting. Gives the validated
/// path and the root.
pub open spec fn spec_precheck(
    config: AppConfig,
    engine: AppConfig,
    op: FileOperation,
    root_id: Seq<char>,
    rel: Seq<char>,
    hidden: Option<bool>,
) -> Result<(Seq<char>, AllowedRoot), TealDriveError> {
    match spec_validate_relative_path(rel) {
        Err(e) => Err(e),
        Ok(v) => match spec_allowed_root(config.roots@, root_id) {
            Err(e) => Err(e),
            Ok(root) => {
                let include_hidden = match hidden {
                    Some(h) => h,
                    None => root.hidden_files_allowed,
                };
                match spec_check_operation(engine, op, root_id, v, None, None, include_hidden) {
                    Err(e) => Err(e),
                    Ok(PolicyDecision::Deny(_)) => Err(TealDriveError::PolicyDenied),
                    Ok(_) => Ok((v, root)),
                }
            },
        },
    }
}

pub fn precheck<'a>(
    config: &'a AppConfig,
    policy_engine: &PolicyEngine,
    op: FileOperation,
    root_id: &RootId,
    relative_path: &RelativePath,
    hidden: Option<bool>,
) -> (res: Result<(RelativePath, &'a AllowedRoot), TealDriveError>)
    ensures
        match (res, spec_precheck(*config, policy_engine.spec_config(), op, root_id.0@, relative_path.0@, hidden)) {
            (Ok((p, r)), Ok((v, root))) => p.0@ == v && *r == root,
            (Err(e), Err(s)) => e == s,
            _ => false,
        },
{
    let validated = validate_relative_path(relative_path)?;
    let root = require_allowed_root(config.allowed_roots(), root_id)?;
    let include_hidden = match hidden {
        Some(h) => h,
        None => root.hidden_files_allowed,
    };
    match policy_engine.check_operation(op, root_id, &validated, None, None, include_hidden)? {
        PolicyDecision::Deny(_) => Err(TealDriveError::PolicyDenied),
        _ => Ok((validated, root)),
    }
}

/// The helper limits a configuration grants.
pub open spec fn spec_helper_limits(config: AppConfig) -> HelperLimits {
    HelperLimits {
        max_directory_page_size: config.limits.max_directory_page_size,
        max_text_edit_size: config.limits.max_text_edit_size,
        max_chunk_size: config.limits.max_chunk_size,
        max_download_helper_bytes: MAX_DOWNLOAD_HELPER_BYTES,
    }
}

pub fn helper_limits(config: &AppConfig) -> (l: HelperLimits)
    ensures
        l == spec_helper_limits(*config),
{
    HelperLimits {
        max_directory_page_size: config.limits.max_directory_page_size,
        max_text_edit_size: config.limits.max_text_edit_size,
        max_chunk_size: config.limits.max_chunk_size,
        max_download_helper_bytes: MAX_DOWNLOAD_HELPER_BYTES,
    }
}

/// `r` asks the helper to run `command` for `user` on `root_id`/`rel`, with
/// the root's policy context.
pub open spec fn helper_request_for(
    r: HelperRequest,
    request_id: RequestId,
    user: UserContext,
    command: HelperCommand,
    root_id: RootId,
    rel: Seq<char>,
    target: Option<RelativePath>,
    root: AllowedRoot,
    limits: HelperLimits,
    list_options: Option<HelperListDirectoryOptions>,
) -> bool {
    &&& r.request_id == request_id
    &&& r.username == user.username
    &&& r.uid == user.uid
    &&& r.gid == user.gid
    &&& r.command == command
    &&& r.root_id == root_id
    &&& r.relative_path.0@ == rel
    &&& r.target_relative_path == target
    &&& r.policy_context == (HelperPolicyContext {
        read_only_root: root.read_only,
        is_web_root: root.is_web_root,
    })
    &&& r.limits == limits
    &&& r.list_options == list_options
}

pub fn build_helper_request(
    request_id: RequestId,
    user: &UserContext,
    command: HelperCommand,
    root_id: &RootId,
    relative_path: &RelativePath,
    target: Option<RelativePath>,
    root: &AllowedRoot,
    limits: HelperLimits,
    list_options: Option<HelperListDirectoryOptions>,
) -> (r: HelperRequest)
    ensures
        helper_request_for(
            r,
            request_id,
            *user,
            command,
            *root_id,
            relative_path.0@,
            target,
            *root,
            limits,
            list_options,
        ),
{
    HelperRequest {
        request_id,
        username: user.username.clone(),
        uid: user.uid,
        gid: user.gid,
        command,
        root_id: clone_root_id(root_id),
        relative_path: clone_relative_path(relative_path),
        target_relative_path: target,
        policy_context: HelperPolicyContext {
            read_only_root: root.read_only,
            is_web_root: root.is_web_root,
        },
        limits,
        list_options,
    }
}

/// The client's view of a helper directory entry: the same fields.
pub open spec fn entry_payload_of(e: HelperDirectoryEntry) -> DirectoryEntryPayload {
    DirectoryEntryPayload {
        name: e.name,
        file_type: e.file_type,
        size: e.size,
        modified: e.modified,
        owner: e.owner,
        group: e.group,
        mode: e.mode,
        permissions: e.permissions,
        is_hidden: e.is_hidden,
        is_sensitive: e.is_sensitive,
        is_protected: e.is_protected,
        is_symlink: e.is_symlink,
        symlink_target: e.symlink_target,
        is_web_root: e.is_web_root,
        is_world_writable: e.is_world_writable,
        capabilities: e.capabilities,
    }
}

fn clone_owner(o: &Option<OwnerName>) -> (c: Option<OwnerName>)
    ensures
        c == *o,
{
    match o {
        Some(n) => Some(OwnerName(n.0.clone())),
        None => None,
    }
}

fn clone_group(g: &Option<GroupName>) -> (c: Option<GroupName>)
    ensures
        c == *g,
{
    match g {
        Some(n) => Some(GroupName(n.0.clone())),
        None => None,
    }
}

pub fn helper_entry_to_payload(entry: &HelperDirectoryEntry) -> (p: DirectoryEntryPayload)
    ensures
        p == entry_payload_of(*entry),
{
    DirectoryEntryPayload {
        name: entry.name.clone(),
        file_type: entry.file_type,
        size: entry.size,
        modified: clone_opt_string(&entry.modified),
        owner: clone_owner(&entry.owner),
        group: clone_group(&entry.group),
        mode: entry.mode,
        permissions: clone_opt_string(&entry.permissions),
        is_hidden: entry.is_hidden,
        is_sensitive: entry.is_sensitive,
        is_protected: entry.is_protected,
        is_symlink: entry.is_symlink,
        symlink_target: clone_opt_relative_path(&entry.symlink_target),
        is_web_root: entry.is_web_root,
        is_world_writable: entry.is_world_writable,
        capabilities: entry.capabilities,
    }
}

/// The client's view of each entry, in order.
pub open spec fn entry_payloads(s: Seq<HelperDirectoryEntry>) -> Seq<DirectoryEntryPayload> {
    Seq::new(s.len(), |i: int| entry_payload_of(s[i]))
}

pub fn helper_entries_to_payloads(entries: &Vec<HelperDirectoryEntry>) -> (out: Vec<DirectoryEntryPayload>)
    ensures
        out@ == entry_payloads(entries@),
{
    let mut out: Vec<DirectoryEntryPayload> = Vec::new();
    let mut i: usize = 0;
    while i < entries.len()
        invariant
            i <= entries@.len(),
            out@.len() == i,
            forall|j: int| 0 <= j < i ==> out@[j] == entry_payload_of(entries@[j]),
        decreases entries@.len() - i,
    {
        out.push(helper_entry_to_payload(&entries[i]));
        i = i + 1;
    }
    assert(out@ =~= entry_payloads(entries@));
    out
}

/// The table that turns a refusal from the helper into an error.
#[derive(Debug, Clone, Copy, PartialEq, Eq, Structural)]
pub enum ErrorTable {
    /// Moves, copies and renames.
    Transfer,
    /// Moves to and restores from the trash.
    Trash,
    /// Folder creation.
    Folder,
}

/// The error a refused write operation reports, by the helper's error kind.
pub open spec fn spec_operation_error(table: ErrorTable, kind: Option<ErrorKind>) -> TealDriveError {
    match kind {
        Some(ErrorKind::PermissionDenied) => TealDriveError::PermissionDenied,
        Some(ErrorKind::PolicyDenied) => TealDriveError::PolicyDenied,
        Some(ErrorKind::NotFound) => TealDriveError::NotFound,
        Some(ErrorKind::InvalidPath) => TealDriveError::InvalidPath,
        Some(ErrorKind::InvalidTarget) => TealDriveError::InvalidTarget,
        Some(ErrorKind::AlreadyExists) => TealDriveError::AlreadyExists,
        Some(ErrorKind::DiskFull) => TealDriveError::DiskFull,
        Some(ErrorKind::CrossDeviceMove) => if table == ErrorTable::Transfer {
            TealDriveError::CrossDeviceMove
        } else {
            TealDriveError::HelperCommandNotImplemented
        },
        Some(ErrorKind::NameTooLong) => if table == ErrorTable::Trash {
            TealDriveError::HelperCommandNotImplemented
        } else {
            TealDriveError::InvalidFilename
        },
        Some(ErrorKind::ValidationError) => if table == ErrorTable::Trash {
            TealDriveError::InvalidFilename
        } else {
            TealDriveError::HelperCommandNotImplemented
        },
        _ => TealDriveError::HelperCommandNotImplemented,
    }
}

pub fn operation_error(table: ErrorTable, response: &HelperResponse) -> (e: TealDriveError)
    ensures
        e == spec_operation_error(table, response.error_kind),
{
    match response.error_kind {
        Some(ErrorKind::PermissionDenied) => TealDriveError::PermissionDenied,
        Some(ErrorKind::PolicyDenied) => TealDriveError::PolicyDenied,
        Some(ErrorKind::NotFound) => TealDriveError::NotFound,
        Some(ErrorKind::InvalidPath) => TealDriveError::InvalidPath,
        Some(ErrorKind::InvalidTarget) => TealDriveError::InvalidTarget,
        Some(ErrorKind::AlreadyExists) => TealDriveError::AlreadyExists,
        Some(ErrorKind::DiskFull) => TealDriveError::DiskFull,
        Some(ErrorKind::CrossDeviceMove) => {
            if table == ErrorTable::Transfer {
                TealDriveError::CrossDeviceMove
            } else {
                TealDriveError::HelperCommandNotImplemented
            }
        },
        Some(ErrorKind::NameTooLong) => {
            if table == ErrorTable::Trash {
                TealDriveError::HelperCommandNotImplemented
            } else {
                TealDriveError::InvalidFilename
            }
        },
        Some(ErrorKind::ValidationError) => {
            if table == ErrorTable::Trash {
                TealDriveError::InvalidFilename
            } else {
                TealDriveError::HelperCommandNotImplemented
            }
        },
        _ => TealDriveError::HelperCommandNotImplemented,
    }
}

/// `res` is what a write operation reports when the helper answered
/// `answer`: the helper's own error, the error of a refusal, or that the
/// operation is done, with the request's id.
pub open spec fn done_answer(
    res: Result<OperationDonePayload, TealDriveError>,
    table: ErrorTable,
    request_id: RequestId,
    operation: Seq<char>,
    message: Seq<char>,
    answer: Result<HelperResponse, TealDriveError>,
) -> bool {
    match answer {
        Err(e) => res == Err::<OperationDonePayload, TealDriveError>(e),
        Ok(r) => if !r.success {
            res == Err::<OperationDonePayload, TealDriveError>(spec_operation_error(table, r.error_kind))
        } else {
            res matches Ok(p) && p.request_id == request_id && p.operation@ == operation
                && (p.safe_message matches Some(m) && m@ == message)
        },
    }
}

/// What a write operation reports, once the helper has answered.
pub fn done_from_answer(
    table: ErrorTable,
    request_id: RequestId,
    operation: &str,
    message: &str,
    answer: &Result<HelperResponse, TealDriveError>,
) -> (res: Result<OperationDonePayload, TealDriveError>)
    ensures
        done_answer(res, table, request_id, operation@, message@, *answer),
{
    let response = match answer {
        Ok(r) => r,
        Err(e) => return Err(*e),
    };
    if !response.success {
        return Err(operation_error(table, response));
    }
    Ok(OperationDonePayload {
        request_id,
        operation: operation.to_owned(),
        safe_message: Some(message.to_owned()),
    })
}

/// The policy's verdict on a write, with a `Deny` made `PolicyDenied`.
pub open spec fn spec_policy_allows(
    engine: AppConfig,
    op: FileOperation,
    root_id: Seq<char>,
    rel: Seq<char>,
    target: Option<Seq<char>>,
    name: Option<Seq<char>>,
    hidden: bool,
) -> Result<(), TealDriveError> {
    match spec_check_operation(engine, op, root_id, rel, target, name, hidden) {
        Err(e) => Err(e),
        Ok(PolicyDecision::Deny(_)) => Err(TealDriveError::PolicyDenied),
        Ok(_) => Ok(()),
    }
}

pub fn policy_allows(
    policy_engine: &PolicyEngine,
    op: FileOperation,
    root_id: &RootId,
    relative_path: &RelativePath,
    target: Option<&RelativePath>,
    name: Option<&SafeFileName>,
    hidden: bool,
) -> (res: Result<(), TealDriveError>)
    ensures
        res == spec_policy_allows(
            policy_engine.spec_config(),
            op,
            root_id.0@,
            relative_path.0@,
            match target {
                Some(t) => Some(t.0@),
                None => None,
            },
            match name {
                Some(n) => Some(n.0@),
                None => None,
            },
            hidden,
        ),
{
    match policy_engine.check_operation(op, root_id, relative_path, target, name, hidden)? {
        PolicyDecision::Deny(_) => Err(TealDriveError::PolicyDenied),
        _ => Ok(()),
    }
}

} // verus!
