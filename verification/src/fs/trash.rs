//! Moving to and restoring from the trash.
use vstd::prelude::*;

use crate::config::{clone_allowed_root, clone_relative_path, clone_root_id, AllowedRoot, AppConfig, RelativePath, RootId, UserContext};
use crate::errors::TealDriveError;
use crate::fs::filename::{spec_filename_error, valid_filename, SafeFileName};
use crate::fs::path::{spec_validate_relative_path, validate_relative_path};
use crate::fs::service::{
    build_helper_request, done_answer, done_from_answer, helper_limits, helper_request_for,
    operation_error, policy_allows, spec_helper_limits, spec_operation_error, spec_policy_allows,
    ErrorTable,
};
use crate::helper::types::{HelperCommand, HelperRequest, HelperResponse, HelperResponsePayload};
use crate::policy::decision::{FileOperation, PolicyEngine};
use crate::policy::roots::{require_allowed_root, spec_allowed_root};
use crate::policy::sensitive::{detect_sensitive, spec_detect_sensitive};
use crate::protocol::frame::{is_v4_uuid, RequestId};
use crate::protocol::payload::{MoveToTrashPayload, MoveToTrashRequest, OperationDonePayload, RestoreFromTrashRequest};

verus! {

/// Runs a move to the trash in the helper.
pub trait MoveToTrashHelper {
    fn execute_helper(&self, request: &HelperRequest) -> Result<HelperResponse, TealDriveError>;
}

/// Runs a restore from the trash in the helper.
pub trait RestoreFromTrashHelper {
    /// Whether `answer` is what this helper may give for `request`. An
    /// implementation that knows its helper says so here; by default any
    /// answer may come.
    open spec fn answers(&self, request: HelperRequest, answer: Result<HelperResponse, TealDriveError>) -> bool {
        true
    }

    fn execute_helper(&self, request: &HelperRequest) -> (answer: Result<HelperResponse, TealDriveError>)
        ensures
            self.answers(*request, answer),
    ;
}

/// The first checks of a move to the trash: the path validates and the root
/// is configured.
pub open spec fn spec_trash_plan(config: AppConfig, root_id: Seq<char>, rel: Seq<char>) -> Result<
    (Seq<char>, AllowedRoot),
    TealDriveError,
> {
    match spec_validate_relative_path(rel) {
        Err(e) => Err(e),
        Ok(v) => match spec_allowed_root(config.roots@, root_id) {
            Err(e) => Err(e),
            Ok(r) => Ok((v, r)),
        },
    }
}

pub fn trash_plan(request: &MoveToTrashRequest, config: &AppConfig) -> (res: Result<
    (RelativePath, AllowedRoot),
    TealDriveError,
>)
    ensures
        match (res, spec_trash_plan(*config, request.root_id.0@, request.relative_path.0@)) {
            (Ok((p, r)), Ok((sp, sr))) => p.0@ == sp && r == sr,
            (Err(e), Err(s)) => e == s,
            _ => false,
        },
{
    let relative_path = validate_relative_path(&request.relative_path)?;
    let root = require_allowed_root(config.allowed_roots(), &request.root_id)?;
    Ok((relative_path, clone_allowed_root(root)))
}

/// Once the source is resolved: it may not be sensitive, and the policy
/// must allow the move.
pub open spec fn spec_trash_check(
    config: AppConfig,
    engine: AppConfig,
    root_id: Seq<char>,
    source: Seq<char>,
    root: AllowedRoot,
) -> Result<(), TealDriveError> {
    if spec_detect_sensitive(source, config.sensitive_policy).is_sensitive {
        Err(TealDriveError::PolicyDenied)
    } else {
        spec_policy_allows(engine, FileOperation::MoveToTrash, root_id, source, None, None, root.hidden_files_allowed)
    }
}

pub fn trash_authorize(
    request_id: RequestId,
    user_context: &UserContext,
    root_id: &RootId,
    source: &RelativePath,
    root: &AllowedRoot,
    config: &AppConfig,
    policy_engine: &PolicyEngine,
) -> (res: Result<HelperRequest, TealDriveError>)
    ensures
        match spec_trash_check(*config, policy_engine.spec_config(), root_id.0@, source.0@, *root) {
            Err(e) => res == Err::<HelperRequest, TealDriveError>(e),
            Ok(_) => res matches Ok(r) && helper_request_for(
                r,
                request_id,
                *user_context,
                HelperCommand::MoveToTrash,
                *root_id,
                source.0@,
                None,
                *root,
                spec_helper_limits(*config),
                None,
            ),
        },
{
    if detect_sensitive(source, &config.sensitive_policy).is_sensitive {
        return Err(TealDriveError::PolicyDenied);
    }
    policy_allows(
        policy_engine,
        FileOperation::MoveToTrash,
        root_id,
        source,
        None,
        None,
        root.hidden_files_allowed,
    )?;
    Ok(
        build_helper_request(
            request_id,
            user_context,
            HelperCommand::MoveToTrash,
            root_id,
            source,
            None,
            root,
            helper_limits(config),
            None,
        ),
    )
}

/// `res` is what a move to the trash reports when the helper answered
/// `answer`; a success without a trash entry is reported as not
/// implemented.
pub open spec fn trash_answer(
    res: Result<MoveToTrashPayload, TealDriveError>,
    request_id: RequestId,
    answer: Result<HelperResponse, TealDriveError>,
) -> bool {
    match answer {
        Err(e) => res == Err::<MoveToTrashPayload, TealDriveError>(e),
        Ok(r) => if !r.success {
            res == Err::<MoveToTrashPayload, TealDriveError>(
                spec_operation_error(ErrorTable::Trash, r.error_kind),
            )
        } else {
            match r.payload {
                HelperResponsePayload::TrashEntry(e) => res matches Ok(p) && p.request_id == request_id
                    && p.operation@ == "MOVE_TO_TRASH"@ && p.trash_id == e.trash_id
                    && p.display_name == e.display_name && p.deleted_at == e.deleted_at
                    && p.original_relative_path == e.original_relative_path
                    && p.original_root_id == e.original_root_id,
                _ => res == Err::<MoveToTrashPayload, TealDriveError>(
                    TealDriveError::HelperCommandNotImplemented,
                ),
            }
        },
    }
}

pub fn trash_from_answer(request_id: RequestId, answer: &Result<HelperResponse, TealDriveError>) -> (res:
    Result<MoveToTrashPayload, TealDriveError>)
    ensures
        trash_answer(res, request_id, *answer),
{
    let response = match answer {
        Ok(r) => r,
        Err(e) => return Err(*e),
    };
    if !response.success {
        return Err(operation_error(ErrorTable::Trash, response));
    }
    match &response.payload {
        HelperResponsePayload::TrashEntry(entry) => Ok(MoveToTrashPayload {
            request_id,
            operation: "MOVE_TO_TRASH".to_owned(),
            trash_id: entry.trash_id.clone(),
            display_name: entry.display_name.clone(),
            deleted_at: entry.deleted_at,
            original_relative_path: clone_relative_path(&entry.original_relative_path),
            original_root_id: clone_root_id(&entry.original_root_id),
        }),
        _ => Err(TealDriveError::HelperCommandNotImplemented),
    }
}

/// The checks of a restore: the trash id is a valid file name, a target
/// root is named (else `InvalidTarget`) and configured, and the policy
/// allows the restore of that name in it. Gives the trash id and the root.
pub open spec fn spec_restore_check(
    config: AppConfig,
    engine: AppConfig,
    trash_id: Seq<char>,
    target_root_id: Option<RootId>,
) -> Result<(Seq<char>, AllowedRoot), TealDriveError> {
    if !valid_filename(trash_id) {
        Err(spec_filename_error(trash_id))
    } else {
        match target_root_id {
            None => Err(TealDriveError::InvalidTarget),
            Some(id) => match spec_allowed_root(config.roots@, id.0@) {
                Err(e) => Err(e),
                Ok(root) => match spec_policy_allows(
                    engine,
                    FileOperation::RestoreFromTrash,
                    id.0@,
                    trash_id,
                    None,
                    None,
                    root.hidden_files_allowed,
                ) {
                    Err(e) => Err(e),
                    Ok(_) => Ok((trash_id, root)),
                },
            },
        }
    }
}

/// Restores a trashed entry: checked as the restore check says, then asked
/// of the helper with the trash id as the path; what follows is whatever the
/// helper's answer gives.
pub fn restore_from_trash_request<H: RestoreFromTrashHelper>(
    user_context: &UserContext,
    request: RestoreFromTrashRequest,
    config: &AppConfig,
    policy_engine: &PolicyEngine,
    helper_client: &H,
) -> (res: Result<OperationDonePayload, TealDriveError>)
    ensures
        match spec_restore_check(*config, policy_engine.spec_config(), request.trash_id@, request.target_root_id) {
            Err(e) => res == Err::<OperationDonePayload, TealDriveError>(e),
            Ok((trash_id, root)) => exists|sent: HelperRequest, answer: Result<HelperResponse, TealDriveError>|
                #[trigger] helper_client.answers(sent, answer) && helper_request_for(
                    sent,
                    sent.request_id,
                    *user_context,
                    HelperCommand::RestoreFromTrash,
                    request.target_root_id->0,
                    trash_id,
                    None,
                    root,
                    spec_helper_limits(*config),
                    None,
                ) && is_v4_uuid(sent.request_id.0@) && done_answer(
                    res,
                    ErrorTable::Trash,
                    sent.request_id,
                    "RESTORE_FROM_TRASH"@,
                    "Restored."@,
                    answer,
                ),
        },
{
    let safe_trash_id = SafeFileName::parse(request.trash_id.as_str())?;
    let root_id = match request.target_root_id {
        Some(id) => id,
        None => return Err(TealDriveError::InvalidTarget),
    };
    let root = require_allowed_root(config.allowed_roots(), &root_id)?;
    let placeholder_path = RelativePath(safe_trash_id.0);
    policy_allows(
        policy_engine,
        FileOperation::RestoreFromTrash,
        &root_id,
        &placeholder_path,
        None,
        None,
        root.hidden_files_allowed,
    )?;
    let helper_request = restore_helper_request(
        RequestId::new(),
        user_context,
        &root_id,
        &placeholder_path,
        root,
        config,
    );
    let request_id = helper_request.request_id;
    let answer = RestoreFromTrashHelper::execute_helper(helper_client, &helper_request);
    let res = done_from_answer(ErrorTable::Trash, request_id, "RESTORE_FROM_TRASH", "Restored.", &answer);
    assert(helper_client.answers(helper_request, answer));
    res
}

/// The helper request of a restore.
pub fn restore_helper_request(
    request_id: RequestId,
    user_context: &UserContext,
    root_id: &RootId,
    trash_id: &RelativePath,
    root: &AllowedRoot,
    config: &AppConfig,
) -> (r: HelperRequest)
    ensures
        helper_request_for(
            r,
            request_id,
            *user_context,
            HelperCommand::RestoreFromTrash,
            *root_id,
            trash_id.0@,
            None,
            *root,
            spec_helper_limits(*config),
            None,
        ),
{
    build_helper_request(
        request_id,
        user_context,
        HelperCommand::RestoreFromTrash,
        root_id,
        trash_id,
        None,
        root,
        helper_limits(config),
        None,
    )
}

} // verus!
