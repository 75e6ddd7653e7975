//! Moves and copies within one root. The server resolves both paths on the
//! filesystem between these steps; each step here decides what follows.
use vstd::prelude::*;

use crate::config::{clone_allowed_root, AllowedRoot, AppConfig, RelativePath, RootId, UserContext};
use crate::errors::TealDriveError;
use crate::fs::filename::{spec_filename_error, valid_filename, SafeFileName};
use crate::fs::path::{spec_rsplit_slash, spec_validate_relative_path, split_target_path, validate_relative_path};
use crate::fs::service::{
    build_helper_request, helper_limits, helper_request_for, policy_allows, spec_helper_limits,
    spec_policy_allows,
};
use crate::helper::types::{HelperCommand, HelperRequest, HelperResponse};
use crate::policy::decision::{FileOperation, PolicyDecision, PolicyEngine};
use crate::policy::roots::{require_allowed_root, spec_allowed_root};
use crate::policy::sensitive::{detect_sensitive, spec_detect_sensitive};
use crate::policy::webroot::{check_webroot_upload, spec_check_webroot_upload};
use crate::protocol::frame::RequestId;
use crate::strings::str_eq;

verus! {

/// Runs a move in the helper.
pub trait MoveHelper {
    fn execute_helper(&self, request: &HelperRequest) -> Result<HelperResponse, TealDriveError>;
}

/// Runs a copy in the helper.
pub trait CopyHelper {
    fn execute_helper(&self, request: &HelperRequest) -> Result<HelperResponse, TealDriveError>;
}

/// What a move or copy names, once checked.
#[derive(Debug, Clone, PartialEq, Eq)]
pub struct TransferPlan {
    pub source_relative_path: RelativePath,
    pub target_relative_path: RelativePath,
    pub root: AllowedRoot,
}

/// The first checks of a move or copy: both paths validate, both name the
/// same root (else `InvalidTarget`), and the root is configured.
pub open spec fn spec_transfer_plan(
    config: AppConfig,
    root_id: Seq<char>,
    source: Seq<char>,
    target_root_id: Seq<char>,
    target: Seq<char>,
) -> Result<(Seq<char>, Seq<char>, AllowedRoot), TealDriveError> {
    match spec_validate_relative_path(source) {
        Err(e) => Err(e),
        Ok(s) => match spec_validate_relative_path(target) {
            Err(e) => Err(e),
            Ok(t) => if root_id != target_root_id {
                Err(TealDriveError::InvalidTarget)
            } else {
                match spec_allowed_root(config.roots@, root_id) {
                    Err(e) => Err(e),
                    Ok(r) => Ok((s, t, r)),
                }
            },
        },
    }
}

pub fn transfer_plan(
    root_id: &RootId,
    source: &RelativePath,
    target_root_id: &RootId,
    target: &RelativePath,
    config: &AppConfig,
) -> (res: Result<TransferPlan, TealDriveError>)
    ensures
        match (res, spec_transfer_plan(*config, root_id.0@, source.0@, target_root_id.0@, target.0@)) {
            (Ok(p), Ok((s, t, r))) => p.source_relative_path.0@ == s && p.target_relative_path.0@ == t
                && p.root == r,
            (Err(e), Err(s)) => e == s,
            _ => false,
        },
{
    let source_relative_path = validate_relative_path(source)?;
    let target_relative_path = validate_relative_path(target)?;
    if !str_eq(root_id.0.as_str(), target_root_id.0.as_str()) {
        return Err(TealDriveError::InvalidTarget);
    }
    let root = require_allowed_root(config.allowed_roots(), root_id)?;
    Ok(TransferPlan { source_relative_path, target_relative_path, root: clone_allowed_root(root) })
}

/// The parent and the name of a target path; the name must be a valid file
/// name.
pub open spec fn spec_target_name(target: Seq<char>) -> Result<(Seq<char>, Seq<char>), TealDriveError> {
    let (parent, name) = spec_rsplit_slash(target);
    if valid_filename(name) {
        Ok((parent, name))
    } else {
        Err(spec_filename_error(name))
    }
}

pub fn transfer_target_name(target: &RelativePath) -> (res: Result<(RelativePath, SafeFileName), TealDriveError>)
    ensures
        match (res, spec_target_name(target.0@)) {
            (Ok((p, n)), Ok((sp, sn))) => p.0@ == sp && n.0@ == sn,
            (Err(e), Err(s)) => e == s,
            _ => false,
        },
{
    let (parent, name) = split_target_path(target);
    let name = SafeFileName::parse(name)?;
    Ok((RelativePath(parent.to_owned()), name))
}

/// The checks once both paths are resolved: the target must not exist,
/// neither path may be sensitive, a web root refuses blocked extensions, and
/// the policy must allow the operation.
pub open spec fn spec_transfer_check(
    config: AppConfig,
    engine: AppConfig,
    op: FileOperation,
    root_id: Seq<char>,
    source: Seq<char>,
    target: Seq<char>,
    name: Seq<char>,
    root: AllowedRoot,
    target_exists: bool,
) -> Result<(), TealDriveError> {
    if target_exists {
        Err(TealDriveError::AlreadyExists)
    } else if spec_detect_sensitive(source, config.sensitive_policy).is_sensitive {
        Err(TealDriveError::PolicyDenied)
    } else if spec_detect_sensitive(target, config.sensitive_policy).is_sensitive {
        Err(TealDriveError::PolicyDenied)
    } else if spec_check_webroot_upload(root.is_web_root, name, config.webroot_policy) is Deny {
        Err(TealDriveError::WebrootExecutableDenied)
    } else {
        spec_policy_allows(engine, op, root_id, source, Some(target), Some(name), root.hidden_files_allowed)
    }
}

/// The helper request of a move or copy, when the checks pass.
pub fn transfer_authorize(
    op: FileOperation,
    command: HelperCommand,
    request_id: RequestId,
    user_context: &UserContext,
    root_id: &RootId,
    source: &RelativePath,
    target: &RelativePath,
    name: &SafeFileName,
    root: &AllowedRoot,
    target_exists: bool,
    config: &AppConfig,
    policy_engine: &PolicyEngine,
) -> (res: Result<HelperRequest, TealDriveError>)
    ensures
        match spec_transfer_check(
            *config,
            policy_engine.spec_config(),
            op,
            root_id.0@,
            source.0@,
            target.0@,
            name.0@,
            *root,
            target_exists,
        ) {
            Err(e) => res == Err::<HelperRequest, TealDriveError>(e),
            Ok(_) => res matches Ok(r) && helper_request_for(
                r,
                request_id,
                *user_context,
                command,
                *root_id,
                source.0@,
                Some(*target),
                *root,
                spec_helper_limits(*config),
                None,
            ),
        },
{
    if target_exists {
        return Err(TealDriveError::AlreadyExists);
    }
    if detect_sensitive(source, &config.sensitive_policy).is_sensitive {
        return Err(TealDriveError::PolicyDenied);
    }
    if detect_sensitive(target, &config.sensitive_policy).is_sensitive {
        return Err(TealDriveError::PolicyDenied);
    }
    if let PolicyDecision::Deny(_) = check_webroot_upload(root.is_web_root, name, &config.webroot_policy) {
        return Err(TealDriveError::WebrootExecutableDenied);
    }
    policy_allows(
        policy_engine,
        op,
        root_id,
        source,
        Some(target),
        Some(name),
        root.hidden_files_allowed,
    )?;
    Ok(
        build_helper_request(
            request_id,
            user_context,
            command,
            root_id,
            source,
            Some(RelativePath(target.0.clone())),
            root,
            helper_limits(config),
            None,
        ),
    )
}

} // verus!
