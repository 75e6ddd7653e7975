//! Folder creation. The server resolves the new target on the filesystem
//! between these steps.
use vstd::prelude::*;

use crate::config::{clone_allowed_root, AllowedRoot, AppConfig, RelativePath, RootId, UserContext};
use crate::errors::TealDriveError;
use crate::fs::filename::{spec_filename_error, valid_filename, SafeFileName};
use crate::fs::path::{join_relative_name, spec_join_relative, spec_validate_relative_path, validate_relative_path};
use crate::fs::service::{
    build_helper_request, helper_limits, helper_request_for, policy_allows, spec_helper_limits,
    spec_policy_allows,
};
use crate::helper::types::{HelperCommand, HelperRequest, HelperResponse};
use crate::policy::decision::{FileOperation, PolicyEngine};
use crate::policy::roots::{require_allowed_root, spec_allowed_root};
use crate::policy::sensitive::{detect_sensitive, spec_detect_sensitive};
use crate::protocol::frame::RequestId;
use crate::protocol::payload::CreateFolderRequest;

verus! {

/// Runs a folder creation in the helper.
pub trait CreateFolderHelper {
    fn execute_helper(&self, request: &HelperRequest) -> Result<HelperResponse, TealDriveError>;
}

/// What a folder creation names, once checked.
#[derive(Debug, Clone, PartialEq, Eq)]
pub struct FolderPlan {
    pub parent_relative_path: RelativePath,
    pub folder_name: SafeFileName,
    pub target_relative_path: RelativePath,
    pub root: AllowedRoot,
}

/// The first checks of a folder creation: the parent validates, the name is
/// a valid file name, the root is configured, and the new path is not
/// sensitive. Gives the parent, the name, the new path and the root.
pub open spec fn spec_folder_plan(config: AppConfig, root_id: Seq<char>, parent: Seq<char>, name: Seq<char>) -> Result<
    (Seq<char>, Seq<char>, Seq<char>, AllowedRoot),
    TealDriveError,
> {
    match spec_validate_relative_path(parent) {
        Err(e) => Err(e),
        Ok(p) => if !valid_filename(name) {
            Err(spec_filename_error(name))
        } else {
            match spec_allowed_root(config.roots@, root_id) {
                Err(e) => Err(e),
                Ok(r) => {
                    let target = spec_join_relative(p, name);
                    if spec_detect_sensitive(target, config.sensitive_policy).is_sensitive {
                        Err(TealDriveError::PolicyDenied)
                    } else {
                        Ok((p, name, target, r))
                    }
                },
            }
        },
    }
}

pub fn folder_plan(request: &CreateFolderRequest, config: &AppConfig) -> (res: Result<FolderPlan, TealDriveError>)
    ensures
        match (res, spec_folder_plan(*config, request.root_id.0@, request.parent_relative_path.0@, request.folder_name@)) {
            (Ok(p), Ok((sp, sn, st, sr))) => p.parent_relative_path.0@ == sp && p.folder_name.0@ == sn
                && p.target_relative_path.0@ == st && p.root == sr,
            (Err(e), Err(s)) => e == s,
            _ => false,
        },
{
    let parent_relative_path = validate_relative_path(&request.parent_relative_path)?;
    let folder_name = SafeFileName::parse(request.folder_name.as_str())?;
    let root = require_allowed_root(config.allowed_roots(), &request.root_id)?;
    let target_relative_path = join_relative_name(&parent_relative_path, &folder_name);
    if detect_sensitive(&target_relative_path, &config.sensitive_policy).is_sensitive {
        return Err(TealDriveError::PolicyDenied);
    }
    Ok(FolderPlan {
        parent_relative_path,
        folder_name,
        target_relative_path,
        root: clone_allowed_root(root),
    })
}

/// Once the target is resolved: the policy must allow the creation. The
/// helper is given the parent as its path and the name as its target.
pub fn folder_authorize(
    request_id: RequestId,
    user_context: &UserContext,
    root_id: &RootId,
    plan: &FolderPlan,
    config: &AppConfig,
    policy_engine: &PolicyEngine,
) -> (res: Result<HelperRequest, TealDriveError>)
    ensures
        match spec_policy_allows(
            policy_engine.spec_config(),
            FileOperation::CreateFolder,
            root_id.0@,
            plan.parent_relative_path.0@,
            Some(plan.target_relative_path.0@),
            Some(plan.folder_name.0@),
            plan.root.hidden_files_allowed,
        ) {
            Err(e) => res == Err::<HelperRequest, TealDriveError>(e),
            Ok(_) => res matches Ok(r) && helper_request_for(
                r,
                request_id,
                *user_context,
                HelperCommand::CreateFolder,
                *root_id,
                plan.parent_relative_path.0@,
                Some(RelativePath(plan.folder_name.0)),
                plan.root,
                spec_helper_limits(*config),
                None,
            ),
        },
{
    policy_allows(
        policy_engine,
        FileOperation::CreateFolder,
        root_id,
        &plan.parent_relative_path,
        Some(&plan.target_relative_path),
        Some(&plan.folder_name),
        plan.root.hidden_files_allowed,
    )?;
    Ok(
        build_helper_request(
            request_id,
            user_context,
            HelperCommand::CreateFolder,
            root_id,
            &plan.parent_relative_path,
            Some(RelativePath(plan.folder_name.0.clone())),
            &plan.root,
            helper_limits(config),
            None,
        ),
    )
}

} // verus!
