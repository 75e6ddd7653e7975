//! Renames within one directory. The server resolves the source and the
//! new target on the filesystem between these steps.
use vstd::prelude::*;

use crate::config::{clone_allowed_root, AllowedRoot, AppConfig, RelativePath, RootId, UserContext};
use crate::errors::TealDriveError;
use crate::fs::filename::{spec_filename_error, valid_filename, SafeFileName};
use crate::fs::path::{
    join_relative_name, parent_relative_path, spec_join_relative, spec_rsplit_slash,
    spec_validate_relative_path, validate_relative_path,
};
use crate::fs::service::{
    build_helper_request, helper_limits, helper_request_for, policy_allows, spec_helper_limits,
    spec_policy_allows,
};
use crate::helper::types::{HelperCommand, HelperRequest, HelperResponse};
use crate::policy::decision::{FileOperation, PolicyDecision, PolicyEngine};
use crate::policy::roots::{require_allowed_root, spec_allowed_root};
use crate::policy::sensitive::{detect_sensitive, spec_detect_sensitive};
use crate::policy::webroot::{check_webroot_upload, spec_check_webroot_upload};
use crate::protocol::frame::RequestId;
use crate::protocol::payload::RenameFileRequest;

verus! {

/// Runs a rename in the helper.
pub trait RenameHelper {
    fn execute_helper(&self, request: &HelperRequest) -> Result<HelperResponse, TealDriveError>;
}

/// The first checks of a rename: the path validates, the new name is a
/// valid file name, the root is configured.
pub open spec fn spec_rename_plan(
    config: AppConfig,
    root_id: Seq<char>,
    rel: Seq<char>,
    new_name: Seq<char>,
) -> Result<(Seq<char>, Seq<char>, AllowedRoot), TealDriveError> {
    match spec_validate_relative_path(rel) {
        Err(e) => Err(e),
        Ok(v) => if !valid_filename(new_name) {
            Err(spec_filename_error(new_name))
        } else {
            match spec_allowed_root(config.roots@, root_id) {
                Err(e) => Err(e),
                Ok(r) => Ok((v, new_name, r)),
            }
        },
    }
}

pub fn rename_plan(request: &RenameFileRequest, config: &AppConfig) -> (res: Result<
    (RelativePath, SafeFileName, AllowedRoot),
    TealDriveError,
>)
    ensures
        match (res, spec_rename_plan(*config, request.root_id.0@, request.relative_path.0@, request.new_name@)) {
            (Ok((p, n, r)), Ok((sp, sn, sr))) => p.0@ == sp && n.0@ == sn && r == sr,
            (Err(e), Err(s)) => e == s,
            _ => false,
        },
{
    let relative_path = validate_relative_path(&request.relative_path)?;
    let new_name = SafeFileName::parse(request.new_name.as_str())?;
    let root = require_allowed_root(config.allowed_roots(), &request.root_id)?;
    Ok((relative_path, new_name, clone_allowed_root(root)))
}

/// Once the source is resolved: the target is the new name beside it;
/// neither may be sensitive, and a web root refuses blocked extensions.
/// Gives the parent and the target.
pub open spec fn spec_rename_target(
    config: AppConfig,
    source: Seq<char>,
    name: Seq<char>,
    root: AllowedRoot,
) -> Result<(Seq<char>, Seq<char>), TealDriveError> {
    let parent = spec_rsplit_slash(source).0;
    let target = spec_join_relative(parent, name);
    if spec_detect_sensitive(source, config.sensitive_policy).is_sensitive {
        Err(TealDriveError::PolicyDenied)
    } else if spec_detect_sensitive(target, config.sensitive_policy).is_sensitive {
        Err(TealDriveError::PolicyDenied)
    } else if spec_check_webroot_upload(root.is_web_root, name, config.webroot_policy) is Deny {
        Err(TealDriveError::WebrootExecutableDenied)
    } else {
        Ok((parent, target))
    }
}

pub fn rename_target(
    source: &RelativePath,
    name: &SafeFileName,
    root: &AllowedRoot,
    config: &AppConfig,
) -> (res: Result<(RelativePath, RelativePath), TealDriveError>)
    ensures
        match (res, spec_rename_target(*config, source.0@, name.0@, *root)) {
            (Ok((p, t)), Ok((sp, st))) => p.0@ == sp && t.0@ == st,
            (Err(e), Err(s)) => e == s,
            _ => false,
        },
{
    let parent = parent_relative_path(source);
    let target = join_relative_name(&parent, name);
    if detect_sensitive(source, &config.sensitive_policy).is_sensitive {
        return Err(TealDriveError::PolicyDenied);
    }
    if detect_sensitive(&target, &config.sensitive_policy).is_sensitive {
        return Err(TealDriveError::PolicyDenied);
    }
    if let PolicyDecision::Deny(_) = check_webroot_upload(root.is_web_root, name, &config.webroot_policy) {
        return Err(TealDriveError::WebrootExecutableDenied);
    }
    Ok((parent, target))
}

/// Once the target is resolved: it must not exist, and the policy must
/// allow the rename.
pub open spec fn spec_rename_check(
    engine: AppConfig,
    root_id: Seq<char>,
    source: Seq<char>,
    target: Seq<char>,
    name: Seq<char>,
    root: AllowedRoot,
    target_exists: bool,
) -> Result<(), TealDriveError> {
    if target_exists {
        Err(TealDriveError::AlreadyExists)
    } else {
        spec_policy_allows(
            engine,
            FileOperation::RenameFile,
            root_id,
            source,
            Some(target),
            Some(name),
            root.hidden_files_allowed,
        )
    }
}

/// The helper request of a rename, when the checks pass: the helper is
/// given the new name alone as its target.
pub fn rename_authorize(
    request_id: RequestId,
    user_context: &UserContext,
    root_id: &RootId,
    source: &RelativePath,
    target: &RelativePath,
    name: &SafeFileName,
    root: &AllowedRoot,
    target_exists: bool,
    config: &AppConfig,
    policy_engine: &PolicyEngine,
) -> (res: Result<HelperRequest, TealDriveError>)
    ensures
        match spec_rename_check(
            policy_engine.spec_config(),
            root_id.0@,
            source.0@,
            target.0@,
            name.0@,
            *root,
            target_exists,
        ) {
            Err(e) => res == Err::<HelperRequest, TealDriveError>(e),
            Ok(_) => res matches Ok(r) && helper_request_for(
                r,
                request_id,
                *user_context,
                HelperCommand::Rename,
                *root_id,
                source.0@,
                Some(RelativePath(name.0)),
                *root,
                spec_helper_limits(*config),
                None,
            ),
        },
{
    if target_exists {
        return Err(TealDriveError::AlreadyExists);
    }
    policy_allows(
        policy_engine,
        FileOperation::RenameFile,
        root_id,
        source,
        Some(target),
        Some(name),
        root.hidden_files_allowed,
    )?;
    Ok(
        build_helper_request(
            request_id,
            user_context,
            HelperCommand::Rename,
            root_id,
            source,
            Some(RelativePath(name.0.clone())),
            root,
            helper_limits(config),
            None,
        ),
    )
}

} // verus!
