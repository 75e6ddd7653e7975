use vstd::prelude::*;

use crate::config::{clone_opt_string, AllowedRoot, AppConfig, RelativePath, RootId, UserContext};
use crate::errors::{ErrorKind, TealDriveError};
use crate::fs::service::{
    build_helper_request, entry_payloads, helper_entries_to_payloads, helper_limits,
    helper_request_for, precheck, spec_helper_limits, spec_precheck,
};
use crate::helper::types::{
    HelperCommand, HelperListDirectoryOptions, HelperRequest, HelperResponse, HelperResponsePayload,
};
use crate::policy::decision::{FileOperation, PolicyEngine};
use crate::protocol::frame::{is_v4_uuid, RequestId};
use crate::protocol::payload::{DirectoryListResponse, ListDirectoryRequest};
use crate::protocol::schema::{CapabilitySet, DirectoryCursor, FilterMode};

verus! {

/// Runs a directory listing in the helper.
pub trait DirectoryListingHelper {
    /// Whether `answer` is what this helper may give for `request`. An
    /// implementation that knows its helper says so here; by default any
    /// answer may come.
    open spec fn answers(&self, request: HelperRequest, answer: Result<HelperResponse, TealDriveError>) -> bool {
        true
    }

    fn execute_helper(&self, request: &HelperRequest) -> (answer: Result<HelperResponse, TealDriveError>)
        ensures
            self.answers(*request, answer),
    ;
}

/// What the audit log records of one listing.
#[derive(Debug, Clone, PartialEq, Eq)]
pub struct DirectoryListingAudit {
    pub request_id: RequestId,
    pub username: String,
    pub action: FileOperation,
    pub root_id: RootId,
    pub relative_path: RelativePath,
    pub status: String,
    pub reason: Option<String>,
}

/// The page size a listing uses: the configured default for 0, otherwise
/// the request capped at the largest page.
pub open spec fn spec_effective_limit(requested: usize, config: AppConfig) -> usize {
    if requested == 0 {
        config.limits.default_directory_page_size
    } else if requested < config.limits.max_directory_page_size {
        requested
    } else {
        config.limits.max_directory_page_size
    }
}

pub fn effective_limit(requested: usize, config: &AppConfig) -> (limit: usize)
    ensures
        limit == spec_effective_limit(requested, *config),
{
    if requested == 0 {
        config.limits.default_directory_page_size
    } else if requested < config.limits.max_directory_page_size {
        requested
    } else {
        config.limits.max_directory_page_size
    }
}

/// The capabilities a listing reports for its directory.
pub open spec fn spec_root_capabilities(root: AllowedRoot) -> CapabilitySet {
    CapabilitySet {
        can_list: true,
        can_download: true,
        can_upload: root.uploads_allowed && !root.read_only,
        can_create_folder: !root.read_only,
        can_rename: !root.read_only,
        can_move_to_trash: !root.read_only,
        can_restore_from_trash: !root.read_only,
    }
}

/// The error a refused listing reports; a missing directory is an invalid
/// path here.
pub open spec fn spec_listing_error(kind: Option<ErrorKind>) -> TealDriveError {
    match kind {
        Some(ErrorKind::PermissionDenied) => TealDriveError::PermissionDenied,
        Some(ErrorKind::NotFound) => TealDriveError::InvalidPath,
        Some(ErrorKind::InvalidPath) => TealDriveError::InvalidPath,
        Some(ErrorKind::PolicyDenied) => TealDriveError::PolicyDenied,
        _ => TealDriveError::HelperCommandNotImplemented,
    }
}

fn helper_response_to_error(response: &HelperResponse) -> (e: TealDriveError)
    ensures
        e == spec_listing_error(response.error_kind),
{
    match response.error_kind {
        Some(ErrorKind::PermissionDenied) => TealDriveError::PermissionDenied,
        Some(ErrorKind::NotFound) => TealDriveError::InvalidPath,
        Some(ErrorKind::InvalidPath) => TealDriveError::InvalidPath,
        Some(ErrorKind::PolicyDenied) => TealDriveError::PolicyDenied,
        _ => TealDriveError::HelperCommandNotImplemented,
    }
}

/// `res` is what a listing of `rel` in `root` gives when the helper answered
/// `answer`.
pub open spec fn listing_answer(
    res: Result<DirectoryListResponse, TealDriveError>,
    rel: Seq<char>,
    root: AllowedRoot,
    answer: Result<HelperResponse, TealDriveError>,
) -> bool {
    match answer {
        Err(e) => res == Err::<DirectoryListResponse, TealDriveError>(e),
        Ok(r) => if !r.success {
            res == Err::<DirectoryListResponse, TealDriveError>(spec_listing_error(r.error_kind))
        } else {
            match r.payload {
                HelperResponsePayload::DirectoryList(list) => res matches Ok(p)
                    && p.entries@ == entry_payloads(list.entries@)
                    && p.next_cursor == list.next_cursor
                    && p.has_more == list.has_more
                    && p.total_estimate == list.total_estimate
                    && p.current_path.0@ == rel
                    && p.capabilities == spec_root_capabilities(root),
                _ => res == Err::<DirectoryListResponse, TealDriveError>(
                    TealDriveError::HelperMalformedResponse,
                ),
            }
        },
    }
}

/// The answer to a listing, once the helper has answered.
pub fn listing_from_answer(
    relative_path: RelativePath,
    root: &AllowedRoot,
    answer: Result<HelperResponse, TealDriveError>,
) -> (res: Result<DirectoryListResponse, TealDriveError>)
    ensures
        listing_answer(res, relative_path.0@, *root, answer),
{
    let response = answer?;
    if !response.success {
        return Err(helper_response_to_error(&response));
    }
    match &response.payload {
        HelperResponsePayload::DirectoryList(list) => Ok(DirectoryListResponse {
            entries: helper_entries_to_payloads(&list.entries),
            next_cursor: clone_cursor(&list.next_cursor),
            has_more: list.has_more,
            total_estimate: list.total_estimate,
            current_path: relative_path,
            capabilities: CapabilitySet {
                can_list: true,
                can_download: true,
                can_upload: root.uploads_allowed && !root.read_only,
                can_create_folder: !root.read_only,
                can_rename: !root.read_only,
                can_move_to_trash: !root.read_only,
                can_restore_from_trash: !root.read_only,
            },
        }),
        _ => Err(TealDriveError::HelperMalformedResponse),
    }
}

pub fn clone_cursor(c: &Option<DirectoryCursor>) -> (d: Option<DirectoryCursor>)
    ensures
        d == *c,
{
    match c {
        Some(v) => Some(DirectoryCursor(v.0.clone())),
        None => None,
    }
}

pub fn clone_filter(f: &FilterMode) -> (g: FilterMode)
    ensures
        g == *f,
{
    FilterMode { query: clone_opt_string(&f.query), file_kind: f.file_kind, filter: f.filter }
}

/// The listing options sent to the helper.
pub open spec fn spec_list_options(request: ListDirectoryRequest, limit: usize) -> HelperListDirectoryOptions {
    HelperListDirectoryOptions {
        cursor: request.cursor,
        limit,
        include_hidden: request.include_hidden,
        sort: request.sort,
        filter: request.filter,
    }
}

/// The helper request of a listing.
pub fn listing_helper_request(
    request_id: RequestId,
    user_context: &UserContext,
    request: &ListDirectoryRequest,
    limit: usize,
    relative_path: &RelativePath,
    config: &AppConfig,
    root: &AllowedRoot,
) -> (r: HelperRequest)
    ensures
        helper_request_for(
            r,
            request_id,
            *user_context,
            HelperCommand::ListDirectory,
            request.root_id,
            relative_path.0@,
            None,
            *root,
            spec_helper_limits(*config),
            Some(spec_list_options(*request, limit)),
        ),
{
    let options = HelperListDirectoryOptions {
        cursor: clone_cursor(&request.cursor),
        limit,
        include_hidden: request.include_hidden,
        sort: request.sort,
        filter: clone_filter(&request.filter),
    };
    build_helper_request(
        request_id,
        user_context,
        HelperCommand::ListDirectory,
        &request.root_id,
        relative_path,
        None,
        root,
        helper_limits(config),
        Some(options),
    )
}

/// Lists a directory: the page size is first made effective and checked,
/// then the path, the root and the policy (hidden paths as the request
/// asks); what follows is whatever the helper's answer gives.
pub fn list_directory_request<H: DirectoryListingHelper>(
    user_context: &UserContext,
    request: ListDirectoryRequest,
    config: &AppConfig,
    policy_engine: &PolicyEngine,
    helper_client: &H,
) -> (res: Result<DirectoryListResponse, TealDriveError>)
    ensures
        spec_effective_limit(request.limit, *config) > config.limits.max_directory_page_size
            ==> res == Err::<DirectoryListResponse, TealDriveError>(TealDriveError::Validation),
        spec_effective_limit(request.limit, *config) <= config.limits.max_directory_page_size
            ==> match spec_precheck(
            *config,
            policy_engine.spec_config(),
            FileOperation::ListDirectory,
            request.root_id.0@,
            request.relative_path.0@,
            Some(request.include_hidden),
        ) {
            Err(e) => res == Err::<DirectoryListResponse, TealDriveError>(e),
            Ok((rel, root)) => exists|sent: HelperRequest, answer: Result<HelperResponse, TealDriveError>|
                #[trigger] helper_client.answers(sent, answer) && helper_request_for(
                    sent,
                    sent.request_id,
                    *user_context,
                    HelperCommand::ListDirectory,
                    request.root_id,
                    rel,
                    None,
                    root,
                    spec_helper_limits(*config),
                    Some(spec_list_options(request, spec_effective_limit(request.limit, *config))),
                ) && is_v4_uuid(sent.request_id.0@) && listing_answer(res, rel, root, answer),
        },
{
    let limit = effective_limit(request.limit, config);
    let request = ListDirectoryRequest { limit, ..request };
    request.validate(&config.limits)?;
    let (relative_path, root) = precheck(
        config,
        policy_engine,
        FileOperation::ListDirectory,
        &request.root_id,
        &request.relative_path,
        Some(request.include_hidden),
    )?;
    let helper_request = listing_helper_request(
        RequestId::new(),
        user_context,
        &request,
        limit,
        &relative_path,
        config,
        root,
    );
    let answer = helper_client.execute_helper(&helper_request);
    let ghost rel = relative_path.0@;
    let res = listing_from_answer(relative_path, root, answer);
    assert(helper_client.answers(helper_request, answer) && listing_answer(res, rel, *root, answer));
    res
}

} // verus!
