use vstd::prelude::*;

use crate::config::{clone_root_id, AppConfig, RelativePath, RootId, UserContext};
use crate::errors::{ErrorKind, TealDriveError};
use crate::fs::service::{
    build_helper_request, entry_payload_of, helper_entry_to_payload, helper_limits,
    helper_request_for, precheck, spec_helper_limits, spec_precheck,
};
use crate::helper::types::{HelperCommand, HelperRequest, HelperResponse, HelperResponsePayload};
use crate::policy::decision::{FileOperation, PolicyEngine};
use crate::protocol::frame::{is_v4_uuid, RequestId};
use crate::protocol::payload::{FileMetadataPayload, FileMetadataRequest};

verus! {

/// What a directory entry is, for the plain listing.
#[derive(Debug, Clone, Copy, PartialEq, Eq, Structural)]
pub enum EntryType {
    File,
    Dir,
    Symlink,
}

/// One entry of the plain listing.
#[derive(Debug, Clone, PartialEq, Eq)]
pub struct FileEntry {
    pub id: String,
    pub name: String,
    pub entry_type: EntryType,
    pub size: u64,
    pub modified: u64,
    pub permissions: u32,
    pub owner: String,
    pub group: String,
    pub mime: String,
    pub is_sensitive: bool,
    pub capabilities: Vec<String>,
}

/// Runs a file metadata request in the helper.
pub trait MetadataHelper {
    /// Whether `answer` is what this helper may give for `request`. An
    /// implementation that knows its helper says so here; by default any
    /// answer may come.
    open spec fn answers(&self, request: HelperRequest, answer: Result<HelperResponse, TealDriveError>) -> bool {
        true
    }

    fn execute_helper(&self, request: &HelperRequest) -> (answer: Result<HelperResponse, TealDriveError>)
        ensures
            self.answers(*request, answer),
    ;
}

/// What the audit log records of one metadata request.
#[derive(Debug, Clone, PartialEq, Eq)]
pub struct FileMetadataAudit {
    pub request_id: RequestId,
    pub username: String,
    pub root_id: RootId,
    pub relative_path: RelativePath,
    pub status: String,
    pub reason: Option<String>,
}

/// The error a refused metadata request reports, by the helper's error kind.
pub open spec fn spec_metadata_error(kind: Option<ErrorKind>) -> TealDriveError {
    match kind {
        Some(ErrorKind::PermissionDenied) => TealDriveError::PermissionDenied,
        Some(ErrorKind::NotFound) => TealDriveError::NotFound,
        Some(ErrorKind::InvalidPath) => TealDriveError::InvalidPath,
        Some(ErrorKind::PolicyDenied) => TealDriveError::PolicyDenied,
        _ => TealDriveError::HelperCommandNotImplemented,
    }
}

fn helper_response_to_error(response: &HelperResponse) -> (e: TealDriveError)
    ensures
        e == spec_metadata_error(response.error_kind),
{
    match response.error_kind {
        Some(ErrorKind::PermissionDenied) => TealDriveError::PermissionDenied,
        Some(ErrorKind::NotFound) => TealDriveError::NotFound,
        Some(ErrorKind::InvalidPath) => TealDriveError::InvalidPath,
        Some(ErrorKind::PolicyDenied) => TealDriveError::PolicyDenied,
        _ => TealDriveError::HelperCommandNotImplemented,
    }
}

/// `res` is what a metadata request for `root_id`/`rel` gives when the helper
/// answered `answer`: the helper's own error, the error of a refusal, the
/// entry of a metadata payload, or `HelperMalformedResponse` for any other
/// payload.
pub open spec fn metadata_answer(
    res: Result<FileMetadataPayload, TealDriveError>,
    root_id: RootId,
    rel: Seq<char>,
    answer: Result<HelperResponse, TealDriveError>,
) -> bool {
    match answer {
        Err(e) => res == Err::<FileMetadataPayload, TealDriveError>(e),
        Ok(r) => if !r.success {
            res == Err::<FileMetadataPayload, TealDriveError>(spec_metadata_error(r.error_kind))
        } else {
            match r.payload {
                HelperResponsePayload::FileMetadata(entry) => res matches Ok(p) && p.root_id == root_id
                    && p.relative_path.0@ == rel && p.entry == entry_payload_of(entry),
                _ => res == Err::<FileMetadataPayload, TealDriveError>(
                    TealDriveError::HelperMalformedResponse,
                ),
            }
        },
    }
}

/// The answer to a metadata request, once the helper has answered.
pub fn file_metadata_from_answer(
    root_id: RootId,
    relative_path: RelativePath,
    answer: Result<HelperResponse, TealDriveError>,
) -> (res: Result<FileMetadataPayload, TealDriveError>)
    ensures
        metadata_answer(res, root_id, relative_path.0@, answer),
{
    let response = answer?;
    if !response.success {
        return Err(helper_response_to_error(&response));
    }
    match &response.payload {
        HelperResponsePayload::FileMetadata(entry) => Ok(FileMetadataPayload {
            root_id,
            relative_path,
            entry: helper_entry_to_payload(entry),
        }),
        _ => Err(TealDriveError::HelperMalformedResponse),
    }
}

/// The helper request of a metadata request.
pub fn metadata_helper_request(
    request_id: RequestId,
    user_context: &UserContext,
    root_id: &RootId,
    relative_path: &RelativePath,
    config: &AppConfig,
    root: &crate::config::AllowedRoot,
) -> (r: HelperRequest)
    ensures
        helper_request_for(
            r,
            request_id,
            *user_context,
            HelperCommand::FileMetadata,
            *root_id,
            relative_path.0@,
            None,
            *root,
            spec_helper_limits(*config),
            None,
        ),
{
    build_helper_request(
        request_id,
        user_context,
        HelperCommand::FileMetadata,
        root_id,
        relative_path,
        None,
        root,
        helper_limits(config),
        None,
    )
}

/// `res` is what a metadata request for `relative_path` gives: the refusal
/// of the request, path, root or policy; or, once the helper was sent the
/// request for the checked path and answered, what that answer gives.
pub open spec fn metadata_outcome<H: MetadataHelper>(
    res: Result<FileMetadataPayload, TealDriveError>,
    helper: &H,
    user: UserContext,
    config: AppConfig,
    engine: AppConfig,
    root_id: RootId,
    relative_path: Seq<char>,
) -> bool {
    match spec_precheck(config, engine, FileOperation::FileMetadata, root_id.0@, relative_path, None) {
        Err(e) => res == Err::<FileMetadataPayload, TealDriveError>(e),
        Ok((rel, root)) => exists|sent: HelperRequest, answer: Result<HelperResponse, TealDriveError>|
            #[trigger] helper.answers(sent, answer) && helper_request_for(
                sent,
                sent.request_id,
                user,
                HelperCommand::FileMetadata,
                root_id,
                rel,
                None,
                root,
                spec_helper_limits(config),
                None,
            ) && is_v4_uuid(sent.request_id.0@) && metadata_answer(res, root_id, rel, answer),
    }
}

/// Metadata of one path: refused before the helper is asked when the path,
/// the root or the policy refuses (hidden paths as the root allows);
/// otherwise whatever the helper's answer gives.
pub fn file_metadata_request<H: MetadataHelper>(
    user_context: &UserContext,
    request: FileMetadataRequest,
    config: &AppConfig,
    policy_engine: &PolicyEngine,
    helper_client: &H,
) -> (res: Result<FileMetadataPayload, TealDriveError>)
    ensures
        metadata_outcome(
            res,
            helper_client,
            *user_context,
            *config,
            policy_engine.spec_config(),
            request.root_id,
            request.relative_path.0@,
        ),
{
    let (relative_path, root) = precheck(
        config,
        policy_engine,
        FileOperation::FileMetadata,
        &request.root_id,
        &request.relative_path,
        None,
    )?;
    let helper_request = metadata_helper_request(
        RequestId::new(),
        user_context,
        &request.root_id,
        &relative_path,
        config,
        root,
    );
    let answer = helper_client.execute_helper(&helper_request);
    let ghost rel = relative_path.0@;
    let res = file_metadata_from_answer(request.root_id, relative_path, answer);
    assert(helper_client.answers(helper_request, answer) && metadata_answer(res, request.root_id, rel, answer));
    res
}

} // verus!
