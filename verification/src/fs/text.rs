use vstd::prelude::*;

use crate::config::{clone_relative_path, clone_root_id, AllowedRoot, AppConfig, RelativePath, RootId, UserContext};
use crate::errors::{ErrorKind, TealDriveError};
use crate::fs::metadata::{file_metadata_request, metadata_outcome, MetadataHelper};
use crate::fs::service::{
    build_helper_request, helper_request_for, precheck, spec_helper_limits, spec_precheck,
};
use crate::helper::types::{
    HelperCommand, HelperLimits, HelperRequest, HelperResponse, HelperResponsePayload,
    HelperTextFileContent,
};
use crate::download::transfer::MAX_DOWNLOAD_HELPER_BYTES;
use crate::policy::decision::{FileOperation, PolicyEngine};
use crate::protocol::frame::{is_v4_uuid, RequestId};
use crate::protocol::payload::{FileMetadataPayload, FileMetadataRequest, ReadTextFileRequest, TextFileContentPayload};
use crate::protocol::schema::FileKind;
use crate::strings::eq_ignore_ascii_case;

verus! {

/// Runs a text preview in the helper.
pub trait TextPreviewHelper {
    /// Whether `answer` is what this helper may give for `request`. An
    /// implementation that knows its helper says so here; by default any
    /// answer may come.
    open spec fn answers(&self, request: HelperRequest, answer: Result<HelperResponse, TealDriveError>) -> bool {
        true
    }

    fn execute_helper(&self, request: &HelperRequest) -> (answer: Result<HelperResponse, TealDriveError>)
        ensures
            self.answers(*request, answer),
    ;
}

/// The error a refused preview reports, by the helper's error kind.
pub open spec fn spec_text_error(kind: Option<ErrorKind>) -> TealDriveError {
    match kind {
        Some(ErrorKind::PermissionDenied) => TealDriveError::PermissionDenied,
        Some(ErrorKind::PolicyDenied) => TealDriveError::PolicyDenied,
        Some(ErrorKind::NotFound) => TealDriveError::NotFound,
        Some(ErrorKind::InvalidPath) => TealDriveError::InvalidPath,
        Some(ErrorKind::InvalidTarget) => TealDriveError::InvalidTarget,
        Some(ErrorKind::FileTooLarge) => TealDriveError::FileTooLarge,
        Some(ErrorKind::UnsupportedBinaryFile) => TealDriveError::UnsupportedBinaryFile,
        Some(ErrorKind::InvalidTextEncoding) => TealDriveError::InvalidTextEncoding,
        _ => TealDriveError::HelperCommandNotImplemented,
    }
}

fn helper_response_to_error(response: &HelperResponse) -> (e: TealDriveError)
    ensures
        e == spec_text_error(response.error_kind),
{
    match response.error_kind {
        Some(ErrorKind::PermissionDenied) => TealDriveError::PermissionDenied,
        Some(ErrorKind::PolicyDenied) => TealDriveError::PolicyDenied,
        Some(ErrorKind::NotFound) => TealDriveError::NotFound,
        Some(ErrorKind::InvalidPath) => TealDriveError::InvalidPath,
        Some(ErrorKind::InvalidTarget) => TealDriveError::InvalidTarget,
        Some(ErrorKind::FileTooLarge) => TealDriveError::FileTooLarge,
        Some(ErrorKind::UnsupportedBinaryFile) => TealDriveError::UnsupportedBinaryFile,
        Some(ErrorKind::InvalidTextEncoding) => TealDriveError::InvalidTextEncoding,
        _ => TealDriveError::HelperCommandNotImplemented,
    }
}

/// `p` carries the helper's text content `c` for `root_id`/`rel`.
pub open spec fn text_payload_of(p: TextFileContentPayload, root_id: RootId, rel: Seq<char>, c: HelperTextFileContent) -> bool {
    &&& p.root_id == root_id
    &&& p.relative_path.0@ == rel
    &&& p.name == c.name
    &&& p.content == c.content
    &&& p.encoding == c.encoding
    &&& p.size == c.size
    &&& p.modified == c.modified
    &&& p.owner == c.owner
    &&& p.group == c.group
    &&& p.mode == c.mode
    &&& p.permissions == c.permissions
    &&& p.is_sensitive == c.is_sensitive
    &&& p.is_hidden == c.is_hidden
    &&& p.is_read_only == c.is_read_only
    &&& p.truncated == c.truncated
    &&& p.line_count == c.line_count
    &&& p.language_hint == c.language_hint
}

/// `res` is what a preview of `root_id`/`rel` gives when the helper answered
/// `answer`.
pub open spec fn text_answer(
    res: Result<TextFileContentPayload, TealDriveError>,
    root_id: RootId,
    rel: Seq<char>,
    answer: Result<HelperResponse, TealDriveError>,
) -> bool {
    match answer {
        Err(e) => res == Err::<TextFileContentPayload, TealDriveError>(e),
        Ok(r) => if !r.success {
            res == Err::<TextFileContentPayload, TealDriveError>(spec_text_error(r.error_kind))
        } else {
            match r.payload {
                HelperResponsePayload::TextFileContent(c) => res matches Ok(p) && text_payload_of(p, root_id, rel, c),
                _ => res == Err::<TextFileContentPayload, TealDriveError>(
                    TealDriveError::HelperMalformedResponse,
                ),
            }
        },
    }
}

/// The answer to a preview, once the helper has answered.
pub fn text_from_answer(
    root_id: RootId,
    relative_path: RelativePath,
    answer: Result<HelperResponse, TealDriveError>,
) -> (res: Result<TextFileContentPayload, TealDriveError>)
    ensures
        text_answer(res, root_id, relative_path.0@, answer),
{
    let response = answer?;
    if !response.success {
        return Err(helper_response_to_error(&response));
    }
    match response.payload {
        HelperResponsePayload::TextFileContent(content) => Ok(TextFileContentPayload {
            root_id,
            relative_path,
            name: content.name,
            content: content.content,
            encoding: content.encoding,
            size: content.size,
            modified: content.modified,
            owner: content.owner,
            group: content.group,
            mode: content.mode,
            permissions: content.permissions,
            is_sensitive: content.is_sensitive,
            is_hidden: content.is_hidden,
            is_read_only: content.is_read_only,
            truncated: content.truncated,
            line_count: content.line_count,
            language_hint: content.language_hint,
        }),
        _ => Err(TealDriveError::HelperMalformedResponse),
    }
}

/// What the file's metadata allows: no directory, symlink or sensitive
/// file, and no file larger than the largest editable text or the request's
/// own bound.
pub open spec fn spec_text_metadata_check(
    metadata: FileMetadataPayload,
    max_text_edit_size: usize,
    max_bytes: Option<usize>,
) -> Result<(), TealDriveError> {
    if metadata.entry.file_type == FileKind::Directory {
        Err(TealDriveError::InvalidTarget)
    } else if metadata.entry.is_symlink || metadata.entry.is_sensitive {
        Err(TealDriveError::PolicyDenied)
    } else if metadata.entry.size > max_text_edit_size {
        Err(TealDriveError::FileTooLarge)
    } else if max_bytes matches Some(m) && metadata.entry.size > m {
        Err(TealDriveError::FileTooLarge)
    } else {
        Ok(())
    }
}

pub fn text_metadata_check(
    metadata: &FileMetadataPayload,
    max_text_edit_size: usize,
    max_bytes: Option<usize>,
) -> (res: Result<(), TealDriveError>)
    ensures
        res == spec_text_metadata_check(*metadata, max_text_edit_size, max_bytes),
{
    if metadata.entry.file_type == FileKind::Directory {
        return Err(TealDriveError::InvalidTarget);
    }
    if metadata.entry.is_symlink || metadata.entry.is_sensitive {
        return Err(TealDriveError::PolicyDenied);
    }
    if metadata.entry.size > max_text_edit_size as u64 {
        return Err(TealDriveError::FileTooLarge);
    }
    if let Some(m) = max_bytes {
        if metadata.entry.size > m as u64 {
            return Err(TealDriveError::FileTooLarge);
        }
    }
    Ok(())
}

/// The helper limits of a preview: the request's bound, capped at the
/// largest editable text.
pub open spec fn spec_text_limits(config: AppConfig, max_bytes: Option<usize>) -> HelperLimits {
    let cap = config.limits.max_text_edit_size;
    let asked = match max_bytes {
        Some(m) => m,
        None => cap,
    };
    HelperLimits {
        max_directory_page_size: config.limits.max_directory_page_size,
        max_text_edit_size: if asked < cap { asked } else { cap },
        max_chunk_size: config.limits.max_chunk_size,
        max_download_helper_bytes: MAX_DOWNLOAD_HELPER_BYTES,
    }
}

/// The helper request of a preview.
pub fn text_helper_request(
    request_id: RequestId,
    user_context: &UserContext,
    root_id: &RootId,
    relative_path: &RelativePath,
    max_bytes: Option<usize>,
    config: &AppConfig,
    root: &AllowedRoot,
) -> (r: HelperRequest)
    ensures
        helper_request_for(
            r,
            request_id,
            *user_context,
            HelperCommand::ReadTextFile,
            *root_id,
            relative_path.0@,
            None,
            *root,
            spec_text_limits(*config, max_bytes),
            None,
        ),
{
    let cap = config.limits.max_text_edit_size;
    let asked = match max_bytes {
        Some(m) => m,
        None => cap,
    };
    let limits = HelperLimits {
        max_directory_page_size: config.limits.max_directory_page_size,
        max_text_edit_size: if asked < cap { asked } else { cap },
        max_chunk_size: config.limits.max_chunk_size,
        max_download_helper_bytes: MAX_DOWNLOAD_HELPER_BYTES,
    };
    build_helper_request(
        request_id,
        user_context,
        HelperCommand::ReadTextFile,
        root_id,
        relative_path,
        None,
        root,
        limits,
        None,
    )
}

/// Whether a preview goes on to the text helper once metadata gave `mres`:
/// the metadata came and passed the preview's checks.
pub open spec fn reaches_text_helper(
    mres: Result<FileMetadataPayload, TealDriveError>,
    config: AppConfig,
    max_bytes: Option<usize>,
) -> bool {
    mres matches Ok(m) && spec_text_metadata_check(m, config.limits.max_text_edit_size, max_bytes) is Ok
}

/// `res` is what a preview gives once metadata gave `mres` and the preview
/// helper answered `answer`.
pub open spec fn text_outcome(
    res: Result<TextFileContentPayload, TealDriveError>,
    root_id: RootId,
    rel: Seq<char>,
    config: AppConfig,
    max_bytes: Option<usize>,
    mres: Result<FileMetadataPayload, TealDriveError>,
    answer: Result<HelperResponse, TealDriveError>,
) -> bool {
    match mres {
        Err(e) => res == Err::<TextFileContentPayload, TealDriveError>(e),
        Ok(m) => match spec_text_metadata_check(m, config.limits.max_text_edit_size, max_bytes) {
            Err(e) => res == Err::<TextFileContentPayload, TealDriveError>(e),
            Ok(_) => text_answer(res, root_id, rel, answer),
        },
    }
}

/// Previews a text file: the request, the path, the root and the policy are
/// checked first (hidden paths as the root allows); then the file's
/// metadata is asked for and checked; then the helper reads it.
pub fn read_text_file_request<H: TextPreviewHelper + MetadataHelper>(
    user_context: &UserContext,
    request: ReadTextFileRequest,
    config: &AppConfig,
    policy_engine: &PolicyEngine,
    helper_client: &H,
) -> (res: Result<TextFileContentPayload, TealDriveError>)
    ensures
        ((request.max_bytes matches Some(m) && m > config.limits.max_text_edit_size)
            || (request.encoding matches Some(e) && !eq_ignore_ascii_case(e@, "utf-8"@)))
            ==> res == Err::<TextFileContentPayload, TealDriveError>(TealDriveError::Validation),
        !((request.max_bytes matches Some(m) && m > config.limits.max_text_edit_size)
            || (request.encoding matches Some(e) && !eq_ignore_ascii_case(e@, "utf-8"@)))
            ==> match spec_precheck(
            *config,
            policy_engine.spec_config(),
            FileOperation::ReadTextFile,
            request.root_id.0@,
            request.relative_path.0@,
            None,
        ) {
            Err(e) => res == Err::<TextFileContentPayload, TealDriveError>(e),
            Ok((rel, root)) => exists|
                mres: Result<FileMetadataPayload, TealDriveError>,
                answer: Result<HelperResponse, TealDriveError>,
            |
                metadata_outcome(
                    mres,
                    helper_client,
                    *user_context,
                    *config,
                    policy_engine.spec_config(),
                    request.root_id,
                    rel,
                ) && #[trigger] text_outcome(res, request.root_id, rel, *config, request.max_bytes, mres, answer)
                    && (reaches_text_helper(mres, *config, request.max_bytes) ==> exists|sent: HelperRequest|
                    #[trigger] TextPreviewHelper::answers(helper_client, sent, answer) && helper_request_for(
                        sent,
                        sent.request_id,
                        *user_context,
                        HelperCommand::ReadTextFile,
                        request.root_id,
                        rel,
                        None,
                        root,
                        spec_text_limits(*config, request.max_bytes),
                        None,
                    ) && is_v4_uuid(sent.request_id.0@)),
        },
{
    request.validate(&config.limits)?;
    let (relative_path, root) = precheck(
        config,
        policy_engine,
        FileOperation::ReadTextFile,
        &request.root_id,
        &request.relative_path,
        None,
    )?;
    let ghost rel = relative_path.0@;
    let mres = file_metadata_request(
        user_context,
        FileMetadataRequest {
            root_id: clone_root_id(&request.root_id),
            relative_path: clone_relative_path(&relative_path),
        },
        config,
        policy_engine,
        helper_client,
    );
    assert(metadata_outcome(
        mres,
        helper_client,
        *user_context,
        *config,
        policy_engine.spec_config(),
        request.root_id,
        rel,
    ));
    let metadata = match mres {
        Ok(m) => m,
        Err(e) => {
            let res = Err(e);
            assert(text_outcome(res, request.root_id, rel, *config, request.max_bytes, mres, Err::<HelperResponse, TealDriveError>(e)));
            return res;
        },
    };
    let check = text_metadata_check(&metadata, config.limits.max_text_edit_size, request.max_bytes);
    if let Err(e) = check {
        let res = Err(e);
        assert(text_outcome(res, request.root_id, rel, *config, request.max_bytes, mres, Err::<HelperResponse, TealDriveError>(e)));
        return res;
    }
    let helper_request = text_helper_request(
        RequestId::new(),
        user_context,
        &request.root_id,
        &relative_path,
        request.max_bytes,
        config,
        root,
    );
    let answer = TextPreviewHelper::execute_helper(helper_client, &helper_request);
    let ghost root_id = request.root_id;
    let ghost max_bytes = request.max_bytes;
    let res = text_from_answer(request.root_id, relative_path, answer);
    assert(text_outcome(res, root_id, rel, *config, max_bytes, mres, answer));
    assert(TextPreviewHelper::answers(helper_client, helper_request, answer));
    res
}

} // verus!
