//! Folder creation, renames, moves and copies in the helper, as sequences
//! of decisions: each call looks at what the filesystem has answered so far
//! and says what to ask or do next, or how to answer.
use vstd::prelude::*;

use crate::config::{clone_allowed_root, clone_relative_path, AllowedRoot, RelativePath};
use crate::errors::TealDriveError;
use crate::fs::components::spec_path_starts_with;
use crate::fs::path::{parent_relative_path, spec_rsplit_slash, spec_validate_relative_path, ExistingPathResolution, NewTargetResolution};
use crate::helper::errors::{
    helper_error_from_io, helper_error_from_tealdrive, helper_precheck, helper_precheck_ok, spec_io_failure,
    spec_path_failure, IoContext, IoFailure,
};
use crate::helper::move_copy::{spec_transfer_target_path, transfer_target, transfer_target_path};
use crate::helper::refusal::{refuse, spec_refusal, Refusal};
use crate::helper::rename::new_name_check;
use crate::helper::types::{
    is_error_response, is_success_response, HelperCommand, HelperRequest, HelperResponse, HelperResponsePayload,
};
use crate::policy::roots::spec_allowed_root;

verus! {

/// What the filesystem has answered so far in one change; `None` where it
/// was not asked yet.
#[derive(Debug, Clone, PartialEq, Eq)]
pub struct WriteFacts {
    /// The entry changed, resolved inside its root without following a link.
    pub source: Option<Result<ExistingPathResolution, TealDriveError>>,
    /// The new name, resolved under its directory inside the root.
    pub target: Option<Result<NewTargetResolution, TealDriveError>>,
    /// Whether the source is a directory (following a link).
    pub source_is_dir: Option<bool>,
    /// Whether anything is already at the destination (without following a
    /// link).
    pub target_exists: Option<bool>,
    /// How the change itself went.
    pub done: Option<Result<(), IoFailure>>,
}

impl WriteFacts {
    /// Nothing asked yet.
    pub fn new() -> (f: Self)
        ensures
            f.source is None,
            f.target is None,
            f.source_is_dir is None,
            f.target_exists is None,
            f.done is None,
    {
        WriteFacts { source: None, target: None, source_is_dir: None, target_exists: None, done: None }
    }
}

/// The next step of a change.
#[derive(Debug)]
pub enum WriteNext {
    /// Resolve this path of this root, without following a link.
    ResolveSource(AllowedRoot, RelativePath),
    /// Resolve this new name under this directory of this root.
    ResolveTarget(AllowedRoot, RelativePath, String),
    /// See whether this path is a directory, following a link.
    IsDir(String),
    /// See whether anything is at this path, without following a link.
    Exists(String),
    /// Create this one directory.
    CreateDir(String),
    /// Rename this path to that one.
    Rename { from: String, to: String },
    /// Copy this file to that path.
    Copy { from: String, to: String },
    Answer(HelperResponse),
}

/// `next` answers with an error response of this kind, message and reason.
pub open spec fn write_error(
    next: WriteNext,
    request: HelperRequest,
    e: (crate::errors::ErrorKind, Seq<char>, Seq<char>),
) -> bool {
    next matches WriteNext::Answer(r) && is_error_response(r, request, e.0, e.1, e.2)
}

/// `next` answers with success and this message.
pub open spec fn write_done(next: WriteNext, request: HelperRequest, message: Seq<char>) -> bool {
    next matches WriteNext::Answer(r) && is_success_response(
        r,
        request,
        0,
        Some(message),
        HelperResponsePayload::NoPayload,
    )
}

/// Whether the helper's prechecks for `command` refuse the request.
pub open spec fn precheck_refuses(request: HelperRequest, command: HelperCommand, roots: Seq<AllowedRoot>) -> bool {
    request.command != command || request.uid == 0 || spec_allowed_root(roots, request.root_id.0@) is Err
}

/// The single new name a request carries, when it is one: given, with no
/// `/` or `\`.
pub open spec fn new_name_of(request: HelperRequest, missing: Refusal, invalid: Refusal) -> Result<Seq<char>, Refusal> {
    match request.target_relative_path {
        None => Err(missing),
        Some(t) => if t.0@.contains('/') || t.0@.contains('\\') {
            Err(invalid)
        } else {
            Ok(t.0@)
        },
    }
}

/// The next step of creating a folder: the helper's prechecks; the folder's
/// name; the name resolved under the request's directory; then the folder
/// created there.
pub open spec fn create_folder_next_ok(
    next: WriteNext,
    request: HelperRequest,
    roots: Seq<AllowedRoot>,
    facts: WriteFacts,
) -> bool {
    if precheck_refuses(request, HelperCommand::CreateFolder, roots) {
        next matches WriteNext::Answer(r) && helper_precheck_ok(Err(r), request, HelperCommand::CreateFolder, roots)
    } else {
        let root = spec_allowed_root(roots, request.root_id.0@)->Ok_0;
        match new_name_of(request, Refusal::MissingFolderName, Refusal::InvalidFolderName) {
            Err(refusal) => write_error(next, request, spec_refusal(refusal)),
            Ok(name) => match facts.target {
                None => next matches WriteNext::ResolveTarget(r, parent, n) && r == root && parent
                    == request.relative_path && n@ == name,
                Some(Err(e)) => write_error(next, request, spec_path_failure(e)),
                Some(Ok(target)) => match facts.done {
                    None => next matches WriteNext::CreateDir(p) && p@ == target.resolved_path@,
                    Some(Err(f)) => write_error(next, request, spec_io_failure(IoContext::CreateFolder, f)),
                    Some(Ok(_)) => write_done(next, request, "Folder created."@),
                },
            },
        }
    }
}

/// The next step of a rename: the helper's prechecks; the new name; the
/// entry resolved; the new name resolved beside it; nothing there yet; then
/// the rename.
pub open spec fn rename_next_ok(next: WriteNext, request: HelperRequest, roots: Seq<AllowedRoot>, facts: WriteFacts) -> bool {
    if precheck_refuses(request, HelperCommand::Rename, roots) {
        next matches WriteNext::Answer(r) && helper_precheck_ok(Err(r), request, HelperCommand::Rename, roots)
    } else {
        let root = spec_allowed_root(roots, request.root_id.0@)->Ok_0;
        match new_name_of(request, Refusal::MissingNewName, Refusal::InvalidNewName) {
            Err(refusal) => write_error(next, request, spec_refusal(refusal)),
            Ok(name) => match facts.source {
                None => next matches WriteNext::ResolveSource(r, p) && r == root && p == request.relative_path,
                Some(Err(e)) => write_error(next, request, spec_path_failure(e)),
                Some(Ok(source)) => match facts.target {
                    None => next matches WriteNext::ResolveTarget(r, parent, n) && r == root && parent.0@
                        == spec_rsplit_slash(source.relative_path.0@).0 && n@ == name,
                    Some(Err(e)) => write_error(next, request, spec_path_failure(e)),
                    Some(Ok(target)) => match facts.target_exists {
                        None => next matches WriteNext::Exists(p) && p@ == target.resolved_path@,
                        Some(true) => write_error(next, request, spec_refusal(Refusal::TargetExists)),
                        Some(false) => match facts.done {
                            None => next matches WriteNext::Rename { from, to } && from@ == source.resolved_path@
                                && to@ == target.resolved_path@,
                            Some(Err(f)) => write_error(next, request, spec_io_failure(IoContext::Rename, f)),
                            Some(Ok(_)) => write_done(next, request, "Renamed."@),
                        },
                    },
                },
            },
        }
    }
}

/// The destination a move or copy names, when it is one: given, valid and
/// not empty.
pub open spec fn transfer_target_of(request: HelperRequest) -> Result<Seq<char>, (crate::errors::ErrorKind, Seq<char>, Seq<char>)> {
    match request.target_relative_path {
        None => Err(spec_refusal(Refusal::MissingTarget)),
        Some(t) => match spec_validate_relative_path(t.0@) {
            Err(e) => Err(spec_path_failure(e)),
            Ok(v) => if v.len() == 0 {
                Err(spec_refusal(Refusal::EmptyTarget))
            } else {
                Ok(v)
            },
        },
    }
}

/// The next step of a move (`copy` false) or copy: the helper's prechecks;
/// the destination; the source resolved; for a copy, the source may not be
/// a directory; the destination in the source's root with nothing there
/// yet; then the move or copy.
pub open spec fn transfer_next_ok(
    next: WriteNext,
    request: HelperRequest,
    roots: Seq<AllowedRoot>,
    facts: WriteFacts,
    copy: bool,
) -> bool {
    let command = if copy {
        HelperCommand::Copy
    } else {
        HelperCommand::Move
    };
    if precheck_refuses(request, command, roots) {
        next matches WriteNext::Answer(r) && helper_precheck_ok(Err(r), request, command, roots)
    } else {
        let root = spec_allowed_root(roots, request.root_id.0@)->Ok_0;
        match transfer_target_of(request) {
            Err(e) => write_error(next, request, e),
            Ok(target) => match facts.source {
                None => next matches WriteNext::ResolveSource(r, p) && r == root && p == request.relative_path,
                Some(Err(e)) => write_error(next, request, spec_path_failure(e)),
                Some(Ok(source)) => if copy && facts.source_is_dir is None {
                    next matches WriteNext::IsDir(p) && p@ == source.resolved_path@
                } else if copy && facts.source_is_dir == Some(true) {
                    write_error(next, request, spec_refusal(Refusal::DirectoryCopyUnsupported))
                } else {
                    match spec_transfer_target_path(source.root.canonical_base@, target) {
                        Err(refusal) => write_error(next, request, spec_refusal(refusal)),
                        Ok(dest) => match facts.target_exists {
                            None => next matches WriteNext::Exists(p) && p@ == dest,
                            Some(true) => write_error(next, request, spec_refusal(Refusal::TargetExists)),
                            Some(false) => match facts.done {
                                None => if copy {
                                    next matches WriteNext::Copy { from, to } && from@ == source.resolved_path@
                                        && to@ == dest
                                } else {
                                    next matches WriteNext::Rename { from, to } && from@ == source.resolved_path@
                                        && to@ == dest
                                },
                                Some(Err(f)) => write_error(
                                    next,
                                    request,
                                    spec_io_failure(
                                        if copy {
                                            IoContext::Copy
                                        } else {
                                            IoContext::Move
                                        },
                                        f,
                                    ),
                                ),
                                Some(Ok(_)) => write_done(
                                    next,
                                    request,
                                    if copy {
                                        "Copied."@
                                    } else {
                                        "Moved."@
                                    },
                                ),
                            },
                        },
                    }
                },
            },
        }
    }
}

/// The next step of creating the folder the request names.
pub fn create_folder_next(request: &HelperRequest, roots: &[AllowedRoot], facts: &WriteFacts) -> (next: WriteNext)
    ensures
        create_folder_next_ok(next, *request, roots@, *facts),
{
    let root = match helper_precheck(request, HelperCommand::CreateFolder, roots) {
        Ok(r) => r,
        Err(response) => return WriteNext::Answer(response),
    };
    let name = match new_name_check(request, Refusal::MissingFolderName, Refusal::InvalidFolderName) {
        Ok(n) => n,
        Err(response) => return WriteNext::Answer(response),
    };
    let target = match &facts.target {
        None => return WriteNext::ResolveTarget(clone_allowed_root(root), clone_relative_path(&request.relative_path), name),
        Some(Err(e)) => return WriteNext::Answer(helper_error_from_tealdrive(request, *e)),
        Some(Ok(t)) => t,
    };
    match &facts.done {
        None => WriteNext::CreateDir(target.resolved_path.clone()),
        Some(Err(f)) => WriteNext::Answer(helper_error_from_io(request, IoContext::CreateFolder, *f)),
        Some(Ok(())) => WriteNext::Answer(HelperResponse::operation_done(request, "Folder created.")),
    }
}

/// The next step of the rename the request names.
pub fn rename_next(request: &HelperRequest, roots: &[AllowedRoot], facts: &WriteFacts) -> (next: WriteNext)
    ensures
        rename_next_ok(next, *request, roots@, *facts),
{
    let root = match helper_precheck(request, HelperCommand::Rename, roots) {
        Ok(r) => r,
        Err(response) => return WriteNext::Answer(response),
    };
    let name = match new_name_check(request, Refusal::MissingNewName, Refusal::InvalidNewName) {
        Ok(n) => n,
        Err(response) => return WriteNext::Answer(response),
    };
    let source = match &facts.source {
        None => return WriteNext::ResolveSource(clone_allowed_root(root), clone_relative_path(&request.relative_path)),
        Some(Err(e)) => return WriteNext::Answer(helper_error_from_tealdrive(request, *e)),
        Some(Ok(s)) => s,
    };
    let target = match &facts.target {
        None => return WriteNext::ResolveTarget(
            clone_allowed_root(root),
            parent_relative_path(&source.relative_path),
            name,
        ),
        Some(Err(e)) => return WriteNext::Answer(helper_error_from_tealdrive(request, *e)),
        Some(Ok(t)) => t,
    };
    match facts.target_exists {
        None => return WriteNext::Exists(target.resolved_path.clone()),
        Some(true) => return WriteNext::Answer(refuse(request, Refusal::TargetExists)),
        Some(false) => {},
    }
    match &facts.done {
        None => WriteNext::Rename { from: source.resolved_path.clone(), to: target.resolved_path.clone() },
        Some(Err(f)) => WriteNext::Answer(helper_error_from_io(request, IoContext::Rename, *f)),
        Some(Ok(())) => WriteNext::Answer(HelperResponse::operation_done(request, "Renamed.")),
    }
}

/// The next step of the move (`copy` false) or copy the request names.
pub fn transfer_next(request: &HelperRequest, roots: &[AllowedRoot], facts: &WriteFacts, copy: bool) -> (next:
    WriteNext)
    ensures
        transfer_next_ok(next, *request, roots@, *facts, copy),
{
    let command = if copy {
        HelperCommand::Copy
    } else {
        HelperCommand::Move
    };
    let root = match helper_precheck(request, command, roots) {
        Ok(r) => r,
        Err(response) => return WriteNext::Answer(response),
    };
    let target = match transfer_target(request) {
        Ok(t) => t,
        Err(response) => return WriteNext::Answer(response),
    };
    let source = match &facts.source {
        None => return WriteNext::ResolveSource(clone_allowed_root(root), clone_relative_path(&request.relative_path)),
        Some(Err(e)) => return WriteNext::Answer(helper_error_from_tealdrive(request, *e)),
        Some(Ok(s)) => s,
    };
    if copy {
        match facts.source_is_dir {
            None => return WriteNext::IsDir(source.resolved_path.clone()),
            Some(true) => return WriteNext::Answer(refuse(request, Refusal::DirectoryCopyUnsupported)),
            Some(false) => {},
        }
    }
    let dest = match transfer_target_path(source.root.canonical_base.as_str(), &target) {
        Ok(d) => d,
        Err(refusal) => return WriteNext::Answer(refuse(request, refusal)),
    };
    match facts.target_exists {
        None => return WriteNext::Exists(dest),
        Some(true) => return WriteNext::Answer(refuse(request, Refusal::TargetExists)),
        Some(false) => {},
    }
    match &facts.done {
        None => if copy {
            WriteNext::Copy { from: source.resolved_path.clone(), to: dest }
        } else {
            WriteNext::Rename { from: source.resolved_path.clone(), to: dest }
        },
        Some(Err(f)) => WriteNext::Answer(
            helper_error_from_io(
                request,
                if copy {
                    IoContext::Copy
                } else {
                    IoContext::Move
                },
                *f,
            ),
        ),
        Some(Ok(())) => WriteNext::Answer(
            HelperResponse::operation_done(
                request,
                if copy {
                    "Copied."
                } else {
                    "Moved."
                },
            ),
        ),
    }
}

/// No rename, move or copy writes over anything: each goes ahead only once
/// the filesystem said nothing is at the destination; a copy never copies a
/// directory; and a move or copy stays in the source's root.
pub proof fn lemma_changes_never_overwrite(
    next: WriteNext,
    request: HelperRequest,
    roots: Seq<AllowedRoot>,
    facts: WriteFacts,
    copy: bool,
)
    ensures
        rename_next_ok(next, request, roots, facts) && next is Rename ==> facts.target_exists == Some(false),
        transfer_next_ok(next, request, roots, facts, copy) && (next is Rename || next is Copy) ==> {
            &&& facts.target_exists == Some(false)
            &&& facts.source matches Some(Ok(source))
            &&& spec_path_starts_with(
                if next is Rename {
                    next->Rename_to@
                } else {
                    next->Copy_to@
                },
                source.root.canonical_base@,
            )
        },
        transfer_next_ok(next, request, roots, facts, copy) && next is Copy ==> copy && facts.source_is_dir
            == Some(false),
{
}

} // verus!
