//! Restoring a trashed entry in the helper, as a sequence of decisions: each
//! call looks at what the filesystem has answered so far and says what to
//! ask next, what to do, or how to answer.
use vstd::prelude::*;

use crate::config::AllowedRoot;
use crate::fs::components::{spec_path_join, spec_path_starts_with};
use crate::fs::filename::valid_filename;
use crate::helper::errors::{helper_error_from_io, helper_precheck, helper_precheck_ok, spec_io_failure, IoContext, IoFailure};
use crate::helper::refusal::{refuse, spec_refusal, Refusal};
use crate::helper::trash::{
    original_path, original_root, restore_trash_id, trash_dir_name, trash_item_paths, trash_paths,
};
use crate::helper::types::{
    is_error_response, is_success_response, HelperCommand, HelperRequest, HelperResponse,
    HelperResponsePayload,
};
use crate::policy::roots::spec_allowed_root;
use crate::trash::model::TrashEntry;

verus! {

/// What reading a trash record gave.
#[derive(Debug, Clone, PartialEq, Eq)]
pub enum TrashRecordRead {
    /// The record could not be read.
    Missing,
    /// The record was read but is not a trash entry.
    Corrupt,
    Found(TrashEntry),
}

/// What the filesystem has answered so far in one restore; `None` where it
/// was not asked yet.
#[derive(Debug, Clone, PartialEq, Eq)]
pub struct RestoreFacts {
    /// The canonical path of the request's root, when it has one.
    pub canonical_base: Option<Option<String>>,
    pub record: Option<TrashRecordRead>,
    /// Whether the trashed file is there (without following a link).
    pub trash_file_exists: Option<bool>,
    /// The canonical path of the entry's original root, when it has one.
    pub original_base: Option<Option<String>>,
    /// Whether something is already at the original location.
    pub destination_exists: Option<bool>,
    /// How moving the trashed file back went.
    pub renamed: Option<Result<(), IoFailure>>,
}

impl RestoreFacts {
    /// Nothing asked yet.
    pub fn new() -> (f: Self)
        ensures
            f.canonical_base is None,
            f.record is None,
            f.trash_file_exists is None,
            f.original_base is None,
            f.destination_exists is None,
            f.renamed is None,
    {
        RestoreFacts {
            canonical_base: None,
            record: None,
            trash_file_exists: None,
            original_base: None,
            destination_exists: None,
            renamed: None,
        }
    }
}

/// The next step of a restore.
#[derive(Debug)]
pub enum RestoreNext {
    /// Find the canonical path of the request's root.
    CanonicalizeRoot(String),
    /// Read and decode the trash record at this path.
    ReadRecord(String),
    /// See whether the trashed file is at this path.
    CheckTrashFile(String),
    /// Find the canonical path of the entry's original root.
    CanonicalizeOriginalRoot(String),
    /// See whether anything is at this original location.
    CheckDestination(String),
    /// Move the trashed file back.
    Rename { from: String, to: String },
    /// Answer, after removing the record when one is named.
    Finish { response: HelperResponse, remove_record: Option<String> },
}

/// `next` answers with the refusal `refusal` and removes nothing.
pub open spec fn refused_with(next: RestoreNext, request: HelperRequest, refusal: Refusal) -> bool {
    next matches RestoreNext::Finish { response, remove_record } && remove_record is None
        && is_error_response(
        response,
        request,
        spec_refusal(refusal).0,
        spec_refusal(refusal).1,
        spec_refusal(refusal).2,
    )
}

/// The trashed file and the record of the entry `trash_id` under the
/// canonical root `base`.
pub open spec fn spec_trash_item(base: Seq<char>, trash_id: Seq<char>) -> (Seq<char>, Seq<char>) {
    let trash_dir = spec_path_join(base, trash_dir_name());
    (
        spec_path_join(spec_path_join(trash_dir, seq!['f', 'i', 'l', 'e', 's']), trash_id),
        spec_path_join(
            spec_path_join(trash_dir, seq!['i', 'n', 'f', 'o']),
            trash_id + seq!['.', 'm', 's', 'g', 'p', 'a', 'c', 'k'],
        ),
    )
}

/// The next step of a restore, given what the filesystem answered so far:
/// the helper's prechecks; a valid trash id; the root's canonical path; the
/// record; the trashed file; the original root and its canonical path; an
/// original location inside that root with nothing there; then the move
/// back, whose failure is answered as a filesystem failure and whose success
/// removes the record.
pub open spec fn restore_next_ok(
    next: RestoreNext,
    request: HelperRequest,
    roots: Seq<AllowedRoot>,
    facts: RestoreFacts,
) -> bool {
    if request.command != HelperCommand::RestoreFromTrash || request.uid == 0 || spec_allowed_root(
        roots,
        request.root_id.0@,
    ) is Err {
        next matches RestoreNext::Finish { response, remove_record } && remove_record is None
            && helper_precheck_ok(
            Err(response),
            request,
            HelperCommand::RestoreFromTrash,
            roots,
        )
    } else if !valid_filename(request.relative_path.0@) {
        refused_with(next, request, Refusal::InvalidTrashId)
    } else {
        let root = spec_allowed_root(roots, request.root_id.0@)->Ok_0;
        let trash_id = request.relative_path.0@;
        match facts.canonical_base {
            None => next matches RestoreNext::CanonicalizeRoot(p) && p@ == root.base_path@,
            Some(None) => refused_with(next, request, Refusal::RootUnreachable),
            Some(Some(base)) => {
                let (trash_file, info) = spec_trash_item(base@, trash_id);
                match facts.record {
                    None => next matches RestoreNext::ReadRecord(p) && p@ == info,
                    Some(TrashRecordRead::Missing) => refused_with(next, request, Refusal::TrashEntryNotFound),
                    Some(TrashRecordRead::Corrupt) => refused_with(next, request, Refusal::TrashMetadataCorrupt),
                    Some(TrashRecordRead::Found(entry)) => match facts.trash_file_exists {
                        None => next matches RestoreNext::CheckTrashFile(p) && p@ == trash_file,
                        Some(false) => refused_with(next, request, Refusal::TrashFileMissing),
                        Some(true) => match spec_allowed_root(roots, entry.original_root_id.0@) {
                            Err(_) => refused_with(next, request, Refusal::OriginalRootMissing),
                            Ok(original) => match facts.original_base {
                                None => next matches RestoreNext::CanonicalizeOriginalRoot(p) && p@
                                    == original.base_path@,
                                Some(None) => refused_with(next, request, Refusal::OriginalRootUnreachable),
                                Some(Some(ob)) => {
                                    let dest = spec_path_join(ob@, entry.original_relative_path.0@);
                                    if !spec_path_starts_with(dest, ob@) {
                                        refused_with(next, request, Refusal::OriginalPathEscapesRoot)
                                    } else {
                                        match facts.destination_exists {
                                            None => next matches RestoreNext::CheckDestination(p) && p@ == dest,
                                            Some(true) => refused_with(next, request, Refusal::OriginalExists),
                                            Some(false) => match facts.renamed {
                                                None => next matches RestoreNext::Rename { from, to } && from@
                                                    == trash_file && to@ == dest,
                                                Some(Err(f)) => next matches RestoreNext::Finish {
                                                    response,
                                                    remove_record,
                                                } && remove_record is None && is_error_response(
                                                    response,
                                                    request,
                                                    spec_io_failure(IoContext::Trash, f).0,
                                                    spec_io_failure(IoContext::Trash, f).1,
                                                    spec_io_failure(IoContext::Trash, f).2,
                                                ),
                                                Some(Ok(_)) => next matches RestoreNext::Finish {
                                                    response,
                                                    remove_record,
                                                } && remove_record matches Some(r) && r@ == info
                                                    && is_success_response(
                                                    response,
                                                    request,
                                                    0,
                                                    Some("Restored."@),
                                                    HelperResponsePayload::NoPayload,
                                                ),
                                            },
                                        }
                                    }
                                },
                            },
                        },
                    },
                }
            },
        }
    }
}

fn finish_refused(request: &HelperRequest, refusal: Refusal) -> (next: RestoreNext)
    ensures
        refused_with(next, *request, refusal),
{
    RestoreNext::Finish { response: refuse(request, refusal), remove_record: None }
}

/// The next step of restoring the trash entry the request names.
pub fn restore_next(request: &HelperRequest, roots: &[AllowedRoot], facts: &RestoreFacts) -> (next: RestoreNext)
    ensures
        restore_next_ok(next, *request, roots@, *facts),
{
    let root = match helper_precheck(request, HelperCommand::RestoreFromTrash, roots) {
        Ok(r) => r,
        Err(response) => return RestoreNext::Finish { response, remove_record: None },
    };
    let trash_id = match restore_trash_id(request) {
        Ok(id) => id,
        Err(response) => return RestoreNext::Finish { response, remove_record: None },
    };
    let base = match &facts.canonical_base {
        None => return RestoreNext::CanonicalizeRoot(root.base_path.clone()),
        Some(None) => return finish_refused(request, Refusal::RootUnreachable),
        Some(Some(b)) => b,
    };
    let paths = trash_paths(base.as_str());
    let (trash_file, info) = trash_item_paths(&paths, trash_id.as_str());
    let entry = match &facts.record {
        None => return RestoreNext::ReadRecord(info),
        Some(TrashRecordRead::Missing) => return finish_refused(request, Refusal::TrashEntryNotFound),
        Some(TrashRecordRead::Corrupt) => return finish_refused(request, Refusal::TrashMetadataCorrupt),
        Some(TrashRecordRead::Found(e)) => e,
    };
    match facts.trash_file_exists {
        None => return RestoreNext::CheckTrashFile(trash_file),
        Some(false) => return finish_refused(request, Refusal::TrashFileMissing),
        Some(true) => {},
    }
    let original = match original_root(roots, entry) {
        Ok(r) => r,
        Err(refusal) => return finish_refused(request, refusal),
    };
    let original_base = match &facts.original_base {
        None => return RestoreNext::CanonicalizeOriginalRoot(original.base_path.clone()),
        Some(None) => return finish_refused(request, Refusal::OriginalRootUnreachable),
        Some(Some(b)) => b,
    };
    let dest = match original_path(original_base.as_str(), entry) {
        Ok(d) => d,
        Err(refusal) => return finish_refused(request, refusal),
    };
    match facts.destination_exists {
        None => return RestoreNext::CheckDestination(dest),
        Some(true) => return finish_refused(request, Refusal::OriginalExists),
        Some(false) => {},
    }
    match &facts.renamed {
        None => RestoreNext::Rename { from: trash_file, to: dest },
        Some(Err(f)) => RestoreNext::Finish {
            response: helper_error_from_io(request, IoContext::Trash, *f),
            remove_record: None,
        },
        Some(Ok(())) => RestoreNext::Finish {
            response: HelperResponse::operation_done(request, "Restored."),
            remove_record: Some(info),
        },
    }
}

/// A restore moves a trashed file back only into the entry's original root,
/// and only where the filesystem said nothing is; and it moves the file it
/// found in the trash.
pub proof fn lemma_restore_moves_back_safely(
    next: RestoreNext,
    request: HelperRequest,
    roots: Seq<AllowedRoot>,
    facts: RestoreFacts,
)
    requires
        restore_next_ok(next, request, roots, facts),
        next is Rename,
    ensures
        facts.destination_exists == Some(false),
        facts.trash_file_exists == Some(true),
        facts.record matches Some(TrashRecordRead::Found(entry)) && facts.original_base matches Some(
            Some(ob),
        ) && spec_allowed_root(roots, entry.original_root_id.0@) matches Ok(original)
            && spec_path_starts_with(next->to@, ob@),
{
}

} // verus!
