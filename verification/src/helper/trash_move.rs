//! Moving an entry to the trash in the helper, as a sequence of decisions:
//! each call looks at what the filesystem has answered so far and says what
//! to ask or do next, or how to answer.
use vstd::prelude::*;

use crate::config::{clone_allowed_root, clone_relative_path, AllowedRoot, RelativePath, RootId};
use crate::errors::TealDriveError;
use crate::fs::components::{spec_file_name, spec_path_join, spec_path_starts_with};
use crate::fs::path::ExistingPathResolution;
use crate::helper::errors::{
    helper_error_from_io, helper_error_from_tealdrive, helper_precheck, helper_precheck_ok, spec_io_failure,
    spec_path_failure, IoContext, IoFailure,
};
use crate::helper::refusal::{refuse, spec_refusal, Refusal};
use crate::helper::restore::spec_trash_item;
use crate::helper::trash::{
    display_name, is_hyphenated_v4_uuid, new_trash_entry, new_trash_id, source_in_trash, trash_dir_name,
    trash_entry_response, trash_item_paths, trash_paths,
};
use crate::helper::types::{
    is_error_response, is_success_response, HelperCommand, HelperRequest, HelperResponse,
    HelperResponsePayload,
};
use crate::policy::roots::spec_allowed_root;
use crate::trash::model::TrashEntry;

verus! {

/// How writing a trash record went.
#[derive(Debug, Clone, Copy, PartialEq, Eq, Structural)]
pub enum RecordWrite {
    SerializeFailed,
    WriteFailed,
    Written,
}

/// What the filesystem has answered so far in one move to the trash; `None`
/// where it was not asked yet.
#[derive(Debug, Clone, PartialEq, Eq)]
pub struct TrashMoveFacts {
    /// The source, resolved inside its root without following a link.
    pub source: Option<Result<ExistingPathResolution, TealDriveError>>,
    /// Whether the trash's files directory is there.
    pub files_dir_ready: Option<bool>,
    /// Whether the trash's record directory is there.
    pub info_dir_ready: Option<bool>,
    /// The id this move files the entry under, once one was drawn.
    pub trash_id: Option<String>,
    /// The time of the move, in seconds since the epoch.
    pub now: Option<u64>,
    pub record_written: Option<RecordWrite>,
    /// How moving the source into the trash went.
    pub moved: Option<Result<(), IoFailure>>,
}

impl TrashMoveFacts {
    /// Nothing asked yet.
    pub fn new() -> (f: Self)
        ensures
            f.source is None,
            f.files_dir_ready is None,
            f.info_dir_ready is None,
            f.trash_id is None,
            f.now is None,
            f.record_written is None,
            f.moved is None,
    {
        TrashMoveFacts {
            source: None,
            files_dir_ready: None,
            info_dir_ready: None,
            trash_id: None,
            now: None,
            record_written: None,
            moved: None,
        }
    }
}

/// The next step of a move to the trash.
#[derive(Debug)]
pub enum TrashMoveNext {
    /// Resolve this path of this root, without following a link.
    ResolveSource(AllowedRoot, RelativePath),
    /// Create this directory and any missing parents.
    CreateDir(String),
    /// File the entry under this fresh id.
    UseTrashId(String),
    /// Read the clock.
    ReadClock,
    /// Serialize this record and write it at this path.
    WriteRecord { path: String, entry: TrashEntry },
    /// Move the source into the trash; if that fails, remove the record.
    MoveIn { from: String, to: String },
    /// Answer, after removing the record when one is named.
    Finish { response: HelperResponse, remove_record: Option<String> },
}

/// `next` answers with `refusal` and removes nothing.
pub open spec fn trash_refused_with(next: TrashMoveNext, request: HelperRequest, refusal: Refusal) -> bool {
    next matches TrashMoveNext::Finish { response, remove_record } && remove_record is None
        && is_error_response(
        response,
        request,
        spec_refusal(refusal).0,
        spec_refusal(refusal).1,
        spec_refusal(refusal).2,
    )
}

/// The name a trashed entry is shown under: the last component of where it
/// was, else its relative path.
pub open spec fn spec_display_name(resolved: Seq<char>, relative: Seq<char>) -> Seq<char> {
    match spec_file_name(resolved) {
        Some(n) => n,
        None => relative,
    }
}

/// `e` is the record of the entry at `source`, filed under `id` at `now`.
pub open spec fn record_of(
    e: TrashEntry,
    id: Seq<char>,
    root_id: RootId,
    source: ExistingPathResolution,
    now: u64,
    request: HelperRequest,
) -> bool {
    &&& e.trash_id@ == id
    &&& e.original_root_id == root_id
    &&& e.original_relative_path == source.relative_path
    &&& e.trash_relative_path.0@ == seq!['f', 'i', 'l', 'e', 's', '/'] + id
    &&& e.display_name@ == spec_display_name(source.resolved_path@, source.relative_path.0@)
    &&& e.deleted_at == now
    &&& e.username == request.username
    &&& e.uid == request.uid
}

/// The next step of a move to the trash, given what the filesystem answered
/// so far: the helper's prechecks; the source resolved in its root and not
/// inside the trash; the trash's two directories; a fresh id; the clock; the
/// record written; then the move, whose failure removes the record and is
/// answered as a filesystem failure, and whose success answers with the
/// entry.
pub open spec fn trash_move_next_ok(
    next: TrashMoveNext,
    request: HelperRequest,
    roots: Seq<AllowedRoot>,
    facts: TrashMoveFacts,
) -> bool {
    if request.command != HelperCommand::MoveToTrash || request.uid == 0 || spec_allowed_root(
        roots,
        request.root_id.0@,
    ) is Err {
        next matches TrashMoveNext::Finish { response, remove_record } && remove_record is None
            && helper_precheck_ok(Err(response), request, HelperCommand::MoveToTrash, roots)
    } else {
        let root = spec_allowed_root(roots, request.root_id.0@)->Ok_0;
        match facts.source {
            None => next matches TrashMoveNext::ResolveSource(r, p) && r == root && p == request.relative_path,
            Some(Err(e)) => next matches TrashMoveNext::Finish { response, remove_record } && remove_record is None
                && is_error_response(
                response,
                request,
                spec_path_failure(e).0,
                spec_path_failure(e).1,
                spec_path_failure(e).2,
            ),
            Some(Ok(source)) => {
                let trash_dir = spec_path_join(source.root.canonical_base@, trash_dir_name());
                if spec_path_starts_with(source.resolved_path@, trash_dir) {
                    trash_refused_with(next, request, Refusal::TrashPathDenied)
                } else {
                    match facts.files_dir_ready {
                        None => next matches TrashMoveNext::CreateDir(d) && d@ == spec_path_join(
                            trash_dir,
                            seq!['f', 'i', 'l', 'e', 's'],
                        ),
                        Some(false) => trash_refused_with(next, request, Refusal::TrashDirFailed),
                        Some(true) => match facts.info_dir_ready {
                            None => next matches TrashMoveNext::CreateDir(d) && d@ == spec_path_join(
                                trash_dir,
                                seq!['i', 'n', 'f', 'o'],
                            ),
                            Some(false) => trash_refused_with(next, request, Refusal::TrashInfoDirFailed),
                            Some(true) => match facts.trash_id {
                                None => next matches TrashMoveNext::UseTrashId(id) && is_hyphenated_v4_uuid(
                                    id@,
                                ),
                                Some(id) => match facts.now {
                                    None => next is ReadClock,
                                    Some(now) => {
                                        let (trash_file, info) = spec_trash_item(
                                            source.root.canonical_base@,
                                            id@,
                                        );
                                        match facts.record_written {
                                            None => next matches TrashMoveNext::WriteRecord { path, entry }
                                                && path@ == info && record_of(
                                                entry,
                                                id@,
                                                root.root_id,
                                                source,
                                                now,
                                                request,
                                            ),
                                            Some(RecordWrite::SerializeFailed) => trash_refused_with(
                                                next,
                                                request,
                                                Refusal::TrashSerializeFailed,
                                            ),
                                            Some(RecordWrite::WriteFailed) => trash_refused_with(
                                                next,
                                                request,
                                                Refusal::TrashWriteInfoFailed,
                                            ),
                                            Some(RecordWrite::Written) => match facts.moved {
                                                None => next matches TrashMoveNext::MoveIn { from, to } && from@
                                                    == source.resolved_path@ && to@ == trash_file,
                                                Some(Err(f)) => next matches TrashMoveNext::Finish {
                                                    response,
                                                    remove_record,
                                                } && remove_record matches Some(r) && r@ == info
                                                    && is_error_response(
                                                    response,
                                                    request,
                                                    spec_io_failure(IoContext::Trash, f).0,
                                                    spec_io_failure(IoContext::Trash, f).1,
                                                    spec_io_failure(IoContext::Trash, f).2,
                                                ),
                                                Some(Ok(_)) => {
                                                    &&& next matches TrashMoveNext::Finish { response, remove_record }
                                                    &&& remove_record is None
                                                    &&& is_success_response(
                                                        response,
                                                        request,
                                                        0,
                                                        Some("Moved to trash."@),
                                                        response.payload,
                                                    )
                                                    &&& response.payload matches HelperResponsePayload::TrashEntry(t)
                                                    &&& t.trash_id@ == id@
                                                    &&& t.display_name@ == spec_display_name(
                                                        source.resolved_path@,
                                                        source.relative_path.0@,
                                                    )
                                                    &&& t.deleted_at == now
                                                    &&& t.original_relative_path == source.relative_path
                                                    &&& t.original_root_id == root.root_id
                                                },
                                            },
                                        }
                                    },
                                },
                            },
                        },
                    }
                }
            },
        }
    }
}

fn finish_trash_refused(request: &HelperRequest, refusal: Refusal) -> (next: TrashMoveNext)
    ensures
        trash_refused_with(next, *request, refusal),
{
    TrashMoveNext::Finish { response: refuse(request, refusal), remove_record: None }
}

/// The next step of moving the entry the request names to its root's trash.
pub fn trash_move_next(request: &HelperRequest, roots: &[AllowedRoot], facts: &TrashMoveFacts) -> (next:
    TrashMoveNext)
    ensures
        trash_move_next_ok(next, *request, roots@, *facts),
{
    let root = match helper_precheck(request, HelperCommand::MoveToTrash, roots) {
        Ok(r) => r,
        Err(response) => return TrashMoveNext::Finish { response, remove_record: None },
    };
    let source = match &facts.source {
        None => return TrashMoveNext::ResolveSource(clone_allowed_root(root), clone_relative_path(&request.relative_path)),
        Some(Err(e)) => return TrashMoveNext::Finish {
            response: helper_error_from_tealdrive(request, *e),
            remove_record: None,
        },
        Some(Ok(s)) => s,
    };
    let paths = trash_paths(source.root.canonical_base.as_str());
    if source_in_trash(source.resolved_path.as_str(), &paths) {
        return finish_trash_refused(request, Refusal::TrashPathDenied);
    }
    match facts.files_dir_ready {
        None => return TrashMoveNext::CreateDir(paths.files_dir),
        Some(false) => return finish_trash_refused(request, Refusal::TrashDirFailed),
        Some(true) => {},
    }
    match facts.info_dir_ready {
        None => return TrashMoveNext::CreateDir(paths.info_dir),
        Some(false) => return finish_trash_refused(request, Refusal::TrashInfoDirFailed),
        Some(true) => {},
    }
    let id = match &facts.trash_id {
        None => return TrashMoveNext::UseTrashId(new_trash_id()),
        Some(id) => id,
    };
    let now = match facts.now {
        None => return TrashMoveNext::ReadClock,
        Some(t) => t,
    };
    let (trash_file, info) = trash_item_paths(&paths, id.as_str());
    let entry = new_trash_entry(
        id.as_str(),
        root,
        &source.relative_path,
        display_name(source.resolved_path.as_str(), &source.relative_path),
        now,
        request,
    );
    match facts.record_written {
        None => return TrashMoveNext::WriteRecord { path: info, entry },
        Some(RecordWrite::SerializeFailed) => return finish_trash_refused(request, Refusal::TrashSerializeFailed),
        Some(RecordWrite::WriteFailed) => return finish_trash_refused(request, Refusal::TrashWriteInfoFailed),
        Some(RecordWrite::Written) => {},
    }
    match &facts.moved {
        None => TrashMoveNext::MoveIn { from: source.resolved_path.clone(), to: trash_file },
        Some(Err(f)) => TrashMoveNext::Finish {
            response: helper_error_from_io(request, IoContext::Trash, *f),
            remove_record: Some(info),
        },
        Some(Ok(())) => TrashMoveNext::Finish { response: trash_entry_response(request, entry), remove_record: None },
    }
}

/// A move to the trash never moves anything that is already inside the
/// trash; it moves the resolved source, into the trash's files directory,
/// and only once the entry's record is written.
pub proof fn lemma_trash_move_is_safe(
    next: TrashMoveNext,
    request: HelperRequest,
    roots: Seq<AllowedRoot>,
    facts: TrashMoveFacts,
)
    requires
        trash_move_next_ok(next, request, roots, facts),
        next is MoveIn,
    ensures
        facts.record_written == Some(RecordWrite::Written),
        ({
            &&& facts.source matches Some(Ok(source))
            &&& next->from@ == source.resolved_path@
            &&& !spec_path_starts_with(
                source.resolved_path@,
                spec_path_join(source.root.canonical_base@, trash_dir_name()),
            )
            &&& facts.trash_id matches Some(id)
            &&& next->to@ == spec_path_join(
                spec_path_join(
                    spec_path_join(source.root.canonical_base@, trash_dir_name()),
                    seq!['f', 'i', 'l', 'e', 's'],
                ),
                id@,
            )
        }),
{
}

} // verus!
