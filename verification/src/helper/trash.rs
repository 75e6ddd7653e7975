//! The trash in the helper: where trashed entries and their records go, and
//! what a restore may do.
use vstd::prelude::*;

use crate::config::{clone_relative_path, clone_root_id, AllowedRoot, RelativePath};
use crate::fs::components::{file_name, path_join, path_starts_with, spec_file_name, spec_path_join, spec_path_starts_with};
use crate::fs::filename::{valid_filename, SafeFileName};
use crate::helper::refusal::{refuse, spec_refusal, Refusal};
use crate::helper::types::{
    is_error_response, is_success_response, HelperRequest, HelperResponse, HelperResponsePayload,
    HelperTrashEntry,
};
use crate::policy::roots::{require_allowed_root, spec_allowed_root};
use crate::strings::concat;
use crate::trash::model::TrashEntry;

verus! {

/// The trash directory's name under each root.
pub const TRASH_DIR_NAME: &'static str = ".tealdrive-trash";

pub open spec fn trash_dir_name() -> Seq<char> {
    seq!['.', 't', 'e', 'a', 'l', 'd', 'r', 'i', 'v', 'e', '-', 't', 'r', 'a', 's', 'h']
}

/// A lowercase hexadecimal digit.
pub open spec fn is_lower_hex(c: char) -> bool {
    (48 <= c as u32 <= 57) || (97 <= c as u32 <= 102)
}

/// The hyphenated text of a version-4 UUID: 36 characters, dashes at places
/// 8, 13, 18 and 23, lowercase hex digits elsewhere, the version digit `4`
/// at place 14 and one of `8`, `9`, `a`, `b` at place 19.
pub open spec fn is_hyphenated_v4_uuid(s: Seq<char>) -> bool {
    &&& s.len() == 36
    &&& forall|i: int|
        0 <= i < 36 ==> if i == 8 || i == 13 || i == 18 || i == 23 {
            #[trigger] s[i] == '-'
        } else {
            is_lower_hex(s[i])
        }
    &&& s[14] == '4'
    &&& (s[19] == '8' || s[19] == '9' || s[19] == 'a' || s[19] == 'b')
}

/// The text of a fresh random UUID.
///
/// Calls `uuid::Uuid::new_v4` and writes it out with `to_string`, which
/// gives the lowercase hyphenated form. The value is random; what holds of
/// every outcome is its shape and the version and variant digits that
/// `new_v4` fixes.
#[verifier::external_body]
fn random_uuid_text() -> (text: String)
    ensures
        is_hyphenated_v4_uuid(text@),
{
    uuid::Uuid::new_v4().to_string()
}

/// A fresh trash id: a random UUID in its hyphenated form, which is always a
/// valid file name.
pub fn new_trash_id() -> (id: String)
    ensures
        is_hyphenated_v4_uuid(id@),
        valid_filename(id@),
{
    let id = random_uuid_text();
    proof {
        assert(!id@.contains('\0') && !id@.contains('/')) by {
            assert forall|i: int| 0 <= i < id@.len() implies id@[i] != '\0' && id@[i] != '/' by {
                assert(id@[i] == id@[i]);
            }
        }
        assert(id@.len() != 1 && id@.len() != 2);
    }
    id
}

/// The trash of a root: its directory, the trashed files, their records.
#[derive(Debug, Clone, PartialEq, Eq)]
pub struct TrashPaths {
    pub trash_dir: String,
    pub files_dir: String,
    pub info_dir: String,
}

pub fn trash_paths(canonical_base: &str) -> (p: TrashPaths)
    ensures
        p.trash_dir@ == spec_path_join(canonical_base@, trash_dir_name()),
        p.files_dir@ == spec_path_join(p.trash_dir@, seq!['f', 'i', 'l', 'e', 's']),
        p.info_dir@ == spec_path_join(p.trash_dir@, seq!['i', 'n', 'f', 'o']),
{
    proof {
        reveal_strlit(".tealdrive-trash");
        reveal_strlit("files");
        reveal_strlit("info");
        assert(".tealdrive-trash"@ =~= trash_dir_name());
        assert("files"@ =~= seq!['f', 'i', 'l', 'e', 's']);
        assert("info"@ =~= seq!['i', 'n', 'f', 'o']);
    }
    let trash_dir = path_join(canonical_base, TRASH_DIR_NAME);
    let files_dir = path_join(trash_dir.as_str(), "files");
    let info_dir = path_join(trash_dir.as_str(), "info");
    TrashPaths { trash_dir, files_dir, info_dir }
}

/// Whether a resolved path lies in the trash, which may not itself be
/// trashed.
pub fn source_in_trash(resolved_path: &str, paths: &TrashPaths) -> (inside: bool)
    ensures
        inside == spec_path_starts_with(resolved_path@, paths.trash_dir@),
{
    path_starts_with(resolved_path, paths.trash_dir.as_str())
}

/// Where a trashed entry and its record go: the file under its id, the
/// record under its id with `.msgpack`.
pub fn trash_item_paths(paths: &TrashPaths, trash_id: &str) -> (p: (String, String))
    ensures
        p.0@ == spec_path_join(paths.files_dir@, trash_id@),
        p.1@ == spec_path_join(paths.info_dir@, trash_id@ + seq!['.', 'm', 's', 'g', 'p', 'a', 'c', 'k']),
{
    proof {
        reveal_strlit(".msgpack");
        assert(".msgpack"@ =~= seq!['.', 'm', 's', 'g', 'p', 'a', 'c', 'k']);
    }
    let file_path = path_join(paths.files_dir.as_str(), trash_id);
    let record = concat(trash_id, ".msgpack");
    let info_path = path_join(paths.info_dir.as_str(), record.as_str());
    (file_path, info_path)
}

/// The name a trashed entry is shown by: its path's last component, else
/// its relative path.
pub fn display_name(resolved_path: &str, relative_path: &RelativePath) -> (name: String)
    ensures
        name@ == match spec_file_name(resolved_path@) {
            Some(n) => n,
            None => relative_path.0@,
        },
{
    match file_name(resolved_path) {
        Some(n) => n,
        None => relative_path.0.clone(),
    }
}

/// The record of a new trashed entry: the file lies at `files/<id>` in the
/// trash.
pub fn new_trash_entry(
    trash_id: &str,
    root: &AllowedRoot,
    source: &RelativePath,
    display_name: String,
    deleted_at: u64,
    request: &HelperRequest,
) -> (e: TrashEntry)
    ensures
        e.trash_id@ == trash_id@,
        e.original_root_id == root.root_id,
        e.original_relative_path == *source,
        e.trash_relative_path.0@ == seq!['f', 'i', 'l', 'e', 's', '/'] + trash_id@,
        e.display_name == display_name,
        e.deleted_at == deleted_at,
        e.username == request.username,
        e.uid == request.uid,
{
    proof {
        reveal_strlit("files/");
        assert("files/"@ =~= seq!['f', 'i', 'l', 'e', 's', '/']);
    }
    TrashEntry {
        trash_id: trash_id.to_owned(),
        original_root_id: clone_root_id(&root.root_id),
        original_relative_path: clone_relative_path(source),
        trash_relative_path: RelativePath(concat("files/", trash_id)),
        display_name,
        deleted_at,
        username: request.username.clone(),
        uid: request.uid,
    }
}

/// The success of a move to the trash, describing the entry.
pub fn trash_entry_response(request: &HelperRequest, entry: TrashEntry) -> (r: HelperResponse)
    ensures
        is_success_response(
            r,
            *request,
            0,
            Some("Moved to trash."@),
            HelperResponsePayload::TrashEntry(
                HelperTrashEntry {
                    trash_id: entry.trash_id,
                    display_name: entry.display_name,
                    deleted_at: entry.deleted_at,
                    original_relative_path: entry.original_relative_path,
                    original_root_id: entry.original_root_id,
                },
            ),
        ),
{
    HelperResponse::trash_entry(
        request,
        HelperTrashEntry {
            trash_id: entry.trash_id,
            display_name: entry.display_name,
            deleted_at: entry.deleted_at,
            original_relative_path: entry.original_relative_path,
            original_root_id: entry.original_root_id,
        },
    )
}

/// The trash id a restore names, in its relative path: it must be a valid
/// file name.
pub fn restore_trash_id(request: &HelperRequest) -> (res: Result<String, HelperResponse>)
    ensures
        valid_filename(request.relative_path.0@) ==> (res matches Ok(id) && id@ == request.relative_path.0@),
        !valid_filename(request.relative_path.0@) ==> (res matches Err(r) && is_error_response(
            r,
            *request,
            spec_refusal(Refusal::InvalidTrashId).0,
            spec_refusal(Refusal::InvalidTrashId).1,
            spec_refusal(Refusal::InvalidTrashId).2,
        )),
{
    match SafeFileName::parse(request.relative_path.0.as_str()) {
        Ok(name) => Ok(name.0),
        Err(_) => Err(refuse(request, Refusal::InvalidTrashId)),
    }
}

/// The configured root a trashed entry came from.
pub fn original_root<'a>(roots: &'a [AllowedRoot], entry: &TrashEntry) -> (res: Result<&'a AllowedRoot, Refusal>)
    ensures
        match spec_allowed_root(roots@, entry.original_root_id.0@) {
            Ok(r) => res matches Ok(x) && *x == r,
            Err(_) => res == Err::<&AllowedRoot, Refusal>(Refusal::OriginalRootMissing),
        },
{
    match require_allowed_root(roots, &entry.original_root_id) {
        Ok(r) => Ok(r),
        Err(_) => Err(Refusal::OriginalRootMissing),
    }
}

/// Where a trashed entry goes back to; it must stay in its root.
pub fn original_path(original_canonical: &str, entry: &TrashEntry) -> (res: Result<String, Refusal>)
    ensures
        match res {
            Ok(p) => p@ == spec_path_join(original_canonical@, entry.original_relative_path.0@)
                && spec_path_starts_with(p@, original_canonical@),
            Err(e) => e == Refusal::OriginalPathEscapesRoot && !spec_path_starts_with(
                spec_path_join(original_canonical@, entry.original_relative_path.0@),
                original_canonical@,
            ),
        },
{
    let path = path_join(original_canonical, entry.original_relative_path.0.as_str());
    if path_starts_with(path.as_str(), original_canonical) {
        Ok(path)
    } else {
        Err(Refusal::OriginalPathEscapesRoot)
    }
}

} // verus!
