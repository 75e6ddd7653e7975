//! File metadata in the helper: where the entry lies, whether it stays in
//! its root, and what it is called.
use vstd::prelude::*;

use crate::config::{AllowedRoot, RelativePath};
use crate::errors::TealDriveError;
use crate::fs::components::{file_name, path_starts_with, spec_file_name, spec_path_starts_with};
use crate::fs::path::{candidate_path, spec_candidate, spec_validate_relative_path, validate_relative_path};
use crate::helper::errors::{helper_error_from_tealdrive, spec_path_failure};
use crate::helper::types::{is_error_response, HelperRequest, HelperResponse};
use vstd::string::StrSliceExecFns;

verus! {

/// The validated path of a metadata request and where it lies under the
/// root's configured base; a path that fails validation is refused.
pub fn metadata_candidate(request: &HelperRequest, root: &AllowedRoot) -> (res: Result<(RelativePath, String), HelperResponse>)
    ensures
        match spec_validate_relative_path(request.relative_path.0@) {
            Err(e) => res matches Err(r) && is_error_response(
                r,
                *request,
                spec_path_failure(e).0,
                spec_path_failure(e).1,
                spec_path_failure(e).2,
            ),
            Ok(v) => res matches Ok((p, c)) && p.0@ == v && c@ == spec_candidate(root.base_path@, v),
        },
{
    match validate_relative_path(&request.relative_path) {
        Err(e) => Err(helper_error_from_tealdrive(request, e)),
        Ok(v) => {
            let c = candidate_path(root.base_path.as_str(), v.0.as_str());
            Ok((v, c))
        },
    }
}

/// Whether the entry stays in its root: the root's canonical base and the
/// entry's canonical path (for a symlink, its parent's) must both be known
/// (else `InvalidPath`), and the one must lie under the other (else
/// `PathEscapesRoot`).
pub open spec fn spec_inside_root(canonical_base: Option<Seq<char>>, canonical: Option<Seq<char>>) -> Result<(), TealDriveError> {
    match (canonical_base, canonical) {
        (Some(b), Some(c)) => if spec_path_starts_with(c, b) {
            Ok(())
        } else {
            Err(TealDriveError::PathEscapesRoot)
        },
        _ => Err(TealDriveError::InvalidPath),
    }
}

pub fn inside_root_check(canonical_base: Option<&str>, canonical: Option<&str>) -> (res: Result<(), TealDriveError>)
    ensures
        res == spec_inside_root(
            match canonical_base {
                Some(b) => Some(b@),
                None => None,
            },
            match canonical {
                Some(c) => Some(c@),
                None => None,
            },
        ),
{
    match (canonical_base, canonical) {
        (Some(b), Some(c)) => {
            if path_starts_with(c, b) {
                Ok(())
            } else {
                Err(TealDriveError::PathEscapesRoot)
            }
        },
        _ => Err(TealDriveError::InvalidPath),
    }
}

/// The name an entry is described by: its path's last component, else `.`
/// for the root itself, else the relative path.
pub open spec fn spec_metadata_name(candidate: Seq<char>, rel: Seq<char>) -> Seq<char> {
    match spec_file_name(candidate) {
        Some(n) => n,
        None => if rel.len() == 0 {
            seq!['.']
        } else {
            rel
        },
    }
}

pub fn metadata_name(candidate: &str, relative_path: &RelativePath) -> (name: String)
    ensures
        name@ == spec_metadata_name(candidate@, relative_path.0@),
{
    match file_name(candidate) {
        Some(n) => n,
        None => {
            if relative_path.0.as_str().unicode_len() == 0 {
                proof {
                    reveal_strlit(".");
                    assert("."@ =~= seq!['.']);
                }
                ".".to_owned()
            } else {
                relative_path.0.clone()
            }
        },
    }
}

} // verus!
