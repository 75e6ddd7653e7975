//! Moves and copies in the helper: the target they name and where it lies.
use vstd::prelude::*;

use crate::config::RelativePath;
use crate::fs::components::{path_join, path_starts_with, spec_path_join, spec_path_starts_with};
use crate::fs::path::{spec_validate_relative_path, validate_relative_path};
use crate::helper::errors::{helper_error_from_tealdrive, spec_path_failure};
use crate::helper::refusal::{refuse, spec_refusal, Refusal};
use crate::helper::types::{is_error_response, HelperRequest, HelperResponse};
use vstd::string::StrSliceExecFns;

verus! {

/// The target of a move or copy: it must be given, validate, and not be
/// the root itself.
pub open spec fn transfer_target_ok(res: Result<RelativePath, HelperResponse>, request: HelperRequest) -> bool {
    match request.target_relative_path {
        None => res matches Err(r) && is_error_response(
            r,
            request,
            spec_refusal(Refusal::MissingTarget).0,
            spec_refusal(Refusal::MissingTarget).1,
            spec_refusal(Refusal::MissingTarget).2,
        ),
        Some(t) => match spec_validate_relative_path(t.0@) {
            Err(e) => res matches Err(r) && is_error_response(
                r,
                request,
                spec_path_failure(e).0,
                spec_path_failure(e).1,
                spec_path_failure(e).2,
            ),
            Ok(v) => if v.len() == 0 {
                res matches Err(r) && is_error_response(
                    r,
                    request,
                    spec_refusal(Refusal::EmptyTarget).0,
                    spec_refusal(Refusal::EmptyTarget).1,
                    spec_refusal(Refusal::EmptyTarget).2,
                )
            } else {
                res matches Ok(p) && p.0@ == v
            },
        },
    }
}

pub fn transfer_target(request: &HelperRequest) -> (res: Result<RelativePath, HelperResponse>)
    ensures
        transfer_target_ok(res, *request),
{
    let target = match &request.target_relative_path {
        Some(t) => t,
        None => return Err(refuse(request, Refusal::MissingTarget)),
    };
    let validated = match validate_relative_path(target) {
        Ok(v) => v,
        Err(e) => return Err(helper_error_from_tealdrive(request, e)),
    };
    if validated.0.as_str().unicode_len() == 0 {
        return Err(refuse(request, Refusal::EmptyTarget));
    }
    Ok(validated)
}

/// Where the target lies under the root's canonical base; it must stay in
/// it.
pub open spec fn spec_transfer_target_path(canonical_base: Seq<char>, target: Seq<char>) -> Result<Seq<char>, Refusal> {
    let path = spec_path_join(canonical_base, target);
    if spec_path_starts_with(path, canonical_base) {
        Ok(path)
    } else {
        Err(Refusal::TargetEscapesRoot)
    }
}

pub fn transfer_target_path(canonical_base: &str, target: &RelativePath) -> (res: Result<String, Refusal>)
    ensures
        match (res, spec_transfer_target_path(canonical_base@, target.0@)) {
            (Ok(p), Ok(s)) => p@ == s,
            (Err(e), Err(s)) => e == s,
            _ => false,
        },
{
    let path = path_join(canonical_base, target.0.as_str());
    if path_starts_with(path.as_str(), canonical_base) {
        Ok(path)
    } else {
        Err(Refusal::TargetEscapesRoot)
    }
}

} // verus!
