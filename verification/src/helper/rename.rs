//! Renames and folder creation in the helper: the name they are given.
use vstd::prelude::*;

use crate::helper::refusal::{refuse, spec_refusal, Refusal};
use crate::helper::types::{is_error_response, HelperRequest, HelperResponse};
use crate::strings::contains_char;

verus! {

/// The single name a rename or folder creation carries as its target: it
/// must be given (else `missing`) and hold no `/` or `\`.
pub open spec fn new_name_ok(
    res: Result<String, HelperResponse>,
    request: HelperRequest,
    missing: Refusal,
    invalid: Refusal,
) -> bool {
    match request.target_relative_path {
        None => res matches Err(r) && is_error_response(
            r,
            request,
            spec_refusal(missing).0,
            spec_refusal(missing).1,
            spec_refusal(missing).2,
        ),
        Some(t) => if t.0@.contains('/') || t.0@.contains('\\') {
            res matches Err(r) && is_error_response(
                r,
                request,
                spec_refusal(invalid).0,
                spec_refusal(invalid).1,
                spec_refusal(invalid).2,
            )
        } else {
            res matches Ok(n) && n@ == t.0@
        },
    }
}

pub fn new_name_check(request: &HelperRequest, missing: Refusal, invalid: Refusal) -> (res: Result<
    String,
    HelperResponse,
>)
    ensures
        new_name_ok(res, *request, missing, invalid),
{
    let name = match &request.target_relative_path {
        Some(t) => t,
        None => return Err(refuse(request, missing)),
    };
    if contains_char(name.0.as_str(), '/') || contains_char(name.0.as_str(), '\\') {
        return Err(refuse(request, invalid));
    }
    Ok(name.0.clone())
}

} // verus!
