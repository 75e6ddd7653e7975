use vstd::prelude::*;
use vstd::string::StrSliceExecFns;

verus! {

/// What the audit log shows of a secret: nothing for an empty one, a fixed
/// mark for any other; the field's name does not matter.
pub fn redact_secret(field_name: &str, value: &str) -> (shown: String)
    ensures
        value@.len() == 0 ==> shown@.len() == 0,
        value@.len() > 0 ==> shown@ == "[REDACTED]"@,
{
    if value.unicode_len() == 0 {
        String::new()
    } else {
        "[REDACTED]".to_owned()
    }
}

} // verus!
