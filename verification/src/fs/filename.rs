use vstd::prelude::*;

use crate::errors::TealDriveError;
use crate::strings::{contains_char, str_eq};
use vstd::string::StrSliceExecFns;

verus! {

/// A single file name: not empty, no NUL, no `/` or `\`, and neither `.`
/// nor `..`.
#[derive(Debug, Clone, PartialEq, Eq, Hash)]
pub struct SafeFileName(pub String);

pub open spec fn dot() -> Seq<char> {
    seq!['.']
}

pub open spec fn dot_dot() -> Seq<char> {
    seq!['.', '.']
}

/// The names that stand for a directory itself or its parent.
pub open spec fn spec_is_reserved_name(s: Seq<char>) -> bool {
    s == dot() || s == dot_dot()
}

/// A name that may stand for one entry of a directory.
pub open spec fn valid_filename(s: Seq<char>) -> bool {
    &&& s.len() > 0
    &&& !s.contains('\0')
    &&& !s.contains('/')
    &&& !s.contains('\\')
    &&& !spec_is_reserved_name(s)
}

/// Why a name is refused: NUL first, then the reserved names, then the rest.
pub open spec fn spec_filename_error(s: Seq<char>) -> TealDriveError {
    if s.contains('\0') {
        TealDriveError::NullByteRejected
    } else if spec_is_reserved_name(s) {
        TealDriveError::ReservedNameRejected
    } else {
        TealDriveError::InvalidFilename
    }
}

pub fn is_reserved_name(value: &str) -> (reserved: bool)
    ensures
        reserved == spec_is_reserved_name(value@),
{
    proof {
        reveal_strlit(".");
        reveal_strlit("..");
        assert("."@ =~= dot());
        assert(".."@ =~= dot_dot());
    }
    str_eq(value, ".") || str_eq(value, "..")
}

fn filename_error(value: &str) -> (e: TealDriveError)
    ensures
        e == spec_filename_error(value@),
{
    if contains_char(value, '\0') {
        TealDriveError::NullByteRejected
    } else if is_reserved_name(value) {
        TealDriveError::ReservedNameRejected
    } else {
        TealDriveError::InvalidFilename
    }
}

impl SafeFileName {
    pub fn parse(value: &str) -> (res: Result<Self, TealDriveError>)
        ensures
            valid_filename(value@) ==> (res matches Ok(name) && name.0@ == value@),
            !valid_filename(value@) ==> res == Err::<SafeFileName, TealDriveError>(
                spec_filename_error(value@),
            ),
    {
        if value.unicode_len() == 0 || contains_char(value, '\0') || contains_char(value, '/')
            || contains_char(value, '\\') || is_reserved_name(value) {
            return Err(filename_error(value));
        }
        Ok(SafeFileName(value.to_owned()))
    }
}

} // verus!
