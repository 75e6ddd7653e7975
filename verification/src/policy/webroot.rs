use vstd::prelude::*;

use crate::config::{string_views, WebRootPolicyConfig};
use crate::errors::PolicyReason;
use crate::fs::filename::SafeFileName;
use crate::policy::decision::PolicyDecision;
use crate::strings::{after_last, eq_lowered, split_after_last, str_eq_lowered};

verus! {

#[derive(Debug, Clone, Copy, PartialEq, Eq, Structural)]
pub struct WebRootPolicy {
    pub block_executable_uploads: bool,
}

/// Whether a name's extension, ASCII-lowered, is one of `blocked`.
pub open spec fn extension_blocked(blocked: Seq<Seq<char>>, name: Seq<char>) -> bool {
    match after_last(name, '.') {
        Some(ext) => exists|i: int| 0 <= i < blocked.len() && eq_lowered(#[trigger] blocked[i], ext),
        None => false,
    }
}

/// A web root refuses uploads of names with a blocked extension.
pub open spec fn spec_check_webroot_upload(
    is_webroot: bool,
    name: Seq<char>,
    config: WebRootPolicyConfig,
) -> PolicyDecision {
    if is_webroot && config.block_executable_uploads && extension_blocked(
        string_views(config.blocked_extensions@),
        name,
    ) {
        PolicyDecision::Deny(PolicyReason::WebRootExecutableUpload)
    } else {
        PolicyDecision::Allow
    }
}

pub fn check_webroot_upload(
    is_webroot: bool,
    filename: &SafeFileName,
    config: &WebRootPolicyConfig,
) -> (d: PolicyDecision)
    ensures
        d == spec_check_webroot_upload(is_webroot, filename.0@, *config),
{
    if !is_webroot || !config.block_executable_uploads {
        return PolicyDecision::Allow;
    }
    let ext = match split_after_last(filename.0.as_str(), '.') {
        Some(ext) => ext,
        None => return PolicyDecision::Allow,
    };
    let ghost views = string_views(config.blocked_extensions@);
    let mut i: usize = 0;
    while i < config.blocked_extensions.len()
        invariant
            views == string_views(config.blocked_extensions@),
            is_webroot,
            config.block_executable_uploads,
            after_last(filename.0@, '.') == Some(ext@),
            i <= config.blocked_extensions@.len(),
            forall|j: int| 0 <= j < i ==> !eq_lowered(#[trigger] views[j], ext@),
        decreases config.blocked_extensions@.len() - i,
    {
        assert(views[i as int] == config.blocked_extensions@[i as int]@);
        if str_eq_lowered(config.blocked_extensions[i].as_str(), ext) {
            assert(eq_lowered(views[i as int], ext@));
            return PolicyDecision::Deny(PolicyReason::WebRootExecutableUpload);
        }
        i = i + 1;
    }
    PolicyDecision::Allow
}

/// A web root refuses any mode with an execute bit.
pub fn check_webroot_chmod_executable(is_webroot: bool, mode: u32) -> (d: PolicyDecision)
    ensures
        d == if is_webroot && mode & 0o111u32 != 0 {
            PolicyDecision::Deny(PolicyReason::WebRootExecutableUpload)
        } else {
            PolicyDecision::Allow
        },
{
    if is_webroot && mode & 0o111 != 0 {
        PolicyDecision::Deny(PolicyReason::WebRootExecutableUpload)
    } else {
        PolicyDecision::Allow
    }
}

/// A web root refuses archive extraction.
pub fn check_webroot_archive_extract(is_webroot: bool) -> (d: PolicyDecision)
    ensures
        d == if is_webroot {
            PolicyDecision::Deny(PolicyReason::WebRootExecutableUpload)
        } else {
            PolicyDecision::Allow
        },
{
    if is_webroot {
        PolicyDecision::Deny(PolicyReason::WebRootExecutableUpload)
    } else {
        PolicyDecision::Allow
    }
}

} // verus!
