use vstd::prelude::*;

use crate::config::{string_views, RelativePath, SensitivePolicyConfig};
use crate::fs::components::{file_name, spec_file_name};
use crate::fs::path::{is_hidden_relative, spec_is_hidden_relative, spec_rsplit_slash, split_target_path};
use crate::strings::{ends_with, starts_with, str_ends_with, str_eq, str_starts_with};
use vstd::string::StrSliceExecFns;

verus! {

/// The sensitivity verdict for one access.
#[derive(Debug, Clone, Copy, PartialEq, Eq, Structural)]
pub enum SensitivePolicyDecision {
    Allow,
    Warn,
    Deny,
}

/// Which sensitive-name lists a path's entry name falls under.
#[derive(Debug, Clone, Copy, PartialEq, Eq, Structural)]
pub struct SensitiveDetection {
    pub is_sensitive: bool,
    pub deny_edit: bool,
    pub warn_read: bool,
}

/// `*` followed by a suffix matches names that end with it; any other
/// pattern matches one name exactly.
pub open spec fn pattern_matches(pattern: Seq<char>, name: Seq<char>) -> bool {
    if pattern.len() >= 1 && pattern[0] == '*' {
        ends_with(name, pattern.subrange(1, pattern.len() as int))
    } else {
        name == pattern
    }
}

pub open spec fn matches_any(patterns: Seq<Seq<char>>, name: Seq<char>) -> bool {
    exists|i: int| 0 <= i < patterns.len() && pattern_matches(#[trigger] patterns[i], name)
}

/// The entry name a relative path ends in.
pub open spec fn entry_name(path: Seq<char>) -> Seq<char> {
    spec_rsplit_slash(path).1
}

fn pattern_matches_exec(pattern: &str, name: &str) -> (m: bool)
    ensures
        m == pattern_matches(pattern@, name@),
{
    let n = pattern.unicode_len();
    if n >= 1 && pattern.get_char(0) == '*' {
        str_ends_with(name, pattern.substring_char(1, n))
    } else {
        str_eq(name, pattern)
    }
}

fn matches_any_exec(patterns: &[String], name: &str) -> (m: bool)
    ensures
        m == matches_any(string_views(patterns@), name@),
{
    let ghost views = string_views(patterns@);
    let mut i: usize = 0;
    while i < patterns.len()
        invariant
            views == string_views(patterns@),
            i <= patterns@.len(),
            forall|j: int| 0 <= j < i ==> !pattern_matches(#[trigger] views[j], name@),
        decreases patterns@.len() - i,
    {
        assert(views[i as int] == patterns@[i as int]@);
        if pattern_matches_exec(patterns[i].as_str(), name) {
            assert(pattern_matches(views[i as int], name@));
            return true;
        }
        i = i + 1;
    }
    false
}

pub open spec fn spec_detect_sensitive(path: Seq<char>, config: SensitivePolicyConfig) -> SensitiveDetection {
    let name = entry_name(path);
    let deny = matches_any(string_views(config.deny_edit_patterns@), name);
    let warn = matches_any(string_views(config.warn_read_patterns@), name);
    SensitiveDetection { is_sensitive: deny || warn, deny_edit: deny, warn_read: warn }
}

/// Whether a path's entry name matches a sensitive pattern.
pub fn detect_sensitive(path: &RelativePath, config: &SensitivePolicyConfig) -> (d: SensitiveDetection)
    ensures
        d == spec_detect_sensitive(path.0@, *config),
{
    let (_, name) = split_target_path(path);
    let deny = matches_any_exec(config.deny_edit_patterns.as_slice(), name);
    let warn = matches_any_exec(config.warn_read_patterns.as_slice(), name);
    SensitiveDetection { is_sensitive: deny || warn, deny_edit: deny, warn_read: warn }
}

/// Reading a file: warn on names listed for warning; refuse a preview (but
/// not a download) of names listed only as not to be edited.
pub open spec fn spec_sensitive_read_decision(
    path: Seq<char>,
    config: SensitivePolicyConfig,
    for_download: bool,
) -> SensitivePolicyDecision {
    let d = spec_detect_sensitive(path, config);
    if d.warn_read {
        SensitivePolicyDecision::Warn
    } else if d.deny_edit && !for_download {
        SensitivePolicyDecision::Deny
    } else {
        SensitivePolicyDecision::Allow
    }
}

pub fn sensitive_read_decision(
    path: &RelativePath,
    config: &SensitivePolicyConfig,
    for_download: bool,
) -> (d: SensitivePolicyDecision)
    ensures
        d == spec_sensitive_read_decision(path.0@, *config, for_download),
{
    let detection = detect_sensitive(path, config);
    if detection.warn_read {
        SensitivePolicyDecision::Warn
    } else if detection.deny_edit && !for_download {
        SensitivePolicyDecision::Deny
    } else {
        SensitivePolicyDecision::Allow
    }
}

/// Editing a file: refuse names listed as not to be edited.
pub open spec fn spec_sensitive_edit_decision(path: Seq<char>, config: SensitivePolicyConfig) -> SensitivePolicyDecision {
    if spec_detect_sensitive(path, config).deny_edit {
        SensitivePolicyDecision::Deny
    } else {
        SensitivePolicyDecision::Allow
    }
}

pub fn sensitive_edit_decision(path: &RelativePath, config: &SensitivePolicyConfig) -> (d: SensitivePolicyDecision)
    ensures
        d == spec_sensitive_edit_decision(path.0@, *config),
{
    if detect_sensitive(path, config).deny_edit {
        SensitivePolicyDecision::Deny
    } else {
        SensitivePolicyDecision::Allow
    }
}

/// Hidden paths are refused unless the request asks for them.
pub open spec fn spec_hidden_policy_decision(include_hidden: bool, path: Seq<char>) -> SensitivePolicyDecision {
    if !include_hidden && spec_is_hidden_relative(path) {
        SensitivePolicyDecision::Deny
    } else {
        SensitivePolicyDecision::Allow
    }
}

pub fn hidden_policy_decision(include_hidden: bool, path: &RelativePath) -> (d: SensitivePolicyDecision)
    ensures
        d == spec_hidden_policy_decision(include_hidden, path.0@),
{
    if !include_hidden && is_hidden_relative(path) {
        SensitivePolicyDecision::Deny
    } else {
        SensitivePolicyDecision::Allow
    }
}

/// Built-in names of system secrets.
pub open spec fn is_secret_name(name: Seq<char>) -> bool {
    starts_with(name, ".env"@) || starts_with(name, ".ssh"@) || name == "id_rsa"@ || name
        == "shadow"@ || name == "sudoers"@
}

pub struct SensitivePolicy;

impl SensitivePolicy {
    /// Whether the file a path names is a system secret.
    pub fn is_sensitive(path: &str) -> (sensitive: bool)
        ensures
            sensitive == match spec_file_name(path@) {
                Some(name) => is_secret_name(name),
                None => false,
            },
    {
        let name = match file_name(path) {
            Some(n) => n,
            None => return false,
        };
        let n = name.as_str();
        str_starts_with(n, ".env") || str_starts_with(n, ".ssh") || str_eq(n, "id_rsa") || str_eq(
            n,
            "shadow",
        ) || str_eq(n, "sudoers")
    }
}

} // verus!
