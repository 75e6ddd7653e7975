//! The plain directory listing: what each entry is reported as, once the
//! filesystem has been read.
use vstd::prelude::*;

use crate::fs::components::spec_file_name;
use crate::fs::metadata::{EntryType, FileEntry};
use crate::policy::roots::RootPolicy;
use crate::policy::sensitive::{is_secret_name, SensitivePolicy};

verus! {

/// The MIME type `mime_guess` guesses from a path's extension, falling back
/// to `application/octet-stream`.
pub uninterp spec fn guessed_mime(path: Seq<char>) -> Seq<char>;

/// Calls `mime_guess::from_path(path).first_or_octet_stream()` and writes
/// the type out. The guess depends on the path's extension alone, through
/// the crate's fixed table, so it is named rather than stated; what is
/// stated is the fallback: a path with no dot has no extension, and gets
/// `application/octet-stream`.
#[verifier::external_body]
fn mime_for_path(path: &str) -> (mime: String)
    ensures
        mime@ == guessed_mime(path@),
        !path@.contains('.') ==> mime@ == "application/octet-stream"@,
{
    mime_guess::from_path(path).first_or_octet_stream().to_string()
}

/// What the filesystem reports of one entry of the plain listing.
#[derive(Debug, Clone, Copy, PartialEq, Eq, Structural)]
pub struct PlainStat {
    pub is_dir: bool,
    pub is_symlink: bool,
    pub len: u64,
    pub modified_secs: u64,
}

/// The entry type: a directory first, then a symlink, else a file.
pub open spec fn spec_entry_type(stat: PlainStat) -> EntryType {
    if stat.is_dir {
        EntryType::Dir
    } else if stat.is_symlink {
        EntryType::Symlink
    } else {
        EntryType::File
    }
}

/// The plain listing.
#[derive(Debug, Clone, Copy, PartialEq, Eq, Structural)]
pub struct FsOperations;

impl FsOperations {
    /// Whether a canonical directory may be listed: it must lie under one of
    /// the policy's roots.
    pub fn listing_allowed(canonical_path: &str, root_policy: &RootPolicy) -> (allowed: bool)
        ensures
            allowed == exists|i: int|
                0 <= i < root_policy.roots@.len() && crate::fs::components::spec_path_starts_with(
                    canonical_path@,
                    #[trigger] root_policy.roots@[i].path@,
                ),
    {
        root_policy.is_allowed(canonical_path)
    }

    /// The entry at `path` called `name` with MIME type `mime`: the path is
    /// its id, it is sensitive when its name is a known secret; its
    /// permissions, owner and group are fixed placeholders and it may only be
    /// read.
    pub fn entry_with_mime(path: &str, name: String, stat: &PlainStat, mime: String) -> (e: FileEntry)
        ensures
            e.id@ == path@,
            e.name@ == name@,
            e.entry_type == spec_entry_type(*stat),
            e.size == stat.len,
            e.modified == stat.modified_secs,
            e.permissions == 0o644,
            e.owner@ == "user"@,
            e.group@ == "group"@,
            e.mime@ == mime@,
            e.is_sensitive == match spec_file_name(path@) {
                Some(n) => is_secret_name(n),
                None => false,
            },
            e.capabilities@.len() == 1,
            e.capabilities@[0]@ == "READ"@,
    {
        let entry_type = if stat.is_dir {
            EntryType::Dir
        } else if stat.is_symlink {
            EntryType::Symlink
        } else {
            EntryType::File
        };
        let mut capabilities: Vec<String> = Vec::new();
        capabilities.push("READ".to_owned());
        FileEntry {
            id: path.to_owned(),
            name,
            entry_type,
            size: stat.len,
            modified: stat.modified_secs,
            permissions: 0o644,
            owner: "user".to_owned(),
            group: "group".to_owned(),
            mime,
            is_sensitive: SensitivePolicy::is_sensitive(path),
            capabilities,
        }
    }

    /// The entry at `path` called `name`, with the MIME type guessed from the
    /// path (see `entry_with_mime` for the rest).
    pub fn entry_for(path: &str, name: String, stat: &PlainStat) -> (e: FileEntry)
        ensures
            e.id@ == path@,
            e.name@ == name@,
            e.entry_type == spec_entry_type(*stat),
            e.size == stat.len,
            e.modified == stat.modified_secs,
            e.permissions == 0o644,
            e.owner@ == "user"@,
            e.group@ == "group"@,
            e.mime@ == guessed_mime(path@),
            !path@.contains('.') ==> e.mime@ == "application/octet-stream"@,
            e.is_sensitive == match spec_file_name(path@) {
                Some(n) => is_secret_name(n),
                None => false,
            },
            e.capabilities@.len() == 1,
            e.capabilities@[0]@ == "READ"@,
    {
        let mime = mime_for_path(path);
        Self::entry_with_mime(path, name, stat, mime)
    }
}

} // verus!
