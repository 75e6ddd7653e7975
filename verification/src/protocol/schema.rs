use vstd::prelude::*;

verus! {

/// What a client may do with a directory or file.
#[derive(Debug, Clone, Copy, PartialEq, Eq, Structural)]
pub struct CapabilitySet {
    pub can_list: bool,
    pub can_download: bool,
    pub can_upload: bool,
    pub can_create_folder: bool,
    pub can_rename: bool,
    pub can_move_to_trash: bool,
    pub can_restore_from_trash: bool,
}

impl CapabilitySet {
    /// Every capability granted.
    pub open spec fn all() -> CapabilitySet {
        CapabilitySet {
            can_list: true,
            can_download: true,
            can_upload: true,
            can_create_folder: true,
            can_rename: true,
            can_move_to_trash: true,
            can_restore_from_trash: true,
        }
    }
}

impl Default for CapabilitySet {
    fn default() -> (c: Self)
        ensures
            c == CapabilitySet::all(),
    {
        CapabilitySet {
            can_list: true,
            can_download: true,
            can_upload: true,
            can_create_folder: true,
            can_rename: true,
            can_move_to_trash: true,
            can_restore_from_trash: true,
        }
    }
}

/// The capabilities of one directory entry.
pub type FileCapabilities = CapabilitySet;

#[derive(Debug, Clone, Copy, PartialEq, Eq, Structural)]
pub enum FileKind {
    File,
    Directory,
    Symlink,
    Other,
}

#[derive(Debug, Clone, Copy, PartialEq, Eq, Structural)]
pub enum FileFilter {
    All,
    Folders,
    Code,
    Images,
    Media,
    Documents,
    Archives,
    Hidden,
    Writable,
    Symlinks,
}

#[derive(Debug, Clone, Copy, PartialEq, Eq, Structural)]
pub enum SortMode {
    NameAsc,
    NameDesc,
    ModifiedAsc,
    ModifiedDesc,
    SizeAsc,
    SizeDesc,
    TypeAsc,
    TypeDesc,
}

impl Default for SortMode {
    fn default() -> (s: Self)
        ensures
            s == SortMode::NameAsc,
    {
        SortMode::NameAsc
    }
}

/// What a listing keeps: names holding `query` (ignoring ASCII case), of
/// kind `file_kind`, passing `filter`.
#[derive(Debug, Clone, PartialEq, Eq)]
pub struct FilterMode {
    pub query: Option<String>,
    pub file_kind: Option<FileKind>,
    pub filter: Option<FileFilter>,
}

impl Default for FilterMode {
    fn default() -> (f: Self)
        ensures
            f.query is None,
            f.file_kind is None,
            f.filter is None,
    {
        FilterMode { query: None, file_kind: None, filter: None }
    }
}

/// A Unix permission mode.
#[derive(Debug, Clone, Copy, PartialEq, Eq, Structural)]
pub struct UnixMode(pub u32);

/// The owner of a file, by name or numeric id.
#[derive(Debug, Clone, PartialEq, Eq)]
pub struct OwnerName(pub String);

/// The group of a file, by name or numeric id.
#[derive(Debug, Clone, PartialEq, Eq)]
pub struct GroupName(pub String);

/// Where the next page of a listing starts.
#[derive(Debug, Clone, PartialEq, Eq)]
pub struct DirectoryCursor(pub String);

} // verus!
