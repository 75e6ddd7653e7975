use vstd::prelude::*;

use crate::config::{RelativePath, RootId};

verus! {

/// What the trash remembers of one trashed entry.
#[derive(Debug, Clone, PartialEq, Eq)]
pub struct TrashEntry {
    pub trash_id: String,
    pub original_root_id: RootId,
    pub original_relative_path: RelativePath,
    pub trash_relative_path: RelativePath,
    pub display_name: String,
    pub deleted_at: u64,
    pub username: String,
    pub uid: u32,
}

} // verus!
