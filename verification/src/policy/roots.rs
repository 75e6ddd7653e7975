use vstd::prelude::*;

use crate::config::{AllowedRoot, RootId};
use crate::errors::TealDriveError;
use crate::fs::components::{path_starts_with, spec_path_starts_with};
use crate::strings::{concat, str_eq};

verus! {

/// A root as the login flow configures it; `path` is an absolute path.
#[derive(Debug, Clone)]
pub struct RootConfig {
    pub id: String,
    pub path: String,
    pub name: String,
    pub readonly: bool,
}

/// The roots a logged-in user may reach.
pub struct RootPolicy {
    pub roots: Vec<RootConfig>,
}

/// The first root, at or after `from`, whose path opens `path`; `roots.len()`
/// when there is none.
pub open spec fn first_root_for(roots: Seq<RootConfig>, path: Seq<char>, from: int) -> int
    decreases roots.len() - from,
{
    if from >= roots.len() || from < 0 {
        roots.len() as int
    } else if spec_path_starts_with(path, roots[from].path@) {
        from
    } else {
        first_root_for(roots, path, from + 1)
    }
}

proof fn lemma_first_root_for(roots: Seq<RootConfig>, path: Seq<char>, from: int)
    requires
        0 <= from <= roots.len(),
    ensures
        from <= first_root_for(roots, path, from) <= roots.len(),
        first_root_for(roots, path, from) < roots.len() ==> spec_path_starts_with(
            path,
            roots[first_root_for(roots, path, from)].path@,
        ),
        forall|j: int|
            from <= j < first_root_for(roots, path, from) ==> !spec_path_starts_with(
                path,
                #[trigger] roots[j].path@,
            ),
    decreases roots.len() - from,
{
    if from < roots.len() && !spec_path_starts_with(path, roots[from].path@) {
        lemma_first_root_for(roots, path, from + 1);
    }
}

impl RootPolicy {
    /// The policy of a fresh login: the user's home directory, writable.
    pub fn new(username: &str) -> (policy: Self)
        ensures
            policy.roots@.len() == 1,
            policy.roots@[0].id@ == "home"@,
            policy.roots@[0].path@ == "/home/"@ + username@,
            policy.roots@[0].name@ == "Home"@,
            !policy.roots@[0].readonly,
    {
        let mut roots: Vec<RootConfig> = Vec::new();
        roots.push(
            RootConfig {
                id: "home".to_owned(),
                path: concat("/home/", username),
                name: "Home".to_owned(),
                readonly: false,
            },
        );
        RootPolicy { roots }
    }

    /// Whether `path` lies under one of the roots.
    pub fn is_allowed(&self, path: &str) -> (allowed: bool)
        ensures
            allowed == exists|i: int|
                0 <= i < self.roots@.len() && spec_path_starts_with(path@, #[trigger] self.roots@[i].path@),
    {
        let found = self.get_root_for_path(path);
        proof {
            lemma_first_root_for(self.roots@, path@, 0);
        }
        found.is_some()
    }

    /// The first root that `path` lies under.
    pub fn get_root_for_path(&self, path: &str) -> (root: Option<&RootConfig>)
        ensures
            ({
                let k = first_root_for(self.roots@, path@, 0);
                match root {
                    Some(r) => k < self.roots@.len() && *r == self.roots@[k],
                    None => k == self.roots@.len(),
                }
            }),
    {
        proof {
            lemma_first_root_for(self.roots@, path@, 0);
        }
        let mut i: usize = 0;
        while i < self.roots.len()
            invariant
                i <= self.roots@.len(),
                first_root_for(self.roots@, path@, 0) == first_root_for(self.roots@, path@, i as int),
            decreases self.roots@.len() - i,
        {
            if path_starts_with(path, self.roots[i].path.as_str()) {
                return Some(&self.roots[i]);
            }
            i = i + 1;
        }
        None
    }
}

/// The first root named `id`, as an index; `roots.len()` when none is.
pub open spec fn first_root_named(roots: Seq<AllowedRoot>, id: Seq<char>, from: int) -> int
    decreases roots.len() - from,
{
    if from >= roots.len() || from < 0 {
        roots.len() as int
    } else if roots[from].root_id.0@ == id {
        from
    } else {
        first_root_named(roots, id, from + 1)
    }
}

pub proof fn lemma_first_root_named(roots: Seq<AllowedRoot>, id: Seq<char>, from: int)
    requires
        0 <= from <= roots.len(),
    ensures
        from <= first_root_named(roots, id, from) <= roots.len(),
        first_root_named(roots, id, from) < roots.len() ==> roots[first_root_named(
            roots,
            id,
            from,
        )].root_id.0@ == id,
        forall|j: int|
            from <= j < first_root_named(roots, id, from) ==> (#[trigger] roots[j]).root_id.0@ != id,
    decreases roots.len() - from,
{
    if from < roots.len() && roots[from].root_id.0@ != id {
        lemma_first_root_named(roots, id, from + 1);
    }
}

/// The configured root a request names, or `InvalidRootId`.
pub open spec fn spec_allowed_root(roots: Seq<AllowedRoot>, id: Seq<char>) -> Result<AllowedRoot, TealDriveError> {
    let k = first_root_named(roots, id, 0);
    if k < roots.len() {
        Ok(roots[k])
    } else {
        Err(TealDriveError::InvalidRootId)
    }
}

/// The first configured root named `root_id`.
pub fn require_allowed_root<'a>(roots: &'a [AllowedRoot], root_id: &RootId) -> (res: Result<
    &'a AllowedRoot,
    TealDriveError,
>)
    ensures
        match (res, spec_allowed_root(roots@, root_id.0@)) {
            (Ok(r), Ok(s)) => *r == s,
            (Err(e), Err(s)) => e == s,
            _ => false,
        },
{
    proof {
        lemma_first_root_named(roots@, root_id.0@, 0);
    }
    let mut i: usize = 0;
    while i < roots.len()
        invariant
            i <= roots@.len(),
            first_root_named(roots@, root_id.0@, 0) == first_root_named(roots@, root_id.0@, i as int),
        decreases roots@.len() - i,
    {
        if str_eq(roots[i].root_id.0.as_str(), root_id.0.as_str()) {
            return Ok(&roots[i]);
        }
        i = i + 1;
    }
    Err(TealDriveError::InvalidRootId)
}

} // verus!
