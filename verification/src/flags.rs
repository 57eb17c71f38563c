//! Option sets for the filesystem helpers.
//!
//! Each helper recognises a single option, RECURSIVE, so the sets are
//! modelled as one independent boolean apiece.

use vstd::prelude::*;

verus! {

/// Options for directory creation.  With the recursive option set, creation
/// makes every missing ancestor as well and succeeds when the full path is
/// already a directory; without it, exactly one directory level is created.
#[derive(Clone, Copy, Debug, PartialEq, Eq, Structural)]
pub struct CreateFlags {
    pub recursive: bool,
}

impl CreateFlags {
    /// The empty option set.
    pub fn empty() -> (r: CreateFlags)
        ensures
            !r.recursive,
    {
        CreateFlags { recursive: false }
    }

    /// The option set holding RECURSIVE alone.
    pub fn recursive() -> (r: CreateFlags)
        ensures
            r.recursive,
    {
        CreateFlags { recursive: true }
    }
}

/// Options for removal.  With the recursive option set, a directory is
/// removed together with its contents; without it, only an empty directory
/// can be removed.
#[derive(Clone, Copy, Debug, PartialEq, Eq, Structural)]
pub struct RemoveFlags {
    pub recursive: bool,
}

impl RemoveFlags {
    /// The empty option set.
    pub fn empty() -> (r: RemoveFlags)
        ensures
            !r.recursive,
    {
        RemoveFlags { recursive: false }
    }

    /// The option set holding RECURSIVE alone.
    pub fn recursive() -> (r: RemoveFlags)
        ensures
            r.recursive,
    {
        RemoveFlags { recursive: true }
    }
}

} // verus!
