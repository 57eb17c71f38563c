//! Planning of the filesystem helper operations.
//!
//! The helpers themselves touch the filesystem, which this crate does not
//! do.  Instead, each helper is planned here as a total function from what
//! the caller observed (the kind of entry at the path, the option set) to
//! the single platform action to take.  The unverified layer around the
//! crate probes the path, asks for the action, and performs it.

use crate::flags::CreateFlags;
use crate::flags::RemoveFlags;
use vstd::prelude::*;

verus! {

/// What was found at a path when it was probed: a directory, a regular
/// file, or nothing usable.  Anything that is neither a directory nor a
/// regular file is reported as absent, as removal treats it so.
#[derive(Clone, Copy, Debug, PartialEq, Eq, Structural)]
pub enum EntryKind {
    Directory,
    File,
    Absent,
}

/// The one platform action a directory-creation request turns into.
#[derive(Clone, Copy, Debug, PartialEq, Eq, Structural)]
pub enum CreateAction {
    /// Create the directory and every missing ancestor; succeed when the
    /// full path already exists as a directory.
    CreateDirAll,
    /// Create exactly one directory level; fail when the parent is missing
    /// or the target already exists.
    CreateDirOne,
}

/// The one platform action a removal request turns into.
#[derive(Clone, Copy, Debug, PartialEq, Eq, Structural)]
pub enum RemoveAction {
    /// Remove a directory together with its contents.
    RemoveDirAll,
    /// Remove an empty directory.
    RemoveDir,
    /// Remove a regular file.
    RemoveFile,
    /// Touch nothing and report success.
    NoOp,
}

/// The action that directory creation takes for a given option set.
pub open spec fn create_action_spec(flags: CreateFlags) -> CreateAction {
    if flags.recursive {
        CreateAction::CreateDirAll
    } else {
        CreateAction::CreateDirOne
    }
}

/// The action that removal takes for a given entry kind and option set.
/// A path at which nothing was found is left alone and the request
/// nevertheless succeeds.
pub open spec fn remove_action_spec(kind: EntryKind, flags: RemoveFlags) -> RemoveAction {
    match kind {
        EntryKind::Directory => if flags.recursive {
            RemoveAction::RemoveDirAll
        } else {
            RemoveAction::RemoveDir
        },
        EntryKind::File => RemoveAction::RemoveFile,
        EntryKind::Absent => RemoveAction::NoOp,
    }
}

/// Plans a directory creation: with RECURSIVE the whole path is made, with
/// every missing ancestor; without it exactly one level.
pub fn create_action(flags: CreateFlags) -> (a: CreateAction)
    ensures
        a == create_action_spec(flags),
{
    if flags.recursive {
        CreateAction::CreateDirAll
    } else {
        CreateAction::CreateDirOne
    }
}

/// Plans a removal from the observed entry kind and the option set.
pub fn remove_action(kind: EntryKind, flags: RemoveFlags) -> (a: RemoveAction)
    ensures
        a == remove_action_spec(kind, flags),
        a == RemoveAction::NoOp <==> kind == EntryKind::Absent,
{
    match kind {
        EntryKind::Directory => if flags.recursive {
            RemoveAction::RemoveDirAll
        } else {
            RemoveAction::RemoveDir
        },
        EntryKind::File => RemoveAction::RemoveFile,
        EntryKind::Absent => RemoveAction::NoOp,
    }
}

/// Removal of a path at which nothing exists is a no-op that succeeds,
/// whatever the option set: the planned action touches nothing.
pub proof fn lemma_remove_absent_is_noop(flags: RemoveFlags)
    ensures
        remove_action_spec(EntryKind::Absent, flags) == RemoveAction::NoOp,
{
}

/// Recursive directory creation plans the same ancestor-creating action
/// whatever option set carries the RECURSIVE bit and whatever already
/// exists at the path: repeating it cannot change the action taken, which
/// succeeds when the directory is already present.
pub proof fn lemma_create_recursive_is_stable(flags: CreateFlags)
    requires
        flags.recursive,
    ensures
        create_action_spec(flags) == CreateAction::CreateDirAll,
{
}

} // verus!
