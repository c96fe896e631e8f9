//! The lock under which the client's credentials and active pointer change.
//!
//! The daemon holds this lock only while loading/finalizing/renewing a credential
//! generation. Enrollment and privileged repair hold it for their complete state
//! transition. The network control stream never holds it.

use vstd::prelude::*;

use crate::common::secure_fs::EntryKind;
use crate::text::{concat, tell, told};

use super::unix_state::LOCK_PATH;

verus! {

/// The fixed cross-process client-state lock path.
///
/// On Unix the lock inode lives directly below root-owned `/var/lib`, outside the
/// service-writable client state tree.
pub fn state_lock_path() -> (result: &'static str)
    ensures
        result@ == LOCK_PATH@,
{
    LOCK_PATH
}

/// What is wrong with a lock file before it is opened, if anything.
pub open spec fn lock_fault(
    parent: Seq<char>,
    parent_kind: EntryKind,
    path: Seq<char>,
    kind: EntryKind,
) -> Option<Seq<char>> {
    match parent_kind {
        EntryKind::Missing => Some("inspect client state-lock directory "@ + parent),
        EntryKind::Directory => match kind {
            EntryKind::Missing => None,
            EntryKind::Regular => None,
            _ => Some("client state lock is unsafe: "@ + path),
        },
        _ => Some("client state-lock directory is unsafe: "@ + parent),
    }
}

/// Checks a lock file before it is opened: its directory must be a real one, and
/// it must be a regular file where it is there.
pub fn check_lock_file(parent: &str, parent_kind: EntryKind, path: &str, kind: EntryKind) -> (result:
    Result<(), String>)
    ensures
        told(result, lock_fault(parent@, parent_kind, path@, kind)),
{
    match parent_kind {
        EntryKind::Directory => {},
        EntryKind::Missing => {
            return tell(&concat("inspect client state-lock directory ", parent));
        },
        _ => return tell(&concat("client state-lock directory is unsafe: ", parent)),
    }
    match kind {
        EntryKind::Missing => Ok(()),
        EntryKind::Regular => Ok(()),
        _ => tell(&concat("client state lock is unsafe: ", path)),
    }
}

/// Why an opened lock is not used, if it is not.
pub open spec fn opened_lock_fault(path: Seq<char>, regular: bool) -> Option<Seq<char>> {
    if regular {
        None
    } else {
        Some("client state lock is not a regular file: "@ + path)
    }
}

/// Checks a lock file once it is open.
pub fn check_opened_lock(path: &str, regular: bool) -> (result: Result<(), String>)
    ensures
        told(result, opened_lock_fault(path@, regular)),
{
    if regular {
        Ok(())
    } else {
        tell(&concat("client state lock is not a regular file: ", path))
    }
}

/// The lock is taken exactly in a real directory, where it is a regular file or not there yet.
pub proof fn real_locks_are_taken(
    parent: Seq<char>,
    parent_kind: EntryKind,
    path: Seq<char>,
    kind: EntryKind,
)
    ensures
        lock_fault(parent, parent_kind, path, kind) is None <==> parent_kind is Directory && (kind
            is Missing || kind is Regular),
{
}

/// An opened lock is used exactly if it is a regular file.
pub proof fn opened_locks_are_regular(path: Seq<char>, regular: bool)
    ensures
        opened_lock_fault(path, regular) is None <==> regular,
{
}

} // verus!
