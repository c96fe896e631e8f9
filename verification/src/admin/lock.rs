//! The lock under which an Admin profile's credentials change.

use vstd::prelude::*;

use crate::common::secure_fs::EntryKind;
use crate::text::{concat, tell, told};

verus! {

pub const PROFILE_STATE_LOCK_NAME: &'static str = ".centrald-profile-state.lock";

/// How long a lock that another process holds is waited for, in milliseconds.
pub const PROFILE_STATE_LOCK_TIMEOUT_MILLIS: u64 = 15_000;

/// What is wrong with a profile's lock before it is opened, if anything.
pub open spec fn lock_fault(
    profile_dir: Seq<char>,
    directory: EntryKind,
    path: Seq<char>,
    lock: EntryKind,
) -> Option<Seq<char>> {
    match directory {
        EntryKind::Missing => Some("inspect Admin profile directory "@ + profile_dir),
        EntryKind::Directory => match lock {
            EntryKind::Missing => None,
            EntryKind::Regular => None,
            _ => Some("refusing unsafe Admin profile state lock "@ + path),
        },
        _ => Some("Admin profile path is not a real directory: "@ + profile_dir),
    }
}

/// Checks a profile's lock before it is opened: the profile must have a real
/// directory, and the lock must be a regular file where it is there.
pub fn check_lock(profile_dir: &str, directory: EntryKind, path: &str, lock: EntryKind) -> (result:
    Result<(), String>)
    ensures
        told(result, lock_fault(profile_dir@, directory, path@, lock)),
{
    match directory {
        EntryKind::Directory => {},
        EntryKind::Missing => {
            return tell(&concat("inspect Admin profile directory ", profile_dir));
        },
        _ => return tell(&concat("Admin profile path is not a real directory: ", profile_dir)),
    }
    match lock {
        EntryKind::Missing => Ok(()),
        EntryKind::Regular => Ok(()),
        _ => tell(&concat("refusing unsafe Admin profile state lock ", path)),
    }
}

/// Why an opened lock is not used, if it is not.
pub open spec fn opened_lock_fault(path: Seq<char>, regular: bool) -> Option<Seq<char>> {
    if regular {
        None
    } else {
        Some("Admin profile state lock is not a regular file: "@ + path)
    }
}

/// Checks a profile's lock once it is open.
pub fn check_opened_lock(path: &str, regular: bool) -> (result: Result<(), String>)
    ensures
        told(result, opened_lock_fault(path@, regular)),
{
    if regular {
        Ok(())
    } else {
        tell(&concat("Admin profile state lock is not a regular file: ", path))
    }
}

/// What came of trying a profile's lock.
#[derive(Debug, Clone, Copy, PartialEq, Eq, Structural)]
pub enum LockAttempt {
    Held,
    Busy,
    Failed,
}

/// What is done next with a profile's lock: it is held, it is tried again after a
/// fortieth of a second, or it is given up.
#[derive(Debug)]
pub enum LockAction {
    Proceed,
    SleepAndRetry,
    Fail(String),
}

/// What follows an attempt to take the lock.
pub open spec fn lock_moves(
    attempt: LockAttempt,
    elapsed: int,
    profile_dir: Seq<char>,
    path: Seq<char>,
    action: LockAction,
) -> bool {
    match attempt {
        LockAttempt::Held => action is Proceed,
        LockAttempt::Busy => if elapsed >= PROFILE_STATE_LOCK_TIMEOUT_MILLIS {
            action matches LockAction::Fail(text) && text@
                == "Admin profile state remained busy for 15 seconds: "@ + profile_dir
        } else {
            action is SleepAndRetry
        },
        LockAttempt::Failed => action matches LockAction::Fail(text) && text@
            == "lock Admin profile state "@ + path,
    }
}

/// Tells what is done next with a profile's lock, so many milliseconds after it
/// was first tried.
pub fn lock_step(attempt: LockAttempt, elapsed: u64, profile_dir: &str, path: &str) -> (action:
    LockAction)
    ensures
        lock_moves(attempt, elapsed as int, profile_dir@, path@, action),
{
    match attempt {
        LockAttempt::Held => LockAction::Proceed,
        LockAttempt::Busy => {
            if elapsed >= PROFILE_STATE_LOCK_TIMEOUT_MILLIS {
                LockAction::Fail(
                    concat("Admin profile state remained busy for 15 seconds: ", profile_dir),
                )
            } else {
                LockAction::SleepAndRetry
            }
        },
        LockAttempt::Failed => LockAction::Fail(concat("lock Admin profile state ", path)),
    }
}

/// A profile is changed exactly once its lock is held; a busy lock is tried again for fifteen
/// seconds and no longer.
pub proof fn profiles_are_changed_under_their_lock(
    attempt: LockAttempt,
    elapsed: int,
    profile_dir: Seq<char>,
    path: Seq<char>,
    action: LockAction,
)
    requires
        lock_moves(attempt, elapsed, profile_dir, path, action),
    ensures
        action is Proceed <==> attempt == LockAttempt::Held,
        action is SleepAndRetry <==> attempt == LockAttempt::Busy && elapsed < 15 * 1000,
        action is Fail <==> attempt == LockAttempt::Failed || (attempt == LockAttempt::Busy
            && elapsed >= 15 * 1000),
{
}

/// The lock is taken exactly in a real directory, where it is a regular file or not there yet.
pub proof fn real_profile_locks_are_taken(
    profile_dir: Seq<char>,
    directory: EntryKind,
    path: Seq<char>,
    lock: EntryKind,
)
    ensures
        lock_fault(profile_dir, directory, path, lock) is None <==> directory is Directory && (lock
            is Missing || lock is Regular),
{
}

/// An opened lock is used exactly if it is a regular file.
pub proof fn opened_locks_are_regular(path: Seq<char>, regular: bool)
    ensures
        opened_lock_fault(path, regular) is None <==> regular,
{
}

} // verus!
