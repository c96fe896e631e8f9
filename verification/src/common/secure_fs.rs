//! Creating, replacing and pruning files without ever following a link or
//! leaving a file half written.
//!
//! Each operation looks at what the file system shows and plans its changes, one
//! by one and in order.

use vstd::prelude::*;

use crate::ident::{hyphenated, id_text, parse_id, uuid_value};
use crate::paths::{file_name, join_path, joined, parent, path_file_name, path_parent};
use crate::text::{
    after_prefix, concat, in_order, optional_view, sort_texts, strip_prefix, views,
};

verus! {

#[derive(Debug)]
pub enum SecureFileError {
    MissingParent(String),
    Exists(String),
    Symlink(String),
    NotRegular(String),
    UnsafeAncestor(String),
    ReplacementUnsupported,
    Io { path: String, source: String },
}

/// An error of a file operation, with its path as a text.
pub enum FileFault {
    MissingParent(Seq<char>),
    Exists(Seq<char>),
    Symlink(Seq<char>),
    NotRegular(Seq<char>),
    UnsafeAncestor(Seq<char>),
    ReplacementUnsupported,
    Io { path: Seq<char>, source: Seq<char> },
}

impl View for SecureFileError {
    type V = FileFault;

    open spec fn view(&self) -> FileFault {
        match self {
            SecureFileError::MissingParent(path) => FileFault::MissingParent(path@),
            SecureFileError::Exists(path) => FileFault::Exists(path@),
            SecureFileError::Symlink(path) => FileFault::Symlink(path@),
            SecureFileError::NotRegular(path) => FileFault::NotRegular(path@),
            SecureFileError::UnsafeAncestor(path) => FileFault::UnsafeAncestor(path@),
            SecureFileError::ReplacementUnsupported => FileFault::ReplacementUnsupported,
            SecureFileError::Io { path, source } => FileFault::Io {
                path: path@,
                source: source@,
            },
        }
    }
}

impl SecureFileError {
    pub open spec fn message_spec(self) -> Seq<char> {
        match self {
            SecureFileError::MissingParent(path) => "target path has no parent: "@ + path@,
            SecureFileError::Exists(path) => "refusing to overwrite existing path: "@ + path@,
            SecureFileError::Symlink(path) =>
                "refusing to write through a symbolic-link target: "@ + path@,
            SecureFileError::NotRegular(path) =>
                "replacement target is not a regular file: "@ + path@,
            SecureFileError::UnsafeAncestor(path) =>
                "refusing path with a symbolic-link or reparse-point ancestor: "@ + path@,
            SecureFileError::ReplacementUnsupported =>
                "safe file replacement is supported only on Unix"@,
            SecureFileError::Io { path, source } => "filesystem operation failed for "@ + path@
                + ": "@ + source@,
        }
    }

    pub fn message(&self) -> (result: String)
        ensures
            result@ == self.message_spec(),
    {
        match self {
            SecureFileError::MissingParent(path) => concat("target path has no parent: ", path),
            SecureFileError::Exists(path) => concat("refusing to overwrite existing path: ", path),
            SecureFileError::Symlink(path) => concat(
                "refusing to write through a symbolic-link target: ",
                path,
            ),
            SecureFileError::NotRegular(path) => concat(
                "replacement target is not a regular file: ",
                path,
            ),
            SecureFileError::UnsafeAncestor(path) => concat(
                "refusing path with a symbolic-link or reparse-point ancestor: ",
                path,
            ),
            SecureFileError::ReplacementUnsupported =>
                "safe file replacement is supported only on Unix".to_owned(),
            SecureFileError::Io { path, source } => {
                let mut message = concat("filesystem operation failed for ", path);
                message.append(": ");
                message.append(source);
                message
            },
        }
    }
}

/// What stands at a path, a link not followed. A reparse point counts as a
/// symbolic link.
#[derive(Debug, Clone, Copy, PartialEq, Eq, Structural)]
pub enum EntryKind {
    Missing,
    Symlink,
    Directory,
    Regular,
    Other,
}

/// What was found at a path, or why looking there failed.
#[derive(Debug)]
pub struct Inspected {
    pub path: String,
    pub kind: Result<EntryKind, String>,
}

/// What is wrong with a directory above a path, if anything.
pub open spec fn ancestor_fault(ancestor: Inspected) -> Option<FileFault> {
    match ancestor.kind {
        Ok(EntryKind::Missing) => None,
        Ok(EntryKind::Directory) => None,
        Ok(EntryKind::Symlink) => Some(FileFault::UnsafeAncestor(ancestor.path@)),
        Ok(_) => Some(FileFault::NotRegular(ancestor.path@)),
        Err(source) => Some(FileFault::Io { path: ancestor.path@, source: source@ }),
    }
}

/// The first fault among the ancestors from `i` on.
pub open spec fn ancestors_fault(ancestors: Seq<Inspected>, i: int) -> Option<FileFault>
    decreases ancestors.len() - i,
{
    if i < 0 || i >= ancestors.len() {
        None
    } else {
        match ancestor_fault(ancestors[i]) {
            Some(fault) => Some(fault),
            None => ancestors_fault(ancestors, i + 1),
        }
    }
}

/// Whether a result reports a fault, or is fine without one.
pub open spec fn reports<T>(result: Result<T, SecureFileError>, fault: Option<FileFault>) -> bool {
    match fault {
        Some(fault) => result is Err && result->Err_0@ == fault,
        None => result is Ok,
    }
}

/// Rejects any existing ancestor that is a symbolic link or a reparse point.
/// Missing ancestors are permitted so the caller may create them only after the
/// nearest existing ancestor has been validated.
pub fn validate_no_symlink_ancestors(ancestors: &Vec<Inspected>) -> (result: Result<
    (),
    SecureFileError,
>)
    ensures
        reports(result, ancestors_fault(ancestors@, 0)),
{
    let mut i: usize = 0;
    while i < ancestors.len()
        invariant
            i <= ancestors.len(),
            ancestors_fault(ancestors@, 0) == ancestors_fault(ancestors@, i as int),
        decreases ancestors.len() - i,
    {
        let ancestor = &ancestors[i];
        match &ancestor.kind {
            Ok(EntryKind::Missing) => {},
            Ok(EntryKind::Directory) => {},
            Ok(EntryKind::Symlink) => {
                return Err(SecureFileError::UnsafeAncestor(ancestor.path.clone()));
            },
            Ok(_) => {
                return Err(SecureFileError::NotRegular(ancestor.path.clone()));
            },
            Err(source) => {
                return Err(
                    SecureFileError::Io { path: ancestor.path.clone(), source: source.clone() },
                );
            },
        }
        i += 1;
    }
    Ok(())
}

/// One change to the file system.
#[derive(Debug)]
pub enum FileAction {
    /// Creates a directory and what is missing above it.
    CreateDirectories(String),
    /// Creates a file that must not exist, writes all of it and makes it durable.
    Write { path: String, contents: Vec<u8>, mode: u32 },
    /// Gives a file a second name that must not exist.
    Link { from: String, to: String },
    /// Gives a file another name, in place of what has it.
    Rename { from: String, to: String },
    Remove(String),
    /// Creates a new file as [`write_new_file`] does.
    Create { path: String, contents: Vec<u8>, private: bool },
    SyncDirectory(String),
}

/// A change, with its texts and bytes as sequences.
pub enum ChangeModel {
    CreateDirectories(Seq<char>),
    Write { path: Seq<char>, contents: Seq<u8>, mode: u32 },
    Link { from: Seq<char>, to: Seq<char> },
    Rename { from: Seq<char>, to: Seq<char> },
    Remove(Seq<char>),
    Create { path: Seq<char>, contents: Seq<u8>, private: bool },
    SyncDirectory(Seq<char>),
}

impl View for FileAction {
    type V = ChangeModel;

    open spec fn view(&self) -> ChangeModel {
        match self {
            FileAction::CreateDirectories(path) => ChangeModel::CreateDirectories(path@),
            FileAction::Write { path, contents, mode } => ChangeModel::Write {
                path: path@,
                contents: contents@,
                mode: *mode,
            },
            FileAction::Link { from, to } => ChangeModel::Link { from: from@, to: to@ },
            FileAction::Rename { from, to } => ChangeModel::Rename { from: from@, to: to@ },
            FileAction::Remove(path) => ChangeModel::Remove(path@),
            FileAction::Create { path, contents, private } => ChangeModel::Create {
                path: path@,
                contents: contents@,
                private: *private,
            },
            FileAction::SyncDirectory(path) => ChangeModel::SyncDirectory(path@),
        }
    }
}

/// The views of a plan.
pub open spec fn change_views(plan: Seq<FileAction>) -> Seq<ChangeModel> {
    plan.map_values(|action: FileAction| action@)
}

/// The files that there are, after a change that succeeded.
pub open spec fn after(files: Map<Seq<char>, Seq<u8>>, change: ChangeModel) -> Map<
    Seq<char>,
    Seq<u8>,
> {
    match change {
        ChangeModel::Write { path, contents, .. } => files.insert(path, contents),
        ChangeModel::Create { path, contents, .. } => files.insert(path, contents),
        ChangeModel::Link { from, to } => files.insert(to, files[from]),
        ChangeModel::Rename { from, to } => files.remove(from).insert(to, files[from]),
        ChangeModel::Remove(path) => files.remove(path),
        ChangeModel::CreateDirectories(_) => files,
        ChangeModel::SyncDirectory(_) => files,
    }
}

/// The files that there are, after changes that succeeded, in order.
pub open spec fn after_all(files: Map<Seq<char>, Seq<u8>>, changes: Seq<ChangeModel>) -> Map<
    Seq<char>,
    Seq<u8>,
>
    decreases changes.len(),
{
    if changes.len() == 0 {
        files
    } else {
        after(after_all(files, changes.drop_last()), changes.last())
    }
}

/// The directory of a file, unless the file has none or no name.
pub open spec fn placed(path: Seq<char>) -> bool {
    parent(path) is Some && parent(path)->0.len() > 0 && file_name(path) is Some
}

/// A name beside a file: something before its name and something behind it,
/// with a unique number at the end.
pub open spec fn sibling(path: Seq<char>, front: Seq<char>, behind: Seq<char>, nonce: u128) -> Seq<
    char,
> {
    joined(parent(path)->0, front + file_name(path)->0 + behind + hyphenated(nonce))
}

/// The directory of a file and the file's name.
struct Place {
    directory: String,
    name: String,
}

fn place(path: &str) -> (result: Result<Place, SecureFileError>)
    ensures
        match result {
            Ok(place) => {
                &&& placed(path@)
                &&& place.directory@ == parent(path@)->0
                &&& place.name@ == file_name(path@)->0
            },
            Err(error) => !placed(path@) && error@ == FileFault::MissingParent(path@),
        },
{
    let directory = match path_parent(path) {
        Some(directory) => directory,
        None => return Err(SecureFileError::MissingParent(path.to_owned())),
    };
    if directory.as_str().is_empty() {
        return Err(SecureFileError::MissingParent(path.to_owned()));
    }
    match path_file_name(path) {
        Some(name) => Ok(Place { directory, name }),
        None => Err(SecureFileError::MissingParent(path.to_owned())),
    }
}

fn beside(place: &Place, front: &str, behind: &str, nonce: u128) -> (result: String)
    ensures
        result@ == joined(
            place.directory@,
            front@ + place.name@ + behind@ + hyphenated(nonce),
        ),
{
    let mut name = concat(front, &place.name);
    name.append(behind);
    name.append(&id_text(nonce));
    join_path(&place.directory, &name)
}

/// The permissions of a new file.
pub open spec fn file_mode(private: bool) -> u32 {
    if private {
        0o600
    } else {
        0o644
    }
}

/// What stops a new file, if anything.
pub open spec fn new_file_fault(path: Seq<char>, ancestors: Seq<Inspected>, target: EntryKind) ->
    Option<FileFault> {
    if ancestors_fault(ancestors, 0) is Some {
        ancestors_fault(ancestors, 0)
    } else if target is Symlink {
        Some(FileFault::Symlink(path))
    } else if !(target is Missing) {
        Some(FileFault::Exists(path))
    } else if !placed(path) {
        Some(FileFault::MissingParent(path))
    } else {
        None
    }
}

/// How a new file is created: a sibling is fully written, and then linked into
/// place.
pub open spec fn creation(path: Seq<char>, contents: Seq<u8>, private: bool, nonce: u128) -> Seq<
    ChangeModel,
> {
    let temporary = sibling(path, "."@, ".centrald-tmp-"@, nonce);
    seq![
        ChangeModel::CreateDirectories(parent(path)->0),
        ChangeModel::Write { path: temporary, contents, mode: file_mode(private) },
        ChangeModel::Link { from: temporary, to: path },
        ChangeModel::Remove(temporary),
        ChangeModel::SyncDirectory(parent(path)->0),
    ]
}

/// Creates a new file without replacing any existing target.
///
/// Private files are mode `0600` and public files are mode `0644` on Unix.
/// A uniquely named sibling is fully written and synced before it is linked into
/// place. A plain rename would replace a target created during the write window.
pub fn write_new_file(
    path: &str,
    contents: &Vec<u8>,
    private: bool,
    ancestors: &Vec<Inspected>,
    target: EntryKind,
    nonce: u128,
) -> (result: Result<Vec<FileAction>, SecureFileError>)
    ensures
        reports(result, new_file_fault(path@, ancestors@, target)),
        result is Ok ==> change_views(result->Ok_0@) == creation(path@, contents@, private, nonce),
{
    match validate_no_symlink_ancestors(ancestors) {
        Ok(()) => {},
        Err(error) => return Err(error),
    }
    match target {
        EntryKind::Missing => {},
        EntryKind::Symlink => return Err(SecureFileError::Symlink(path.to_owned())),
        _ => return Err(SecureFileError::Exists(path.to_owned())),
    }
    let place = match place(path) {
        Ok(place) => place,
        Err(error) => return Err(error),
    };
    let temporary = beside(&place, ".", ".centrald-tmp-", nonce);
    let mode: u32 = if private {
        0o600
    } else {
        0o644
    };
    let mut plan: Vec<FileAction> = Vec::new();
    plan.push(FileAction::CreateDirectories(place.directory.clone()));
    plan.push(FileAction::Write { path: temporary.clone(), contents: contents.clone(), mode });
    plan.push(FileAction::Link { from: temporary.clone(), to: path.to_owned() });
    plan.push(FileAction::Remove(temporary));
    plan.push(FileAction::SyncDirectory(place.directory));
    assert(change_views(plan@) =~= creation(path@, contents@, private, nonce));
    Ok(plan)
}

/// What stops the replacement of a file, if anything.
pub open spec fn replacement_fault(
    unix: bool,
    path: Seq<char>,
    ancestors: Seq<Inspected>,
    target: Inspected,
) -> Option<FileFault> {
    if !unix {
        Some(FileFault::ReplacementUnsupported)
    } else if ancestors_fault(ancestors, 0) is Some {
        ancestors_fault(ancestors, 0)
    } else {
        match target.kind {
            Err(source) => Some(FileFault::Io { path, source: source@ }),
            Ok(EntryKind::Missing) => Some(
                FileFault::Io { path, source: "No such file or directory (os error 2)"@ },
            ),
            Ok(EntryKind::Symlink) => Some(FileFault::Symlink(path)),
            Ok(EntryKind::Regular) => if placed(path) {
                None
            } else {
                Some(FileFault::MissingParent(path))
            },
            Ok(_) => Some(FileFault::NotRegular(path)),
        }
    }
}

fn replaceable(unix: bool, path: &str, ancestors: &Vec<Inspected>, target: &Inspected) -> (result:
    Result<Place, SecureFileError>)
    ensures
        reports(result, replacement_fault(unix, path@, ancestors@, *target)),
        result is Ok ==> result->Ok_0.directory@ == parent(path@)->0 && result->Ok_0.name@
            == file_name(path@)->0,
{
    if !unix {
        return Err(SecureFileError::ReplacementUnsupported);
    }
    match validate_no_symlink_ancestors(ancestors) {
        Ok(()) => {},
        Err(error) => return Err(error),
    }
    match &target.kind {
        Err(source) => Err(
            SecureFileError::Io { path: path.to_owned(), source: source.clone() },
        ),
        Ok(EntryKind::Missing) => Err(
            SecureFileError::Io {
                path: path.to_owned(),
                source: "No such file or directory (os error 2)".to_owned(),
            },
        ),
        Ok(EntryKind::Symlink) => Err(SecureFileError::Symlink(path.to_owned())),
        Ok(EntryKind::Regular) => place(path),
        Ok(_) => Err(SecureFileError::NotRegular(path.to_owned())),
    }
}

/// How a file is replaced: a sibling is fully written and then renamed over it.
pub open spec fn replacement(path: Seq<char>, contents: Seq<u8>, private: bool, nonce: u128) -> Seq<
    ChangeModel,
> {
    let temporary = sibling(path, "."@, ".centrald-replacement-"@, nonce);
    seq![
        ChangeModel::Create { path: temporary, contents, private },
        ChangeModel::Rename { from: temporary, to: path },
        ChangeModel::SyncDirectory(parent(path)->0),
    ]
}

/// The name of the backup of a file.
pub open spec fn backup_path(path: Seq<char>, nonce: u128) -> Seq<char> {
    sibling(path, Seq::empty(), ".centrald-backup-"@, nonce)
}

/// How a file is replaced with a backup: first of all its bytes are kept.
pub open spec fn replacement_with_backup(
    path: Seq<char>,
    original: Seq<u8>,
    contents: Seq<u8>,
    private: bool,
    nonce: u128,
) -> Seq<ChangeModel> {
    seq![
        ChangeModel::Create { path: backup_path(path, nonce), contents: original, private: true },
    ] + replacement(path, contents, private, nonce)
}

fn push_replacement(
    plan: &mut Vec<FileAction>,
    path: &str,
    contents: &Vec<u8>,
    private: bool,
    place: &Place,
    nonce: u128,
)
    requires
        place.directory@ == parent(path@)->0,
        place.name@ == file_name(path@)->0,
    ensures
        change_views(final(plan)@) == change_views(old(plan)@) + replacement(
            path@,
            contents@,
            private,
            nonce,
        ),
{
    let ghost before = change_views(plan@);
    let temporary = beside(place, ".", ".centrald-replacement-", nonce);
    plan.push(FileAction::Create { path: temporary.clone(), contents: contents.clone(), private });
    plan.push(FileAction::Rename { from: temporary, to: path.to_owned() });
    plan.push(FileAction::SyncDirectory(place.directory.clone()));
    assert(change_views(plan@) =~= before + replacement(path@, contents@, private, nonce));
}

/// Atomically replaces an existing regular file, whose bytes are `original`, and
/// preserves a private, uniquely named sibling backup, which is named beside the
/// plan. This is intentionally Unix-only because portable `rename` does not
/// provide the same atomic replace contract.
pub fn replace_file_with_backup(
    unix: bool,
    path: &str,
    original: &Vec<u8>,
    contents: &Vec<u8>,
    private: bool,
    ancestors: &Vec<Inspected>,
    target: &Inspected,
    nonce: u128,
) -> (result: Result<(String, Vec<FileAction>), SecureFileError>)
    ensures
        reports(result, replacement_fault(unix, path@, ancestors@, *target)),
        result is Ok ==> {
            &&& result->Ok_0.0@ == backup_path(path@, nonce)
            &&& change_views(result->Ok_0.1@) == replacement_with_backup(
                path@,
                original@,
                contents@,
                private,
                nonce,
            )
        },
{
    let place = match replaceable(unix, path, ancestors, target) {
        Ok(place) => place,
        Err(error) => return Err(error),
    };
    proof {
        reveal_strlit("");
        assert(""@ =~= Seq::empty());
    }
    let backup = beside(&place, "", ".centrald-backup-", nonce);
    let mut plan: Vec<FileAction> = Vec::new();
    plan.push(
        FileAction::Create { path: backup.clone(), contents: original.clone(), private: true },
    );
    assert(change_views(plan@) =~= seq![
        ChangeModel::Create { path: backup@, contents: original@, private: true },
    ]);
    push_replacement(&mut plan, path, contents, private, &place, nonce);
    Ok((backup, plan))
}

/// Atomically replaces an existing regular file without creating a backup.
///
/// This is intended for callers that already maintain a crash-recovery
/// transaction containing the original bytes. It is Unix-only for the same
/// reason as [`replace_file_with_backup`].
pub fn replace_file_atomically(
    unix: bool,
    path: &str,
    contents: &Vec<u8>,
    private: bool,
    ancestors: &Vec<Inspected>,
    target: &Inspected,
    nonce: u128,
) -> (result: Result<Vec<FileAction>, SecureFileError>)
    ensures
        reports(result, replacement_fault(unix, path@, ancestors@, *target)),
        result is Ok ==> change_views(result->Ok_0@) == replacement(
            path@,
            contents@,
            private,
            nonce,
        ),
{
    let place = match replaceable(unix, path, ancestors, target) {
        Ok(place) => place,
        Err(error) => return Err(error),
    };
    let mut plan: Vec<FileAction> = Vec::new();
    assert(change_views(plan@) =~= Seq::empty());
    push_replacement(&mut plan, path, contents, private, &place, nonce);
    assert(change_views(plan@) =~= replacement(path@, contents@, private, nonce));
    Ok(plan)
}

/// What is removed, as far as it can be, when a change of a plan fails: a sibling
/// that could not take its place, or the new name of a sibling that could not
/// be removed.
pub open spec fn cleanup(plan: Seq<ChangeModel>, failed: int) -> Option<Seq<char>> {
    match plan[failed] {
        ChangeModel::Link { from, .. } => Some(from),
        ChangeModel::Rename { from, .. } => Some(from),
        ChangeModel::Remove(_) => if failed > 0 && plan[failed - 1] is Link {
            Some(plan[failed - 1]->Link_to)
        } else {
            None
        },
        _ => None,
    }
}

/// The path that the error of a change names.
pub open spec fn changed_path(change: ChangeModel) -> Seq<char> {
    match change {
        ChangeModel::CreateDirectories(path) => path,
        ChangeModel::Write { path, .. } => path,
        ChangeModel::Link { to, .. } => to,
        ChangeModel::Rename { to, .. } => to,
        ChangeModel::Remove(path) => path,
        ChangeModel::Create { path, .. } => path,
        ChangeModel::SyncDirectory(path) => path,
    }
}

/// Tells what to remove and what to report when a change of a plan fails.
/// `taken` says whether the reason was that the new name is taken.
pub fn file_action_failed(plan: &Vec<FileAction>, failed: usize, taken: bool, source: &str) -> (
    result: (Option<String>, SecureFileError))
    requires
        failed < plan.len(),
    ensures
        optional_view(result.0) == cleanup(change_views(plan@), failed as int),
        result.1@ == if plan@[failed as int] is Link && taken {
            FileFault::Exists(changed_path(plan@[failed as int]@))
        } else {
            FileFault::Io { path: changed_path(plan@[failed as int]@), source: source@ }
        },
{
    let ghost changes = change_views(plan@);
    assert(changes[failed as int] == plan@[failed as int]@);
    let remove = match &plan[failed] {
        FileAction::Link { from, .. } => Some(from.clone()),
        FileAction::Rename { from, .. } => Some(from.clone()),
        FileAction::Remove(_) => {
            if failed > 0 {
                assert(changes[failed - 1] == plan@[failed - 1]@);
                match &plan[failed - 1] {
                    FileAction::Link { to, .. } => Some(to.clone()),
                    _ => None,
                }
            } else {
                None
            }
        },
        _ => None,
    };
    let path = match &plan[failed] {
        FileAction::CreateDirectories(path) => path.clone(),
        FileAction::Write { path, .. } => path.clone(),
        FileAction::Link { to, .. } => to.clone(),
        FileAction::Rename { to, .. } => to.clone(),
        FileAction::Remove(path) => path.clone(),
        FileAction::Create { path, .. } => path.clone(),
        FileAction::SyncDirectory(path) => path.clone(),
    };
    let error = if matches!(&plan[failed], FileAction::Link { .. }) && taken {
        SecureFileError::Exists(path)
    } else {
        SecureFileError::Io { path, source: source.to_owned() }
    };
    (remove, error)
}

/// A sibling has another name than the file.
proof fn sibling_differs(path: Seq<char>, front: Seq<char>, behind: Seq<char>, nonce: u128)
    requires
        path == joined(parent(path)->0, file_name(path)->0),
        placed(path),
        front.len() + behind.len() > 0,
        !crate::paths::absolute(file_name(path)->0),
        !crate::paths::absolute(front + file_name(path)->0 + behind + hyphenated(nonce)),
    ensures
        sibling(path, front, behind, nonce) != path,
{
    assert(sibling(path, front, behind, nonce).len() > path.len());
}

/// A path in its plain form: its directory, a slash and a name without one.
pub open spec fn plain_path(path: Seq<char>) -> bool {
    &&& placed(path)
    &&& !crate::paths::absolute(file_name(path)->0)
    &&& file_name(path)->0.len() > 0
    &&& path == joined(parent(path)->0, file_name(path)->0)
}

/// A new file is whole or not there at all, wherever its creation stops, and no
/// other file but the sibling is touched.
pub proof fn new_file_is_whole_or_absent(
    files: Map<Seq<char>, Seq<u8>>,
    path: Seq<char>,
    contents: Seq<u8>,
    private: bool,
    nonce: u128,
    performed: nat,
)
    requires
        plain_path(path),
        !files.contains_key(path),
        performed <= creation(path, contents, private, nonce).len(),
    ensures
        ({
            let temporary = sibling(path, "."@, ".centrald-tmp-"@, nonce);
            let then = after_all(
                files,
                creation(path, contents, private, nonce).take(performed as int),
            );
            &&& !then.contains_key(path) || then[path] == contents
            &&& performed == 5 ==> then.contains_key(path) && !then.contains_key(temporary)
            &&& forall|other: Seq<char>|
                other != path && other != temporary ==> (#[trigger] then.contains_key(other)
                    == files.contains_key(other) && then[other] == files[other])
        }),
{
    let changes = creation(path, contents, private, nonce);
    let temporary = sibling(path, "."@, ".centrald-tmp-"@, nonce);
    reveal_strlit(".");
    reveal_strlit(".centrald-tmp-");
    sibling_differs(path, "."@, ".centrald-tmp-"@, nonce);
    let s0 = changes.take(0);
    let s1 = changes.take(1);
    let s2 = changes.take(2);
    let s3 = changes.take(3);
    let s4 = changes.take(4);
    let s5 = changes.take(5);
    assert(s0 =~= Seq::empty());
    assert(s1.drop_last() =~= s0);
    assert(s2.drop_last() =~= s1);
    assert(s3.drop_last() =~= s2);
    assert(s4.drop_last() =~= s3);
    assert(s5.drop_last() =~= s4);
    assert(after_all(files, s0) == files);
    assert(after_all(files, s1) == files);
    assert(after_all(files, s2) == files.insert(temporary, contents));
    assert(after_all(files, s3) == files.insert(temporary, contents).insert(path, contents));
    assert(after_all(files, s4) == files.insert(temporary, contents).insert(path, contents).remove(
        temporary,
    ));
    assert(after_all(files, s5) == after_all(files, s4));
}

/// A replaced file holds its old bytes or the new ones, wherever the
/// replacement stops, and it holds the new ones at the end.
pub proof fn replacement_is_atomic(
    files: Map<Seq<char>, Seq<u8>>,
    path: Seq<char>,
    contents: Seq<u8>,
    private: bool,
    nonce: u128,
    performed: nat,
)
    requires
        plain_path(path),
        files.contains_key(path),
        performed <= 3,
    ensures
        ({
            let then = after_all(
                files,
                replacement(path, contents, private, nonce).take(performed as int),
            );
            &&& then.contains_key(path)
            &&& then[path] == files[path] || then[path] == contents
            &&& performed == 3 ==> then[path] == contents
        }),
{
    let changes = replacement(path, contents, private, nonce);
    let temporary = sibling(path, "."@, ".centrald-replacement-"@, nonce);
    reveal_strlit(".");
    reveal_strlit(".centrald-replacement-");
    sibling_differs(path, "."@, ".centrald-replacement-"@, nonce);
    let s0 = changes.take(0);
    let s1 = changes.take(1);
    let s2 = changes.take(2);
    let s3 = changes.take(3);
    assert(s0 =~= Seq::empty());
    assert(s1.drop_last() =~= s0);
    assert(s2.drop_last() =~= s1);
    assert(s3.drop_last() =~= s2);
    assert(after_all(files, s0) == files);
    assert(after_all(files, s1) == files.insert(temporary, contents));
    assert(after_all(files, s2) == files.insert(temporary, contents).remove(temporary).insert(
        path,
        contents,
    ));
    assert(after_all(files, s3) == after_all(files, s2));
}

/// Once a file replaced with a backup holds other bytes than before, its backup
/// holds those it had.
pub proof fn backup_keeps_the_original(
    files: Map<Seq<char>, Seq<u8>>,
    path: Seq<char>,
    contents: Seq<u8>,
    private: bool,
    nonce: u128,
    performed: nat,
)
    requires
        plain_path(path),
        files.contains_key(path),
        performed <= 4,
    ensures
        ({
            let then = after_all(
                files,
                replacement_with_backup(path, files[path], contents, private, nonce).take(
                    performed as int,
                ),
            );
            let backup = backup_path(path, nonce);
            &&& then.contains_key(path)
            &&& then[path] == files[path] || (then[path] == contents && then.contains_key(backup)
                && then[backup] == files[path])
            &&& performed == 4 ==> then[path] == contents && then.contains_key(backup)
                && then[backup] == files[path]
        }),
{
    let original = files[path];
    let changes = replacement_with_backup(path, original, contents, private, nonce);
    let temporary = sibling(path, "."@, ".centrald-replacement-"@, nonce);
    let backup = backup_path(path, nonce);
    reveal_strlit(".");
    reveal_strlit(".centrald-replacement-");
    reveal_strlit(".centrald-backup-");
    let name = file_name(path)->0;
    assert((Seq::empty() + name + ".centrald-backup-"@ + hyphenated(nonce))[0] == name[0]);
    sibling_differs(path, "."@, ".centrald-replacement-"@, nonce);
    sibling_differs(path, Seq::empty(), ".centrald-backup-"@, nonce);
    assert(temporary.len() != backup.len()) by {
        assert((Seq::<char>::empty() + name).len() == name.len());
    }
    let s0 = changes.take(0);
    let s1 = changes.take(1);
    let s2 = changes.take(2);
    let s3 = changes.take(3);
    let s4 = changes.take(4);
    assert(s0 =~= Seq::empty());
    assert(s1.drop_last() =~= s0);
    assert(s2.drop_last() =~= s1);
    assert(s3.drop_last() =~= s2);
    assert(s4.drop_last() =~= s3);
    let f1 = files.insert(backup, original);
    assert(after_all(files, s0) == files);
    assert(after_all(files, s1) == f1);
    assert(after_all(files, s2) == f1.insert(temporary, contents));
    assert(after_all(files, s3) == f1.insert(temporary, contents).remove(temporary).insert(
        path,
        contents,
    ));
    assert(after_all(files, s4) == after_all(files, s3));
}

/// An entry of a directory: its name, or none where that is no text, and what
/// it is, or why looking failed.
#[derive(Debug)]
pub struct DirectoryEntry {
    pub name: Option<String>,
    pub kind: Result<EntryKind, String>,
}

/// Whether an entry is named as a backup of a file.
pub open spec fn names_backup(entry: DirectoryEntry, prefix: Seq<char>) -> bool {
    &&& entry.name is Some
    &&& after_prefix(entry.name->0@, prefix) is Some
    &&& uuid_value(after_prefix(entry.name->0@, prefix)->0) is Some
}

/// What is wrong with an entry that is named as a backup, if anything.
pub open spec fn backup_fault(directory: Seq<char>, entry: DirectoryEntry) -> Option<FileFault> {
    let path = joined(directory, entry.name->0@);
    match entry.kind {
        Err(source) => Some(FileFault::Io { path, source: source@ }),
        Ok(EntryKind::Symlink) => Some(FileFault::Symlink(path)),
        Ok(EntryKind::Regular) => None,
        Ok(_) => Some(FileFault::NotRegular(path)),
    }
}

/// The names of the backups among the first `n` entries, or the first fault
/// among them.
pub open spec fn backups_before(
    directory: Seq<char>,
    prefix: Seq<char>,
    entries: Seq<DirectoryEntry>,
    n: int,
) -> Result<Seq<Seq<char>>, FileFault>
    decreases n,
{
    if n <= 0 {
        Ok(Seq::empty())
    } else {
        match backups_before(directory, prefix, entries, n - 1) {
            Err(fault) => Err(fault),
            Ok(names) => if !names_backup(entries[n - 1], prefix) {
                Ok(names)
            } else {
                match backup_fault(directory, entries[n - 1]) {
                    Some(fault) => Err(fault),
                    None => Ok(names.push(entries[n - 1].name->0@)),
                }
            },
        }
    }
}

/// The names of all backups of a file, or why they cannot be told.
pub open spec fn backups_of(path: Seq<char>, entries: Seq<DirectoryEntry>) -> Result<
    Seq<Seq<char>>,
    FileFault,
> {
    backups_before(
        parent(path)->0,
        file_name(path)->0 + ".centrald-backup-"@,
        entries,
        entries.len() as int,
    )
}

proof fn backups_fault_stands(
    directory: Seq<char>,
    prefix: Seq<char>,
    entries: Seq<DirectoryEntry>,
    n: int,
    m: int,
)
    requires
        n <= m,
        backups_before(directory, prefix, entries, n) is Err,
    ensures
        backups_before(directory, prefix, entries, m) == backups_before(
            directory,
            prefix,
            entries,
            n,
        ),
    decreases m - n,
{
    if n < m {
        backups_fault_stands(directory, prefix, entries, n, m - 1);
    }
}

fn collect_backups(place: &Place, entries: &Vec<DirectoryEntry>) -> (result: Result<
    Vec<String>,
    SecureFileError,
>)
    ensures
        match backups_before(
            place.directory@,
            place.name@ + ".centrald-backup-"@,
            entries@,
            entries@.len() as int,
        ) {
            Ok(names) => result is Ok && views(result->Ok_0@) == names,
            Err(fault) => result is Err && result->Err_0@ == fault,
        },
{
    let prefix = concat(&place.name, ".centrald-backup-");
    let ghost p = place.name@ + ".centrald-backup-"@;
    let mut names: Vec<String> = Vec::new();
    let mut n: usize = 0;
    assert(views(names@) =~= Seq::empty());
    while n < entries.len()
        invariant
            n <= entries.len(),
            prefix@ == p,
            p == place.name@ + ".centrald-backup-"@,
            backups_before(place.directory@, p, entries@, n as int) == Ok::<
                Seq<Seq<char>>,
                FileFault,
            >(views(names@)),
        decreases entries.len() - n,
    {
        let entry = &entries[n];
        let ghost before = views(names@);
        let mut fault: Option<SecureFileError> = None;
        match &entry.name {
            None => {},
            Some(name) => {
                match strip_prefix(name, &prefix) {
                    None => {},
                    Some(suffix) => {
                        if parse_id(&suffix).is_some() {
                            let path = join_path(&place.directory, name);
                            match &entry.kind {
                                Err(source) => {
                                    fault = Some(
                                        SecureFileError::Io { path, source: source.clone() },
                                    );
                                },
                                Ok(EntryKind::Symlink) => {
                                    fault = Some(SecureFileError::Symlink(path));
                                },
                                Ok(EntryKind::Regular) => {
                                    names.push(name.clone());
                                    assert(views(names@) =~= before.push(name@));
                                },
                                Ok(_) => {
                                    fault = Some(SecureFileError::NotRegular(path));
                                },
                            }
                        }
                    },
                }
            },
        }
        match fault {
            Some(error) => {
                proof {
                    backups_fault_stands(
                        place.directory@,
                        p,
                        entries@,
                        n + 1,
                        entries@.len() as int,
                    );
                }
                return Err(error);
            },
            None => {},
        }
        n += 1;
    }
    Ok(names)
}

/// What stops the pruning of a file's backups before the directory is read.
pub open spec fn pruning_fault(unix: bool, path: Seq<char>, ancestors: Seq<Inspected>) -> Option<
    FileFault,
> {
    if !unix {
        Some(FileFault::ReplacementUnsupported)
    } else if ancestors_fault(ancestors, 0) is Some {
        ancestors_fault(ancestors, 0)
    } else if !placed(path) {
        Some(FileFault::MissingParent(path))
    } else {
        None
    }
}

/// The oldest of some names, without the newest `retain`: all names are put in
/// order, and those that come first go.
pub open spec fn oldest(names: Seq<Seq<char>>, retain: nat, gone: Seq<Seq<char>>) -> bool {
    exists|kept: Seq<Seq<char>>|
        {
            &&& #[trigger] in_order(gone + kept)
            &&& (gone + kept).to_multiset() == names.to_multiset()
            &&& kept.len() == if names.len() < retain {
                names.len()
            } else {
                retain
            }
        }
}

/// Picks the oldest CentralD sibling backups to remove while retaining the
/// newest `retain` files, by the entries of the file's directory. The directory
/// is to be synced if any is removed.
///
/// Backup names contain UUIDv7 values, so lexical filename ordering is also
/// chronological ordering for backups produced by this module.
pub fn prune_file_backups(
    unix: bool,
    path: &str,
    retain: usize,
    ancestors: &Vec<Inspected>,
    entries: &Vec<DirectoryEntry>,
) -> (result: Result<Vec<String>, SecureFileError>)
    ensures
        match pruning_fault(unix, path@, ancestors@) {
            Some(fault) => result is Err && result->Err_0@ == fault,
            None => match backups_of(path@, entries@) {
                Err(fault) => result is Err && result->Err_0@ == fault,
                Ok(names) => {
                    &&& result is Ok
                    &&& oldest(names, retain as nat, views(result->Ok_0@))
                    &&& result->Ok_0@.len() == if names.len() > retain {
                        names.len() - retain
                    } else {
                        0
                    }
                },
            },
        },
{
    if !unix {
        return Err(SecureFileError::ReplacementUnsupported);
    }
    match validate_no_symlink_ancestors(ancestors) {
        Ok(()) => {},
        Err(error) => return Err(error),
    }
    let place = match place(path) {
        Ok(place) => place,
        Err(error) => return Err(error),
    };
    let names = match collect_backups(&place, entries) {
        Ok(names) => names,
        Err(error) => return Err(error),
    };
    let ghost found = views(names@);
    assert(found.len() == names.len());
    let sorted = sort_texts(names);
    let ghost all = views(sorted@);
    assert(all.len() == sorted.len());
    let count: usize = if sorted.len() > retain {
        sorted.len() - retain
    } else {
        0
    };
    let mut gone: Vec<String> = Vec::new();
    let mut i: usize = 0;
    assert(views(gone@) =~= all.take(0));
    while i < count
        invariant
            i <= count <= sorted.len(),
            all == views(sorted@),
            views(gone@) == all.take(i as int),
        decreases count - i,
    {
        let ghost before = views(gone@);
        gone.push(sorted[i].clone());
        assert(views(gone@) =~= before.push(all[i as int]));
        assert(all.take(i + 1) =~= before.push(all[i as int]));
        i += 1;
    }
    proof {
        let kept = all.skip(count as int);
        assert(views(gone@) + kept =~= all);
        assert(in_order(views(gone@) + kept));
        assert(views(gone@).len() == gone.len());
    }
    Ok(gone)
}

/// A way is safe exactly if each part of it is a real directory or not there yet.
pub proof fn safe_ways_are_directories(ancestors: Seq<Inspected>, from: int)
    requires
        0 <= from <= ancestors.len(),
    ensures
        ancestors_fault(ancestors, from) is None <==> forall|i: int|
            from <= i < ancestors.len() ==> {
                &&& (#[trigger] ancestors[i]).kind is Ok
                &&& ancestors[i].kind->Ok_0 is Missing || ancestors[i].kind->Ok_0 is Directory
            },
    decreases ancestors.len() - from,
{
    if from < ancestors.len() {
        safe_ways_are_directories(ancestors, from + 1);
        assert(ancestor_fault(ancestors[from]) is None <==> ancestors[from].kind is Ok && (
        ancestors[from].kind->Ok_0 is Missing || ancestors[from].kind->Ok_0 is Directory));
    }
}

/// A file is created exactly where nothing is yet, and replaced exactly where a regular file is,
/// both on a safe way and with a directory to stand in.
pub proof fn files_are_created_or_replaced(
    unix: bool,
    path: Seq<char>,
    ancestors: Seq<Inspected>,
    target: Inspected,
    kind: EntryKind,
)
    ensures
        new_file_fault(path, ancestors, kind) is None <==> ancestors_fault(ancestors, 0) is None
            && kind is Missing && placed(path),
        replacement_fault(unix, path, ancestors, target) is None <==> {
            &&& unix
            &&& ancestors_fault(ancestors, 0) is None
            &&& target.kind is Ok
            &&& target.kind->Ok_0 is Regular
            &&& placed(path)
        },
        pruning_fault(unix, path, ancestors) is None <==> unix && ancestors_fault(ancestors, 0)
            is None && placed(path),
        !unix ==> replacement_fault(unix, path, ancestors, target) == Some(
            FileFault::ReplacementUnsupported,
        ),
{
}

/// What is private is closed to everyone but its owner, and what is not can be read by everyone but
/// written only by its owner; nothing is executable.
pub proof fn private_files_are_closed(path: Seq<char>, contents: Seq<u8>, private: bool, nonce: u128)
    ensures
        private ==> file_mode(private) % 0o100 == 0,
        !private ==> file_mode(private) % 0o100 == 0o44,
        file_mode(private) / 0o100 == 6,
        creation(path, contents, private, nonce)[1] is Write,
        creation(path, contents, private, nonce)[1]->mode == file_mode(private),
        replacement(path, contents, private, nonce)[0] is Create,
        replacement(path, contents, private, nonce)[0]->private == private,
{
}

/// The backup of a file is private whatever the file is, and it is made before the file changes.
pub proof fn backups_are_private(
    path: Seq<char>,
    original: Seq<u8>,
    contents: Seq<u8>,
    private: bool,
    nonce: u128,
)
    ensures
        replacement_with_backup(path, original, contents, private, nonce)[0] is Create,
        replacement_with_backup(path, original, contents, private, nonce)[0]->private,
        replacement_with_backup(path, original, contents, private, nonce)[0]->Create_contents
            == original,
{
}

/// A file that could not be put in place leaves no temporary file behind, and one whose temporary
/// file could not be removed is taken back.
pub proof fn failed_files_are_removed(
    path: Seq<char>,
    contents: Seq<u8>,
    private: bool,
    nonce: u128,
)
    ensures
        cleanup(creation(path, contents, private, nonce), 2) == Some(
            sibling(path, "."@, ".centrald-tmp-"@, nonce),
        ),
        cleanup(creation(path, contents, private, nonce), 3) == Some(path),
        cleanup(replacement(path, contents, private, nonce), 1) == Some(
            sibling(path, "."@, ".centrald-replacement-"@, nonce),
        ),
        cleanup(creation(path, contents, private, nonce), 4) is None,
        cleanup(replacement(path, contents, private, nonce), 2) is None,
{
}

/// Backups are collected from the regular files whose names are the file's with a backup's mark
/// and an identifier; a link or another thing under such a name stops it.
pub proof fn backups_are_regular_files(directory: Seq<char>, prefix: Seq<char>, entry: DirectoryEntry)
    ensures
        backup_fault(directory, entry) is None <==> entry.kind is Ok && entry.kind->Ok_0 is Regular,
        names_backup(entry, prefix) ==> entry.name is Some && prefix.is_prefix_of(entry.name->0@),
{
}

} // verus!
