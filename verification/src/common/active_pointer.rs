//! A crash-recoverable pointer to the active credential metadata file.
//!
//! The pointer directory holds a current file, a staged next file and the
//! previous file of a publication that is not finalized. Each operation works on
//! what the directory holds and plans the changes to it, one by one and in
//! order. Whoever performs a plan may stop after any of its actions: the next
//! operation recovers from there.

use vstd::prelude::*;
use vstd::utf8::encode_utf8;

use crate::paths::{join_path, joined};
use crate::text::{
    byte_length, concat, has_character, optional_view, same_text, trim, trimmed, white_space,
};

use super::secure_fs::EntryKind;

verus! {

pub const CURRENT_FILE: &'static str = "current.pointer";

pub const NEXT_FILE: &'static str = ".current.pointer.next";

pub const PREVIOUS_FILE: &'static str = ".current.pointer.previous";

pub const LOCK_FILE: &'static str = ".current.pointer.lock";

/// The text that stands in the previous file while a first publication is pending.
/// No file that was current before holds it: it is no simple file name.
pub const FIRST_PUBLICATION_MARK: &'static str = "/no previous credential generation/\n";

#[derive(Debug)]
pub enum ActivePointerError {
    UnsafeDirectory(String),
    UnsafeFile(String),
    InvalidValue,
    Missing,
    PendingPublication,
    /// What could not be read at a path, and why.
    Io { path: String, source: String },
}

/// An error of the pointer, with its texts as sequences of characters.
pub enum PointerFault {
    UnsafeDirectory(Seq<char>),
    UnsafeFile(Seq<char>),
    InvalidValue,
    Missing,
    PendingPublication,
    Io { path: Seq<char>, source: Seq<char> },
}

impl View for ActivePointerError {
    type V = PointerFault;

    open spec fn view(&self) -> PointerFault {
        match self {
            ActivePointerError::UnsafeDirectory(path) => PointerFault::UnsafeDirectory(path@),
            ActivePointerError::UnsafeFile(path) => PointerFault::UnsafeFile(path@),
            ActivePointerError::InvalidValue => PointerFault::InvalidValue,
            ActivePointerError::Missing => PointerFault::Missing,
            ActivePointerError::PendingPublication => PointerFault::PendingPublication,
            ActivePointerError::Io { path, source } => PointerFault::Io {
                path: path@,
                source: source@,
            },
        }
    }
}

impl ActivePointerError {
    pub open spec fn message_spec(self) -> Seq<char> {
        match self {
            ActivePointerError::UnsafeDirectory(path) =>
                "active-pointer directory is unsafe: "@ + path@,
            ActivePointerError::UnsafeFile(path) => "active-pointer file is unsafe: "@ + path@,
            ActivePointerError::InvalidValue =>
                "active-pointer value must be one simple relative file name"@,
            ActivePointerError::Missing => "no active credential generation has been published"@,
            ActivePointerError::PendingPublication =>
                "a previous credential publication still needs activation or rollback"@,
            ActivePointerError::Io { path, source } => "active-pointer I/O failed for "@ + path@
                + ": "@ + source@,
        }
    }

    pub fn message(&self) -> (result: String)
        ensures
            result@ == self.message_spec(),
    {
        match self {
            ActivePointerError::UnsafeDirectory(path) => concat(
                "active-pointer directory is unsafe: ",
                path,
            ),
            ActivePointerError::UnsafeFile(path) => concat("active-pointer file is unsafe: ", path),
            ActivePointerError::InvalidValue =>
                "active-pointer value must be one simple relative file name".to_owned(),
            ActivePointerError::Missing =>
                "no active credential generation has been published".to_owned(),
            ActivePointerError::PendingPublication =>
                "a previous credential publication still needs activation or rollback".to_owned(),
            ActivePointerError::Io { path, source } => {
                let mut message = concat("active-pointer I/O failed for ", path);
                message.append(": ");
                message.append(source);
                message
            },
        }
    }
}

/// What stands in the directory under one of the pointer's names: nothing,
/// something that is no regular file, a regular file whose text cannot be read,
/// with the reason, or a regular file with its text.
#[derive(Debug)]
pub enum PointerSlot {
    Missing,
    Unsafe,
    Unreadable(String),
    File(String),
}

/// A slot, with its text as a sequence of characters.
pub enum SlotModel {
    Missing,
    Unsafe,
    Unreadable(Seq<char>),
    File(Seq<char>),
}

impl View for PointerSlot {
    type V = SlotModel;

    open spec fn view(&self) -> SlotModel {
        match self {
            PointerSlot::Missing => SlotModel::Missing,
            PointerSlot::Unsafe => SlotModel::Unsafe,
            PointerSlot::Unreadable(source) => SlotModel::Unreadable(source@),
            PointerSlot::File(text) => SlotModel::File(text@),
        }
    }
}

/// The files that a plan changes.
#[derive(Debug, Clone, Copy, PartialEq, Eq, Structural)]
pub enum PointerFile {
    Current,
    Next,
    Previous,
}

impl PointerFile {
    pub open spec fn name_spec(self) -> Seq<char> {
        match self {
            PointerFile::Current => CURRENT_FILE@,
            PointerFile::Next => NEXT_FILE@,
            PointerFile::Previous => PREVIOUS_FILE@,
        }
    }

    pub fn name(self) -> (result: &'static str)
        ensures
            result@ == self.name_spec(),
    {
        match self {
            PointerFile::Current => CURRENT_FILE,
            PointerFile::Next => NEXT_FILE,
            PointerFile::Previous => PREVIOUS_FILE,
        }
    }
}

/// One change to the directory: to create the next file with a text, to rename a
/// file to a name that is free, to remove a file, to create the previous file
/// with the mark of a first publication, and to make what was done durable.
#[derive(Debug)]
pub enum PointerAction {
    Stage(String),
    Rename { from: PointerFile, to: PointerFile },
    Remove(PointerFile),
    Mark,
    Sync,
}

/// A change, with its text as a sequence of characters.
pub enum ActionModel {
    Stage(Seq<char>),
    Rename { from: PointerFile, to: PointerFile },
    Remove(PointerFile),
    Mark,
    Sync,
}

impl View for PointerAction {
    type V = ActionModel;

    open spec fn view(&self) -> ActionModel {
        match self {
            PointerAction::Stage(text) => ActionModel::Stage(text@),
            PointerAction::Rename { from, to } => ActionModel::Rename { from: *from, to: *to },
            PointerAction::Remove(file) => ActionModel::Remove(*file),
            PointerAction::Mark => ActionModel::Mark,
            PointerAction::Sync => ActionModel::Sync,
        }
    }
}

/// What the directory holds.
pub struct PointerDisk {
    pub current: SlotModel,
    pub next: SlotModel,
    pub previous: SlotModel,
}

impl PointerDisk {
    pub open spec fn slot(self, file: PointerFile) -> SlotModel {
        match file {
            PointerFile::Current => self.current,
            PointerFile::Next => self.next,
            PointerFile::Previous => self.previous,
        }
    }

    pub open spec fn with(self, file: PointerFile, slot: SlotModel) -> PointerDisk {
        match file {
            PointerFile::Current => PointerDisk { current: slot, ..self },
            PointerFile::Next => PointerDisk { next: slot, ..self },
            PointerFile::Previous => PointerDisk { previous: slot, ..self },
        }
    }

    /// What the directory holds after a change.
    pub open spec fn after(self, action: ActionModel) -> PointerDisk {
        match action {
            ActionModel::Stage(text) => self.with(PointerFile::Next, SlotModel::File(text)),
            ActionModel::Rename { from, to } => self.with(from, SlotModel::Missing).with(
                to,
                self.slot(from),
            ),
            ActionModel::Remove(file) => self.with(file, SlotModel::Missing),
            ActionModel::Mark => self.with(
                PointerFile::Previous,
                SlotModel::File(FIRST_PUBLICATION_MARK@),
            ),
            ActionModel::Sync => self,
        }
    }

    /// What the directory holds after changes, in order.
    pub open spec fn after_all(self, actions: Seq<ActionModel>) -> PointerDisk
        decreases actions.len(),
    {
        if actions.len() == 0 {
            self
        } else {
            self.after_all(actions.drop_last()).after(actions.last())
        }
    }
}

/// Whether a slot holds the mark that stands in the previous file's place while a
/// first publication is pending.
pub open spec fn is_mark(slot: SlotModel) -> bool {
    slot == SlotModel::File(FIRST_PUBLICATION_MARK@)
}

/// What an operation plans, and the error that it ends in, if any.
pub struct PointerOutcome {
    pub actions: Seq<ActionModel>,
    pub fault: Option<PointerFault>,
}

pub open spec fn file_fault(directory: Seq<char>, file: PointerFile) -> PointerFault {
    PointerFault::UnsafeFile(joined(directory, file.name_spec()))
}

pub open spec fn planned(actions: Seq<ActionModel>) -> PointerOutcome {
    PointerOutcome { actions, fault: None }
}

pub open spec fn failed(actions: Seq<ActionModel>, fault: PointerFault) -> PointerOutcome {
    PointerOutcome { actions, fault: Some(fault) }
}

pub open spec fn to_current(from: PointerFile) -> ActionModel {
    ActionModel::Rename { from, to: PointerFile::Current }
}

/// How an interrupted sequence of changes is completed. With a current file the
/// staged one is discarded: it was never made current, or the current file
/// already is the new one. Without a current file, the staged file becomes
/// current, or else the previous one does. The mark of a first publication that
/// staged nothing goes.
pub open spec fn recovery(directory: Seq<char>, disk: PointerDisk) -> PointerOutcome {
    if !(disk.current is Missing) {
        if disk.current is Unsafe {
            failed(Seq::empty(), file_fault(directory, PointerFile::Current))
        } else if disk.next is Unsafe {
            failed(Seq::empty(), file_fault(directory, PointerFile::Next))
        } else {
            let actions = if disk.next is Missing {
                Seq::empty()
            } else {
                seq![ActionModel::Remove(PointerFile::Next), ActionModel::Sync]
            };
            if disk.previous is Unsafe {
                failed(actions, file_fault(directory, PointerFile::Previous))
            } else {
                planned(actions)
            }
        }
    } else if !(disk.next is Missing) {
        if disk.next is Unsafe {
            failed(Seq::empty(), file_fault(directory, PointerFile::Next))
        } else if disk.previous is Unsafe {
            failed(Seq::empty(), file_fault(directory, PointerFile::Previous))
        } else {
            planned(seq![to_current(PointerFile::Next), ActionModel::Sync])
        }
    } else if disk.previous is Unsafe {
        failed(Seq::empty(), file_fault(directory, PointerFile::Previous))
    } else if is_mark(disk.previous) {
        planned(seq![ActionModel::Remove(PointerFile::Previous), ActionModel::Sync])
    } else if !(disk.previous is Missing) {
        planned(seq![to_current(PointerFile::Previous), ActionModel::Sync])
    } else {
        planned(Seq::empty())
    }
}

/// What an operation does before its own part: it takes the lock, and recovers.
pub open spec fn opening(directory: Seq<char>, lock_unsafe: bool, disk: PointerDisk) ->
    PointerOutcome {
    if lock_unsafe {
        failed(Seq::empty(), PointerFault::UnsafeFile(joined(directory, LOCK_FILE@)))
    } else {
        recovery(directory, disk)
    }
}

/// What the directory holds when an operation begins its own part.
pub open spec fn recovered(directory: Seq<char>, disk: PointerDisk) -> PointerDisk {
    disk.after_all(recovery(directory, disk).actions)
}

/// A simple relative file name.
pub open spec fn pointer_value(value: Seq<char>) -> bool {
    &&& value.len() > 0
    &&& encode_utf8(value).len() <= 255
    &&& !value.contains('\0')
    &&& !value.contains('/')
    &&& !value.contains('\\')
    &&& value != "."@
    &&& value != ".."@
}

/// What a publication changes: the value is staged, the current file steps
/// back, and the staged file takes its place. A first publication, which has no
/// file to step back, is marked before anything is staged.
pub open spec fn publication(disk: PointerDisk, value: Seq<char>) -> Seq<ActionModel> {
    let stage = ActionModel::Stage(value.push('\n'));
    let stepped = if disk.current is Missing {
        seq![ActionModel::Mark, stage]
    } else {
        seq![stage, ActionModel::Rename { from: PointerFile::Current, to: PointerFile::Previous }]
    };
    stepped.push(to_current(PointerFile::Next)).push(ActionModel::Sync)
}

pub open spec fn publishing(
    directory: Seq<char>,
    lock_unsafe: bool,
    disk: PointerDisk,
    value: Seq<char>,
) -> PointerOutcome {
    let opened = opening(directory, lock_unsafe, disk);
    let start = recovered(directory, disk);
    if !pointer_value(value) {
        failed(Seq::empty(), PointerFault::InvalidValue)
    } else if opened.fault is Some {
        opened
    } else if !(start.previous is Missing) {
        failed(opened.actions, PointerFault::PendingPublication)
    } else {
        planned(opened.actions + publication(start, value))
    }
}

/// What finalizing a publication changes.
pub open spec fn finalization(disk: PointerDisk) -> Seq<ActionModel> {
    if disk.previous is Missing {
        seq![ActionModel::Sync]
    } else {
        seq![ActionModel::Remove(PointerFile::Previous), ActionModel::Sync]
    }
}

pub open spec fn committing(directory: Seq<char>, lock_unsafe: bool, disk: PointerDisk) ->
    PointerOutcome {
    let opened = opening(directory, lock_unsafe, disk);
    if opened.fault is Some {
        opened
    } else {
        planned(opened.actions + finalization(recovered(directory, disk)))
    }
}

/// What a rollback changes: the current file goes, and the previous one takes
/// its place if there is one. A mark goes too.
pub open spec fn restoration(disk: PointerDisk) -> Seq<ActionModel> {
    let removed = if disk.current is Missing {
        Seq::empty()
    } else {
        seq![ActionModel::Remove(PointerFile::Current)]
    };
    let restored = if disk.previous is Missing {
        removed
    } else {
        removed.push(step_back(disk.previous))
    };
    restored.push(ActionModel::Sync)
}

/// How what stands in the previous file's place goes: the file becomes current, and
/// a mark is removed.
pub open spec fn step_back(previous: SlotModel) -> ActionModel {
    if is_mark(previous) {
        ActionModel::Remove(PointerFile::Previous)
    } else {
        to_current(PointerFile::Previous)
    }
}

pub open spec fn rolling_back(directory: Seq<char>, lock_unsafe: bool, disk: PointerDisk) ->
    PointerOutcome {
    let opened = opening(directory, lock_unsafe, disk);
    if opened.fault is Some {
        opened
    } else {
        planned(opened.actions + restoration(recovered(directory, disk)))
    }
}

/// The value in a slot: none where it is missing.
pub open spec fn slot_value(directory: Seq<char>, slot: SlotModel, file: PointerFile) -> Result<
    Option<Seq<char>>,
    PointerFault,
> {
    match slot {
        SlotModel::Missing => Ok(None),
        SlotModel::Unsafe => Err(file_fault(directory, file)),
        SlotModel::Unreadable(source) => Err(
            PointerFault::Io { path: joined(directory, file.name_spec()), source },
        ),
        SlotModel::File(text) => if pointer_value(trim(text)) {
            Ok(Some(trim(text)))
        } else {
            Err(PointerFault::InvalidValue)
        },
    }
}

/// The value that was current before a pending publication: none where that is the
/// first one.
pub open spec fn previous_value(directory: Seq<char>, slot: SlotModel) -> Result<
    Option<Seq<char>>,
    PointerFault,
> {
    if is_mark(slot) {
        Ok(None)
    } else {
        slot_value(directory, slot, PointerFile::Previous)
    }
}

/// Whether the previous file holds a generation that can be returned to.
pub open spec fn is_pending(previous: SlotModel) -> bool {
    !(previous is Missing) && !is_mark(previous)
}

/// A directory in which nothing is unsafe and nothing is pending, and in which the
/// current file, if there is one, is no mark.
pub open spec fn settled(disk: PointerDisk) -> bool {
    &&& !(disk.current is Unsafe)
    &&& !is_mark(disk.current)
    &&& disk.next is Missing
    &&& disk.previous is Missing
}

/// The changes of two plans, one after the other.
proof fn after_both(disk: PointerDisk, first: Seq<ActionModel>, second: Seq<ActionModel>)
    ensures
        disk.after_all(first + second) == disk.after_all(first).after_all(second),
    decreases second.len(),
{
    if second.len() == 0 {
        assert(first + second =~= first);
    } else {
        assert((first + second).drop_last() =~= first + second.drop_last());
        after_both(disk, first, second.drop_last());
    }
}

proof fn after_one(disk: PointerDisk, actions: Seq<ActionModel>, action: ActionModel)
    ensures
        disk.after_all(actions.push(action)) == disk.after_all(actions).after(action),
{
    assert(actions.push(action).drop_last() =~= actions);
}

/// What recovery leaves: a directory without a staged file, in which a previous
/// file stands only beside a current one. Where recovery does not fail, nothing
/// in it is unsafe.
pub proof fn recovery_settles(directory: Seq<char>, disk: PointerDisk)
    ensures
        recovery(directory, disk).fault is None ==> {
            let start = recovered(directory, disk);
            &&& start.next is Missing
            &&& !(start.current is Unsafe)
            &&& !(start.previous is Unsafe)
            &&& !(start.previous is Missing) ==> !(start.current is Missing)
        },
{
    let actions = recovery(directory, disk).actions;
    reveal_with_fuel(PointerDisk::after_all, 3);
    if actions.len() == 2 {
        assert(actions.drop_last().drop_last() =~= Seq::<ActionModel>::empty());
    }
}

/// Recovery that did not fail has nothing to do a second time.
pub proof fn recovery_is_idempotent(directory: Seq<char>, disk: PointerDisk)
    requires
        recovery(directory, disk).fault is None,
    ensures
        recovery(directory, recovered(directory, disk)) == planned(Seq::empty()),
        recovered(directory, recovered(directory, disk)) == recovered(directory, disk),
{
    recovery_settles(directory, disk);
}

/// What stands in the previous file's place after a publication.
pub open spec fn stepped_back(disk: PointerDisk) -> SlotModel {
    if disk.current is Missing {
        SlotModel::File(FIRST_PUBLICATION_MARK@)
    } else {
        disk.current
    }
}

/// What the directory holds after each number of a publication's changes.
proof fn publication_states(disk: PointerDisk, value: Seq<char>, n: nat)
    requires
        settled(disk),
        n <= publication(disk, value).len(),
    ensures
        publication(disk, value).len() == 4,
        ({
            let after = disk.after_all(publication(disk, value).take(n as int));
            let staged = SlotModel::File(value.push('\n'));
            let first = disk.current is Missing;
            &&& n == 0 ==> after == disk
            &&& n == 1 && first ==> after == PointerDisk { previous: stepped_back(disk), ..disk }
            &&& n == 1 && !first ==> after == PointerDisk { next: staged, ..disk }
            &&& n == 2 ==> after == (PointerDisk {
                current: SlotModel::Missing,
                next: staged,
                previous: stepped_back(disk),
            })
            &&& n >= 3 ==> after == published(disk, value)
        }),
    decreases n,
{
    let actions = publication(disk, value);
    if n == 0 {
        assert(actions.take(0) =~= Seq::<ActionModel>::empty());
    } else {
        publication_states(disk, value, (n - 1) as nat);
        assert(actions.take(n as int) =~= actions.take(n - 1).push(actions[n - 1]));
        after_one(disk, actions.take(n - 1), actions[n - 1]);
    }
}

/// A crash at any point of a publication is recoverable. After any number of its
/// changes, recovery succeeds, and then the directory either holds what it held
/// before, or the new value is current and the old file is kept for a rollback.
pub proof fn crash_is_recoverable(
    directory: Seq<char>,
    disk: PointerDisk,
    value: Seq<char>,
    performed: nat,
)
    requires
        settled(disk),
        performed <= publication(disk, value).len(),
    ensures
        ({
            let crashed = disk.after_all(publication(disk, value).take(performed as int));
            let start = recovered(directory, crashed);
            &&& recovery(directory, crashed).fault is None
            &&& start == disk || start == published(disk, value)
        }),
{
    publication_states(disk, value, performed);
    let crashed = disk.after_all(publication(disk, value).take(performed as int));
    let actions = recovery(directory, crashed).actions;
    reveal_with_fuel(PointerDisk::after_all, 3);
    if actions.len() == 2 {
        assert(actions.drop_last().drop_last() =~= Seq::<ActionModel>::empty());
    }
}

/// A staged file beside a current one is discarded whatever it holds, so a torn
/// write of it never replaces the current value.
pub proof fn staged_file_is_discarded(directory: Seq<char>, disk: PointerDisk)
    requires
        !(disk.current is Missing),
        !(disk.current is Unsafe),
        !(disk.next is Unsafe),
        !(disk.previous is Unsafe),
    ensures
        recovery(directory, disk).fault is None,
        recovered(directory, disk) == (PointerDisk { next: SlotModel::Missing, ..disk }),
{
    let actions = recovery(directory, disk).actions;
    reveal_with_fuel(PointerDisk::after_all, 3);
    if actions.len() == 2 {
        assert(actions.drop_last().drop_last() =~= Seq::<ActionModel>::empty());
    }
}

/// The directory after a whole publication.
pub open spec fn published(disk: PointerDisk, value: Seq<char>) -> PointerDisk {
    PointerDisk {
        current: SlotModel::File(value.push('\n')),
        next: SlotModel::Missing,
        previous: stepped_back(disk),
    }
}

/// A publication makes its value current and keeps the file that was current, or
/// marks that there was none.
pub proof fn publication_publishes(directory: Seq<char>, disk: PointerDisk, value: Seq<char>)
    requires
        settled(disk),
        pointer_value(value),
    ensures
        publishing(directory, false, disk, value).fault is None,
        disk.after_all(publishing(directory, false, disk, value).actions) == published(disk, value),
{
    let actions = publication(disk, value);
    assert(recovery(directory, disk).actions =~= Seq::<ActionModel>::empty());
    assert(Seq::<ActionModel>::empty() + actions =~= actions);
    assert(actions.take(actions.len() as int) =~= actions);
    publication_states(disk, value, actions.len());
}

/// While a publication is neither committed nor rolled back, every other one is
/// refused, and nothing changes.
pub proof fn pending_publication_is_refused(
    directory: Seq<char>,
    disk: PointerDisk,
    first: Seq<char>,
    second: Seq<char>,
)
    requires
        settled(disk),
        pointer_value(second),
    ensures
        publishing(directory, false, published(disk, first), second) == failed(
            Seq::empty(),
            PointerFault::PendingPublication,
        ),
{
    let start = published(disk, first);
    assert(recovery(directory, start).actions =~= Seq::<ActionModel>::empty());
}

/// Committing a publication keeps the new value and nothing else.
pub proof fn commit_finalizes(directory: Seq<char>, disk: PointerDisk, value: Seq<char>)
    requires
        settled(disk),
    ensures
        ({
            let outcome = committing(directory, false, published(disk, value));
            &&& outcome.fault is None
            &&& published(disk, value).after_all(outcome.actions) == (PointerDisk {
                current: SlotModel::File(value.push('\n')),
                next: SlotModel::Missing,
                previous: SlotModel::Missing,
            })
        }),
{
    let start = published(disk, value);
    assert(recovery(directory, start).actions =~= Seq::<ActionModel>::empty());
    let actions = finalization(start);
    assert(Seq::<ActionModel>::empty() + actions =~= actions);
    reveal_with_fuel(PointerDisk::after_all, 3);
    if actions.len() == 2 {
        assert(actions.drop_last().drop_last() =~= Seq::<ActionModel>::empty());
    }
}

/// Rolling a publication back leaves the directory as it was before.
pub proof fn rollback_restores(directory: Seq<char>, disk: PointerDisk, value: Seq<char>)
    requires
        settled(disk),
    ensures
        ({
            let outcome = rolling_back(directory, false, published(disk, value));
            &&& outcome.fault is None
            &&& published(disk, value).after_all(outcome.actions) == disk
        }),
{
    let start = published(disk, value);
    assert(recovery(directory, start).actions =~= Seq::<ActionModel>::empty());
    let actions = restoration(start);
    assert(Seq::<ActionModel>::empty() + actions =~= actions);
    reveal_with_fuel(PointerDisk::after_all, 4);
    if actions.len() == 2 {
        assert(actions.drop_last().drop_last() =~= Seq::<ActionModel>::empty());
    } else {
        assert(actions.drop_last().drop_last().drop_last() =~= Seq::<ActionModel>::empty());
    }
}

/// What is read after a publication is the value, unless white space stands at
/// an end of it.
pub proof fn read_gives_what_was_published(
    directory: Seq<char>,
    disk: PointerDisk,
    value: Seq<char>,
)
    requires
        pointer_value(value),
        !white_space(value[0]),
        !white_space(value.last()),
    ensures
        slot_value(directory, published(disk, value).current, PointerFile::Current) == Ok::<
            Option<Seq<char>>,
            PointerFault,
        >(Some(value)),
{
    crate::text::trim_drops_ending(value, '\n');
}

/// How a publication that failed part way is undone: a staged file that could
/// not take its place goes, a current file that is not known to be durable goes,
/// and the previous file becomes current again or its mark goes.
pub open spec fn undoing(disk: PointerDisk, failed: ActionModel) -> Seq<ActionModel> {
    if failed == to_current(PointerFile::Next) {
        let removed = if disk.next is Missing || disk.next is Unsafe {
            Seq::empty()
        } else {
            seq![ActionModel::Remove(PointerFile::Next)]
        };
        if disk.current is Missing && !(disk.previous is Missing) {
            removed.push(step_back(disk.previous))
        } else {
            removed
        }
    } else if failed == ActionModel::Sync {
        let removed = if disk.current is Missing || disk.current is Unsafe {
            Seq::empty()
        } else {
            seq![ActionModel::Remove(PointerFile::Current)]
        };
        if disk.previous is Missing {
            removed.push(ActionModel::Sync)
        } else {
            removed.push(step_back(disk.previous)).push(ActionModel::Sync)
        }
    } else {
        Seq::empty()
    }
}

/// Undoing a publication that failed at its last rename, or at making it
/// durable, leaves the directory as it was before.
pub proof fn undo_restores(disk: PointerDisk, value: Seq<char>, performed: nat)
    requires
        settled(disk),
        publication(disk, value).len() - 2 <= performed < publication(disk, value).len(),
    ensures
        ({
            let stopped = disk.after_all(publication(disk, value).take(performed as int));
            stopped.after_all(undoing(stopped, publication(disk, value)[performed as int])) == disk
        }),
{
    publication_states(disk, value, performed);
    let stopped = disk.after_all(publication(disk, value).take(performed as int));
    let actions = undoing(stopped, publication(disk, value)[performed as int]);
    reveal_with_fuel(PointerDisk::after_all, 4);
    if actions.len() == 1 {
        assert(actions.drop_last() =~= Seq::<ActionModel>::empty());
    } else if actions.len() == 2 {
        assert(actions.drop_last().drop_last() =~= Seq::<ActionModel>::empty());
    } else {
        assert(actions.drop_last().drop_last().drop_last() =~= Seq::<ActionModel>::empty());
    }
}

/// The views of a plan.
pub open spec fn action_views(plan: Seq<PointerAction>) -> Seq<ActionModel> {
    plan.map_values(|action: PointerAction| action@)
}

/// A fixed, crash-recoverable pointer to the active credential metadata file:
/// the directory, what it holds, and the changes that were planned to it.
///
/// No operation relies on directory ordering or timestamps. Each rename has a
/// non-existing destination, which keeps the protocol portable to Windows.
#[derive(Debug)]
pub struct ActivePointer {
    directory: String,
    lock_unsafe: bool,
    current: PointerSlot,
    next: PointerSlot,
    previous: PointerSlot,
    plan: Vec<PointerAction>,
}

/// An active-pointer update that has been published but not finalized.
///
/// The previous pointer remains on disk until the caller proves the new
/// credential to the server. A crash is recoverable: the next process reads the
/// new current pointer, retries activation, and then calls `commit`.
#[derive(Debug)]
pub struct PointerPublication {
    directory: String,
}

/// Whether an operation met its outcome: what it planned was added to the plan
/// and made to the directory, and an error came if and only if the outcome has
/// one.
pub open spec fn meets<T>(
    before: ActivePointer,
    after: ActivePointer,
    result: Result<T, ActivePointerError>,
    outcome: PointerOutcome,
) -> bool {
    &&& keeps(before, after, outcome.actions)
    &&& match outcome.fault {
        Some(fault) => result is Err && result->Err_0@ == fault,
        None => result is Ok,
    }
}

/// Whether a pointer only planned and made these changes.
pub open spec fn keeps(before: ActivePointer, after: ActivePointer, actions: Seq<ActionModel>) ->
    bool {
    &&& after.directory_spec() == before.directory_spec()
    &&& after.lock_unsafe_spec() == before.lock_unsafe_spec()
    &&& after.planned_spec() == before.planned_spec() + actions
    &&& after.disk_spec() == before.disk_spec().after_all(actions)
}

/// What is wrong with opening a pointer in a directory, if anything: it is missing
/// or cannot be looked at, or it is a link or no directory.
pub open spec fn directory_fault(directory: Seq<char>, found: Result<EntryKind, String>) -> Option<
    PointerFault,
> {
    match found {
        Err(source) => Some(PointerFault::Io { path: directory, source: source@ }),
        Ok(EntryKind::Missing) => Some(
            PointerFault::Io { path: directory, source: "entity not found"@ },
        ),
        Ok(EntryKind::Directory) => None,
        Ok(_) => Some(PointerFault::UnsafeDirectory(directory)),
    }
}

impl ActivePointer {
    pub closed spec fn directory_spec(self) -> Seq<char> {
        self.directory@
    }

    pub closed spec fn lock_unsafe_spec(self) -> bool {
        self.lock_unsafe
    }

    pub closed spec fn disk_spec(self) -> PointerDisk {
        PointerDisk { current: self.current@, next: self.next@, previous: self.previous@ }
    }

    pub closed spec fn planned_spec(self) -> Seq<ActionModel> {
        action_views(self.plan@)
    }

    /// Opens a pointer rooted in an existing real directory: `found` is what looking
    /// at the directory gave, without following a link, or why that failed.
    /// `lock_unsafe` says whether something other than a regular file stands in the
    /// lock's place.
    pub fn new(
        directory: &str,
        found: Result<EntryKind, String>,
        lock_unsafe: bool,
        current: PointerSlot,
        next: PointerSlot,
        previous: PointerSlot,
    ) -> (result: Result<ActivePointer, ActivePointerError>)
        ensures
            match result {
                Ok(pointer) => {
                    &&& directory_fault(directory@, found) is None
                    &&& pointer.directory_spec() == directory@
                    &&& pointer.lock_unsafe_spec() == lock_unsafe
                    &&& pointer.disk_spec() == (PointerDisk {
                        current: current@,
                        next: next@,
                        previous: previous@,
                    })
                    &&& pointer.planned_spec() == Seq::<ActionModel>::empty()
                },
                Err(error) => directory_fault(directory@, found) == Some(error@),
            },
    {
        let directory = directory.to_owned();
        match found {
            Err(source) => return Err(ActivePointerError::Io { path: directory, source }),
            Ok(EntryKind::Missing) => return Err(
                ActivePointerError::Io { path: directory, source: "entity not found".to_owned() },
            ),
            Ok(EntryKind::Directory) => {},
            Ok(_) => return Err(ActivePointerError::UnsafeDirectory(directory)),
        }
        let pointer = ActivePointer {
            directory,
            lock_unsafe,
            current,
            next,
            previous,
            plan: Vec::new(),
        };
        assert(action_views(pointer.plan@) =~= Seq::empty());
        Ok(pointer)
    }

    /// The changes that were planned, in order.
    pub fn plan(&self) -> (result: &Vec<PointerAction>)
        ensures
            action_views(result@) == self.planned_spec(),
    {
        &self.plan
    }

    fn take_slot(&mut self, file: PointerFile) -> (result: PointerSlot)
        ensures
            result@ == old(self).disk_spec().slot(file),
            final(self).disk_spec() == old(self).disk_spec().with(file, SlotModel::Missing),
            final(self).directory_spec() == old(self).directory_spec(),
            final(self).lock_unsafe_spec() == old(self).lock_unsafe_spec(),
            final(self).planned_spec() == old(self).planned_spec(),
    {
        let mut slot = PointerSlot::Missing;
        match file {
            PointerFile::Current => core::mem::swap(&mut self.current, &mut slot),
            PointerFile::Next => core::mem::swap(&mut self.next, &mut slot),
            PointerFile::Previous => core::mem::swap(&mut self.previous, &mut slot),
        }
        slot
    }

    fn put_slot(&mut self, file: PointerFile, slot: PointerSlot)
        ensures
            final(self).disk_spec() == old(self).disk_spec().with(file, slot@),
            final(self).directory_spec() == old(self).directory_spec(),
            final(self).lock_unsafe_spec() == old(self).lock_unsafe_spec(),
            final(self).planned_spec() == old(self).planned_spec(),
    {
        match file {
            PointerFile::Current => {
                self.current = slot;
            },
            PointerFile::Next => {
                self.next = slot;
            },
            PointerFile::Previous => {
                self.previous = slot;
            },
        }
    }

    /// Plans a change and makes it.
    fn perform(&mut self, action: PointerAction)
        ensures
            final(self).disk_spec() == old(self).disk_spec().after(action@),
            final(self).planned_spec() == old(self).planned_spec().push(action@),
            final(self).directory_spec() == old(self).directory_spec(),
            final(self).lock_unsafe_spec() == old(self).lock_unsafe_spec(),
    {
        let ghost before = self.plan@;
        match &action {
            PointerAction::Stage(text) => {
                self.put_slot(PointerFile::Next, PointerSlot::File(text.clone()));
            },
            PointerAction::Rename { from, to } => {
                let slot = self.take_slot(*from);
                self.put_slot(*to, slot);
            },
            PointerAction::Remove(file) => {
                self.put_slot(*file, PointerSlot::Missing);
            },
            PointerAction::Mark => {
                self.put_slot(
                    PointerFile::Previous,
                    PointerSlot::File(FIRST_PUBLICATION_MARK.to_owned()),
                );
            },
            PointerAction::Sync => {},
        }
        let ghost planned = self.planned_spec();
        self.plan.push(action);
        assert(action_views(self.plan@) =~= planned.push(action@));
    }

    /// Tells whether a mark stands in the previous file's place.
    fn is_marked(&self) -> (result: bool)
        ensures
            result == is_mark(self.disk_spec().previous),
    {
        match &self.previous {
            PointerSlot::File(text) => same_text(text, FIRST_PUBLICATION_MARK),
            _ => false,
        }
    }

    /// Makes the previous file current, or removes the mark in its place.
    fn step_previous_back(&mut self)
        ensures
            ({
                let step = step_back(old(self).disk_spec().previous);
                &&& final(self).disk_spec() == old(self).disk_spec().after(step)
                &&& final(self).planned_spec() == old(self).planned_spec().push(step)
            }),
            final(self).directory_spec() == old(self).directory_spec(),
            final(self).lock_unsafe_spec() == old(self).lock_unsafe_spec(),
    {
        if self.is_marked() {
            self.perform(PointerAction::Remove(PointerFile::Previous));
        } else {
            self.perform(
                PointerAction::Rename { from: PointerFile::Previous, to: PointerFile::Current },
            );
        }
    }

    fn unsafe_file(&self, file: PointerFile) -> (result: ActivePointerError)
        ensures
            result@ == file_fault(self.directory_spec(), file),
    {
        ActivePointerError::UnsafeFile(join_path(&self.directory, file.name()))
    }

    fn recover_locked(&mut self) -> (result: Result<(), ActivePointerError>)
        ensures
            meets(
                *old(self),
                *final(self),
                result,
                recovery(old(self).directory_spec(), old(self).disk_spec()),
            ),
    {
        let ghost before = *self;
        let ghost disk = self.disk_spec();
        let ghost planned = self.planned_spec();
        assert(planned + Seq::empty() =~= planned);
        proof {
            reveal_with_fuel(PointerDisk::after_all, 3);
        }
        if !matches!(self.current, PointerSlot::Missing) {
            if matches!(self.current, PointerSlot::Unsafe) {
                return Err(self.unsafe_file(PointerFile::Current));
            }
            if matches!(self.next, PointerSlot::Unsafe) {
                return Err(self.unsafe_file(PointerFile::Next));
            }
            if !matches!(self.next, PointerSlot::Missing) {
                self.perform(PointerAction::Remove(PointerFile::Next));
                self.perform(PointerAction::Sync);
                let ghost actions = seq![
                    ActionModel::Remove(PointerFile::Next),
                    ActionModel::Sync,
                ];
                assert(actions.drop_last().drop_last() =~= Seq::<ActionModel>::empty());
                assert(self.planned_spec() =~= planned + actions);
            }
            if matches!(self.previous, PointerSlot::Unsafe) {
                return Err(self.unsafe_file(PointerFile::Previous));
            }
            return Ok(());
        }
        if !matches!(self.next, PointerSlot::Missing) {
            if matches!(self.next, PointerSlot::Unsafe) {
                return Err(self.unsafe_file(PointerFile::Next));
            }
            if matches!(self.previous, PointerSlot::Unsafe) {
                return Err(self.unsafe_file(PointerFile::Previous));
            }
            self.perform(
                PointerAction::Rename { from: PointerFile::Next, to: PointerFile::Current },
            );
            self.perform(PointerAction::Sync);
            let ghost actions = seq![to_current(PointerFile::Next), ActionModel::Sync];
            assert(actions.drop_last().drop_last() =~= Seq::<ActionModel>::empty());
            assert(self.planned_spec() =~= planned + actions);
            return Ok(());
        }
        if !matches!(self.previous, PointerSlot::Missing) {
            if matches!(self.previous, PointerSlot::Unsafe) {
                return Err(self.unsafe_file(PointerFile::Previous));
            }
            self.step_previous_back();
            self.perform(PointerAction::Sync);
            let ghost actions = seq![step_back(disk.previous), ActionModel::Sync];
            assert(actions.drop_last().drop_last() =~= Seq::<ActionModel>::empty());
            assert(self.planned_spec() =~= planned + actions);
        }
        Ok(())
    }

    /// Takes the lock and recovers.
    fn open(&mut self) -> (result: Result<(), ActivePointerError>)
        ensures
            meets(
                *old(self),
                *final(self),
                result,
                opening(
                    old(self).directory_spec(),
                    old(self).lock_unsafe_spec(),
                    old(self).disk_spec(),
                ),
            ),
    {
        if self.lock_unsafe {
            assert(self.planned_spec() + Seq::empty() =~= self.planned_spec());
            return Err(ActivePointerError::UnsafeFile(join_path(&self.directory, LOCK_FILE)));
        }
        self.recover_locked()
    }

    fn read_value(&self, file: PointerFile) -> (result: Result<Option<String>, ActivePointerError>)
        ensures
            match slot_value(self.directory_spec(), self.disk_spec().slot(file), file) {
                Ok(value) => result is Ok && optional_view(result->Ok_0) == value,
                Err(fault) => result is Err && result->Err_0@ == fault,
            },
    {
        let slot = match file {
            PointerFile::Current => &self.current,
            PointerFile::Next => &self.next,
            PointerFile::Previous => &self.previous,
        };
        match slot {
            PointerSlot::Missing => Ok(None),
            PointerSlot::Unsafe => Err(self.unsafe_file(file)),
            PointerSlot::Unreadable(source) => Err(
                ActivePointerError::Io {
                    path: join_path(&self.directory, file.name()),
                    source: source.clone(),
                },
            ),
            PointerSlot::File(text) => {
                let value = trimmed(text);
                if !is_pointer_value(&value) {
                    return Err(ActivePointerError::InvalidValue);
                }
                Ok(Some(value))
            },
        }
    }

    /// Returns the active simple file name after completing any interrupted
    /// pointer rename sequence.
    pub fn read(&mut self) -> (result: Result<String, ActivePointerError>)
        ensures
            ({
                let outcome = opening(
                    old(self).directory_spec(),
                    old(self).lock_unsafe_spec(),
                    old(self).disk_spec(),
                );
                let start = recovered(old(self).directory_spec(), old(self).disk_spec());
                &&& keeps(*old(self), *final(self), outcome.actions)
                &&& match outcome.fault {
                    Some(fault) => result is Err && result->Err_0@ == fault,
                    None => match slot_value(
                        old(self).directory_spec(),
                        start.current,
                        PointerFile::Current,
                    ) {
                        Ok(Some(value)) => result is Ok && result->Ok_0@ == value,
                        Ok(None) => result is Err && result->Err_0@ == PointerFault::Missing,
                        Err(fault) => result is Err && result->Err_0@ == fault,
                    },
                }
            }),
    {
        match self.open() {
            Ok(()) => {},
            Err(error) => return Err(error),
        }
        match self.read_value(PointerFile::Current) {
            Ok(Some(value)) => Ok(value),
            Ok(None) => Err(ActivePointerError::Missing),
            Err(error) => Err(error),
        }
    }

    /// Returns the previous active file name while an activation transaction is
    /// pending. The current pointer is still authoritative.
    pub fn previous(&mut self) -> (result: Result<Option<String>, ActivePointerError>)
        ensures
            ({
                let outcome = opening(
                    old(self).directory_spec(),
                    old(self).lock_unsafe_spec(),
                    old(self).disk_spec(),
                );
                let start = recovered(old(self).directory_spec(), old(self).disk_spec());
                &&& keeps(*old(self), *final(self), outcome.actions)
                &&& match outcome.fault {
                    Some(fault) => result is Err && result->Err_0@ == fault,
                    None => match previous_value(old(self).directory_spec(), start.previous) {
                        Ok(value) => result is Ok && optional_view(result->Ok_0) == value,
                        Err(fault) => result is Err && result->Err_0@ == fault,
                    },
                }
            }),
    {
        match self.open() {
            Ok(()) => {},
            Err(error) => return Err(error),
        }
        if self.is_marked() {
            return Ok(None);
        }
        self.read_value(PointerFile::Previous)
    }

    /// Publishes a new active file name while retaining the previous pointer for
    /// activation rollback. Another publication must not be pending.
    pub fn publish(&mut self, value: &str) -> (result: Result<
        PointerPublication,
        ActivePointerError,
    >)
        ensures
            meets(
                *old(self),
                *final(self),
                result,
                publishing(
                    old(self).directory_spec(),
                    old(self).lock_unsafe_spec(),
                    old(self).disk_spec(),
                    value@,
                ),
            ),
            result is Ok ==> result->Ok_0.directory_spec() == old(self).directory_spec(),
    {
        let ghost before = *self;
        assert(before.planned_spec() + Seq::empty() =~= before.planned_spec());
        if !is_pointer_value(value) {
            return Err(ActivePointerError::InvalidValue);
        }
        match self.open() {
            Ok(()) => {},
            Err(error) => return Err(error),
        }
        proof {
            recovery_settles(before.directory_spec(), before.disk_spec());
        }
        let ghost opened = *self;
        let ghost start = self.disk_spec();
        let ghost made = recovery(before.directory_spec(), before.disk_spec()).actions;
        if !matches!(self.previous, PointerSlot::Missing) {
            return Err(ActivePointerError::PendingPublication);
        }
        let mut text: String = value.to_owned();
        text.push('\n');
        let ghost stage = ActionModel::Stage(value@.push('\n'));
        let ghost mut actions = Seq::<ActionModel>::empty();
        let first = matches!(self.current, PointerSlot::Missing);
        if first {
            self.perform(PointerAction::Mark);
            proof {
                after_one(start, actions, ActionModel::Mark);
                actions = actions.push(ActionModel::Mark);
            }
        }
        self.perform(PointerAction::Stage(text));
        proof {
            after_one(start, actions, stage);
            actions = actions.push(stage);
        }
        if !first {
            self.perform(
                PointerAction::Rename { from: PointerFile::Current, to: PointerFile::Previous },
            );
            proof {
                let step = ActionModel::Rename {
                    from: PointerFile::Current,
                    to: PointerFile::Previous,
                };
                after_one(start, actions, step);
                actions = actions.push(step);
            }
        }
        self.perform(PointerAction::Rename { from: PointerFile::Next, to: PointerFile::Current });
        self.perform(PointerAction::Sync);
        proof {
            after_one(start, actions, to_current(PointerFile::Next));
            actions = actions.push(to_current(PointerFile::Next));
            after_one(start, actions, ActionModel::Sync);
            actions = actions.push(ActionModel::Sync);
            assert(actions =~= publication(start, value@));
            after_both(before.disk_spec(), made, actions);
            assert(self.planned_spec() =~= before.planned_spec() + (made + actions));
        }
        Ok(PointerPublication { directory: self.directory.clone() })
    }

    /// Undoes a publication of which an action failed, given what the directory
    /// then holds. What the plan says is done as far as it can be.
    pub fn undo_publication(&mut self, failed: &PointerAction)
        ensures
            keeps(*old(self), *final(self), undoing(old(self).disk_spec(), failed@)),
    {
        let ghost before = *self;
        let ghost start = self.disk_spec();
        let ghost mut actions = Seq::<ActionModel>::empty();
        let at_rename = matches!(
            failed,
            PointerAction::Rename { from: PointerFile::Next, to: PointerFile::Current }
        );
        let at_sync = matches!(failed, PointerAction::Sync);
        if at_rename {
            let has_current = !matches!(self.current, PointerSlot::Missing);
            let has_previous = !matches!(self.previous, PointerSlot::Missing);
            if !matches!(self.next, PointerSlot::Missing) && !matches!(
                self.next,
                PointerSlot::Unsafe
            ) {
                self.perform(PointerAction::Remove(PointerFile::Next));
                proof {
                    after_one(start, actions, ActionModel::Remove(PointerFile::Next));
                    actions = actions.push(ActionModel::Remove(PointerFile::Next));
                }
            }
            if !has_current && has_previous {
                self.step_previous_back();
                proof {
                    after_one(start, actions, step_back(start.previous));
                    actions = actions.push(step_back(start.previous));
                }
            }
        } else if at_sync {
            let has_previous = !matches!(self.previous, PointerSlot::Missing);
            if !matches!(self.current, PointerSlot::Missing) && !matches!(
                self.current,
                PointerSlot::Unsafe
            ) {
                self.perform(PointerAction::Remove(PointerFile::Current));
                proof {
                    after_one(start, actions, ActionModel::Remove(PointerFile::Current));
                    actions = actions.push(ActionModel::Remove(PointerFile::Current));
                }
            }
            if has_previous {
                self.step_previous_back();
                proof {
                    after_one(start, actions, step_back(start.previous));
                    actions = actions.push(step_back(start.previous));
                }
            }
            self.perform(PointerAction::Sync);
            proof {
                after_one(start, actions, ActionModel::Sync);
                actions = actions.push(ActionModel::Sync);
            }
        }
        assert(actions =~= undoing(start, failed@));
        assert(self.planned_spec() =~= before.planned_spec() + actions);
    }

    /// Finalizes a publication recovered after a process restart.
    ///
    /// This is idempotent and removes only the validated sibling rollback file.
    pub fn commit_recovered(&mut self) -> (result: Result<(), ActivePointerError>)
        ensures
            meets(
                *old(self),
                *final(self),
                result,
                committing(
                    old(self).directory_spec(),
                    old(self).lock_unsafe_spec(),
                    old(self).disk_spec(),
                ),
            ),
    {
        let ghost before = *self;
        match self.open() {
            Ok(()) => {},
            Err(error) => return Err(error),
        }
        proof {
            recovery_settles(before.directory_spec(), before.disk_spec());
        }
        let ghost start = self.disk_spec();
        let ghost made = recovery(before.directory_spec(), before.disk_spec()).actions;
        let ghost mut actions = Seq::<ActionModel>::empty();
        if !matches!(self.previous, PointerSlot::Missing) {
            self.perform(PointerAction::Remove(PointerFile::Previous));
            proof {
                after_one(start, actions, ActionModel::Remove(PointerFile::Previous));
                actions = actions.push(ActionModel::Remove(PointerFile::Previous));
            }
        }
        self.perform(PointerAction::Sync);
        proof {
            after_one(start, actions, ActionModel::Sync);
            actions = actions.push(ActionModel::Sync);
            assert(actions =~= finalization(start));
            after_both(before.disk_spec(), made, actions);
            assert(self.planned_spec() =~= before.planned_spec() + (made + actions));
        }
        Ok(())
    }

    /// Restores the previous file, after recovery.
    fn restore(&mut self)
        ensures
            keeps(*old(self), *final(self), restoration(old(self).disk_spec())),
    {
        let ghost before = *self;
        let ghost start = self.disk_spec();
        let ghost mut actions = Seq::<ActionModel>::empty();
        let has_previous = !matches!(self.previous, PointerSlot::Missing);
        if !matches!(self.current, PointerSlot::Missing) {
            self.perform(PointerAction::Remove(PointerFile::Current));
            proof {
                after_one(start, actions, ActionModel::Remove(PointerFile::Current));
                actions = actions.push(ActionModel::Remove(PointerFile::Current));
            }
        }
        if has_previous {
            self.step_previous_back();
            proof {
                after_one(start, actions, step_back(start.previous));
                actions = actions.push(step_back(start.previous));
            }
        }
        self.perform(PointerAction::Sync);
        proof {
            after_one(start, actions, ActionModel::Sync);
            actions = actions.push(ActionModel::Sync);
            assert(actions =~= restoration(start));
            assert(self.planned_spec() =~= before.planned_spec() + actions);
        }
    }

    /// Rolls back a publication recovered after a process restart when a
    /// previous pointer exists. Returns `false` without changing the current
    /// pointer when this was the first credential generation.
    pub fn rollback_recovered_if_previous(&mut self) -> (result: Result<bool, ActivePointerError>)
        ensures
            ({
                let directory = old(self).directory_spec();
                let lock_unsafe = old(self).lock_unsafe_spec();
                let disk = old(self).disk_spec();
                let opened = opening(directory, lock_unsafe, disk);
                let pending = is_pending(recovered(directory, disk).previous);
                &&& opened.fault is None ==> (result matches Ok(restored) && restored == pending)
                &&& meets(
                    *old(self),
                    *final(self),
                    result,
                    if opened.fault is None && pending {
                        rolling_back(directory, lock_unsafe, disk)
                    } else {
                        opened
                    },
                )
            }),
    {
        let ghost before = *self;
        match self.open() {
            Ok(()) => {},
            Err(error) => return Err(error),
        }
        let ghost start = self.disk_spec();
        let ghost made = recovery(before.directory_spec(), before.disk_spec()).actions;
        if matches!(self.previous, PointerSlot::Missing) || self.is_marked() {
            return Ok(false);
        }
        self.restore();
        proof {
            after_both(before.disk_spec(), made, restoration(start));
            assert(self.planned_spec() =~= before.planned_spec() + (made + restoration(start)));
        }
        Ok(true)
    }

    /// Restores the previous pointer, or removes the current pointer when the
    /// failed publication was the first generation.
    fn rollback(&mut self) -> (result: Result<(), ActivePointerError>)
        ensures
            meets(
                *old(self),
                *final(self),
                result,
                rolling_back(
                    old(self).directory_spec(),
                    old(self).lock_unsafe_spec(),
                    old(self).disk_spec(),
                ),
            ),
    {
        let ghost before = *self;
        match self.open() {
            Ok(()) => {},
            Err(error) => return Err(error),
        }
        let ghost start = self.disk_spec();
        let ghost made = recovery(before.directory_spec(), before.disk_spec()).actions;
        self.restore();
        proof {
            after_both(before.disk_spec(), made, restoration(start));
            assert(self.planned_spec() =~= before.planned_spec() + (made + restoration(start)));
        }
        Ok(())
    }

    /// Returns the fixed files managed by this pointer for platform ACL handoff.
    pub fn managed_paths(&self) -> (result: [String; 4])
        ensures
            result[0]@ == joined(self.directory_spec(), CURRENT_FILE@),
            result[1]@ == joined(self.directory_spec(), NEXT_FILE@),
            result[2]@ == joined(self.directory_spec(), PREVIOUS_FILE@),
            result[3]@ == joined(self.directory_spec(), LOCK_FILE@),
    {
        [
            join_path(&self.directory, CURRENT_FILE),
            join_path(&self.directory, NEXT_FILE),
            join_path(&self.directory, PREVIOUS_FILE),
            join_path(&self.directory, LOCK_FILE),
        ]
    }
}

impl PointerPublication {
    pub closed spec fn directory_spec(self) -> Seq<char> {
        self.directory@
    }

    /// Permanently accepts the new pointer and removes the rollback pointer.
    pub fn commit(self, pointer: &mut ActivePointer) -> (result: Result<(), ActivePointerError>)
        requires
            self.directory_spec() == old(pointer).directory_spec(),
        ensures
            meets(
                *old(pointer),
                *final(pointer),
                result,
                committing(
                    old(pointer).directory_spec(),
                    old(pointer).lock_unsafe_spec(),
                    old(pointer).disk_spec(),
                ),
            ),
    {
        pointer.commit_recovered()
    }

    /// Restores the previous pointer, or removes the current pointer when the
    /// failed publication was the first generation.
    pub fn rollback(self, pointer: &mut ActivePointer) -> (result: Result<(), ActivePointerError>)
        requires
            self.directory_spec() == old(pointer).directory_spec(),
        ensures
            meets(
                *old(pointer),
                *final(pointer),
                result,
                rolling_back(
                    old(pointer).directory_spec(),
                    old(pointer).lock_unsafe_spec(),
                    old(pointer).disk_spec(),
                ),
            ),
    {
        pointer.rollback()
    }
}

/// Whether a value is one simple relative file name.
pub fn is_pointer_value(value: &str) -> (result: bool)
    ensures
        result == pointer_value(value@),
{
    !value.is_empty() && byte_length(value) <= 255 && !has_character(value, '\0')
        && !has_character(value, '/') && !has_character(value, '\\') && !same_text(value, ".")
        && !same_text(value, "..")
}

/// A pointer is read exactly if it is a file that holds one simple name, and what is read is that
/// name without the blanks around it; where there is no file there is no name.
pub proof fn pointers_hold_simple_names(directory: Seq<char>, slot: SlotModel, file: PointerFile)
    ensures
        slot_value(directory, slot, file) matches Ok(Some(value)) ==> {
            &&& slot is File
            &&& value == trim(slot->File_0)
            &&& 0 < value.len()
            &&& encode_utf8(value).len() <= 255
            &&& !value.contains('/')
            &&& !value.contains('\\')
            &&& !value.contains('\0')
            &&& value != "."@ && value != ".."@
        },
        slot_value(directory, slot, file) == Ok::<Option<Seq<char>>, PointerFault>(None) <==> slot
            is Missing,
        slot is File ==> (slot_value(directory, slot, file) is Ok <==> pointer_value(
            trim(slot->File_0),
        )),
        slot is Unsafe || slot is Unreadable ==> slot_value(directory, slot, file) is Err,
{
}

/// What is recovered from is refused only where a file of the pointer is unsafe, and then nothing
/// becomes active that was not.
pub proof fn unsafe_pointers_are_refused(directory: Seq<char>, disk: PointerDisk)
    ensures
        recovery(directory, disk).fault is Some ==> disk.current is Unsafe || disk.next is Unsafe
            || disk.previous is Unsafe,
        disk.current is Unsafe || disk.next is Unsafe || disk.previous is Unsafe ==> recovery(
            directory,
            disk,
        ).fault is Some,
        recovery(directory, disk).fault is Some ==> recovered(directory, disk).current
            == disk.current,
{
    reveal_with_fuel(PointerDisk::after_all, 3);
}

/// With an unsafe lock nothing is done, and every operation is refused.
pub proof fn unsafe_locks_are_refused(directory: Seq<char>, disk: PointerDisk, value: Seq<char>)
    ensures
        publishing(directory, true, disk, value).fault is Some,
        committing(directory, true, disk).fault is Some,
        rolling_back(directory, true, disk).fault is Some,
        publishing(directory, true, disk, value).actions.len() == 0,
        committing(directory, true, disk).actions.len() == 0,
        rolling_back(directory, true, disk).actions.len() == 0,
{
}

/// A value that is no simple name is never published.
pub proof fn only_simple_names_are_published(
    directory: Seq<char>,
    lock_unsafe: bool,
    disk: PointerDisk,
    value: Seq<char>,
)
    ensures
        publishing(directory, lock_unsafe, disk, value).fault == Some(PointerFault::InvalidValue)
            <==> !pointer_value(value),
        !pointer_value(value) ==> publishing(directory, lock_unsafe, disk, value).actions.len()
            == 0,
{
}

/// A pointer's directory is used exactly if it is a real one.
pub proof fn real_directories_are_used(directory: Seq<char>, found: Result<EntryKind, String>)
    ensures
        directory_fault(directory, found) is None <==> found is Ok && found->Ok_0 is Directory,
{
}

/// There is something to return to exactly after a publication that replaced another: not before
/// any, not after the first, and not once it was committed.
pub proof fn replaced_generations_can_be_returned_to(disk: PointerDisk, value: Seq<char>)
    requires
        settled(disk),
    ensures
        !is_pending(disk.previous),
        is_pending(published(disk, value).previous) <==> !(disk.current is Missing),
{
}

} // verus!
