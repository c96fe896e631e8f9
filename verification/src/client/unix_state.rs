//! Ownership and mode enforcement for the fixed Unix client state tree.
//!
//! The tree is walked by open descriptors that never follow a link; privileged
//! code never validates one pathname and then mutates a separately resolved
//! pathname. What is checked, assigned, created and removed on the way, and in
//! what order, is told here.

use vstd::prelude::*;

use crate::common::secure_fs::EntryKind;
use crate::ident::{hyphenated, id_text};
use crate::paths::{same_path, same_path_as};
use crate::text::{
    caused, concat, ends_with, has_character, lines, same_text, starts_with, tell, text_lines,
    told, trim, trimmed, utf8_text, views, with_cause,
};

verus! {

pub const DATA_ROOT: &'static str = "/var/lib/centrald-client";

pub const LOCK_PATH: &'static str = "/var/lib/centrald-client.lock";

pub const ROOT_DIRECTORY_MODE: u32 = 0o750;

pub const SERVICE_DIRECTORY_MODE: u32 = 0o700;

pub const SERVICE_FILE_MODE: u32 = 0o600;

pub const MAX_POINTER_BYTES: usize = 512;

pub const MAX_CLIENT_CONFIG_BYTES: usize = 65_536;

/// The account of the client's service.
#[derive(Debug, Clone, Copy, PartialEq, Eq, Structural)]
pub struct ServiceIds {
    pub uid: u32,
    pub gid: u32,
}

/// Neither root, because this is the unprivileged network-service identity, nor
/// the reserved value.
pub open spec fn usable_ids(ids: ServiceIds) -> bool {
    ids.uid != u32::MAX && ids.gid != u32::MAX && ids.uid != 0 && ids.gid != 0
}

/// Checks the account of the client's service.
pub fn typed_service_ids(ids: ServiceIds) -> (result: Result<ServiceIds, String>)
    ensures
        told(
            result,
            if usable_ids(ids) {
                None
            } else {
                Some("centrald service account has an unsafe UID or GID"@)
            },
        ),
        result is Ok ==> result->Ok_0 == ids,
{
    if ids.uid == u32::MAX || ids.gid == u32::MAX || ids.uid == 0 || ids.gid == 0 {
        return tell("centrald service account has an unsafe UID or GID");
    }
    Ok(ids)
}

/// What an open descriptor shows of its file.
#[derive(Debug, Clone, Copy, PartialEq, Eq, Structural)]
pub struct OpenedFacts {
    pub kind: EntryKind,
    pub uid: u32,
    pub gid: u32,
    pub mode: u32,
    pub links: u64,
}

/// What is wrong with an open descriptor's type, if anything; `actual` is the
/// name of the type that it has.
pub open spec fn type_fault(
    facts: OpenedFacts,
    expected: EntryKind,
    label: Seq<char>,
    actual: Seq<char>,
) -> Option<Seq<char>> {
    if facts.kind != expected {
        Some("protected component "@ + label + " has unsafe type "@ + actual)
    } else {
        None
    }
}

/// Checks an open descriptor's type.
pub fn require_type(facts: &OpenedFacts, expected: EntryKind, label: &str, actual: &str) -> (result:
    Result<(), String>)
    ensures
        told(result, type_fault(*facts, expected, label@, actual@)),
{
    if facts.kind != expected {
        let mut message = concat("protected component ", label);
        message.append(" has unsafe type ");
        message.append(actual);
        return tell(&message);
    }
    Ok(())
}

/// Whether a directory above the client's state can be trusted.
pub open spec fn trusted_ancestor(facts: OpenedFacts) -> bool {
    facts.kind is Directory && facts.uid == 0 && facts.gid == 0 && facts.mode & 0o022 == 0
}

/// Checks that an ancestor of the state tree is a directory of root's that nobody
/// else may write.
pub fn require_root_ancestor(facts: &OpenedFacts, label: &str) -> (result: Result<(), String>)
    ensures
        told(
            result,
            if trusted_ancestor(*facts) {
                None
            } else {
                Some(
                    "trusted client-state ancestor "@ + label@
                        + " is not root-owned and non-writable"@,
                )
            },
        ),
{
    if facts.kind != EntryKind::Directory || facts.uid != 0 || facts.gid != 0 || facts.mode & 0o022
        != 0 {
        let mut message = concat("trusted client-state ancestor ", label);
        message.append(" is not root-owned and non-writable");
        return tell(&message);
    }
    Ok(())
}

/// Who shall own a component of the tree, and with what permissions.
#[derive(Debug, Clone, Copy, PartialEq, Eq, Structural)]
pub struct Assignment {
    pub kind: EntryKind,
    pub mode: u32,
    pub uid: u32,
    pub gid: u32,
}

/// What has to be changed of a component.
#[derive(Debug, Clone, Copy, PartialEq, Eq, Structural)]
pub struct AssignmentChanges {
    pub owner: bool,
    pub mode: bool,
}

/// What is wrong with a component that is to be assigned, if anything.
pub open spec fn assignment_fault(
    facts: OpenedFacts,
    wanted: Assignment,
    label: Seq<char>,
    actual: Seq<char>,
) -> Option<Seq<char>> {
    if type_fault(facts, wanted.kind, label, actual) is Some {
        type_fault(facts, wanted.kind, label, actual)
    } else if wanted.kind is Regular && facts.links != 1 {
        Some("protected client file "@ + label + " has more than one hard link"@)
    } else {
        None
    }
}

/// What has to change for something opened to be as wanted.
pub open spec fn needed_changes(facts: OpenedFacts, wanted: Assignment) -> AssignmentChanges {
    AssignmentChanges {
        owner: facts.uid != wanted.uid || facts.gid != wanted.gid,
        mode: facts.mode & 0o7777 != wanted.mode,
    }
}

/// Tells what has to be changed of a component so that it is assigned.
pub fn assign(facts: &OpenedFacts, wanted: &Assignment, label: &str, actual: &str) -> (result: Result<
    AssignmentChanges,
    String,
>)
    ensures
        told(result, assignment_fault(*facts, *wanted, label@, actual@)),
        result is Ok ==> result->Ok_0 == needed_changes(*facts, *wanted),
{
    match require_type(facts, wanted.kind, label, actual) {
        Ok(()) => {},
        Err(error) => return Err(error),
    }
    if wanted.kind == EntryKind::Regular && facts.links != 1 {
        let mut message = concat("protected client file ", label);
        message.append(" has more than one hard link");
        return tell(&message);
    }
    Ok(
        AssignmentChanges {
            owner: facts.uid != wanted.uid || facts.gid != wanted.gid,
            mode: facts.mode & 0o7777 != wanted.mode,
        },
    )
}

/// A step on the way into the state tree: a component of it, below the one
/// before, and who shall own it. Where that is none, root must own it already.
#[derive(Debug, Clone, Copy)]
pub struct EntryStep {
    pub name: &'static str,
    pub assignment: Option<Assignment>,
}

pub open spec fn ancestor_step(name: Seq<char>) -> (Seq<char>, Option<Assignment>) {
    (name, None)
}

pub open spec fn directory_step(name: Seq<char>, mode: u32, uid: u32, gid: u32) -> (
    Seq<char>,
    Option<Assignment>,
) {
    (name, Some(Assignment { kind: EntryKind::Directory, mode, uid, gid }))
}

/// The way into the state tree: three ancestors of root's, the data root, and
/// below it the two directories of identities and configurations.
pub open spec fn entry_steps(ids: ServiceIds) -> Seq<(Seq<char>, Option<Assignment>)> {
    seq![
        ancestor_step("/"@),
        ancestor_step("/var"@),
        ancestor_step("/var/lib"@),
        directory_step("centrald-client"@, ROOT_DIRECTORY_MODE, 0, ids.gid),
        directory_step("identities"@, ROOT_DIRECTORY_MODE, 0, ids.gid),
        directory_step("configurations"@, SERVICE_DIRECTORY_MODE, ids.uid, ids.gid),
    ]
}

/// The views of steps.
pub open spec fn step_views(steps: Seq<EntryStep>) -> Seq<(Seq<char>, Option<Assignment>)> {
    steps.map_values(|step: EntryStep| (step.name@, step.assignment))
}

/// What is wrong with entering the state tree, if anything.
pub open spec fn entry_fault(data_dir: Seq<char>, ids: ServiceIds) -> Option<Seq<char>> {
    if !same_path_as(data_dir, DATA_ROOT@) {
        Some("Unix client state must use the fixed packaged data root"@)
    } else if !usable_ids(ids) {
        Some("centrald service account has an unsafe UID or GID"@)
    } else {
        None
    }
}

fn ancestor(name: &'static str) -> (result: EntryStep)
    ensures
        (result.name@, result.assignment) == ancestor_step(name@),
{
    EntryStep { name, assignment: None }
}

fn directory(name: &'static str, mode: u32, uid: u32, gid: u32) -> (result: EntryStep)
    ensures
        (result.name@, result.assignment) == directory_step(name@, mode, uid, gid),
{
    EntryStep {
        name,
        assignment: Some(Assignment { kind: EntryKind::Directory, mode, uid, gid }),
    }
}

/// Tells the way into the state tree.
pub fn open_state(data_dir: &str, ids: ServiceIds) -> (result: Result<Vec<EntryStep>, String>)
    ensures
        told(result, entry_fault(data_dir@, ids)),
        result is Ok ==> step_views(result->Ok_0@) == entry_steps(ids),
{
    if !same_path(data_dir, DATA_ROOT) {
        return tell("Unix client state must use the fixed packaged data root");
    }
    match typed_service_ids(ids) {
        Ok(_) => {},
        Err(error) => return Err(error),
    }
    let mut steps: Vec<EntryStep> = Vec::new();
    steps.push(ancestor("/"));
    steps.push(ancestor("/var"));
    steps.push(ancestor("/var/lib"));
    steps.push(directory("centrald-client", ROOT_DIRECTORY_MODE, 0, ids.gid));
    steps.push(directory("identities", ROOT_DIRECTORY_MODE, 0, ids.gid));
    steps.push(directory("configurations", SERVICE_DIRECTORY_MODE, ids.uid, ids.gid));
    assert(step_views(steps@) =~= entry_steps(ids));
    Ok(steps)
}

/// A name that a file in the configurations directory may have.
pub open spec fn configuration_filename(name: Seq<char>) -> bool {
    &&& !name.contains('/')
    &&& !name.contains('\\')
    &&& !name.contains('\0')
    &&& {
        ||| name == "current.pointer"@
        ||| name == ".current.pointer.next"@
        ||| name == ".current.pointer.previous"@
        ||| name == ".current.pointer.lock"@
        ||| "client-"@.is_prefix_of(name) && ".toml"@.is_suffix_of(name)
    }
}

pub open spec fn filename_fault(name: Seq<char>) -> Option<Seq<char>> {
    if configuration_filename(name) {
        None
    } else {
        Some("protected client configuration filename is invalid"@)
    }
}

/// Checks the name of a file in the configurations directory.
pub fn validate_configuration_filename(filename: &str) -> (result: Result<(), String>)
    ensures
        told(result, filename_fault(filename@)),
{
    let pointer = same_text(filename, "current.pointer") || same_text(
        filename,
        ".current.pointer.next",
    ) || same_text(filename, ".current.pointer.previous") || same_text(
        filename,
        ".current.pointer.lock",
    );
    let configuration = starts_with(filename, "client-") && ends_with(filename, ".toml");
    if has_character(filename, '/') || has_character(filename, '\\') || has_character(
        filename,
        '\0',
    ) || !(pointer || configuration) {
        return tell("protected client configuration filename is invalid");
    }
    Ok(())
}

/// The text of a protected file, or what is wrong with it. `actual` is the name of
/// the type that it has; `bytes` are the first of it, at most one more than it may
/// have.
pub open spec fn bounded_text(
    facts: OpenedFacts,
    actual: Seq<char>,
    bytes: Seq<u8>,
    maximum: nat,
    label: Seq<char>,
) -> Result<Seq<char>, Seq<char>> {
    if type_fault(facts, EntryKind::Regular, label, actual) is Some {
        Err(type_fault(facts, EntryKind::Regular, label, actual)->0)
    } else if facts.links != 1 {
        Err("protected client file "@ + label + " has more than one hard link"@)
    } else if bytes.len() > maximum {
        Err("protected client file "@ + label + " exceeds its size limit"@)
    } else if !vstd::utf8::valid_utf8(bytes) {
        Err("protected client file "@ + label + " is not UTF-8"@)
    } else {
        Ok(vstd::utf8::decode_utf8(bytes))
    }
}

fn about_file(label: &str, what: &str) -> (result: String)
    ensures
        result@ == "protected client file "@ + label@ + what@,
{
    let mut message = concat("protected client file ", label);
    message.append(what);
    message
}

/// Reads the text of a protected file.
pub fn read_bounded_utf8(
    facts: &OpenedFacts,
    actual: &str,
    bytes: Vec<u8>,
    maximum: usize,
    label: &str,
) -> (result: Result<String, String>)
    ensures
        match bounded_text(*facts, actual@, bytes@, maximum as nat, label@) {
            Ok(text) => result is Ok && result->Ok_0@ == text,
            Err(fault) => told(result, Some(fault)),
        },
{
    match require_type(facts, EntryKind::Regular, label, actual) {
        Ok(()) => {},
        Err(text) => return Err(text),
    }
    if facts.links != 1 {
        return Err(about_file(label, " has more than one hard link"));
    }
    if bytes.len() > maximum {
        return Err(about_file(label, " exceeds its size limit"));
    }
    match utf8_text(bytes) {
        Some(text) => {
            proof {
                vstd::utf8::encode_utf8_decode_utf8(text@);
            }
            Ok(text)
        },
        None => Err(about_file(label, " is not UTF-8")),
    }
}

/// The name of the active configuration that a pointer's text gives, or what is
/// wrong with it.
pub open spec fn pointer_target(pointer: Seq<char>) -> Result<Seq<char>, Seq<char>> {
    let name = trim(pointer);
    if lines(pointer).len() != 1 || !"client-"@.is_prefix_of(name) || !".toml"@.is_suffix_of(
        name,
    ) {
        Err("active client configuration pointer is invalid"@)
    } else if filename_fault(name) is Some {
        Err(filename_fault(name)->0)
    } else {
        Ok(name)
    }
}

/// Reads the name of the active configuration from a pointer's text.
pub fn active_configuration_name(pointer: &str) -> (result: Result<String, String>)
    ensures
        match pointer_target(pointer@) {
            Ok(name) => result is Ok && result->Ok_0@ == name,
            Err(fault) => told(result, Some(fault)),
        },
{
    let name = trimmed(pointer);
    let all = text_lines(pointer);
    assert(views(all@).len() == all.len());
    if all.len() != 1 || !starts_with(&name, "client-") || !ends_with(&name, ".toml") {
        return tell("active client configuration pointer is invalid");
    }
    match validate_configuration_filename(&name) {
        Ok(()) => Ok(name),
        Err(error) => Err(error),
    }
}

/// A directory of the state tree.
#[derive(Debug, Clone, Copy, PartialEq, Eq, Structural)]
pub enum StatePlace {
    Identities,
    Configurations,
    Identity,
    Generations,
    Generation,
}

/// What a file of a generation holds.
#[derive(Debug, Clone, Copy, PartialEq, Eq, Structural)]
pub enum Material {
    Certificate,
    PrivateKey,
    RootCa,
    GrantKey,
    Configuration,
}

/// One change to the state tree.
#[derive(Debug)]
pub enum StateAction {
    /// Creates a directory unless it is there, and assigns it to the service.
    EnsureDirectory { parent: StatePlace, name: String },
    /// Creates a new directory, assigns it to the service, and syncs its parent.
    CreateDirectory { parent: StatePlace, name: String },
    /// Creates a new file, assigns it to the service, writes and syncs it.
    CreateFile { parent: StatePlace, name: String, material: Material },
    Sync(StatePlace),
    /// Removes a file that may be missing, and syncs its directory where it says
    /// so and one was removed.
    RemoveFile { parent: StatePlace, name: String, sync: bool },
    /// Removes a directory that may be missing, and syncs its parent if one was
    /// removed.
    RemoveDirectory { parent: StatePlace, name: String },
}

/// A change, with its name as a sequence of characters.
pub enum StateChange {
    EnsureDirectory { parent: StatePlace, name: Seq<char> },
    CreateDirectory { parent: StatePlace, name: Seq<char> },
    CreateFile { parent: StatePlace, name: Seq<char>, material: Material },
    Sync(StatePlace),
    RemoveFile { parent: StatePlace, name: Seq<char>, sync: bool },
    RemoveDirectory { parent: StatePlace, name: Seq<char> },
}

impl View for StateAction {
    type V = StateChange;

    open spec fn view(&self) -> StateChange {
        match self {
            StateAction::EnsureDirectory { parent, name } => StateChange::EnsureDirectory {
                parent: *parent,
                name: name@,
            },
            StateAction::CreateDirectory { parent, name } => StateChange::CreateDirectory {
                parent: *parent,
                name: name@,
            },
            StateAction::CreateFile { parent, name, material } => StateChange::CreateFile {
                parent: *parent,
                name: name@,
                material: *material,
            },
            StateAction::Sync(place) => StateChange::Sync(*place),
            StateAction::RemoveFile { parent, name, sync } => StateChange::RemoveFile {
                parent: *parent,
                name: name@,
                sync: *sync,
            },
            StateAction::RemoveDirectory { parent, name } => StateChange::RemoveDirectory {
                parent: *parent,
                name: name@,
            },
        }
    }
}

/// The views of a plan.
pub open spec fn state_views(plan: Seq<StateAction>) -> Seq<StateChange> {
    plan.map_values(|action: StateAction| action@)
}

pub open spec fn credential(name: Seq<char>, material: Material) -> StateChange {
    StateChange::CreateFile { parent: StatePlace::Generation, name, material }
}

/// How a generation is persisted: its directories first, then its four
/// credentials, and its configuration last.
pub open spec fn persistence(identity_id: u128, generation_id: u128, configuration: Seq<char>) ->
    Seq<StateChange> {
    seq![
        StateChange::EnsureDirectory {
            parent: StatePlace::Identities,
            name: hyphenated(identity_id),
        },
        StateChange::EnsureDirectory { parent: StatePlace::Identity, name: "generations"@ },
        StateChange::CreateDirectory {
            parent: StatePlace::Generations,
            name: hyphenated(generation_id),
        },
        credential("identity-chain.pem"@, Material::Certificate),
        credential("identity-key.pem"@, Material::PrivateKey),
        credential("root-ca.pem"@, Material::RootCa),
        credential("grant-signing-public.pem"@, Material::GrantKey),
        StateChange::Sync(StatePlace::Generation),
        StateChange::CreateFile {
            parent: StatePlace::Configurations,
            name: configuration,
            material: Material::Configuration,
        },
        StateChange::Sync(StatePlace::Configurations),
        StateChange::Sync(StatePlace::Generations),
    ]
}

/// The number of the changes that create a generation's directories: a failure
/// among them leaves nothing to clean up.
pub const DIRECTORY_CHANGES: usize = 3;

/// The configuration is the publication point: wherever persisting a generation
/// stops, a configuration is there only if every credential file is, and is
/// durable.
pub proof fn configuration_comes_last(
    identity_id: u128,
    generation_id: u128,
    configuration: Seq<char>,
    performed: nat,
    i: int,
)
    requires
        performed <= persistence(identity_id, generation_id, configuration).len(),
        0 <= i < performed,
        persistence(identity_id, generation_id, configuration)[i] matches StateChange::CreateFile {
            material: Material::Configuration,
            ..
        },
    ensures
        ({
            let done = persistence(identity_id, generation_id, configuration).take(
                performed as int,
            );
            &&& done.contains(credential("identity-chain.pem"@, Material::Certificate))
            &&& done.contains(credential("identity-key.pem"@, Material::PrivateKey))
            &&& done.contains(credential("root-ca.pem"@, Material::RootCa))
            &&& done.contains(credential("grant-signing-public.pem"@, Material::GrantKey))
            &&& done.contains(StateChange::Sync(StatePlace::Generation))
        }),
{
    let plan = persistence(identity_id, generation_id, configuration);
    let done = plan.take(performed as int);
    assert(i == 8);
    assert(done[3] == plan[3]);
    assert(done[4] == plan[4]);
    assert(done[5] == plan[5]);
    assert(done[6] == plan[6]);
    assert(done[7] == plan[7]);
}

fn create_credential(name: &str, material: Material) -> (result: StateAction)
    ensures
        result@ == credential(name@, material),
{
    StateAction::CreateFile { parent: StatePlace::Generation, name: name.to_owned(), material }
}

/// Tells how one enrollment generation is created and published.
pub fn persist_enrollment_generation(
    data_dir: &str,
    ids: ServiceIds,
    identity_id: u128,
    generation_id: u128,
    configuration_name: &str,
) -> (result: Result<Vec<StateAction>, String>)
    ensures
        told(
            result,
            if filename_fault(configuration_name@) is Some {
                filename_fault(configuration_name@)
            } else {
                entry_fault(data_dir@, ids)
            },
        ),
        result is Ok ==> state_views(result->Ok_0@) == persistence(
            identity_id,
            generation_id,
            configuration_name@,
        ),
{
    match validate_configuration_filename(configuration_name) {
        Ok(()) => {},
        Err(error) => return Err(error),
    }
    match open_state(data_dir, ids) {
        Ok(_) => {},
        Err(error) => return Err(error),
    }
    let mut plan: Vec<StateAction> = Vec::new();
    plan.push(
        StateAction::EnsureDirectory {
            parent: StatePlace::Identities,
            name: id_text(identity_id),
        },
    );
    plan.push(
        StateAction::EnsureDirectory {
            parent: StatePlace::Identity,
            name: "generations".to_owned(),
        },
    );
    plan.push(
        StateAction::CreateDirectory {
            parent: StatePlace::Generations,
            name: id_text(generation_id),
        },
    );
    plan.push(create_credential("identity-chain.pem", Material::Certificate));
    plan.push(create_credential("identity-key.pem", Material::PrivateKey));
    plan.push(create_credential("root-ca.pem", Material::RootCa));
    plan.push(create_credential("grant-signing-public.pem", Material::GrantKey));
    plan.push(StateAction::Sync(StatePlace::Generation));
    plan.push(
        StateAction::CreateFile {
            parent: StatePlace::Configurations,
            name: configuration_name.to_owned(),
            material: Material::Configuration,
        },
    );
    plan.push(StateAction::Sync(StatePlace::Configurations));
    plan.push(StateAction::Sync(StatePlace::Generations));
    assert(state_views(plan@) =~= persistence(identity_id, generation_id, configuration_name@));
    Ok(plan)
}

/// How a generation is removed: its configuration first, then its credentials,
/// and its directory last.
pub open spec fn removal(generation_id: u128, configuration: Seq<char>, present: bool) -> Seq<
    StateChange,
> {
    let first = seq![
        StateChange::RemoveFile {
            parent: StatePlace::Configurations,
            name: configuration,
            sync: true,
        },
    ];
    let files = if present {
        seq![
            removed("identity-chain.pem"@),
            removed("identity-key.pem"@),
            removed("root-ca.pem"@),
            removed("grant-signing-public.pem"@),
            StateChange::Sync(StatePlace::Generation),
        ]
    } else {
        Seq::empty()
    };
    (first + files).push(
        StateChange::RemoveDirectory {
            parent: StatePlace::Generations,
            name: hyphenated(generation_id),
        },
    )
}

pub open spec fn removed(name: Seq<char>) -> StateChange {
    StateChange::RemoveFile { parent: StatePlace::Generation, name, sync: false }
}

fn remove_credential(name: &str) -> (result: StateAction)
    ensures
        result@ == removed(name@),
{
    StateAction::RemoveFile {
        parent: StatePlace::Generation,
        name: name.to_owned(),
        sync: false,
    }
}

/// Tells how a generation is removed whose generations directory is open.
pub fn cleanup_open_generation(
    generation_id: u128,
    configuration_name: &str,
    present: bool,
) -> (result: Vec<StateAction>)
    ensures
        state_views(result@) == removal(generation_id, configuration_name@, present),
{
    let mut plan: Vec<StateAction> = Vec::new();
    plan.push(
        StateAction::RemoveFile {
            parent: StatePlace::Configurations,
            name: configuration_name.to_owned(),
            sync: true,
        },
    );
    if present {
        plan.push(remove_credential("identity-chain.pem"));
        plan.push(remove_credential("identity-key.pem"));
        plan.push(remove_credential("root-ca.pem"));
        plan.push(remove_credential("grant-signing-public.pem"));
        plan.push(StateAction::Sync(StatePlace::Generation));
    }
    plan.push(
        StateAction::RemoveDirectory {
            parent: StatePlace::Generations,
            name: id_text(generation_id),
        },
    );
    assert(state_views(plan@) =~= removal(generation_id, configuration_name@, present));
    plan
}

/// What is removed of a generation, where its identity has a directory of generations or has none.
pub open spec fn removal_of(
    generation_id: u128,
    configuration: Seq<char>,
    generations: bool,
    present: bool,
) -> Seq<StateChange> {
    if generations {
        removal(generation_id, configuration, present)
    } else {
        seq![
            StateChange::RemoveFile {
                parent: StatePlace::Configurations,
                name: configuration,
                sync: true,
            },
        ]
    }
}

/// Tells how one known generation is removed. Missing components are treated as
/// already cleaned: `generations` says whether its generations directory is
/// there, and `present` whether it is itself.
pub fn cleanup_enrollment_generation(
    data_dir: &str,
    ids: ServiceIds,
    generation_id: u128,
    configuration_name: &str,
    generations: bool,
    present: bool,
) -> (result: Result<Vec<StateAction>, String>)
    ensures
        told(
            result,
            if filename_fault(configuration_name@) is Some {
                filename_fault(configuration_name@)
            } else {
                entry_fault(data_dir@, ids)
            },
        ),
        result is Ok ==> state_views(result->Ok_0@) == removal_of(
            generation_id,
            configuration_name@,
            generations,
            present,
        ),
{
    match validate_configuration_filename(configuration_name) {
        Ok(()) => {},
        Err(error) => return Err(error),
    }
    match open_state(data_dir, ids) {
        Ok(_) => {},
        Err(error) => return Err(error),
    }
    if generations {
        return Ok(cleanup_open_generation(generation_id, configuration_name, present));
    }
    let mut plan: Vec<StateAction> = Vec::new();
    plan.push(
        StateAction::RemoveFile {
            parent: StatePlace::Configurations,
            name: configuration_name.to_owned(),
            sync: true,
        },
    );
    assert(state_views(plan@) =~= seq![
        StateChange::RemoveFile {
            parent: StatePlace::Configurations,
            name: configuration_name@,
            sync: true,
        },
    ]);
    Ok(plan)
}

/// What is told of a generation that was not persisted.
pub open spec fn failed_persistence(error: Seq<char>, cleanup: Result<(), Seq<char>>) -> Seq<char> {
    match cleanup {
        Ok(_) => error,
        Err(text) => caused("failed generation cleanup also failed: "@ + text, error),
    }
}

/// What is told where persisting a generation failed: and first, where removing it
/// failed too, that it did.
pub fn persistence_failure(error: String, cleanup: Result<(), String>) -> (result: String)
    ensures
        result@ == failed_persistence(error@, super::publication::outcome_view(cleanup)),
{
    match cleanup {
        Ok(()) => error,
        Err(text) => with_cause(
            &concat("failed generation cleanup also failed: ", &text),
            &error,
        ),
    }
}

/// A component of a generation that is secured: where it is, its name, and who
/// shall own it.
#[derive(Debug)]
pub struct SecuredComponent {
    pub parent: StatePlace,
    pub name: String,
    pub assignment: Assignment,
}

pub open spec fn component_view(component: SecuredComponent) -> (StatePlace, Seq<char>, Assignment) {
    (component.parent, component.name@, component.assignment)
}

pub open spec fn component_views(components: Seq<SecuredComponent>) -> Seq<
    (StatePlace, Seq<char>, Assignment),
> {
    components.map_values(|component: SecuredComponent| component_view(component))
}

pub open spec fn service_directory(ids: ServiceIds) -> Assignment {
    Assignment {
        kind: EntryKind::Directory,
        mode: SERVICE_DIRECTORY_MODE,
        uid: ids.uid,
        gid: ids.gid,
    }
}

pub open spec fn service_file(ids: ServiceIds) -> Assignment {
    Assignment {
        kind: EntryKind::Regular,
        mode: SERVICE_FILE_MODE,
        uid: ids.uid,
        gid: ids.gid,
    }
}

/// The components of a generation that are secured, in order.
pub open spec fn generation_components(ids: ServiceIds, identity_id: u128, generation_id: u128) ->
    Seq<(StatePlace, Seq<char>, Assignment)> {
    seq![
        (StatePlace::Identities, hyphenated(identity_id), service_directory(ids)),
        (StatePlace::Identity, "generations"@, service_directory(ids)),
        (StatePlace::Generations, hyphenated(generation_id), service_directory(ids)),
        (StatePlace::Generation, "identity-chain.pem"@, service_file(ids)),
        (StatePlace::Generation, "identity-key.pem"@, service_file(ids)),
        (StatePlace::Generation, "root-ca.pem"@, service_file(ids)),
        (StatePlace::Generation, "grant-signing-public.pem"@, service_file(ids)),
    ]
}

fn secured(parent: StatePlace, name: String, kind: EntryKind, mode: u32, ids: ServiceIds) -> (
    result: SecuredComponent)
    ensures
        component_view(result) == (
            parent,
            name@,
            Assignment { kind, mode, uid: ids.uid, gid: ids.gid },
        ),
{
    SecuredComponent {
        parent,
        name,
        assignment: Assignment { kind, mode, uid: ids.uid, gid: ids.gid },
    }
}

/// Tells which components of a generation are secured, and how.
pub fn secure_generation(
    data_dir: &str,
    ids: ServiceIds,
    identity_id: u128,
    generation_id: u128,
) -> (result: Result<Vec<SecuredComponent>, String>)
    ensures
        told(result, entry_fault(data_dir@, ids)),
        result is Ok ==> component_views(result->Ok_0@) == generation_components(
            ids,
            identity_id,
            generation_id,
        ),
{
    match open_state(data_dir, ids) {
        Ok(_) => {},
        Err(error) => return Err(error),
    }
    let directory = EntryKind::Directory;
    let file = EntryKind::Regular;
    let mut all: Vec<SecuredComponent> = Vec::new();
    all.push(
        secured(
            StatePlace::Identities,
            id_text(identity_id),
            directory,
            SERVICE_DIRECTORY_MODE,
            ids,
        ),
    );
    all.push(
        secured(
            StatePlace::Identity,
            "generations".to_owned(),
            directory,
            SERVICE_DIRECTORY_MODE,
            ids,
        ),
    );
    all.push(
        secured(
            StatePlace::Generations,
            id_text(generation_id),
            directory,
            SERVICE_DIRECTORY_MODE,
            ids,
        ),
    );
    all.push(
        secured(
            StatePlace::Generation,
            "identity-chain.pem".to_owned(),
            file,
            SERVICE_FILE_MODE,
            ids,
        ),
    );
    all.push(
        secured(
            StatePlace::Generation,
            "identity-key.pem".to_owned(),
            file,
            SERVICE_FILE_MODE,
            ids,
        ),
    );
    all.push(
        secured(
            StatePlace::Generation,
            "root-ca.pem".to_owned(),
            file,
            SERVICE_FILE_MODE,
            ids,
        ),
    );
    all.push(
        secured(
            StatePlace::Generation,
            "grant-signing-public.pem".to_owned(),
            file,
            SERVICE_FILE_MODE,
            ids,
        ),
    );
    assert(component_views(all@) =~= generation_components(ids, identity_id, generation_id));
    Ok(all)
}

/// Tells how a file in the configurations directory is secured.
pub fn secure_configuration(data_dir: &str, filename: &str, ids: ServiceIds) -> (result: Result<
    SecuredComponent,
    String,
>)
    ensures
        told(
            result,
            if filename_fault(filename@) is Some {
                filename_fault(filename@)
            } else {
                entry_fault(data_dir@, ids)
            },
        ),
        result is Ok ==> component_view(result->Ok_0) == (
            StatePlace::Configurations,
            filename@,
            service_file(ids),
        ),
{
    match validate_configuration_filename(filename) {
        Ok(()) => {},
        Err(error) => return Err(error),
    }
    match open_state(data_dir, ids) {
        Ok(_) => {},
        Err(error) => return Err(error),
    }
    Ok(
        secured(
            StatePlace::Configurations,
            filename.to_owned(),
            EntryKind::Regular,
            SERVICE_FILE_MODE,
            ids,
        ),
    )
}

/// Why the state's lock is not secured, if it is not.
pub open spec fn state_lock_fault(lock_path: Seq<char>, ids: ServiceIds) -> Option<Seq<char>> {
    if !same_path_as(lock_path, LOCK_PATH@) {
        Some("Unix client state lock is not the fixed packaged path"@)
    } else if !usable_ids(ids) {
        Some("centrald service account has an unsafe UID or GID"@)
    } else {
        None
    }
}

/// Tells how the state lock, which lies in `/var/lib`, is secured.
pub fn secure_lock(lock_path: &str, ids: ServiceIds) -> (result: Result<Assignment, String>)
    ensures
        told(
            result,
            state_lock_fault(lock_path@, ids),
        ),
        result is Ok ==> result->Ok_0 == service_file(ids),
{
    if !same_path(lock_path, LOCK_PATH) {
        return tell("Unix client state lock is not the fixed packaged path");
    }
    match typed_service_ids(ids) {
        Ok(_) => {},
        Err(error) => return Err(error),
    }
    Ok(
        Assignment {
            kind: EntryKind::Regular,
            mode: SERVICE_FILE_MODE,
            uid: ids.uid,
            gid: ids.gid,
        },
    )
}

/// Tells how the base of the state tree is secured: the way into it, and the
/// lock.
pub fn secure_base_state(data_dir: &str, lock_path: &str, ids: ServiceIds) -> (result: Result<
    (Vec<EntryStep>, Assignment),
    String,
>)
    ensures
        told(
            result,
            if entry_fault(data_dir@, ids) is Some {
                entry_fault(data_dir@, ids)
            } else if !same_path_as(lock_path@, LOCK_PATH@) {
                Some("Unix client state lock is not the fixed packaged path"@)
            } else {
                None
            },
        ),
        result is Ok ==> step_views(result->Ok_0.0@) == entry_steps(ids) && result->Ok_0.1
            == service_file(ids),
{
    let steps = match open_state(data_dir, ids) {
        Ok(steps) => steps,
        Err(error) => return Err(error),
    };
    match secure_lock(lock_path, ids) {
        Ok(assignment) => Ok((steps, assignment)),
        Err(error) => Err(error),
    }
}

/// A directory above the state is trusted exactly if it belongs to root and only its owner may
/// write to it.
pub proof fn trusted_ancestors_belong_to_root(facts: OpenedFacts)
    ensures
        trusted_ancestor(facts) <==> {
            &&& facts.kind is Directory
            &&& facts.uid == 0
            &&& facts.gid == 0
            &&& (facts.mode / 0o20) % 2 == 0
            &&& (facts.mode / 2) % 2 == 0
        },
{
    let mode = facts.mode;
    assert((mode & 0o022 == 0) <==> (mode / 0o20) % 2 == 0 && (mode / 2) % 2 == 0) by (bit_vector);
}

/// Nothing is changed exactly of what belongs to its owner and group already and has its mode, and
/// only the files that have one name are touched at all.
pub proof fn only_what_differs_is_changed(
    facts: OpenedFacts,
    wanted: Assignment,
    label: Seq<char>,
    actual: Seq<char>,
)
    ensures
        needed_changes(facts, wanted).owner <==> !(facts.uid == wanted.uid && facts.gid
            == wanted.gid),
        needed_changes(facts, wanted).mode <==> facts.mode % 0o10000 != wanted.mode,
        assignment_fault(facts, wanted, label, actual) is None <==> facts.kind == wanted.kind && (
        wanted.kind is Regular ==> facts.links == 1),
{
    let mode = facts.mode;
    assert(mode & 0o7777 == mode % 0o10000) by (bit_vector);
}

/// The service's account can be used exactly if it is neither root's nor the reserved one.
pub proof fn service_accounts_are_not_root(ids: ServiceIds, data_dir: Seq<char>)
    ensures
        usable_ids(ids) <==> 0 < ids.uid < 0xffff_ffff && 0 < ids.gid < 0xffff_ffff,
        entry_fault(data_dir, ids) is None <==> same_path_as(data_dir, "/var/lib/centrald-client"@)
            && usable_ids(ids),
{
}

/// Every part of a generation belongs to the service and is closed to everyone else; its
/// directories can be entered, and its files are only read and written.
pub proof fn generations_belong_to_the_service(
    ids: ServiceIds,
    identity_id: u128,
    generation_id: u128,
    i: int,
)
    requires
        0 <= i < generation_components(ids, identity_id, generation_id).len(),
    ensures
        ({
            let (place, name, assignment) = generation_components(
                ids,
                identity_id,
                generation_id,
            )[i];
            &&& assignment.uid == ids.uid
            &&& assignment.gid == ids.gid
            &&& assignment.mode % 0o100 == 0
            &&& assignment.kind is Directory <==> assignment.mode == 0o700
            &&& assignment.kind is Regular <==> assignment.mode == 0o600
            &&& place == StatePlace::Generation <==> assignment.kind is Regular
        }),
        generation_components(ids, identity_id, generation_id).len() == 7,
{
}

/// The way to the state leads through root's directories, which are left as they are, to the
/// state's own, which root owns and the service's group may enter but not write to, and the
/// configurations are the service's own.
pub proof fn state_is_entered_through_roots_directories(ids: ServiceIds, i: int)
    requires
        0 <= i < 6,
    ensures
        entry_steps(ids).len() == 6,
        entry_steps(ids)[i].1 is None <==> i < 3,
        3 <= i < 5 ==> {
            &&& entry_steps(ids)[i].1->0.uid == 0
            &&& entry_steps(ids)[i].1->0.gid == ids.gid
            &&& entry_steps(ids)[i].1->0.mode == 0o750
        },
        i == 5 ==> {
            &&& entry_steps(ids)[i].1->0.uid == ids.uid
            &&& entry_steps(ids)[i].1->0.gid == ids.gid
            &&& entry_steps(ids)[i].1->0.mode == 0o700
        },
        entry_steps(ids)[i].1 is Some ==> entry_steps(ids)[i].1->0.kind is Directory,
{
}

/// What a persistence creates, its removal removes: every file that was written and the directory
/// of the generation.
pub proof fn removal_undoes_persistence(
    identity_id: u128,
    generation_id: u128,
    configuration: Seq<char>,
    i: int,
) -> (at: int)
    requires
        0 <= i < persistence(identity_id, generation_id, configuration).len(),
        persistence(identity_id, generation_id, configuration)[i] is CreateFile || persistence(
            identity_id,
            generation_id,
            configuration,
        )[i] is CreateDirectory,
    ensures
        0 <= at < removal(generation_id, configuration, true).len(),
        match persistence(identity_id, generation_id, configuration)[i] {
            StateChange::CreateFile { parent, name, .. } => {
                &&& removal(generation_id, configuration, true)[at] is RemoveFile
                &&& removal(generation_id, configuration, true)[at]->RemoveFile_parent == parent
                &&& removal(generation_id, configuration, true)[at]->RemoveFile_name == name
            },
            StateChange::CreateDirectory { parent, name } => {
                &&& removal(generation_id, configuration, true)[at] is RemoveDirectory
                &&& removal(generation_id, configuration, true)[at]->RemoveDirectory_parent
                    == parent
                &&& removal(generation_id, configuration, true)[at]->RemoveDirectory_name == name
            },
            _ => true,
        },
{
    if i == 2 {
        6
    } else if i == 8 {
        0
    } else {
        i - 2
    }
}

/// The four credentials that a persistence writes are each of its own material.
pub proof fn persisted_files_hold_their_own_material(
    identity_id: u128,
    generation_id: u128,
    configuration: Seq<char>,
    i: int,
    j: int,
)
    requires
        0 <= i < j < persistence(identity_id, generation_id, configuration).len(),
        persistence(identity_id, generation_id, configuration)[i] is CreateFile,
        persistence(identity_id, generation_id, configuration)[j] is CreateFile,
    ensures
        persistence(identity_id, generation_id, configuration)[i]->material != persistence(
            identity_id,
            generation_id,
            configuration,
        )[j]->material,
        persistence(identity_id, generation_id, configuration)[j]->material
            == Material::Configuration <==> persistence(
            identity_id,
            generation_id,
            configuration,
        )[j]->CreateFile_parent == StatePlace::Configurations,
{
}

/// A pointer leads to a configuration exactly if it is one line that names one, in the same
/// directory.
pub proof fn pointers_name_one_configuration(pointer: Seq<char>)
    ensures
        pointer_target(pointer) is Ok <==> {
            &&& lines(pointer).len() == 1
            &&& "client-"@.is_prefix_of(trim(pointer))
            &&& ".toml"@.is_suffix_of(trim(pointer))
            &&& !trim(pointer).contains('/')
            &&& !trim(pointer).contains('\\')
            &&& !trim(pointer).contains('\0')
        },
        pointer_target(pointer) is Ok ==> pointer_target(pointer)->Ok_0 == trim(pointer),
{
}

/// A protected file is read exactly if it is a regular one with one name, within its bound and
/// text; and what is read is its text.
pub proof fn protected_files_are_read_whole(
    facts: OpenedFacts,
    actual: Seq<char>,
    bytes: Seq<u8>,
    maximum: nat,
    label: Seq<char>,
)
    ensures
        bounded_text(facts, actual, bytes, maximum, label) is Ok <==> {
            &&& facts.kind is Regular
            &&& facts.links == 1
            &&& bytes.len() <= maximum
            &&& vstd::utf8::valid_utf8(bytes)
        },
        bounded_text(facts, actual, bytes, maximum, label) is Ok ==> vstd::utf8::encode_utf8(
            bounded_text(facts, actual, bytes, maximum, label)->Ok_0,
        ) == bytes,
{
    if vstd::utf8::valid_utf8(bytes) {
        vstd::utf8::decode_utf8_encode_utf8(bytes);
    }
}

/// The lock is secured exactly at its own path and for an account that can be used; and a cleanup
/// that went well adds nothing to what went wrong.
pub proof fn locks_are_secured_in_place(lock_path: Seq<char>, ids: ServiceIds)
    ensures
        state_lock_fault(lock_path, ids) is None <==> same_path_as(
            lock_path,
            "/var/lib/centrald-client.lock"@,
        ) && usable_ids(ids),
        failed_persistence(lock_path, Ok(())) == lock_path,
{
}

/// The configuration is removed first, whatever else there is, so that nothing leads to a
/// generation that is half gone; and the directory of the generation goes last.
pub proof fn configurations_go_first(
    generation_id: u128,
    configuration: Seq<char>,
    generations: bool,
    present: bool,
)
    ensures
        ({
            let steps = removal_of(generation_id, configuration, generations, present);
            &&& steps.len() > 0
            &&& steps[0] is RemoveFile
            &&& steps[0]->RemoveFile_parent == StatePlace::Configurations
            &&& steps[0]->RemoveFile_name == configuration
            &&& steps[0]->sync
            &&& generations ==> steps.last() is RemoveDirectory
                && steps.last()->RemoveDirectory_name == hyphenated(generation_id)
            &&& !generations ==> steps.len() == 1
        }),
{
}

} // verus!
