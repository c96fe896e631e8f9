//! The managed client's control loop: when it loads, finalizes and renews its
//! credentials, when it connects, and how long it waits between attempts.

use vstd::prelude::*;

use crate::common::config::{
    client_fault, configuration_file, configuration_path, generation_dir, generation_directory,
    storage_fault, ClientConfig,
};
use crate::common::secure_fs::EntryKind;
use crate::instant::Timestamp;
use crate::paths::{join_path, joined};
use crate::text::{caused, concat, tell, told, with_cause};

use super::control::{CERTIFICATE_RENEWAL_WINDOW_DAYS, DAY_SECONDS};
use super::enrollment::{moment_of, timestamp_to_datetime, WireTimestamp};

verus! {

/// The first and the longest wait between attempts, in seconds.
pub const FIRST_BACKOFF: u64 = 1;

pub const LONGEST_BACKOFF: u64 = 60;

/// How long the daemon waits while another process holds the state lock, in
/// milliseconds.
pub const LOCK_RETRY_MILLIS: u64 = 250;

/// What the control loop remembers from attempt to attempt.
#[derive(Debug, Clone, Copy, PartialEq, Eq, Structural)]
pub struct DaemonState {
    /// The next wait, in seconds.
    pub backoff: u64,
    /// How many times in a row no healthy stream was had.
    pub failures: u32,
    /// Whether the wait grows when it is over.
    pub growing: bool,
}

/// What happens in the control loop.
#[derive(Debug)]
pub enum DaemonEvent {
    /// A round begins; the shutdown signal is this.
    Begin { shutdown: bool },
    /// The state lock was tried: it is held now, another process holds it, or
    /// that failed.
    Locked,
    LockBusy,
    LockFailed(String),
    /// The active configuration was loaded, or that failed.
    Loaded,
    LoadFailed(String),
    /// A publication that was pending was finalized, or that failed.
    Finalized,
    FinalizeFailed,
    /// The certificate was renewed, or was not due; or that failed with an error,
    /// at a moment at which the certificate is still valid or not.
    Renewed,
    RenewalNotDue,
    RenewalFailed { expires_at: Timestamp, now: Timestamp, error: String },
    /// The control stream ended, with an error or without.
    Disconnected { clean: bool, shutdown: bool, healthy: bool },
    /// A wait is over, or the shutdown signal changed to this.
    Waited,
    ShutdownChanged(bool),
}

/// What the control loop does next.
#[derive(Debug)]
pub enum DaemonAction {
    /// Begins another round.
    Continue,
    TryLock,
    LoadConfiguration,
    Finalize,
    Renew,
    /// Releases the state lock and connects. The long-lived network stream must
    /// not prevent a local reenrollment or repair operation.
    ReleaseAndConnect,
    /// Waits so many milliseconds; a warning that the client is still offline
    /// comes first where it says so.
    Wait { millis: u64, warn: bool },
    Stop,
    Fail(String),
}

/// What the control loop does next, with its message as a sequence of characters.
pub enum DaemonModel {
    Continue,
    TryLock,
    LoadConfiguration,
    Finalize,
    Renew,
    ReleaseAndConnect,
    Wait { millis: int, warn: bool },
    Stop,
    Fail(Seq<char>),
}

impl View for DaemonAction {
    type V = DaemonModel;

    open spec fn view(&self) -> DaemonModel {
        match self {
            DaemonAction::Continue => DaemonModel::Continue,
            DaemonAction::TryLock => DaemonModel::TryLock,
            DaemonAction::LoadConfiguration => DaemonModel::LoadConfiguration,
            DaemonAction::Finalize => DaemonModel::Finalize,
            DaemonAction::Renew => DaemonModel::Renew,
            DaemonAction::ReleaseAndConnect => DaemonModel::ReleaseAndConnect,
            DaemonAction::Wait { millis, warn } => DaemonModel::Wait {
                millis: *millis as int,
                warn: *warn,
            },
            DaemonAction::Stop => DaemonModel::Stop,
            DaemonAction::Fail(text) => DaemonModel::Fail(text@),
        }
    }
}

pub open spec fn doubled(backoff: u64) -> u64 {
    if backoff * 2 < LONGEST_BACKOFF {
        (backoff * 2) as u64
    } else {
        LONGEST_BACKOFF
    }
}

/// The number of failures after another one.
pub open spec fn one_more(failures: u32) -> u32 {
    if failures == u32::MAX {
        failures
    } else {
        (failures + 1) as u32
    }
}

/// Whether so many failures call for a warning.
pub open spec fn warns_at(failures: u32) -> bool {
    failures == 5 || failures % 20 == 0
}

/// What the control loop remembers and does after an event.
pub open spec fn daemon_next(state: DaemonState, event: DaemonEvent) -> (DaemonState, DaemonModel) {
    match event {
        DaemonEvent::Begin { shutdown } => (
            state,
            if shutdown {
                DaemonModel::Stop
            } else {
                DaemonModel::TryLock
            },
        ),
        DaemonEvent::Locked => (state, DaemonModel::LoadConfiguration),
        DaemonEvent::LockBusy => (
            DaemonState { growing: false, ..state },
            DaemonModel::Wait { millis: LOCK_RETRY_MILLIS as int, warn: false },
        ),
        DaemonEvent::LockFailed(text) => (state, DaemonModel::Fail(text@)),
        DaemonEvent::Loaded => (state, DaemonModel::Finalize),
        DaemonEvent::LoadFailed(text) => (state, DaemonModel::Fail(text@)),
        DaemonEvent::Finalized => (state, DaemonModel::Renew),
        DaemonEvent::FinalizeFailed => (
            DaemonState { growing: true, ..state },
            DaemonModel::Wait { millis: state.backoff * 1000, warn: false },
        ),
        DaemonEvent::Renewed => (
            DaemonState { backoff: FIRST_BACKOFF, ..state },
            DaemonModel::Continue,
        ),
        DaemonEvent::RenewalNotDue => (state, DaemonModel::ReleaseAndConnect),
        DaemonEvent::RenewalFailed { expires_at, now, error } => (
            state,
            if expires_at@ > now@ {
                DaemonModel::ReleaseAndConnect
            } else {
                DaemonModel::Fail(
                    caused(
                        "client certificate is expired and renewal failed; run centrald-client reenroll"@,
                        error@,
                    ),
                )
            },
        ),
        DaemonEvent::Disconnected { clean, shutdown, healthy } => if clean && shutdown {
            (state, DaemonModel::Stop)
        } else if healthy {
            (
                DaemonState { backoff: FIRST_BACKOFF, failures: 0, growing: false },
                DaemonModel::Wait { millis: FIRST_BACKOFF * 1000, warn: false },
            )
        } else {
            (
                DaemonState { failures: one_more(state.failures), growing: true, ..state },
                DaemonModel::Wait {
                    millis: state.backoff * 1000,
                    warn: warns_at(one_more(state.failures)),
                },
            )
        },
        DaemonEvent::Waited => (waited(state), DaemonModel::Continue),
        DaemonEvent::ShutdownChanged(stop) => if stop {
            (state, DaemonModel::Stop)
        } else {
            (waited(state), DaemonModel::Continue)
        },
    }
}

/// What the control loop remembers after a wait.
pub open spec fn waited(state: DaemonState) -> DaemonState {
    if state.growing {
        DaemonState { backoff: doubled(state.backoff), growing: false, ..state }
    } else {
        state
    }
}

/// Whether the wait is within its bounds.
pub open spec fn bounded(state: DaemonState) -> bool {
    FIRST_BACKOFF <= state.backoff <= LONGEST_BACKOFF
}

/// Whatever happens, the wait between attempts stays between a second and a
/// minute.
pub proof fn backoff_stays_bounded(state: DaemonState, event: DaemonEvent)
    requires
        bounded(state),
    ensures
        bounded(daemon_next(state, event).0),
        daemon_next(state, event).1 matches DaemonModel::Wait { millis, .. } ==> 250 <= millis
            <= 60_000,
{
}

/// The loop stops without an error only when it is told to shut down.
pub proof fn only_shutdown_stops(state: DaemonState, event: DaemonEvent)
    requires
        daemon_next(state, event).1 is Stop,
    ensures
        match event {
            DaemonEvent::Begin { shutdown } => shutdown,
            DaemonEvent::Disconnected { shutdown, .. } => shutdown,
            DaemonEvent::ShutdownChanged(stop) => stop,
            _ => false,
        },
{
}

/// The client never connects while it holds the state lock, and never connects
/// with a certificate that expired: it connects only after renewal was not due,
/// or failed while the certificate is still valid.
pub proof fn connects_only_with_a_valid_certificate(state: DaemonState, event: DaemonEvent)
    requires
        daemon_next(state, event).1 is ReleaseAndConnect,
    ensures
        event is RenewalNotDue || (event matches DaemonEvent::RenewalFailed {
            expires_at,
            now,
            ..
        } && expires_at@ > now@),
{
}

impl DaemonState {
    /// What the loop begins with.
    pub fn new() -> (result: DaemonState)
        ensures
            result == (DaemonState { backoff: FIRST_BACKOFF, failures: 0, growing: false }),
            bounded(result),
    {
        DaemonState { backoff: FIRST_BACKOFF, failures: 0, growing: false }
    }

    fn grow(&mut self)
        requires
            bounded(*old(self)),
        ensures
            *final(self) == waited(*old(self)),
    {
        if self.growing {
            self.backoff = if self.backoff * 2 < LONGEST_BACKOFF {
                self.backoff * 2
            } else {
                LONGEST_BACKOFF
            };
            self.growing = false;
        }
    }

    /// Tells what the loop does next after an event.
    pub fn step(&mut self, event: DaemonEvent) -> (action: DaemonAction)
        requires
            bounded(*old(self)),
        ensures
            bounded(*final(self)),
            (*final(self), action@) == daemon_next(*old(self), event),
    {
        match event {
            DaemonEvent::Begin { shutdown } => {
                if shutdown {
                    DaemonAction::Stop
                } else {
                    DaemonAction::TryLock
                }
            },
            DaemonEvent::Locked => DaemonAction::LoadConfiguration,
            DaemonEvent::LockBusy => {
                self.growing = false;
                DaemonAction::Wait { millis: LOCK_RETRY_MILLIS, warn: false }
            },
            DaemonEvent::LockFailed(text) => DaemonAction::Fail(text),
            DaemonEvent::Loaded => DaemonAction::Finalize,
            DaemonEvent::LoadFailed(text) => DaemonAction::Fail(text),
            DaemonEvent::Finalized => DaemonAction::Renew,
            DaemonEvent::FinalizeFailed => {
                self.growing = true;
                DaemonAction::Wait { millis: self.backoff * 1000, warn: false }
            },
            DaemonEvent::Renewed => {
                self.backoff = FIRST_BACKOFF;
                DaemonAction::Continue
            },
            DaemonEvent::RenewalNotDue => DaemonAction::ReleaseAndConnect,
            DaemonEvent::RenewalFailed { expires_at, now, error } => {
                if now.before(&expires_at) {
                    DaemonAction::ReleaseAndConnect
                } else {
                    DaemonAction::Fail(
                        with_cause(
                            "client certificate is expired and renewal failed; run centrald-client reenroll",
                            &error,
                        ),
                    )
                }
            },
            DaemonEvent::Disconnected { clean, shutdown, healthy } => {
                if clean && shutdown {
                    return DaemonAction::Stop;
                }
                if healthy {
                    self.backoff = FIRST_BACKOFF;
                    self.failures = 0;
                    self.growing = false;
                    return DaemonAction::Wait { millis: FIRST_BACKOFF * 1000, warn: false };
                }
                if self.failures < u32::MAX {
                    self.failures = self.failures + 1;
                }
                self.growing = true;
                DaemonAction::Wait {
                    millis: self.backoff * 1000,
                    warn: self.failures == 5 || self.failures % 20 == 0,
                }
            },
            DaemonEvent::Waited => {
                self.grow();
                DaemonAction::Continue
            },
            DaemonEvent::ShutdownChanged(stop) => {
                if stop {
                    return DaemonAction::Stop;
                }
                self.grow();
                DaemonAction::Continue
            },
        }
    }
}

/// A credential file, as it is found at startup.
#[derive(Debug)]
pub struct CredentialFile {
    pub path: String,
    /// What stands at the path, and how many bytes it has; or why looking failed.
    pub found: Result<(EntryKind, u64), String>,
}

/// What is wrong with a credential file at startup, if anything.
pub open spec fn credential_file_fault(file: CredentialFile) -> Option<Seq<char>> {
    match file.found {
        Err(_) => Some("inspect client credential "@ + file.path@),
        Ok((kind, length)) => if !(kind is Regular) {
            Some("client credential is not a regular file: "@ + file.path@)
        } else if length == 0 {
            Some("client credential is empty: "@ + file.path@)
        } else {
            None
        },
    }
}

/// The first fault among the credential files from `i` on.
pub open spec fn credential_files_fault(files: Seq<CredentialFile>, i: int) -> Option<Seq<char>>
    decreases files.len() - i,
{
    if i < 0 || i >= files.len() {
        None
    } else {
        match credential_file_fault(files[i]) {
            Some(text) => Some(text),
            None => credential_files_fault(files, i + 1),
        }
    }
}

/// Why a client does not start, if it does not.
pub open spec fn startup_fault(config: ClientConfig, files: Seq<CredentialFile>) -> Option<
    Seq<char>,
> {
    match client_fault(config) {
        Some(text) => Some("invalid configuration: "@ + text),
        None => credential_files_fault(files, 0),
    }
}

/// Validates the active configuration and credential files before a service
/// manager is told that the daemon is running.
pub fn validate_startup_state(config: &ClientConfig, files: &Vec<CredentialFile>) -> (result: Result<
    (),
    String,
>)
    ensures
        told(
            result,
            startup_fault(*config, files@),
        ),
{
    match config.validate() {
        Ok(()) => {},
        Err(error) => return Err(error.message()),
    }
    let mut i: usize = 0;
    while i < files.len()
        invariant
            i <= files.len(),
            credential_files_fault(files@, 0) == credential_files_fault(files@, i as int),
            client_fault(*config) is None,
        decreases files.len() - i,
    {
        let file = &files[i];
        match &file.found {
            Err(_) => return tell(&concat("inspect client credential ", &file.path)),
            Ok((kind, length)) => {
                if *kind != EntryKind::Regular {
                    return tell(&concat("client credential is not a regular file: ", &file.path));
                }
                if *length == 0 {
                    return tell(&concat("client credential is empty: ", &file.path));
                }
            },
        }
        i += 1;
    }
    Ok(())
}

/// Whether a moment comes more than so many whole days after another. A leap
/// second counts as the second before it.
pub open spec fn later_by_days(moment: Timestamp, now: Timestamp, days: int) -> bool {
    let limit = now.seconds_spec() + days * DAY_SECONDS;
    moment.seconds_spec() > limit || (moment.seconds_spec() == limit && moment.nanos_spec()
        > now.nanos_spec() % 1_000_000_000)
}

fn is_later_by_days(moment: &Timestamp, now: &Timestamp, days: u64) -> (result: bool)
    requires
        days <= 10_000,
    ensures
        result == later_by_days(*moment, *now, days as int),
{
    moment.check();
    now.check();
    let limit: i64 = now.seconds() + (days * DAY_SECONDS) as i64;
    moment.seconds() > limit || (moment.seconds() == limit && moment.nanos() > now.nanos()
        % 1_000_000_000)
}

/// Whether a certificate is to be renewed.
pub fn renewal_is_due(expires: &Timestamp, now: &Timestamp) -> (result: bool)
    ensures
        result == !later_by_days(*expires, *now, CERTIFICATE_RENEWAL_WINDOW_DAYS as int),
{
    !is_later_by_days(expires, now, CERTIFICATE_RENEWAL_WINDOW_DAYS)
}

/// What a new generation of a client's credentials is made of: its configuration,
/// and where that and the credentials are kept.
#[derive(Debug)]
pub struct GenerationPlan {
    pub generation_id: u128,
    pub config: ClientConfig,
    pub config_path: String,
    pub identity_dir: String,
}

/// Whether a configuration names the files of a generation.
pub open spec fn names_generation(config: ClientConfig, directory: Seq<char>) -> bool {
    &&& config.identity_cert@ == joined(directory, "identity-chain.pem"@)
    &&& config.identity_key@ == joined(directory, "identity-key.pem"@)
    &&& config.root_ca@ == joined(directory, "root-ca.pem"@)
    &&& config.grant_signing_public_key@ == joined(directory, "grant-signing-public.pem"@)
}

/// Whether a plan is for a generation of an identity that expires at a moment.
pub open spec fn plans_generation(
    plan: GenerationPlan,
    data_dir: Seq<char>,
    identity_id: u128,
    generation_id: u128,
    expires_at: Timestamp,
) -> bool {
    let directory = generation_directory(data_dir, identity_id, generation_id);
    &&& plan.generation_id == generation_id
    &&& plan.config.identity_id == identity_id
    &&& plan.config.data_dir@ == data_dir
    &&& plan.config.certificate_expires_at == expires_at
    &&& plan.identity_dir@ == directory
    &&& names_generation(plan.config, directory)
    &&& plan.config_path@ == configuration_path(data_dir, identity_id, generation_id)
}

/// The configuration of a client, with its files in another generation.
pub fn in_generation(
    config: &ClientConfig,
    generation_id: u128,
    expires_at: Timestamp,
) -> (result: GenerationPlan)
    ensures
        plans_generation(
            result,
            config.data_dir@,
            config.identity_id,
            generation_id,
            expires_at,
        ),
        result.config.identity_name == config.identity_name,
        result.config.endpoint == config.endpoint,
        result.config.server_name == config.server_name,
{
    let identity_dir = generation_dir(&config.data_dir, config.identity_id, generation_id);
    let config_path = configuration_file(&config.data_dir, config.identity_id, generation_id);
    let replacement = ClientConfig {
        identity_id: config.identity_id,
        identity_name: config.identity_name.clone(),
        endpoint: config.endpoint.clone(),
        server_name: config.server_name.clone(),
        data_dir: config.data_dir.clone(),
        identity_cert: join_path(&identity_dir, "identity-chain.pem"),
        identity_key: join_path(&identity_dir, "identity-key.pem"),
        root_ca: join_path(&identity_dir, "root-ca.pem"),
        grant_signing_public_key: join_path(&identity_dir, "grant-signing-public.pem"),
        certificate_expires_at: expires_at,
    };
    GenerationPlan { generation_id, config: replacement, config_path, identity_dir }
}

/// What is wrong with a generation that is to be persisted, if anything: its
/// configuration must be valid, and stored where it belongs.
pub open spec fn generation_fault(plan: GenerationPlan) -> Option<Seq<char>> {
    let prefix = "invalid configuration: "@;
    if client_fault(plan.config) is Some {
        Some(prefix + client_fault(plan.config)->0)
    } else {
        match storage_fault(plan.config, plan.config_path@) {
            Some(text) => Some(prefix + text),
            None => None,
        }
    }
}

/// Checks a generation that is to be persisted.
pub fn validate_generation(plan: &GenerationPlan) -> (result: Result<(), String>)
    ensures
        told(result, generation_fault(*plan)),
{
    match plan.config.validate() {
        Ok(()) => {},
        Err(error) => return Err(error.message()),
    }
    match plan.config.validate_storage_path(&plan.config_path) {
        Ok(()) => Ok(()),
        Err(error) => Err(error.message()),
    }
}

/// What is wrong with the server's answer to a renewal, if anything.
pub open spec fn renewal_fault(
    chain: Seq<u8>,
    expires_at: Option<WireTimestamp>,
    now: Timestamp,
) -> Option<Seq<char>> {
    if chain.len() == 0 {
        Some("server returned an empty renewed certificate chain"@)
    } else {
        match moment_of(expires_at) {
            Err(_) => Some("server returned an invalid renewed certificate expiration"@),
            Ok((seconds, nanos)) => {
                let limit = now.seconds_spec() + DAY_SECONDS;
                if seconds > limit || (seconds == limit && nanos > now.nanos_spec()
                    % 1_000_000_000) {
                    None
                } else {
                    Some("server returned a renewed certificate with an unsafe expiration"@)
                }
            },
        }
    }
}

/// Plans the generation that holds a renewed certificate. It is the same client,
/// with new files and a later expiry.
pub fn plan_renewal(
    config: &ClientConfig,
    chain: &Vec<u8>,
    expires_at: Option<WireTimestamp>,
    now: &Timestamp,
    generation_id: u128,
) -> (result: Result<GenerationPlan, String>)
    ensures
        match renewal_fault(chain@, expires_at, *now) {
            Some(text) => told(result, Some(text)),
            None => exists|plan: GenerationPlan|
                {
                    &&& #[trigger] plans_generation(
                        plan,
                        config.data_dir@,
                        config.identity_id,
                        generation_id,
                        plan.config.certificate_expires_at,
                    )
                    &&& moment_of(expires_at) == Ok::<(int, int), Seq<char>>(
                        (
                            plan.config.certificate_expires_at.seconds_spec() as int,
                            plan.config.certificate_expires_at.nanos_spec() as int,
                        ),
                    )
                    &&& plan.config.identity_name == config.identity_name
                    &&& plan.config.endpoint == config.endpoint
                    &&& plan.config.server_name == config.server_name
                    &&& told(result, generation_fault(plan))
                    &&& result is Ok ==> result->Ok_0 == plan
                },
        },
{
    if chain.len() == 0 {
        return tell("server returned an empty renewed certificate chain");
    }
    let expires = match timestamp_to_datetime(expires_at) {
        Ok(moment) => moment,
        Err(_) => return tell("server returned an invalid renewed certificate expiration"),
    };
    if !is_later_by_days(&expires, now, 1) {
        return tell("server returned a renewed certificate with an unsafe expiration");
    }
    let plan = in_generation(config, generation_id, expires);
    assert(plans_generation(
        plan,
        config.data_dir@,
        config.identity_id,
        generation_id,
        plan.config.certificate_expires_at,
    ));
    match validate_generation(&plan) {
        Ok(()) => Ok(plan),
        Err(text) => Err(text),
    }
}

/// What finalizing a publication that was pending does next.
#[derive(Debug)]
pub enum FinalizeAction {
    /// Points at what was active before, if there is anything.
    RollBackIfPrevious,
    /// Looks for the configuration that was active before.
    FindPrevious,
    /// Has the server revoke the previous identity.
    Replace(u128),
    Commit,
    Succeed,
    Fail(String),
}

/// What happens while a publication that was pending is finalized.
#[derive(Debug)]
pub enum FinalizeEvent {
    Activated,
    ActivationFailed,
    /// The rollback was made, there was nothing to roll back to, or it failed.
    RolledBack(bool),
    RollBackFailed(String),
    /// The identity that was active before, if any, or why it cannot be told.
    Previous(Option<u128>),
    PreviousFailed(String),
    Replaced,
    ReplaceFailed,
    Committed,
    CommitFailed,
}

pub open spec fn finalize_fails(action: FinalizeAction, text: Seq<char>) -> bool {
    action matches FinalizeAction::Fail(message) && message@ == text
}

/// What follows an event while a loaded identity is made final.
pub open spec fn finalize_moves(
    identity_id: u128,
    event: FinalizeEvent,
    action: FinalizeAction,
) -> bool {
    match event {
        FinalizeEvent::Activated => action is FindPrevious,
        FinalizeEvent::ActivationFailed => action is RollBackIfPrevious,
        FinalizeEvent::RolledBack(restored) => finalize_fails(
            action,
            if restored {
                "activate the persisted client identity; restored the previous active credential"@
            } else {
                "activate the persisted client identity"@
            },
        ),
        FinalizeEvent::RollBackFailed(text) => finalize_fails(action, text@),
        FinalizeEvent::Previous(previous) => action == match previous {
            Some(other) => if other != identity_id {
                FinalizeAction::Replace(other)
            } else {
                FinalizeAction::Commit
            },
            None => FinalizeAction::Commit,
        },
        FinalizeEvent::PreviousFailed(text) => finalize_fails(action, text@),
        FinalizeEvent::Replaced => action is Commit,
        FinalizeEvent::ReplaceFailed => finalize_fails(
            action,
            "complete authenticated reenrollment replacement"@,
        ),
        FinalizeEvent::Committed => action is Succeed,
        FinalizeEvent::CommitFailed => finalize_fails(
            action,
            "finalize recovered client credential pointer"@,
        ),
    }
}

/// Tells what finalizing a publication of an identity does next. A credential
/// that the server does not activate is rolled back where that can be done; the
/// previous identity is only revoked after the new one was activated.
pub fn finalize_step(identity_id: u128, event: FinalizeEvent) -> (action: FinalizeAction)
    ensures
        finalize_moves(identity_id, event, action),
{
    match event {
        FinalizeEvent::Activated => FinalizeAction::FindPrevious,
        FinalizeEvent::ActivationFailed => FinalizeAction::RollBackIfPrevious,
        FinalizeEvent::RolledBack(restored) => FinalizeAction::Fail(
            if restored {
                "activate the persisted client identity; restored the previous active credential".to_owned()
            } else {
                "activate the persisted client identity".to_owned()
            },
        ),
        FinalizeEvent::RollBackFailed(text) => FinalizeAction::Fail(text),
        FinalizeEvent::Previous(previous) => match previous {
            Some(other) => {
                if other != identity_id {
                    FinalizeAction::Replace(other)
                } else {
                    FinalizeAction::Commit
                }
            },
            None => FinalizeAction::Commit,
        },
        FinalizeEvent::PreviousFailed(text) => FinalizeAction::Fail(text),
        FinalizeEvent::Replaced => FinalizeAction::Commit,
        FinalizeEvent::ReplaceFailed => FinalizeAction::Fail(
            "complete authenticated reenrollment replacement".to_owned(),
        ),
        FinalizeEvent::Committed => FinalizeAction::Succeed,
        FinalizeEvent::CommitFailed => FinalizeAction::Fail(
            "finalize recovered client credential pointer".to_owned(),
        ),
    }
}

/// Why the server's answer is no activation, if it is none.
pub open spec fn activation_fault(success: bool, message: Seq<char>) -> Option<Seq<char>> {
    if success {
        None
    } else {
        Some("server rejected client identity activation: "@ + message)
    }
}

/// Judges the server's answer to an activation.
pub fn activation_outcome(success: bool, message: &str) -> (result: Result<(), String>)
    ensures
        told(result, activation_fault(success, message@)),
{
    if success {
        Ok(())
    } else {
        tell(&concat("server rejected client identity activation: ", message))
    }
}

/// Why the server's answer is no replacement, if it is none.
pub open spec fn replacement_fault(success: bool, message: Seq<char>) -> Option<Seq<char>> {
    if success {
        None
    } else {
        Some("server rejected previous-identity replacement: "@ + message)
    }
}

/// Judges the server's answer to the replacement of the previous identity.
pub fn replacement_outcome(success: bool, message: &str) -> (result: Result<(), String>)
    ensures
        told(result, replacement_fault(success, message@)),
{
    if success {
        Ok(())
    } else {
        tell(&concat("server rejected previous-identity replacement: ", message))
    }
}

/// What the control loop does in turn, as events come to it one after the other.
pub open spec fn daemon_actions(state: DaemonState, events: Seq<DaemonEvent>) -> Seq<DaemonModel>
    decreases events.len(),
{
    if events.len() == 0 {
        Seq::empty()
    } else {
        let (next, action) = daemon_next(state, events[0]);
        seq![action] + daemon_actions(next, events.drop_first())
    }
}

/// What the control loop remembers after events.
pub open spec fn daemon_after(state: DaemonState, events: Seq<DaemonEvent>) -> DaemonState
    decreases events.len(),
{
    if events.len() == 0 {
        state
    } else {
        daemon_after(daemon_next(state, events[0]).0, events.drop_first())
    }
}

/// Whether a certificate can be used although it was not renewed: renewal was not
/// due, or failed before the certificate expired.
pub open spec fn keeps_its_certificate(event: DaemonEvent) -> bool {
    match event {
        DaemonEvent::RenewalNotDue => true,
        DaemonEvent::RenewalFailed { expires_at, now, .. } => now@ < expires_at@,
        _ => false,
    }
}

/// A round in which nothing fails connects: the lock is taken, the configuration
/// loaded, what was pending finalized, renewal looked after, and then, without the
/// lock, the client connects. What it remembers of earlier failures is untouched.
pub proof fn quiet_round_connects(state: DaemonState, last: DaemonEvent)
    requires
        keeps_its_certificate(last),
    ensures
        ({
            let events = seq![
                DaemonEvent::Begin { shutdown: false },
                DaemonEvent::Locked,
                DaemonEvent::Loaded,
                DaemonEvent::Finalized,
                last,
            ];
            &&& daemon_actions(state, events) == seq![
                DaemonModel::TryLock,
                DaemonModel::LoadConfiguration,
                DaemonModel::Finalize,
                DaemonModel::Renew,
                DaemonModel::ReleaseAndConnect,
            ]
            &&& daemon_after(state, events) == state
        }),
{
    let events = seq![
        DaemonEvent::Begin { shutdown: false },
        DaemonEvent::Locked,
        DaemonEvent::Loaded,
        DaemonEvent::Finalized,
        last,
    ];
    let one = events.drop_first();
    let two = one.drop_first();
    let three = two.drop_first();
    let four = three.drop_first();
    assert(four =~= seq![last]);
    assert(four.drop_first() =~= Seq::empty());
    reveal_with_fuel(daemon_actions, 7);
    reveal_with_fuel(daemon_after, 7);
    assert(daemon_actions(state, events) =~= seq![
        DaemonModel::TryLock,
        DaemonModel::LoadConfiguration,
        DaemonModel::Finalize,
        DaemonModel::Renew,
        DaemonModel::ReleaseAndConnect,
    ]);
}

/// A renewed certificate is loaded before it is used: the next round begins at once,
/// without a wait and without connecting, and with the shortest wait ahead.
pub proof fn renewed_certificate_is_loaded(state: DaemonState)
    ensures
        daemon_next(state, DaemonEvent::Renewed).1 == DaemonModel::Continue,
        daemon_next(state, DaemonEvent::Renewed).0.backoff == 1,
        daemon_next(state, DaemonEvent::Renewed).0.failures == state.failures,
{
}

/// A stream that was lost is tried again after a wait, and only a shutdown ends that.
/// After a healthy stream the wait is one second and nothing is held against it; after
/// others it doubles each time, up to a minute, and the failures are counted.
pub proof fn lost_stream_is_tried_again(state: DaemonState, clean: bool, shutdown: bool, healthy: bool)
    requires
        bounded(state),
        !(clean && shutdown),
    ensures
        ({
            let lost = DaemonEvent::Disconnected { clean, shutdown, healthy };
            let (waiting, action) = daemon_next(state, lost);
            let (ready, then) = daemon_next(waiting, DaemonEvent::Waited);
            &&& action matches DaemonModel::Wait { millis, .. } && millis == 1000 * if healthy {
                1
            } else {
                state.backoff as int
            }
            &&& then == DaemonModel::Continue
            &&& healthy ==> ready.backoff == 1 && ready.failures == 0
            &&& !healthy ==> ready.backoff == (if 2 * state.backoff <= 60 {
                2 * state.backoff
            } else {
                60
            }) && (state.failures < u32::MAX ==> ready.failures == state.failures + 1)
        }),
{
}

/// The operator is warned at the fifth failure in a row and at every twentieth, and
/// never otherwise.
pub proof fn warnings_come_with_failures(state: DaemonState, event: DaemonEvent)
    ensures
        daemon_next(state, event).1 matches DaemonModel::Wait { warn, .. } ==> warn == {
            &&& event matches DaemonEvent::Disconnected { healthy: false, .. }
            &&& daemon_next(state, event).0.failures == 5 || daemon_next(state, event).0.failures
                % 20 == 0
        },
{
}

/// A round that cannot lock, load, or finalize does not go on: a lock that is held
/// elsewhere is tried again a quarter of a second later without a longer wait ahead, a
/// failure is told in its own words, and an unfinished publication is tried again
/// after the wait, which doubles.
pub proof fn unfinished_rounds_do_not_connect(state: DaemonState, text: String)
    requires
        bounded(state),
    ensures
        daemon_next(state, DaemonEvent::LockFailed(text)).1 == DaemonModel::Fail(text@),
        daemon_next(state, DaemonEvent::LoadFailed(text)).1 == DaemonModel::Fail(text@),
        daemon_next(state, DaemonEvent::LockBusy).1 == (DaemonModel::Wait {
            millis: 250,
            warn: false,
        }),
        ({
            let busy = daemon_next(state, DaemonEvent::LockBusy).0;
            daemon_next(busy, DaemonEvent::Waited).0.backoff == state.backoff
        }),
        ({
            let (waiting, action) = daemon_next(state, DaemonEvent::FinalizeFailed);
            &&& action == (DaemonModel::Wait { millis: 1000 * state.backoff, warn: false })
            &&& daemon_next(waiting, DaemonEvent::Waited).0.backoff >= state.backoff
            &&& 2 * state.backoff <= 60 ==> daemon_next(waiting, DaemonEvent::Waited).0.backoff
                == 2 * state.backoff
            &&& daemon_next(waiting, DaemonEvent::Waited).1 == DaemonModel::Continue
        }),
{
}

/// A shutdown stops the loop wherever it is waited for, and a signal that is none ends
/// only the wait.
pub proof fn shutdown_stops(state: DaemonState, healthy: bool)
    ensures
        daemon_next(state, DaemonEvent::Begin { shutdown: true }).1 == DaemonModel::Stop,
        daemon_next(state, DaemonEvent::ShutdownChanged(true)).1 == DaemonModel::Stop,
        daemon_next(
            state,
            DaemonEvent::Disconnected { clean: true, shutdown: true, healthy },
        ).1 == DaemonModel::Stop,
        daemon_next(state, DaemonEvent::ShutdownChanged(false)) == daemon_next(
            state,
            DaemonEvent::Waited,
        ),
        daemon_next(state, DaemonEvent::Waited).1 == DaemonModel::Continue,
{
}

/// An expired certificate that cannot be renewed ends the loop, and its error is told.
pub proof fn expired_certificate_is_not_used(
    state: DaemonState,
    expires_at: Timestamp,
    now: Timestamp,
    error: String,
)
    requires
        expires_at@ <= now@,
    ensures
        daemon_next(state, DaemonEvent::RenewalFailed { expires_at, now, error }).1 matches
            DaemonModel::Fail(text) && error@.is_suffix_of(text),
{
    let text = caused(
        "client certificate is expired and renewal failed; run centrald-client reenroll"@,
        error@,
    );
    assert(text.subrange(text.len() - error@.len(), text.len() as int) =~= error@);
}

/// A certificate is due for renewal exactly in its last thirty days: from thirty days
/// before its expiry on, and not before.
pub proof fn renewal_is_due_in_the_last_thirty_days(expires: Timestamp, now: Timestamp)
    requires
        expires.nanos_spec() < 1_000_000_000,
        now.nanos_spec() < 1_000_000_000,
    ensures
        !later_by_days(expires, now, CERTIFICATE_RENEWAL_WINDOW_DAYS as int) <==> (
        expires.seconds_spec() - now.seconds_spec()) * 1_000_000_000 + expires.nanos_spec()
            - now.nanos_spec() <= 30 * 86_400 * 1_000_000_000,
{
}

/// A renewed certificate is taken only with its chain, and only if it stays valid for
/// more than a day.
pub proof fn renewed_certificate_outlives_a_day(
    chain: Seq<u8>,
    expires_at: Option<WireTimestamp>,
    now: Timestamp,
)
    ensures
        renewal_fault(chain, expires_at, now) is None ==> {
            &&& chain.len() > 0
            &&& moment_of(expires_at) is Ok
            &&& moment_of(expires_at)->Ok_0.0 >= now.seconds_spec() + 86_400
        },
        chain.len() > 0 && moment_of(expires_at) is Ok && moment_of(expires_at)->Ok_0.0
            > now.seconds_spec() + 86_400 ==> renewal_fault(chain, expires_at, now) is None,
{
}

/// Each of a generation's four credentials stands below the directory of that generation.
pub proof fn generation_keeps_its_own_files(
    plan: GenerationPlan,
    data_dir: Seq<char>,
    identity_id: u128,
    generation_id: u128,
    expires_at: Timestamp,
)
    requires
        plans_generation(plan, data_dir, identity_id, generation_id, expires_at),
    ensures
        is_below(plan.config.identity_cert@, plan.identity_dir@),
        is_below(plan.config.identity_key@, plan.identity_dir@),
        is_below(plan.config.root_ca@, plan.identity_dir@),
        is_below(plan.config.grant_signing_public_key@, plan.identity_dir@),
        plan.config.certificate_expires_at == expires_at,
        plan.config.identity_id == identity_id,
{
    reveal_strlit("identity-chain.pem");
    reveal_strlit("identity-key.pem");
    reveal_strlit("root-ca.pem");
    reveal_strlit("grant-signing-public.pem");
    joined_stands_below(plan.identity_dir@, "identity-chain.pem"@);
    joined_stands_below(plan.identity_dir@, "identity-key.pem"@);
    joined_stands_below(plan.identity_dir@, "root-ca.pem"@);
    joined_stands_below(plan.identity_dir@, "grant-signing-public.pem"@);
}

/// Whether `path` begins with `directory` and goes on after it.
pub open spec fn is_below(path: Seq<char>, directory: Seq<char>) -> bool {
    directory.is_prefix_of(path) && directory.len() < path.len()
}

proof fn joined_stands_below(directory: Seq<char>, name: Seq<char>)
    requires
        name.len() > 0,
        name[0] != '/',
    ensures
        is_below(joined(directory, name), directory),
{
}

/// The files of a generation have different names.
pub proof fn generation_files_are_four(
    plan: GenerationPlan,
    data_dir: Seq<char>,
    identity_id: u128,
    generation_id: u128,
    expires_at: Timestamp,
)
    requires
        plans_generation(plan, data_dir, identity_id, generation_id, expires_at),
    ensures
        plan.config.identity_cert@ != plan.config.identity_key@,
        plan.config.identity_cert@ != plan.config.root_ca@,
        plan.config.identity_cert@ != plan.config.grant_signing_public_key@,
        plan.config.identity_key@ != plan.config.root_ca@,
        plan.config.identity_key@ != plan.config.grant_signing_public_key@,
        plan.config.root_ca@ != plan.config.grant_signing_public_key@,
{
    reveal_strlit("identity-chain.pem");
    reveal_strlit("identity-key.pem");
    reveal_strlit("root-ca.pem");
    reveal_strlit("grant-signing-public.pem");
    let directory = plan.identity_dir@;
    joined_length(directory, "identity-chain.pem"@);
    joined_length(directory, "identity-key.pem"@);
    joined_length(directory, "root-ca.pem"@);
    joined_length(directory, "grant-signing-public.pem"@);
}

proof fn joined_length(directory: Seq<char>, name: Seq<char>)
    requires
        name.len() > 0,
        name[0] != '/',
    ensures
        joined(directory, name).len() == joined(directory, seq!['x']).len() - 1 + name.len(),
{
}

/// An identity is made final by its activation, the replacement of another identity that it
/// follows, if there is one, and the commit of its pointer; and only a commit ends in success.
pub proof fn identities_are_finalized_in_order(
    identity_id: u128,
    event: FinalizeEvent,
    action: FinalizeAction,
)
    requires
        finalize_moves(identity_id, event, action),
    ensures
        action is FindPrevious <==> event is Activated,
        action is Succeed <==> event is Committed,
        action is RollBackIfPrevious <==> event is ActivationFailed,
        action matches FinalizeAction::Replace(other) ==> event is Previous && event->Previous_0
            == Some(other) && other != identity_id,
        event is Previous && event->Previous_0 is Some && event->Previous_0->0 != identity_id
            ==> action is Replace,
        event is Previous && (event->Previous_0 is None || event->Previous_0->0 == identity_id)
            ==> action is Commit,
        event is Replaced ==> action is Commit,
        action is Commit ==> event is Previous || event is Replaced,
        event is RolledBack || event is RollBackFailed || event is PreviousFailed || event
            is ReplaceFailed || event is CommitFailed <==> action is Fail,
        event matches FinalizeEvent::RollBackFailed(text) ==> (action matches FinalizeAction::Fail(
            told,
        ) && told@ == text@),
        event matches FinalizeEvent::PreviousFailed(text) ==> (action matches FinalizeAction::Fail(
            told,
        ) && told@ == text@),
{
}

/// The server's refusal is told with its own words at the end, and its consent is no fault.
pub proof fn refusals_are_told(success: bool, message: Seq<char>)
    ensures
        activation_fault(success, message) is None <==> success,
        replacement_fault(success, message) is None <==> success,
        !success ==> message.is_suffix_of(activation_fault(success, message)->0),
        !success ==> message.is_suffix_of(replacement_fault(success, message)->0),
{
    if !success {
        let activation = activation_fault(success, message)->0;
        let replacement = replacement_fault(success, message)->0;
        assert(activation.subrange(activation.len() - message.len(), activation.len() as int)
            =~= message);
        assert(replacement.subrange(replacement.len() - message.len(), replacement.len() as int)
            =~= message);
    }
}

/// A client starts exactly if its credentials are regular files that hold something.
pub proof fn clients_start_with_their_credentials(files: Seq<CredentialFile>, from: int)
    requires
        0 <= from <= files.len(),
    ensures
        credential_files_fault(files, from) is None <==> forall|i: int|
            from <= i < files.len() ==> {
                &&& (#[trigger] files[i]).found is Ok
                &&& files[i].found->Ok_0.0 is Regular
                &&& files[i].found->Ok_0.1 > 0
            },
    decreases files.len() - from,
{
    if from < files.len() {
        clients_start_with_their_credentials(files, from + 1);
        assert(credential_file_fault(files[from]) is None <==> files[from].found is Ok
            && files[from].found->Ok_0.0 is Regular && files[from].found->Ok_0.1 > 0);
    }
}

/// A generation is accepted exactly if its configuration is and stands where it belongs.
pub proof fn sound_generations_are_valid(plan: GenerationPlan)
    ensures
        generation_fault(plan) is None <==> client_fault(plan.config) is None && storage_fault(
            plan.config,
            plan.config_path@,
        ) is None,
{
}

/// A client starts exactly with a valid configuration and all its credentials in place.
pub proof fn sound_clients_start(config: ClientConfig, files: Seq<CredentialFile>)
    ensures
        startup_fault(config, files) is None <==> client_fault(config) is None && forall|i: int|
            0 <= i < files.len() ==> {
                &&& (#[trigger] files[i]).found is Ok
                &&& files[i].found->Ok_0.0 is Regular
                &&& files[i].found->Ok_0.1 > 0
            },
{
    clients_start_with_their_credentials(files, 0);
}

} // verus!
