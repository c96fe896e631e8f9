//! Admin profiles: what they hold, how they are listed, and what is asked of the
//! server on their behalf.

use vstd::prelude::*;
use vstd::utf8::encode_utf8;

use crate::client::enrollment::{moment_of, timestamp_to_datetime, WireTimestamp};
use crate::client::relay::JobKind;
use crate::codec::{
    debug_form, debug_text, is_json_object, json_compact, json_compact_form, json_object,
};
use crate::common::host::{canonical, https_endpoint, origin};
use crate::common::secure_fs::EntryKind;
use crate::ident::{read_id, uuid_reading};
use crate::instant::{rfc3339_with_offset, Timestamp};
use crate::paths::{absolute, components, is_absolute, join_path, joined, path_components};
use crate::text::{
    before, before_is_total, before_is_transitive, byte_length, comes_before, concat, control,
    ends_with, has_control, lower_ascii, lower_case, same_text, starts_with, tell, told, trim,
    trimmed, views,
};

verus! {

/// An Admin's identity on a server, and where its credentials are.
#[derive(Debug)]
pub struct AdminProfile {
    pub id: u128,
    pub identity_id: u128,
    pub name: String,
    pub endpoint: String,
    pub server_name: String,
    pub root_ca: String,
    pub identity_certificate: String,
    pub identity_private_key: String,
    pub certificate_expires_at: Timestamp,
    /// Ed25519 elevation key used to sign shell-elevation challenges. Older
    /// profiles have no key and cannot request elevated shells until they are
    /// re-enrolled.
    pub elevation_private_key: Option<String>,
}

/// The view of an Admin profile that leaves the process. Private-key and
/// certificate paths stay process-local.
#[derive(Debug)]
pub struct AdminProfileView {
    pub id: u128,
    pub identity_id: u128,
    pub name: String,
    pub endpoint: String,
    pub server_name: String,
    pub certificate_expires_at: Timestamp,
}

impl Clone for AdminProfileView {
    fn clone(&self) -> (result: AdminProfileView)
        ensures
            result == *self,
    {
        AdminProfileView {
            id: self.id,
            identity_id: self.identity_id,
            name: self.name.clone(),
            endpoint: self.endpoint.clone(),
            server_name: self.server_name.clone(),
            certificate_expires_at: self.certificate_expires_at,
        }
    }
}

impl AdminProfile {
    /// The stored elevation private key path, if this profile has one.
    pub fn elevation_private_key(&self) -> (result: Option<&String>)
        ensures
            match result {
                Some(path) => self.elevation_private_key == Some(*path),
                None => self.elevation_private_key is None,
            },
    {
        match &self.elevation_private_key {
            Some(path) => Some(path),
            None => None,
        }
    }

    /// What leaves the process of a profile.
    pub fn summary(&self) -> (result: AdminProfileView)
        ensures
            result == (AdminProfileView {
                id: self.id,
                identity_id: self.identity_id,
                name: self.name,
                endpoint: self.endpoint,
                server_name: self.server_name,
                certificate_expires_at: self.certificate_expires_at,
            }),
    {
        AdminProfileView {
            id: self.id,
            identity_id: self.identity_id,
            name: self.name.clone(),
            endpoint: self.endpoint.clone(),
            server_name: self.server_name.clone(),
            certificate_expires_at: self.certificate_expires_at,
        }
    }
}

/// What an Admin types to enroll.
pub struct EnrollAdminInput {
    pub access_key: String,
    pub connection_override: Option<String>,
}

impl EnrollAdminInput {
    /// A text for logs that holds no access key.
    pub fn debug_text(&self) -> (result: String)
        ensures
            result@ == "EnrollAdminInput { access_key: \"[REDACTED]\", connection_override: "@
                + match self.connection_override {
                Some(text) => "Some("@ + debug_form(text@) + ")"@,
                None => "None"@,
            } + " }"@,
    {
        let shown = match &self.connection_override {
            Some(text) => {
                let mut shown = concat("Some(", &debug_text(text));
                shown.append(")");
                shown
            },
            None => "None".to_owned(),
        };
        let mut text = concat(
            "EnrollAdminInput { access_key: \"[REDACTED]\", connection_override: ",
            &shown,
        );
        text.append(" }");
        text
    }
}

#[derive(Debug)]
pub struct TargetView {
    pub id: String,
    pub name: String,
    pub os: String,
    pub architecture: String,
    pub version: String,
    pub last_seen: String,
    pub online: bool,
    pub server: bool,
}

/// A new invitation. Its access key is shown once, and never in a log.
pub struct InvitationView {
    pub id: String,
    pub access_key: String,
    pub expires_at: String,
}

impl InvitationView {
    /// A text for logs that holds no access key.
    pub fn debug_text(&self) -> (result: String)
        ensures
            result@ == "InvitationView { id: "@ + debug_form(self.id@)
                + ", access_key: \"[REDACTED]\", expires_at: "@ + debug_form(self.expires_at@)
                + " }"@,
    {
        let mut text = concat("InvitationView { id: ", &debug_text(&self.id));
        text.append(", access_key: \"[REDACTED]\", expires_at: ");
        text.append(&debug_text(&self.expires_at));
        text.append(" }");
        text
    }
}

#[derive(Debug)]
pub struct EnrollmentKeyView {
    pub id: String,
    pub name: String,
    pub role: String,
    pub created_at: String,
    pub expires_at: String,
    pub consumed_at: String,
    pub revoked_at: String,
    pub revoked_reason: String,
    pub status: String,
}

#[derive(Debug)]
pub struct JobView {
    pub id: String,
    pub target_id: String,
    pub kind: String,
    pub state: i32,
    pub expires_at: String,
}

#[derive(Debug)]
pub struct ServerSettingsView {
    pub revision: String,
    pub instance_id: String,
    pub public_host: String,
    pub enrollment_listen: String,
    pub client_listen: String,
    pub admin_listen: String,
    pub database_max_connections: u32,
    pub heartbeat_interval_seconds: u32,
    pub offline_after_seconds: u32,
    pub job_ttl_seconds: u32,
    pub shell_idle_timeout_seconds: u32,
    pub max_shell_frame_bytes: u32,
    pub updates_enabled: bool,
    pub update_channel: String,
    pub update_manifest_url: String,
    pub update_check_interval_seconds: u32,
    pub update_allow_prerelease: bool,
    pub data_dir: String,
    pub local_socket: String,
    pub database_url_env: String,
    pub database_environment_file: String,
    pub root_cert_path: String,
    pub local_only_fields: Vec<String>,
    pub restart_required: bool,
    pub update_latest_version: String,
    pub update_available: bool,
    pub update_last_check_error: String,
}

#[derive(Debug)]
pub struct ProfileWarning {
    pub directory: String,
    pub message: String,
}

impl Clone for ProfileWarning {
    fn clone(&self) -> (result: ProfileWarning)
        ensures
            result == *self,
    {
        ProfileWarning { directory: self.directory.clone(), message: self.message.clone() }
    }
}

#[derive(Debug)]
pub struct ProfileListView {
    pub profiles: Vec<AdminProfileView>,
    pub warnings: Vec<ProfileWarning>,
}

/// The text of a moment as it travels: empty where it denotes none.
pub open spec fn moment_text(value: Option<WireTimestamp>) -> Seq<char> {
    match moment_of(value) {
        Ok((seconds, nanos)) => rfc3339_with_offset(seconds as i64, nanos as u32),
        Err(_) => Seq::empty(),
    }
}

/// Writes a moment as it travels.
pub fn timestamp_text(value: Option<WireTimestamp>) -> (result: String)
    ensures
        result@ == moment_text(value),
{
    match timestamp_to_datetime(value) {
        Ok(moment) => moment.text_with_offset(),
        Err(_) => {
            let empty = String::new();
            assert(empty@ =~= Seq::empty());
            empty
        },
    }
}

/// A machine as the server tells of it.
#[derive(Debug)]
pub struct TargetSummary {
    pub id: String,
    pub name: String,
    pub os: String,
    pub architecture: String,
    pub version: String,
    pub last_seen: Option<WireTimestamp>,
    pub online: bool,
    pub server: bool,
}

/// Shows a machine.
pub fn target_view(target: TargetSummary) -> (result: TargetView)
    ensures
        result.id == target.id,
        result.name == target.name,
        result.os == target.os,
        result.architecture == target.architecture,
        result.version == target.version,
        result.last_seen@ == moment_text(target.last_seen),
        result.online == target.online,
        result.server == target.server,
{
    TargetView {
        id: target.id,
        name: target.name,
        os: target.os,
        architecture: target.architecture,
        version: target.version,
        last_seen: timestamp_text(target.last_seen),
        online: target.online,
        server: target.server,
    }
}

/// The role that an invitation is for.
#[derive(Debug, Clone, Copy, PartialEq, Eq, Structural)]
pub enum IdentityRole {
    Unspecified,
    Client,
    Admin,
}

/// An invitation as the server tells of it; its role is none where its number
/// has no meaning.
#[derive(Debug)]
pub struct EnrollmentKeySummary {
    pub id: String,
    pub name: String,
    pub role: Option<IdentityRole>,
    pub created_at: Option<WireTimestamp>,
    pub expires_at: Option<WireTimestamp>,
    pub consumed_at: Option<WireTimestamp>,
    pub revoked_at: Option<WireTimestamp>,
    pub revoked_reason: String,
}

pub open spec fn role_name(role: Option<IdentityRole>) -> Seq<char> {
    match role {
        None => "unknown"@,
        Some(IdentityRole::Client) => "client"@,
        Some(IdentityRole::Admin) => "admin"@,
        Some(IdentityRole::Unspecified) => "unspecified"@,
    }
}

/// Whether a moment as it travels is not after another.
pub open spec fn is_past(value: Option<WireTimestamp>, now: Timestamp) -> bool {
    match moment_of(value) {
        Ok((seconds, nanos)) => seconds < now.seconds_spec() || (seconds == now.seconds_spec()
            && nanos <= now.nanos_spec()),
        Err(_) => false,
    }
}

/// What has become of an invitation: being revoked counts before being consumed,
/// and both before having expired.
pub open spec fn key_status(key: EnrollmentKeySummary, now: Timestamp) -> Seq<char> {
    if key.revoked_at is Some {
        "revoked"@
    } else if key.consumed_at is Some {
        "consumed"@
    } else if is_past(key.expires_at, now) {
        "expired"@
    } else {
        "pending"@
    }
}

fn past(value: Option<WireTimestamp>, now: &Timestamp) -> (result: bool)
    ensures
        result == is_past(value, *now),
{
    match timestamp_to_datetime(value) {
        Ok(moment) => {
            moment.seconds() < now.seconds() || (moment.seconds() == now.seconds()
                && moment.nanos() <= now.nanos())
        },
        Err(_) => false,
    }
}

/// Shows an invitation.
pub fn enrollment_key_view(key: EnrollmentKeySummary, now: &Timestamp) -> (result:
    EnrollmentKeyView)
    ensures
        result.id == key.id,
        result.name == key.name,
        result.role@ == role_name(key.role),
        result.created_at@ == moment_text(key.created_at),
        result.expires_at@ == moment_text(key.expires_at),
        result.consumed_at@ == moment_text(key.consumed_at),
        result.revoked_at@ == moment_text(key.revoked_at),
        result.revoked_reason == key.revoked_reason,
        result.status@ == key_status(key, *now),
{
    let status = if key.revoked_at.is_some() {
        "revoked"
    } else if key.consumed_at.is_some() {
        "consumed"
    } else if past(key.expires_at, now) {
        "expired"
    } else {
        "pending"
    };
    let role = match key.role {
        None => "unknown",
        Some(IdentityRole::Client) => "client",
        Some(IdentityRole::Admin) => "admin",
        Some(IdentityRole::Unspecified) => "unspecified",
    };
    EnrollmentKeyView {
        id: key.id,
        name: key.name,
        role: role.to_owned(),
        created_at: timestamp_text(key.created_at),
        expires_at: timestamp_text(key.expires_at),
        consumed_at: timestamp_text(key.consumed_at),
        revoked_at: timestamp_text(key.revoked_at),
        revoked_reason: key.revoked_reason,
        status: status.to_owned(),
    }
}

/// The endpoint of a service, or what is wrong with the host.
pub open spec fn endpoint_of(host: Seq<char>, port: u16) -> Option<Seq<char>> {
    if port == 0 || canonical(host) is None {
        None
    } else {
        Some(origin(canonical(host)->0, port))
    }
}

/// Builds the endpoint of a service.
pub fn service_endpoint(input: &str, port: u16) -> (result: Result<String, String>)
    ensures
        match endpoint_of(input@, port) {
            Some(endpoint) => result is Ok && result->Ok_0@ == endpoint,
            None => told(
                result,
                Some(
                    "host must be a DNS name or IP address without a scheme, port, path, or whitespace"@,
                ),
            ),
        },
{
    match https_endpoint(input, port) {
        Ok(endpoint) => Ok(endpoint),
        Err(error) => tell(error.message()),
    }
}

/// What a job is called, and what it is.
pub open spec fn job_kind_of(value: Seq<char>) -> Option<JobKind> {
    if value == "restart-client-service"@ {
        Some(JobKind::RestartClientService)
    } else if value == "restart-machine"@ {
        Some(JobKind::RestartMachine)
    } else if value == "check-os-updates"@ {
        Some(JobKind::CheckOsUpdates)
    } else if value == "apply-os-updates"@ {
        Some(JobKind::ApplyOsUpdates)
    } else if value == "update-client"@ {
        Some(JobKind::UpdateClient)
    } else {
        None
    }
}

/// Reads the kind of a job.
pub fn parse_job_kind(value: &str) -> (result: Result<JobKind, String>)
    ensures
        match job_kind_of(value@) {
            Some(kind) => result == Ok::<JobKind, String>(kind),
            None => told(result, Some("unsupported job kind"@)),
        },
{
    if same_text(value, "restart-client-service") {
        Ok(JobKind::RestartClientService)
    } else if same_text(value, "restart-machine") {
        Ok(JobKind::RestartMachine)
    } else if same_text(value, "check-os-updates") {
        Ok(JobKind::CheckOsUpdates)
    } else if same_text(value, "apply-os-updates") {
        Ok(JobKind::ApplyOsUpdates)
    } else if same_text(value, "update-client") {
        Ok(JobKind::UpdateClient)
    } else {
        tell("unsupported job kind")
    }
}

/// What is wrong with a job that is to be started, if anything. `object` says
/// whether its parameters are a JSON object.
pub open spec fn job_request_fault(enabled: bool, kind: Seq<char>, object: bool) -> Option<
    Seq<char>,
> {
    if !enabled {
        Some("privileged client jobs are unavailable in this alpha release"@)
    } else if job_kind_of(kind) is None {
        Some("unsupported job kind"@)
    } else if !object {
        Some("job parameters must be a JSON object"@)
    } else {
        None
    }
}

/// Checks a job that is to be started; `enabled` says whether privileged jobs are
/// served.
pub fn check_job_request(enabled: bool, kind: &str, object: bool) -> (result: Result<
    JobKind,
    String,
>)
    ensures
        told(result, job_request_fault(enabled, kind@, object)),
        result is Ok ==> job_kind_of(kind@) == Some(result->Ok_0),
{
    if !enabled {
        return tell("privileged client jobs are unavailable in this alpha release");
    }
    let kind = match parse_job_kind(kind) {
        Ok(kind) => kind,
        Err(error) => return Err(error),
    };
    if !object {
        return tell("job parameters must be a JSON object");
    }
    Ok(kind)
}

/// Checks a job that is to be started, and compacts its parameters.
pub fn plan_job(enabled: bool, kind: &str, parameters_json: &str) -> (result: Result<
    (JobKind, Vec<u8>),
    String,
>)
    ensures
        ({
            let bytes = encode_utf8(trim(parameters_json@));
            let object = json_object(bytes) && json_compact_form(bytes) is Some;
            &&& told(result, job_request_fault(enabled, kind@, object))
            &&& result is Ok ==> job_kind_of(kind@) == Some(result->Ok_0.0) && json_compact_form(
                bytes,
            ) == Some(result->Ok_0.1@)
        }),
{
    let bytes = trimmed(parameters_json).as_str().as_bytes_vec();
    let compact = json_compact(&bytes);
    let object = is_json_object(&bytes) && compact.is_some();
    let kind = match check_job_request(enabled, kind, object) {
        Ok(kind) => kind,
        Err(error) => return Err(error),
    };
    match compact {
        Some(compact) => Ok((kind, compact)),
        None => tell("job parameters must be a JSON object"),
    }
}

/// Why a client is not invited, if it is not.
pub open spec fn client_invitation_fault(name: Seq<char>, expires_in_seconds: int) -> Option<
    Seq<char>,
> {
    if trim(name).len() == 0 || encode_utf8(name).len() > 128 {
        Some("client name must be 1-128 characters"@)
    } else if !(60 <= expires_in_seconds <= 86_400) {
        Some("expiry must be between 60 seconds and 24 hours"@)
    } else {
        None
    }
}

/// Checks a new invitation.
pub fn check_client_invitation(name: &str, expires_in_seconds: u32) -> (result: Result<(), String>)
    ensures
        told(result, client_invitation_fault(name@, expires_in_seconds as int)),
{
    if trimmed(name).as_str().is_empty() || byte_length(name) > 128 {
        return tell("client name must be 1-128 characters");
    }
    if expires_in_seconds < 60 || expires_in_seconds > 86_400 {
        return tell("expiry must be between 60 seconds and 24 hours");
    }
    Ok(())
}

/// A reason that can be given: not blank, of at most 512 bytes, printable.
pub open spec fn printable_reason(reason: Seq<char>) -> bool {
    &&& trim(reason).len() > 0
    &&& encode_utf8(reason).len() <= 512
    &&& forall|i: int| 0 <= i < reason.len() ==> !control(#[trigger] reason[i])
}

/// Why an invitation is not revoked, if it is not.
pub open spec fn revocation_fault(invitation_id: Seq<char>, reason: Seq<char>) -> Option<
    Seq<char>,
> {
    if uuid_reading(invitation_id) is Err {
        Some(uuid_reading(invitation_id)->Err_0)
    } else if !printable_reason(reason) {
        Some("revocation reason must be 1-512 printable characters"@)
    } else {
        None
    }
}

/// Checks the revocation of an invitation.
pub fn check_invitation_revocation(invitation_id: &str, reason: &str) -> (result: Result<
    (),
    String,
>)
    ensures
        told(result, revocation_fault(invitation_id@, reason@)),
{
    match read_id(invitation_id) {
        Ok(_) => {},
        Err(message) => return Err(message),
    }
    if trimmed(reason).as_str().is_empty() || byte_length(reason) > 512 || has_control(reason) {
        return tell("revocation reason must be 1-512 printable characters");
    }
    Ok(())
}

/// What the server's answer to a request comes to.
pub open spec fn server_answer(success: bool, message: String) -> Result<String, String> {
    if success {
        Ok(message)
    } else {
        Err(message)
    }
}

/// Judges the server's answer to a revocation: its message is shown either way.
pub fn revocation_outcome(success: bool, message: String) -> (result: Result<String, String>)
    ensures
        result == server_answer(success, message),
{
    if success {
        Ok(message)
    } else {
        Err(message)
    }
}

/// The path of the profile that a pointer names, or what is wrong with the name.
pub open spec fn profile_target(profile_dir: Seq<char>, filename: Seq<char>) -> Result<
    Seq<char>,
    Seq<char>,
> {
    if absolute(filename) || components(filename).len() != 1 || !"profile-"@.is_prefix_of(filename)
        || !".json"@.is_suffix_of(filename.map_values(|c: char| lower_ascii(c))) {
        Err("active Admin profile pointer is invalid"@)
    } else {
        Ok(joined(profile_dir, filename))
    }
}

/// Why what a pointer leads to is not a profile, if it is not.
pub open spec fn profile_file_fault(path: Seq<char>, kind: EntryKind) -> Option<Seq<char>> {
    match kind {
        EntryKind::Missing => Some("inspect active Admin profile "@ + path),
        EntryKind::Regular => None,
        _ => Some("active Admin profile is not a regular file: "@ + path),
    }
}

/// Checks the profile that a pointer names, by what stands at its path.
pub fn validate_profile_target(profile_dir: &str, filename: &str, kind: EntryKind) -> (result: Result<
    String,
    String,
>)
    ensures
        match profile_target(profile_dir@, filename@) {
            Err(text) => told(result, Some(text)),
            Ok(path) => {
                &&& told(
                    result,
                    profile_file_fault(path, kind),
                )
                &&& result is Ok ==> result->Ok_0@ == path
            },
        },
{
    let parts = path_components(filename);
    assert(views(parts@).len() == parts.len());
    if is_absolute(filename) || parts.len() != 1 || !starts_with(filename, "profile-")
        || !ends_with(&lower_case(filename), ".json") {
        return tell("active Admin profile pointer is invalid");
    }
    let path = join_path(profile_dir, filename);
    match kind {
        EntryKind::Regular => Ok(path),
        EntryKind::Missing => tell(&concat("inspect active Admin profile ", &path)),
        _ => tell(&concat("active Admin profile is not a regular file: ", &path)),
    }
}

/// Whether `order` lists the places of some names so that the names come in
/// order, and equal names as they came.
pub open spec fn sorts(order: Seq<usize>, names: Seq<Seq<char>>) -> bool {
    &&& forall|i: int| 0 <= i < order.len() ==> 0 <= #[trigger] order[i] < names.len()
    &&& forall|k: usize| k < names.len() ==> #[trigger] order.contains(k)
    &&& order.len() == names.len()
    &&& forall|i: int, j: int|
        0 <= i < j < order.len() ==> comes_first(names, #[trigger] order[i], #[trigger] order[j])
}

/// Whether one of two places in a list of names comes first.
pub open spec fn comes_first(names: Seq<Seq<char>>, left: usize, right: usize) -> bool {
    before(names[left as int], names[right as int]) || (names[left as int] == names[right as int]
        && left < right)
}

/// The first `n` names, sorted so far.
pub open spec fn sorts_first(order: Seq<usize>, names: Seq<Seq<char>>, n: nat) -> bool {
    &&& order.len() == n
    &&& forall|i: int| 0 <= i < order.len() ==> 0 <= #[trigger] order[i] < n
    &&& forall|k: usize| k < n ==> #[trigger] order.contains(k)
    &&& forall|i: int, j: int|
        0 <= i < j < order.len() ==> comes_first(names, #[trigger] order[i], #[trigger] order[j])
}

/// Lists the places of names in the order of the names.
pub fn order_by_name(names: &Vec<String>) -> (order: Vec<usize>)
    ensures
        sorts(order@, views(names@)),
{
    let ghost texts = views(names@);
    let mut order: Vec<usize> = Vec::new();
    let mut n: usize = 0;
    while n < names.len()
        invariant
            n <= names.len(),
            texts == views(names@),
            sorts_first(order@, texts, n as nat),
        decreases names.len() - n,
    {
        let ghost sorted = order@;
        let mut i: usize = 0;
        while i < order.len() && !comes_before(&names[n], &names[order[i]])
            invariant
                i <= order.len(),
                n < names.len(),
                texts == views(names@),
                order@ == sorted,
                sorts_first(sorted, texts, n as nat),
                forall|k: int|
                    0 <= k < i ==> !before(texts[n as int], texts[(#[trigger] sorted[k]) as int]),
            decreases order.len() - i,
        {
            assert(texts[sorted[i as int] as int] == names@[sorted[i as int] as int]@);
            i += 1;
        }
        assert(i < order.len() ==> texts[sorted[i as int] as int]
            == names@[sorted[i as int] as int]@);
        order.insert(i, n);
        proof {
            inserted_in_order(sorted, texts, n as nat, i as int);
        }
        n += 1;
    }
    order
}

proof fn inserted_in_order(sorted: Seq<usize>, texts: Seq<Seq<char>>, n: nat, at: int)
    requires
        n < texts.len() <= usize::MAX,
        sorts_first(sorted, texts, n),
        0 <= at <= sorted.len(),
        forall|k: int|
            0 <= k < at ==> !before(texts[n as int], texts[(#[trigger] sorted[k]) as int]),
        at < sorted.len() ==> before(texts[n as int], texts[sorted[at] as int]),
    ensures
        sorts_first(sorted.insert(at, n as usize), texts, n + 1),
{
    let after = sorted.insert(at, n as usize);
    assert forall|k: usize| k < n + 1 implies #[trigger] after.contains(k) by {
        if k == n {
            assert(after[at] == k);
        } else {
            assert(sorted.contains(k));
            let i = choose|i: int| 0 <= i < sorted.len() && sorted[i] == k;
            if i < at {
                assert(after[i] == k);
            } else {
                assert(after[i + 1] == k);
            }
        }
    }
    assert forall|i: int, j: int| 0 <= i < j < after.len() implies comes_first(
        texts,
        #[trigger] after[i],
        #[trigger] after[j],
    ) by {
        let new = texts[n as int];
        if j == at {
            assert(after[i] == sorted[i]);
            before_is_total(texts[sorted[i] as int], new);
        } else if i == at {
            assert(after[j] == sorted[j - 1]);
            let next = texts[sorted[at] as int];
            if j - 1 > at {
                assert(comes_first(texts, sorted[at], sorted[j - 1]));
                if before(next, texts[sorted[j - 1] as int]) {
                    before_is_transitive(new, next, texts[sorted[j - 1] as int]);
                }
            }
        } else {
            let x = if i < at {
                i
            } else {
                i - 1
            };
            let y = if j < at {
                j
            } else {
                j - 1
            };
            assert(after[i] == sorted[x] && after[j] == sorted[y]);
            assert(comes_first(texts, sorted[x], sorted[y]));
        }
    }
    assert forall|i: int| 0 <= i < after.len() implies 0 <= #[trigger] after[i] < n + 1 by {
        if i < at {
            assert(after[i] == sorted[i]);
        } else if i > at {
            assert(after[i] == sorted[i - 1]);
        }
    }
}

/// An entry of the directory of profiles.
#[derive(Debug)]
pub enum ProfileEntry {
    /// The entry could not be read.
    Unreadable(String),
    /// It could not be told what the entry is.
    NotInspected { name: String, error: String },
    /// The entry is no directory.
    NotDirectory,
    /// The entry is a directory, with this profile in it or without one.
    Directory { name: String, profile: Result<AdminProfile, String> },
}

/// What an entry adds to the profiles.
pub open spec fn listed_profile(entry: ProfileEntry) -> Option<AdminProfileView> {
    match entry {
        ProfileEntry::Directory { profile: Ok(profile), .. } => Some(
            AdminProfileView {
                id: profile.id,
                identity_id: profile.identity_id,
                name: profile.name,
                endpoint: profile.endpoint,
                server_name: profile.server_name,
                certificate_expires_at: profile.certificate_expires_at,
            },
        ),
        _ => None,
    }
}

/// What an entry adds to the warnings: a directory and a message.
pub open spec fn listed_warning(entry: ProfileEntry) -> Option<(Seq<char>, Seq<char>)> {
    match entry {
        ProfileEntry::Unreadable(error) => Some(("<unreadable-entry>"@, error@)),
        ProfileEntry::NotInspected { name, error } => Some(
            (name@, "could not inspect profile directory: "@ + error@),
        ),
        ProfileEntry::NotDirectory => None,
        ProfileEntry::Directory { name, profile: Err(error) } => Some((name@, error@)),
        ProfileEntry::Directory { .. } => None,
    }
}

/// The profiles among the first `n` entries.
pub open spec fn profiles_before(entries: Seq<ProfileEntry>, n: int) -> Seq<AdminProfileView>
    decreases n,
{
    if n <= 0 {
        Seq::empty()
    } else {
        match listed_profile(entries[n - 1]) {
            Some(profile) => profiles_before(entries, n - 1).push(profile),
            None => profiles_before(entries, n - 1),
        }
    }
}

/// The warnings among the first `n` entries.
pub open spec fn warnings_before(entries: Seq<ProfileEntry>, n: int) -> Seq<(Seq<char>, Seq<char>)>
    decreases n,
{
    if n <= 0 {
        Seq::empty()
    } else {
        match listed_warning(entries[n - 1]) {
            Some(warning) => warnings_before(entries, n - 1).push(warning),
            None => warnings_before(entries, n - 1),
        }
    }
}

pub open spec fn profile_names(profiles: Seq<AdminProfileView>) -> Seq<Seq<char>> {
    profiles.map_values(|profile: AdminProfileView| profile.name@)
}

pub open spec fn warning_views(warnings: Seq<ProfileWarning>) -> Seq<(Seq<char>, Seq<char>)> {
    warnings.map_values(|warning: ProfileWarning| (warning.directory@, warning.message@))
}

pub open spec fn warning_directories(warnings: Seq<(Seq<char>, Seq<char>)>) -> Seq<Seq<char>> {
    warnings.map_values(|warning: (Seq<char>, Seq<char>)| warning.0)
}

/// Whether some profiles are others, in the order of their names.
pub open spec fn profiles_sorted(all: Seq<AdminProfileView>, sorted: Seq<AdminProfileView>) -> bool {
    exists|order: Seq<usize>|
        #[trigger] sorts(order, profile_names(all)) && sorted == order.map_values(
            |i: usize| all[i as int],
        )
}

/// Whether some warnings are others, in the order of their directories.
pub open spec fn warnings_sorted(
    all: Seq<(Seq<char>, Seq<char>)>,
    sorted: Seq<(Seq<char>, Seq<char>)>,
) -> bool {
    exists|order: Seq<usize>|
        #[trigger] sorts(order, warning_directories(all)) && sorted == order.map_values(
            |i: usize| all[i as int],
        )
}

fn sort_profiles(profiles: &Vec<AdminProfileView>) -> (result: Vec<AdminProfileView>)
    ensures
        profiles_sorted(profiles@, result@),
{
    let mut names: Vec<String> = Vec::new();
    let mut i: usize = 0;
    while i < profiles.len()
        invariant
            i <= profiles.len(),
            views(names@) == profile_names(profiles@).take(i as int),
        decreases profiles.len() - i,
    {
        let ghost known = views(names@);
        names.push(profiles[i].name.clone());
        assert(views(names@) =~= known.push(profiles@[i as int].name@));
        assert(profile_names(profiles@).take(i + 1) =~= known.push(profiles@[i as int].name@));
        i += 1;
    }
    assert(views(names@) =~= profile_names(profiles@));
    let order = order_by_name(&names);
    let ghost mapped = order@.map_values(|i: usize| profiles@[i as int]);
    let mut result: Vec<AdminProfileView> = Vec::new();
    let mut j: usize = 0;
    while j < order.len()
        invariant
            j <= order.len(),
            sorts(order@, profile_names(profiles@)),
            mapped == order@.map_values(|i: usize| profiles@[i as int]),
            result@ == mapped.take(j as int),
        decreases order.len() - j,
    {
        let ghost done = result@;
        result.push(profiles[order[j]].clone());
        assert(result@ =~= done.push(mapped[j as int]));
        assert(mapped.take(j + 1) =~= done.push(mapped[j as int]));
        j += 1;
    }
    assert(result@ =~= mapped);
    result
}

fn sort_warnings(warnings: &Vec<ProfileWarning>) -> (result: Vec<ProfileWarning>)
    ensures
        warnings_sorted(warning_views(warnings@), warning_views(result@)),
{
    let ghost all = warning_views(warnings@);
    let mut names: Vec<String> = Vec::new();
    let mut i: usize = 0;
    while i < warnings.len()
        invariant
            i <= warnings.len(),
            all == warning_views(warnings@),
            views(names@) == warning_directories(all).take(i as int),
        decreases warnings.len() - i,
    {
        let ghost known = views(names@);
        names.push(warnings[i].directory.clone());
        assert(views(names@) =~= known.push(warnings@[i as int].directory@));
        assert(warning_directories(all).take(i + 1) =~= known.push(
            warnings@[i as int].directory@,
        ));
        i += 1;
    }
    assert(views(names@) =~= warning_directories(all));
    let order = order_by_name(&names);
    let ghost mapped = order@.map_values(|i: usize| all[i as int]);
    let mut result: Vec<ProfileWarning> = Vec::new();
    let mut j: usize = 0;
    while j < order.len()
        invariant
            j <= order.len(),
            all == warning_views(warnings@),
            sorts(order@, warning_directories(all)),
            mapped == order@.map_values(|i: usize| all[i as int]),
            warning_views(result@) == mapped.take(j as int),
        decreases order.len() - j,
    {
        let ghost done = warning_views(result@);
        result.push(warnings[order[j]].clone());
        assert(warning_views(result@) =~= done.push(mapped[j as int]));
        assert(mapped.take(j + 1) =~= done.push(mapped[j as int]));
        j += 1;
    }
    assert(warning_views(result@) =~= mapped);
    result
}

/// Lists the profiles by name, and what could not be listed by directory.
pub fn list_profiles(entries: &Vec<ProfileEntry>) -> (result: ProfileListView)
    ensures
        profiles_sorted(
            profiles_before(entries@, entries@.len() as int),
            result.profiles@,
        ),
        warnings_sorted(
            warnings_before(entries@, entries@.len() as int),
            warning_views(result.warnings@),
        ),
{
    let mut profiles: Vec<AdminProfileView> = Vec::new();
    let mut warnings: Vec<ProfileWarning> = Vec::new();
    let mut n: usize = 0;
    assert(warning_views(warnings@) =~= Seq::empty());
    while n < entries.len()
        invariant
            n <= entries.len(),
            profiles@ == profiles_before(entries@, n as int),
            warning_views(warnings@) == warnings_before(entries@, n as int),
        decreases entries.len() - n,
    {
        let ghost known = warning_views(warnings@);
        match &entries[n] {
            ProfileEntry::Unreadable(error) => {
                warnings.push(
                    ProfileWarning {
                        directory: "<unreadable-entry>".to_owned(),
                        message: error.clone(),
                    },
                );
                assert(warning_views(warnings@) =~= known.push(("<unreadable-entry>"@, error@)));
            },
            ProfileEntry::NotInspected { name, error } => {
                let message = concat("could not inspect profile directory: ", error);
                warnings.push(ProfileWarning { directory: name.clone(), message });
                assert(warning_views(warnings@) =~= known.push(
                    (name@, "could not inspect profile directory: "@ + error@),
                ));
            },
            ProfileEntry::NotDirectory => {},
            ProfileEntry::Directory { name, profile } => {
                match profile {
                    Ok(profile) => {
                        profiles.push(profile.summary());
                    },
                    Err(error) => {
                        warnings.push(
                            ProfileWarning { directory: name.clone(), message: error.clone() },
                        );
                        assert(warning_views(warnings@) =~= known.push((name@, error@)));
                    },
                }
            },
        }
        n += 1;
    }
    ProfileListView { profiles: sort_profiles(&profiles), warnings: sort_warnings(&warnings) }
}

/// A list without any profile: the directory is not there.
pub fn no_profiles() -> (result: ProfileListView)
    ensures
        result.profiles@.len() == 0,
        result.warnings@.len() == 0,
{
    ProfileListView { profiles: Vec::new(), warnings: Vec::new() }
}

/// A client is invited exactly under a name that is more than blanks and holds at most 128 bytes,
/// for a minute at least and a day at most.
pub proof fn named_clients_are_invited(name: Seq<char>, expires_in_seconds: int)
    ensures
        client_invitation_fault(name, expires_in_seconds) is None <==> {
            &&& trim(name).len() > 0
            &&& encode_utf8(name).len() <= 128
            &&& expires_in_seconds >= 60
            &&& expires_in_seconds <= 24 * 60 * 60
        },
{
}

/// An invitation is revoked exactly if it is named by an identifier, for a reason that is more than
/// blanks, holds at most 512 bytes and no control character.
pub proof fn revocations_have_a_reason(invitation_id: Seq<char>, reason: Seq<char>)
    ensures
        revocation_fault(invitation_id, reason) is None ==> {
            &&& uuid_reading(invitation_id) is Ok
            &&& trim(reason).len() > 0
            &&& encode_utf8(reason).len() <= 512
            &&& forall|c: char| control(c) ==> !#[trigger] reason.contains(c)
        },
        uuid_reading(invitation_id) is Ok && trim(reason).len() > 0 && encode_utf8(reason).len()
            <= 512 && (forall|c: char| control(c) ==> !#[trigger] reason.contains(c))
            ==> revocation_fault(invitation_id, reason) is None,
{
    if uuid_reading(invitation_id) is Ok && trim(reason).len() > 0 && encode_utf8(reason).len()
        <= 512 && (forall|c: char| control(c) ==> !#[trigger] reason.contains(c)) {
        assert forall|i: int| 0 <= i < reason.len() implies !control(#[trigger] reason[i]) by {
            assert(reason.contains(reason[i]));
        }
    }
}

/// A job is asked for exactly where jobs are enabled, under the name of a kind and with an object
/// for parameters; and no two names ask for one kind.
pub proof fn named_jobs_are_asked_for(enabled: bool, kind: Seq<char>, other: Seq<char>, object: bool)
    ensures
        job_request_fault(enabled, kind, object) is None <==> enabled && job_kind_of(kind) is Some
            && object,
        job_kind_of(kind) is Some && job_kind_of(kind) == job_kind_of(other) ==> kind == other,
        job_kind_of("restart-client-service"@) == Some(JobKind::RestartClientService),
        job_kind_of("restart-machine"@) == Some(JobKind::RestartMachine),
        job_kind_of("check-os-updates"@) == Some(JobKind::CheckOsUpdates),
        job_kind_of("apply-os-updates"@) == Some(JobKind::ApplyOsUpdates),
        job_kind_of("update-client"@) == Some(JobKind::UpdateClient),
{
    reveal_strlit("restart-client-service");
    reveal_strlit("restart-machine");
    reveal_strlit("check-os-updates");
    reveal_strlit("apply-os-updates");
    reveal_strlit("update-client");
    assert("restart-client-service"@.len() == 22 && "restart-machine"@.len() == 15
        && "check-os-updates"@.len() == 16 && "apply-os-updates"@.len() == 16
        && "update-client"@.len() == 13);
    assert("check-os-updates"@[0] == 'c' && "apply-os-updates"@[0] == 'a');
}

/// A key is pending exactly while nothing ended it; what was revoked or consumed says so however
/// late it is, and what expired says so from that moment on.
pub proof fn key_status_tells_what_ended_it(key: EnrollmentKeySummary, now: Timestamp)
    ensures
        key_status(key, now) == "revoked"@ <==> key.revoked_at is Some,
        key_status(key, now) == "consumed"@ <==> key.revoked_at is None && key.consumed_at is Some,
        key_status(key, now) == "pending"@ <==> key.revoked_at is None && key.consumed_at is None
            && !is_past(key.expires_at, now),
        key_status(key, now) == "expired"@ <==> key.revoked_at is None && key.consumed_at is None
            && is_past(key.expires_at, now),
{
    reveal_strlit("revoked");
    reveal_strlit("consumed");
    reveal_strlit("expired");
    reveal_strlit("pending");
    assert("revoked"@.len() == 7 && "consumed"@.len() == 8 && "expired"@.len() == 7
        && "pending"@.len() == 7);
    assert("revoked"@[0] == 'r' && "expired"@[0] == 'e' && "pending"@[0] == 'p');
}

/// A moment that has come stays past, and one that was never given is not past.
pub proof fn what_is_past_stays_past(
    value: Option<WireTimestamp>,
    now: Timestamp,
    later: Timestamp,
)
    requires
        now.seconds_spec() < later.seconds_spec(),
    ensures
        is_past(value, now) ==> is_past(value, later),
        is_past(value, now) ==> moment_of(value) is Ok && moment_of(value)->Ok_0.0
            <= now.seconds_spec(),
        moment_of(value) is Ok && moment_of(value)->Ok_0.0 < now.seconds_spec() ==> is_past(
            value,
            now,
        ),
        moment_of(value) is Err ==> !is_past(value, now),
{
}

/// A service is reached at a host's address and the given port, if the host is one and the port is
/// not zero.
pub proof fn services_have_a_host_and_a_port(host: Seq<char>, port: u16)
    ensures
        endpoint_of(host, port) is Some <==> canonical(host) is Some && port > 0,
        endpoint_of(host, port) is Some ==> endpoint_of(host, port)->0 == origin(
            canonical(host)->0,
            port,
        ),
{
}

/// A pointer leads to a profile's document in its own directory and nowhere else.
pub proof fn profile_pointers_stay_in_place(profile_dir: Seq<char>, filename: Seq<char>)
    ensures
        profile_target(profile_dir, filename) is Ok <==> {
            &&& !absolute(filename)
            &&& components(filename).len() == 1
            &&& "profile-"@.is_prefix_of(filename)
            &&& ".json"@.is_suffix_of(filename.map_values(|c: char| lower_ascii(c)))
        },
        profile_target(profile_dir, filename) is Ok ==> profile_target(profile_dir, filename)->Ok_0
            == joined(profile_dir, filename),
{
}

/// Every directory whose profile can be read is listed, and every other entry that went wrong is
/// warned of; what is no directory is passed over.
pub proof fn directories_are_listed_or_warned_of(entry: ProfileEntry)
    ensures
        listed_profile(entry) is Some <==> (entry matches ProfileEntry::Directory {
            profile: Ok(_),
            ..
        }),
        listed_warning(entry) is None <==> listed_profile(entry) is Some || entry is NotDirectory,
        entry matches ProfileEntry::Directory { profile: Ok(profile), .. } ==> listed_profile(
            entry,
        )->0.id == profile.id && listed_profile(entry)->0.name == profile.name
            && listed_profile(entry)->0.endpoint == profile.endpoint && listed_profile(
            entry,
        )->0.identity_id == profile.identity_id,
{
}

/// The list holds as many profiles and warnings as there are entries that are directories or went
/// wrong.
pub proof fn nothing_is_left_out_of_the_list(entries: Seq<ProfileEntry>, n: int)
    requires
        0 <= n <= entries.len(),
        forall|i: int| 0 <= i < n ==> !((#[trigger] entries[i]) is NotDirectory),
    ensures
        profiles_before(entries, n).len() + warnings_before(entries, n).len() == n,
    decreases n,
{
    if n > 0 {
        nothing_is_left_out_of_the_list(entries, n - 1);
        directories_are_listed_or_warned_of(entries[n - 1]);
    }
}

/// A request succeeded exactly if the server says so, and its words are told either way.
pub proof fn servers_are_believed(success: bool, message: String)
    ensures
        server_answer(success, message) is Ok <==> success,
        success ==> server_answer(success, message)->Ok_0 == message,
        !success ==> server_answer(success, message)->Err_0 == message,
{
}

/// A profile is read exactly from a regular file.
pub proof fn profiles_are_regular_files(path: Seq<char>, kind: EntryKind)
    ensures
        profile_file_fault(path, kind) is None <==> kind is Regular,
{
}

} // verus!
