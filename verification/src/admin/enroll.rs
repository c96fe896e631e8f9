//! How an Admin profile is enrolled, activated and renewed, step by step.

use vstd::prelude::*;
use vstd::utf8::encode_utf8;

use crate::client::control::DAY_SECONDS;
use crate::client::daemon::later_by_days;
use crate::client::enrollment::{moment_of, timestamp_to_datetime, WireTimestamp};
use crate::common::enrollment::{
    accept_claims, opened, parse_enrollment_invitation, EnrollmentInvitationClaims,
    EnrollmentRole, EnrollmentSecretError,
};
use crate::ident::{hyphenated, id_text, read_id, uuid_reading, uuid_value};
use crate::instant::Timestamp;
use crate::paths::{join_path, joined, parent, path_parent};
use crate::text::{
    byte_length, caused, concat, optional_view, tell, told, trim, trimmed, with_cause,
};

use super::profiles::{
    endpoint_of, service_endpoint, AdminProfile, EnrollAdminInput, IdentityRole,
};

verus! {

/// The fewest bytes that an access key has.
pub const MIN_ACCESS_KEY_BYTES: usize = 80;

pub const HOST_REFUSED: &'static str =
    "host must be a DNS name or IP address without a scheme, port, path, or whitespace";

/// The payload of the access key that an Admin typed, or what is wrong with it.
pub open spec fn typed_payload(access_key: Seq<char>) -> Result<Seq<u8>, Seq<char>> {
    if encode_utf8(access_key).len() < MIN_ACCESS_KEY_BYTES {
        Err("Admin access key is invalid"@)
    } else {
        match opened(access_key) {
            Ok(payload) => Ok(payload),
            Err(error) => Err(error.message_spec()),
        }
    }
}

/// Opens the access key that an Admin typed.
pub fn open_access_key(input: &EnrollAdminInput) -> (result: Result<Vec<u8>, String>)
    ensures
        match typed_payload(input.access_key@) {
            Ok(payload) => result is Ok && result->Ok_0@ == payload,
            Err(text) => told(result, Some(text)),
        },
{
    if byte_length(&input.access_key) < MIN_ACCESS_KEY_BYTES {
        return tell("Admin access key is invalid");
    }
    match parse_enrollment_invitation(&input.access_key) {
        Ok(payload) => Ok(payload),
        Err(error) => tell(error.message()),
    }
}

/// What is wrong with the claims of an Admin's invitation, if anything. `decoded`
/// is what an intact invitation's payload reads as.
pub open spec fn admin_invitation_fault(
    decoded: Option<EnrollmentInvitationClaims>,
    now: Timestamp,
) -> Option<Seq<char>> {
    if decoded is None {
        Some(EnrollmentSecretError::InvalidFormat.message_spec())
    } else if !decoded->0.valid() {
        Some(EnrollmentSecretError::InvalidClaims.message_spec())
    } else if decoded->0.role != EnrollmentRole::Admin {
        Some("this access key is not for an Admin identity"@)
    } else if decoded->0.expires_at@ <= now@ {
        Some(
            "this Admin access key has expired (or this machine's clock is skewed); check NTP, then create a new access key from centrald-server config"@,
        )
    } else {
        None
    }
}

/// Accepts the claims of an Admin's invitation.
pub fn accept_admin_invitation(decoded: Option<EnrollmentInvitationClaims>, now: &Timestamp) -> (
    result: Result<EnrollmentInvitationClaims, String>)
    ensures
        told(result, admin_invitation_fault(decoded, *now)),
        result is Ok ==> decoded == Some(result->Ok_0),
{
    let claims = match accept_claims(decoded) {
        Ok(claims) => claims,
        Err(error) => return tell(error.message()),
    };
    if claims.role != EnrollmentRole::Admin {
        return tell("this access key is not for an Admin identity");
    }
    if claims.expires_at.at_or_before(now) {
        return tell(
            "this Admin access key has expired (or this machine's clock is skewed); check NTP, then create a new access key from centrald-server config",
        );
    }
    Ok(claims)
}

/// The host that an Admin connects to: the override, unless it is blank.
pub open spec fn connection_host(
    connection_override: Option<Seq<char>>,
    server_name: Seq<char>,
) -> Seq<char> {
    match connection_override {
        Some(value) => if trim(value).len() == 0 {
            server_name
        } else {
            value
        },
        None => server_name,
    }
}

/// Where an Admin's new profile is kept, and which services it is for.
#[derive(Debug)]
pub struct AdminPlan {
    pub profile_id: u128,
    pub generation_id: u128,
    pub profile_dir: String,
    pub credential_dir: String,
    pub identity_private_key: String,
    pub elevation_private_key: String,
    pub enrollment_endpoint: String,
    pub admin_endpoint: String,
}

/// The directory of a generation of a profile's credentials.
pub open spec fn credential_directory(profile_dir: Seq<char>, generation_id: u128) -> Seq<char> {
    joined(joined(profile_dir, "credentials"@), hyphenated(generation_id))
}

fn credential_dir_of(profile_dir: &str, generation_id: u128) -> (result: String)
    ensures
        result@ == credential_directory(profile_dir@, generation_id),
{
    join_path(&join_path(profile_dir, "credentials"), &id_text(generation_id))
}

/// Whether a plan is for a profile with these numbers.
pub open spec fn plans_profile(
    plan: AdminPlan,
    profiles_dir: Seq<char>,
    profile_id: u128,
    generation_id: u128,
) -> bool {
    let profile_dir = joined(profiles_dir, hyphenated(profile_id));
    let credentials = credential_directory(profile_dir, generation_id);
    &&& plan.profile_id == profile_id
    &&& plan.generation_id == generation_id
    &&& plan.profile_dir@ == profile_dir
    &&& plan.credential_dir@ == credentials
    &&& plan.identity_private_key@ == joined(credentials, "identity-key.pem"@)
    &&& plan.elevation_private_key@ == joined(profile_dir, "elevation-key.pem"@)
}

/// Plans the profile of an Admin who was invited.
pub fn plan_admin_profile(
    claims: &EnrollmentInvitationClaims,
    connection_override: &Option<String>,
    profiles_dir: &str,
    profile_id: u128,
    generation_id: u128,
) -> (result: Result<AdminPlan, String>)
    ensures
        ({
            let host = connection_host(
                optional_view(*connection_override),
                claims.server_name@,
            );
            match (
                endpoint_of(host, claims.enrollment_port),
                endpoint_of(host, claims.admin_port),
            ) {
                (Some(enrollment), Some(admin)) => {
                    &&& result is Ok
                    &&& plans_profile(result->Ok_0, profiles_dir@, profile_id, generation_id)
                    &&& result->Ok_0.enrollment_endpoint@ == enrollment
                    &&& result->Ok_0.admin_endpoint@ == admin
                },
                _ => told(result, Some(HOST_REFUSED@)),
            }
        }),
{
    let host = match connection_override {
        Some(value) => {
            if trimmed(value).as_str().is_empty() {
                claims.server_name.clone()
            } else {
                value.clone()
            }
        },
        None => claims.server_name.clone(),
    };
    let enrollment_endpoint = match service_endpoint(&host, claims.enrollment_port) {
        Ok(endpoint) => endpoint,
        Err(error) => return Err(error),
    };
    let admin_endpoint = match service_endpoint(&host, claims.admin_port) {
        Ok(endpoint) => endpoint,
        Err(error) => return Err(error),
    };
    let profile_dir = join_path(profiles_dir, &id_text(profile_id));
    let credential_dir = credential_dir_of(&profile_dir, generation_id);
    let identity_private_key = join_path(&credential_dir, "identity-key.pem");
    let elevation_private_key = join_path(&profile_dir, "elevation-key.pem");
    Ok(
        AdminPlan {
            profile_id,
            generation_id,
            profile_dir,
            credential_dir,
            identity_private_key,
            elevation_private_key,
            enrollment_endpoint,
            admin_endpoint,
        },
    )
}

/// The server's answer to the enrollment of an Admin.
#[derive(Debug)]
pub struct AdminEnrollmentResponse {
    pub identity_id: String,
    /// The role that the identity has; none where its number has no meaning.
    pub role: Option<IdentityRole>,
    pub certificate_chain_pem: Vec<u8>,
    pub expires_at: Option<WireTimestamp>,
}

/// What is wrong with the server's answer to the enrollment of an Admin, if
/// anything.
pub open spec fn admin_response_fault(response: AdminEnrollmentResponse) -> Option<Seq<char>> {
    if uuid_reading(response.identity_id@) is Err {
        Some(uuid_reading(response.identity_id@)->Err_0)
    } else if response.role != Some(IdentityRole::Admin) || response.certificate_chain_pem@.len() == 0 {
        Some("server returned incomplete Admin enrollment material"@)
    } else if moment_of(response.expires_at) is Err {
        Some("server returned an invalid Admin certificate expiration"@)
    } else {
        None
    }
}

/// Makes the profile of an Admin from the server's answer.
pub fn admin_profile(
    plan: &AdminPlan,
    claims: &EnrollmentInvitationClaims,
    response: &AdminEnrollmentResponse,
) -> (result: Result<AdminProfile, String>)
    ensures
        told(result, admin_response_fault(*response)),
        result is Ok ==> {
            let profile = result->Ok_0;
            &&& profile.id == plan.profile_id
            &&& Some(profile.identity_id) == uuid_value(response.identity_id@)
            &&& profile.name == claims.name
            &&& profile.endpoint == plan.admin_endpoint
            &&& profile.server_name == claims.server_name
            &&& profile.root_ca@ == joined(plan.credential_dir@, "root-ca.pem"@)
            &&& profile.identity_certificate@ == joined(
                plan.credential_dir@,
                "identity-chain.pem"@,
            )
            &&& profile.identity_private_key == plan.identity_private_key
            &&& moment_of(response.expires_at) == Ok::<(int, int), Seq<char>>(
                (
                    profile.certificate_expires_at.seconds_spec() as int,
                    profile.certificate_expires_at.nanos_spec() as int,
                ),
            )
            &&& profile.elevation_private_key == Some(plan.elevation_private_key)
        },
{
    let identity_id = match read_id(&response.identity_id) {
        Ok(id) => id,
        Err(message) => return Err(message),
    };
    if response.role != Some(IdentityRole::Admin) || response.certificate_chain_pem.len() == 0 {
        return tell("server returned incomplete Admin enrollment material");
    }
    let certificate_expires_at = match timestamp_to_datetime(response.expires_at) {
        Ok(moment) => moment,
        Err(_) => return tell("server returned an invalid Admin certificate expiration"),
    };
    Ok(
        AdminProfile {
            id: plan.profile_id,
            identity_id,
            name: claims.name.clone(),
            endpoint: plan.admin_endpoint.clone(),
            server_name: claims.server_name.clone(),
            root_ca: join_path(&plan.credential_dir, "root-ca.pem"),
            identity_certificate: join_path(&plan.credential_dir, "identity-chain.pem"),
            identity_private_key: plan.identity_private_key.clone(),
            certificate_expires_at,
            elevation_private_key: Some(plan.elevation_private_key.clone()),
        },
    )
}

/// Whether a profile is enrolled or renewed.
#[derive(Debug, Clone, Copy, PartialEq, Eq, Structural)]
pub enum AdminPurpose {
    Enrollment,
    Renewal,
}

/// How far an enrollment or a renewal is.
#[derive(Debug, Clone, Copy, PartialEq, Eq, Structural)]
pub enum AdminPhase {
    CreatingDirectory,
    Locking,
    Preparing,
    WritingIdentityKey,
    WritingElevationKey,
    Connecting,
    Requesting,
    Persisting,
    Publishing,
    Activating,
    RollingBack,
    Committing,
    Securing,
    Ended,
}

/// What is done next.
#[derive(Debug)]
pub enum AdminAction {
    Lock,
    /// Prepares the profile's directories.
    Prepare,
    WriteIdentityKey,
    WriteElevationKey,
    Connect,
    /// Asks the server for an identity.
    Request,
    /// Persists what the server's answer led to.
    Persist,
    Publish,
    Activate,
    RollBack,
    Commit,
    Secure,
    Succeed,
    /// Fails. Where it says so, what is new is removed first: the profile of an
    /// enrollment, the generation of a renewal.
    Fail { clean_up: bool, message: String },
}

/// What is done next, with its message as a sequence of characters.
pub enum AdminModel {
    Lock,
    Prepare,
    WriteIdentityKey,
    WriteElevationKey,
    Connect,
    Request,
    Persist,
    Publish,
    Activate,
    RollBack,
    Commit,
    Secure,
    Succeed,
    Fail { clean_up: bool, message: Seq<char> },
}

impl View for AdminAction {
    type V = AdminModel;

    open spec fn view(&self) -> AdminModel {
        match self {
            AdminAction::Lock => AdminModel::Lock,
            AdminAction::Prepare => AdminModel::Prepare,
            AdminAction::WriteIdentityKey => AdminModel::WriteIdentityKey,
            AdminAction::WriteElevationKey => AdminModel::WriteElevationKey,
            AdminAction::Connect => AdminModel::Connect,
            AdminAction::Request => AdminModel::Request,
            AdminAction::Persist => AdminModel::Persist,
            AdminAction::Publish => AdminModel::Publish,
            AdminAction::Activate => AdminModel::Activate,
            AdminAction::RollBack => AdminModel::RollBack,
            AdminAction::Commit => AdminModel::Commit,
            AdminAction::Secure => AdminModel::Secure,
            AdminAction::Succeed => AdminModel::Succeed,
            AdminAction::Fail { clean_up, message } => AdminModel::Fail {
                clean_up: *clean_up,
                message: message@,
            },
        }
    }
}

pub open spec fn admin_fail(clean_up: bool, message: Seq<char>) -> (AdminPhase, AdminModel) {
    (AdminPhase::Ended, AdminModel::Fail { clean_up, message })
}

/// What comes after a phase that went well.
pub open spec fn admin_proceed(purpose: AdminPurpose, phase: AdminPhase) -> (
    AdminPhase,
    AdminModel,
) {
    match phase {
        AdminPhase::CreatingDirectory => (AdminPhase::Locking, AdminModel::Lock),
        AdminPhase::Locking => (AdminPhase::Preparing, AdminModel::Prepare),
        AdminPhase::Preparing => (AdminPhase::WritingIdentityKey, AdminModel::WriteIdentityKey),
        AdminPhase::WritingIdentityKey => (
            AdminPhase::WritingElevationKey,
            AdminModel::WriteElevationKey,
        ),
        AdminPhase::WritingElevationKey => (AdminPhase::Connecting, AdminModel::Connect),
        AdminPhase::Connecting => (AdminPhase::Requesting, AdminModel::Request),
        AdminPhase::Requesting => (AdminPhase::Persisting, AdminModel::Persist),
        AdminPhase::Persisting => (AdminPhase::Publishing, AdminModel::Publish),
        AdminPhase::Publishing => (AdminPhase::Activating, AdminModel::Activate),
        AdminPhase::Activating => (AdminPhase::Committing, AdminModel::Commit),
        AdminPhase::RollingBack => match purpose {
            AdminPurpose::Enrollment => admin_fail(
                true,
                "durable Admin identity was not activated; local publication was rolled back and the pending server identity will expire"@,
            ),
            AdminPurpose::Renewal => admin_fail(
                true,
                "activate renewed Admin certificate after durable publication"@,
            ),
        },
        AdminPhase::Committing => (AdminPhase::Securing, AdminModel::Secure),
        AdminPhase::Securing => (AdminPhase::Ended, AdminModel::Succeed),
        AdminPhase::Ended => (AdminPhase::Ended, AdminModel::Succeed),
    }
}

/// What comes after a phase that failed with an error.
pub open spec fn admin_recover(
    purpose: AdminPurpose,
    phase: AdminPhase,
    profile_dir: Seq<char>,
    error: Seq<char>,
) -> (AdminPhase, AdminModel) {
    match phase {
        AdminPhase::CreatingDirectory => admin_fail(
            false,
            "create Admin profile directory "@ + profile_dir,
        ),
        AdminPhase::Locking => admin_fail(true, "lock the new Admin profile directory"@),
        AdminPhase::Preparing => admin_fail(true, "prepare Admin profile directories"@),
        AdminPhase::WritingIdentityKey => admin_fail(
            true,
            "persist the Admin identity private key before enrollment"@,
        ),
        AdminPhase::WritingElevationKey => admin_fail(
            true,
            "persist the Admin elevation key before enrollment"@,
        ),
        AdminPhase::Connecting => admin_fail(purpose == AdminPurpose::Enrollment, error),
        AdminPhase::Requesting => admin_fail(purpose == AdminPurpose::Enrollment, error),
        AdminPhase::Persisting => match purpose {
            AdminPurpose::Enrollment => admin_fail(
                true,
                "server accepted a pending Admin enrollment, but local profile persistence failed; the pending identity will expire automatically"@,
            ),
            AdminPurpose::Renewal => admin_fail(false, error),
        },
        AdminPhase::Publishing => match purpose {
            AdminPurpose::Enrollment => admin_fail(
                true,
                "publish the enrolled Admin credential generation"@,
            ),
            AdminPurpose::Renewal => admin_fail(
                true,
                "publish renewed Admin credential generation"@,
            ),
        },
        AdminPhase::Activating => (AdminPhase::RollingBack, AdminModel::RollBack),
        AdminPhase::RollingBack => match purpose {
            AdminPurpose::Enrollment => admin_fail(
                false,
                "Admin identity activation failed and pointer rollback also failed; the published generation was retained for recovery: "@
                    + error,
            ),
            AdminPurpose::Renewal => admin_fail(
                false,
                "renewed Admin activation failed and pointer rollback also failed; the published generation was retained for recovery: "@
                    + error,
            ),
        },
        AdminPhase::Committing => match purpose {
            AdminPurpose::Enrollment => admin_fail(
                false,
                "finalize the active Admin credential pointer"@,
            ),
            AdminPurpose::Renewal => admin_fail(
                false,
                "finalize renewed Admin credential pointer"@,
            ),
        },
        AdminPhase::Securing => admin_fail(false, error),
        AdminPhase::Ended => admin_fail(false, error),
    }
}

/// What comes after a phase.
pub open spec fn admin_next(
    purpose: AdminPurpose,
    phase: AdminPhase,
    profile_dir: Seq<char>,
    outcome: Result<(), Seq<char>>,
) -> (AdminPhase, AdminModel) {
    match outcome {
        Ok(_) => admin_proceed(purpose, phase),
        Err(error) => admin_recover(purpose, phase, profile_dir, error),
    }
}

/// Both private keys are durable before the one-time access key is spent.
pub proof fn keys_are_kept_before_the_request(
    purpose: AdminPurpose,
    phase: AdminPhase,
    profile_dir: Seq<char>,
    outcome: Result<(), Seq<char>>,
)
    ensures
        ({
            let (next, action) = admin_next(purpose, phase, profile_dir, outcome);
            &&& action is Request ==> outcome is Ok && phase == AdminPhase::Connecting
            &&& next == AdminPhase::Connecting ==> outcome is Ok && phase
                == AdminPhase::WritingElevationKey
            &&& next == AdminPhase::WritingElevationKey ==> outcome is Ok && phase
                == AdminPhase::WritingIdentityKey
        }),
{
}

/// What was active before is only forgotten after the new generation was
/// activated, and nothing is removed while something points at it.
pub proof fn published_profile_is_kept(
    purpose: AdminPurpose,
    phase: AdminPhase,
    profile_dir: Seq<char>,
    outcome: Result<(), Seq<char>>,
)
    ensures
        ({
            let (next, action) = admin_next(purpose, phase, profile_dir, outcome);
            &&& action is Commit ==> outcome is Ok && phase == AdminPhase::Activating
            &&& action matches AdminModel::Fail { clean_up: true, .. } ==> phase
                != AdminPhase::Activating && phase != AdminPhase::Committing && phase
                != AdminPhase::Securing && (phase == AdminPhase::RollingBack ==> outcome is Ok)
        }),
{
}

/// The enrollment or the renewal of a profile.
#[derive(Debug)]
pub struct AdminTransition {
    pub purpose: AdminPurpose,
    pub phase: AdminPhase,
    pub profile_dir: String,
}

impl AdminTransition {
    /// An enrollment begins with the profile's directory, a renewal with the
    /// connection to the server.
    pub fn new(purpose: AdminPurpose, profile_dir: String) -> (result: AdminTransition)
        ensures
            result.purpose == purpose,
            result.profile_dir == profile_dir,
            result.phase == match purpose {
                AdminPurpose::Enrollment => AdminPhase::CreatingDirectory,
                AdminPurpose::Renewal => AdminPhase::Connecting,
            },
    {
        let phase = match purpose {
            AdminPurpose::Enrollment => AdminPhase::CreatingDirectory,
            AdminPurpose::Renewal => AdminPhase::Connecting,
        };
        AdminTransition { purpose, phase, profile_dir }
    }

    fn go(&mut self, phase: AdminPhase, action: AdminAction) -> (result: AdminAction)
        ensures
            result == action,
            final(self).phase == phase,
            final(self).purpose == old(self).purpose,
            final(self).profile_dir == old(self).profile_dir,
    {
        self.phase = phase;
        action
    }

    fn fail(&mut self, clean_up: bool, message: String) -> (action: AdminAction)
        ensures
            (final(self).phase, action@) == admin_fail(clean_up, message@),
            final(self).purpose == old(self).purpose,
            final(self).profile_dir == old(self).profile_dir,
    {
        self.phase = AdminPhase::Ended;
        AdminAction::Fail { clean_up, message }
    }

    fn succeeded(&mut self) -> (action: AdminAction)
        ensures
            (final(self).phase, action@) == admin_proceed(old(self).purpose, old(self).phase),
            final(self).purpose == old(self).purpose,
            final(self).profile_dir == old(self).profile_dir,
    {
        match self.phase {
            AdminPhase::CreatingDirectory => self.go(AdminPhase::Locking, AdminAction::Lock),
            AdminPhase::Locking => self.go(AdminPhase::Preparing, AdminAction::Prepare),
            AdminPhase::Preparing => self.go(
                AdminPhase::WritingIdentityKey,
                AdminAction::WriteIdentityKey,
            ),
            AdminPhase::WritingIdentityKey => self.go(
                AdminPhase::WritingElevationKey,
                AdminAction::WriteElevationKey,
            ),
            AdminPhase::WritingElevationKey => self.go(
                AdminPhase::Connecting,
                AdminAction::Connect,
            ),
            AdminPhase::Connecting => self.go(AdminPhase::Requesting, AdminAction::Request),
            AdminPhase::Requesting => self.go(AdminPhase::Persisting, AdminAction::Persist),
            AdminPhase::Persisting => self.go(AdminPhase::Publishing, AdminAction::Publish),
            AdminPhase::Publishing => self.go(AdminPhase::Activating, AdminAction::Activate),
            AdminPhase::Activating => self.go(AdminPhase::Committing, AdminAction::Commit),
            AdminPhase::RollingBack => {
                let message = match self.purpose {
                    AdminPurpose::Enrollment =>
                        "durable Admin identity was not activated; local publication was rolled back and the pending server identity will expire".to_owned(),
                    AdminPurpose::Renewal =>
                        "activate renewed Admin certificate after durable publication".to_owned(),
                };
                self.fail(true, message)
            },
            AdminPhase::Committing => self.go(AdminPhase::Securing, AdminAction::Secure),
            AdminPhase::Securing => self.go(AdminPhase::Ended, AdminAction::Succeed),
            AdminPhase::Ended => AdminAction::Succeed,
        }
    }

    fn went_wrong(&mut self, error: String) -> (action: AdminAction)
        ensures
            (final(self).phase, action@) == admin_recover(
                old(self).purpose,
                old(self).phase,
                old(self).profile_dir@,
                error@,
            ),
            final(self).purpose == old(self).purpose,
            final(self).profile_dir == old(self).profile_dir,
    {
        let enrollment = self.purpose == AdminPurpose::Enrollment;
        match self.phase {
            AdminPhase::CreatingDirectory => {
                let message = concat("create Admin profile directory ", &self.profile_dir);
                self.fail(false, message)
            },
            AdminPhase::Locking => self.fail(
                true,
                "lock the new Admin profile directory".to_owned(),
            ),
            AdminPhase::Preparing => self.fail(
                true,
                "prepare Admin profile directories".to_owned(),
            ),
            AdminPhase::WritingIdentityKey => self.fail(
                true,
                "persist the Admin identity private key before enrollment".to_owned(),
            ),
            AdminPhase::WritingElevationKey => self.fail(
                true,
                "persist the Admin elevation key before enrollment".to_owned(),
            ),
            AdminPhase::Connecting => self.fail(enrollment, error),
            AdminPhase::Requesting => self.fail(enrollment, error),
            AdminPhase::Persisting => {
                if enrollment {
                    self.fail(
                        true,
                        "server accepted a pending Admin enrollment, but local profile persistence failed; the pending identity will expire automatically".to_owned(),
                    )
                } else {
                    self.fail(false, error)
                }
            },
            AdminPhase::Publishing => {
                let message = if enrollment {
                    "publish the enrolled Admin credential generation".to_owned()
                } else {
                    "publish renewed Admin credential generation".to_owned()
                };
                self.fail(true, message)
            },
            AdminPhase::Activating => self.go(AdminPhase::RollingBack, AdminAction::RollBack),
            AdminPhase::RollingBack => {
                let message = if enrollment {
                    concat(
                        "Admin identity activation failed and pointer rollback also failed; the published generation was retained for recovery: ",
                        &error,
                    )
                } else {
                    concat(
                        "renewed Admin activation failed and pointer rollback also failed; the published generation was retained for recovery: ",
                        &error,
                    )
                };
                self.fail(false, message)
            },
            AdminPhase::Committing => {
                let message = if enrollment {
                    "finalize the active Admin credential pointer".to_owned()
                } else {
                    "finalize renewed Admin credential pointer".to_owned()
                };
                self.fail(false, message)
            },
            AdminPhase::Securing => self.fail(false, error),
            AdminPhase::Ended => self.fail(false, error),
        }
    }

    /// Takes the next step after what came of the last one. What is wrong with
    /// the server's answer counts as a failure of the request.
    pub fn step(&mut self, outcome: Result<(), String>) -> (action: AdminAction)
        ensures
            (final(self).phase, action@) == admin_next(
                old(self).purpose,
                old(self).phase,
                old(self).profile_dir@,
                crate::client::publication::outcome_view(outcome),
            ),
            final(self).purpose == old(self).purpose,
            final(self).profile_dir == old(self).profile_dir,
    {
        match outcome {
            Ok(()) => self.succeeded(),
            Err(error) => self.went_wrong(error),
        }
    }
}

/// What is told where a profile's tree could not be secured after a publication, by
/// what came of rolling it back.
pub fn profile_publication_not_secured(error: String, rollback: Result<(), String>) -> (result:
    String)
    ensures
        result@ == match rollback {
            Ok(_) => error@,
            Err(text) => caused(
                "secure Admin pointer files failed and rollback also failed: "@ + text@,
                error@,
            ),
        },
{
    match rollback {
        Ok(()) => error,
        Err(text) => with_cause(
            &concat("secure Admin pointer files failed and rollback also failed: ", &text),
            &error,
        ),
    }
}

/// Why a profile is not renewed, if it is not.
pub open spec fn expired_fault(expires_at: Timestamp, now: Timestamp) -> Option<Seq<char>> {
    if expires_at@ <= now@ {
        Some(
            "Admin certificate expired; revoke this Admin on the server and enroll a new access key"@,
        )
    } else {
        None
    }
}

/// What is wrong with renewing a profile, if anything.
pub fn check_admin_renewal(profile: &AdminProfile, now: &Timestamp) -> (result: Result<(), String>)
    ensures
        told(result, expired_fault(profile.certificate_expires_at, *now)),
{
    if profile.certificate_expires_at.at_or_before(now) {
        return tell(
            "Admin certificate expired; revoke this Admin on the server and enroll a new access key",
        );
    }
    Ok(())
}

/// What is wrong with the server's answer to a renewal, if anything.
pub open spec fn admin_renewal_fault(
    chain: Seq<u8>,
    expires_at: Option<WireTimestamp>,
    now: Timestamp,
) -> Option<Seq<char>> {
    if chain.len() == 0 {
        Some("server returned an empty renewed Admin certificate chain"@)
    } else {
        match moment_of(expires_at) {
            Err(_) => Some("server returned an invalid renewed certificate expiration"@),
            Ok((seconds, nanos)) => {
                let limit = now.seconds_spec() + DAY_SECONDS;
                if seconds > limit || (seconds == limit && nanos > now.nanos_spec()
                    % 1_000_000_000) {
                    None
                } else {
                    Some("server returned a renewed Admin certificate with an unsafe expiration"@)
                }
            },
        }
    }
}

/// Makes the renewed profile of an Admin from the server's answer: the same
/// profile, with new files and a later expiry.
pub fn renewed_profile(
    profile: &AdminProfile,
    profile_dir: &str,
    chain: &Vec<u8>,
    expires_at: Option<WireTimestamp>,
    now: &Timestamp,
    generation_id: u128,
) -> (result: Result<AdminProfile, String>)
    ensures
        told(result, admin_renewal_fault(chain@, expires_at, *now)),
        result is Ok ==> {
            let renewed = result->Ok_0;
            let credentials = credential_directory(profile_dir@, generation_id);
            &&& renewed.id == profile.id
            &&& renewed.identity_id == profile.identity_id
            &&& renewed.name == profile.name
            &&& renewed.endpoint == profile.endpoint
            &&& renewed.server_name == profile.server_name
            &&& renewed.elevation_private_key == profile.elevation_private_key
            &&& renewed.root_ca@ == joined(credentials, "root-ca.pem"@)
            &&& renewed.identity_certificate@ == joined(credentials, "identity-chain.pem"@)
            &&& renewed.identity_private_key@ == joined(credentials, "identity-key.pem"@)
            &&& moment_of(expires_at) == Ok::<(int, int), Seq<char>>(
                (
                    renewed.certificate_expires_at.seconds_spec() as int,
                    renewed.certificate_expires_at.nanos_spec() as int,
                ),
            )
        },
{
    if chain.len() == 0 {
        return tell("server returned an empty renewed Admin certificate chain");
    }
    let moment = match timestamp_to_datetime(expires_at) {
        Ok(moment) => moment,
        Err(_) => return tell("server returned an invalid renewed certificate expiration"),
    };
    now.check();
    let limit: i64 = now.seconds() + DAY_SECONDS as i64;
    if !(moment.seconds() > limit || (moment.seconds() == limit && moment.nanos() > now.nanos()
        % 1_000_000_000)) {
        return tell("server returned a renewed Admin certificate with an unsafe expiration");
    }
    let credentials = credential_dir_of(profile_dir, generation_id);
    Ok(
        AdminProfile {
            id: profile.id,
            identity_id: profile.identity_id,
            name: profile.name.clone(),
            endpoint: profile.endpoint.clone(),
            server_name: profile.server_name.clone(),
            root_ca: join_path(&credentials, "root-ca.pem"),
            identity_certificate: join_path(&credentials, "identity-chain.pem"),
            identity_private_key: join_path(&credentials, "identity-key.pem"),
            certificate_expires_at: moment,
            elevation_private_key: match &profile.elevation_private_key {
                Some(path) => Some(path.clone()),
                None => None,
            },
        },
    )
}

/// A step of persisting a generation of a profile.
#[derive(Debug)]
pub enum PersistStep {
    /// Creates and secures the profile's directories.
    PrepareDirectories,
    WriteRoot,
    WriteCertificate,
    WritePrivateKey,
    SecureTree,
    /// Writes the profile's document at this path.
    WriteDocument(String),
}

/// A step, with its path as a sequence of characters.
pub enum PersistModel {
    PrepareDirectories,
    WriteRoot,
    WriteCertificate,
    WritePrivateKey,
    SecureTree,
    WriteDocument(Seq<char>),
}

impl View for PersistStep {
    type V = PersistModel;

    open spec fn view(&self) -> PersistModel {
        match self {
            PersistStep::PrepareDirectories => PersistModel::PrepareDirectories,
            PersistStep::WriteRoot => PersistModel::WriteRoot,
            PersistStep::WriteCertificate => PersistModel::WriteCertificate,
            PersistStep::WritePrivateKey => PersistModel::WritePrivateKey,
            PersistStep::SecureTree => PersistModel::SecureTree,
            PersistStep::WriteDocument(path) => PersistModel::WriteDocument(path@),
        }
    }
}

pub open spec fn persist_views(steps: Seq<PersistStep>) -> Seq<PersistModel> {
    steps.map_values(|step: PersistStep| step@)
}

/// The document of a generation of a profile.
pub open spec fn document_path(profile_dir: Seq<char>, generation_id: u128) -> Seq<char> {
    joined(profile_dir, "profile-"@ + hyphenated(generation_id) + ".json"@)
}

/// How a generation of a profile is persisted: its document comes last. The
/// uniquely named profile document is the publication point: a failed write never
/// replaces the previously active credential set.
pub open spec fn profile_persistence(
    profile_dir: Seq<char>,
    generation_id: u128,
    with_key: bool,
) -> Seq<PersistModel> {
    let files = seq![
        PersistModel::PrepareDirectories,
        PersistModel::WriteRoot,
        PersistModel::WriteCertificate,
    ];
    let keyed = if with_key {
        files.push(PersistModel::WritePrivateKey)
    } else {
        files
    };
    keyed.push(PersistModel::SecureTree).push(
        PersistModel::WriteDocument(document_path(profile_dir, generation_id)),
    ).push(PersistModel::SecureTree)
}

/// How a generation of a profile is persisted, and what is removed where that
/// fails.
#[derive(Debug)]
pub struct PersistPlan {
    pub steps: Vec<PersistStep>,
    pub document: String,
    pub credential_dir: String,
}

/// Tells how a generation of a profile is persisted; `with_key` says whether its
/// private key is still to be written.
pub fn persist_profile_generation(
    profile_dir: &str,
    generation_id: u128,
    profile: &AdminProfile,
    with_key: bool,
) -> (result: Result<PersistPlan, String>)
    ensures
        match parent(profile.identity_private_key@) {
            None => told(result, Some("Admin credential path has no parent"@)),
            Some(directory) => {
                &&& result is Ok
                &&& result->Ok_0.credential_dir@ == directory
                &&& result->Ok_0.document@ == document_path(profile_dir@, generation_id)
                &&& persist_views(result->Ok_0.steps@) == profile_persistence(
                    profile_dir@,
                    generation_id,
                    with_key,
                )
            },
        },
{
    let mut name = concat("profile-", &id_text(generation_id));
    name.append(".json");
    let document = join_path(profile_dir, &name);
    let credential_dir = match path_parent(&profile.identity_private_key) {
        Some(directory) => directory,
        None => return tell("Admin credential path has no parent"),
    };
    let mut steps: Vec<PersistStep> = Vec::new();
    steps.push(PersistStep::PrepareDirectories);
    steps.push(PersistStep::WriteRoot);
    steps.push(PersistStep::WriteCertificate);
    if with_key {
        steps.push(PersistStep::WritePrivateKey);
    }
    steps.push(PersistStep::SecureTree);
    steps.push(PersistStep::WriteDocument(document.clone()));
    steps.push(PersistStep::SecureTree);
    assert(persist_views(steps@) =~= profile_persistence(profile_dir@, generation_id, with_key));
    Ok(PersistPlan { steps, document, credential_dir })
}

/// What using a profile does next.
#[derive(Debug)]
pub enum SessionAction {
    /// Proves possession of the profile's key to the server.
    Activate,
    /// Points at what was active before, if there is anything.
    RollBackIfPrevious,
    Commit,
    /// Renews the certificate.
    Renew,
    /// Connects with the profile, or with the one that was renewed.
    Connect { renewed: bool },
    Fail(String),
}

/// What happens while a profile is taken into use.
#[derive(Debug)]
pub enum SessionEvent {
    /// The profile was loaded; it has this number.
    Loaded(u128),
    Activated,
    ActivationFailed(String),
    /// The rollback was made or there was nothing to roll back to, after an
    /// activation that failed with an error.
    RolledBack { restored: bool, error: String },
    RollBackFailed(String),
    Committed { expires_at: Timestamp, now: Timestamp },
    CommitFailed,
    Renewed,
    /// Renewal failed with an error, at a moment at which the certificate is still
    /// valid or not.
    RenewalFailed { expires_at: Timestamp, now: Timestamp, error: String },
}

pub open spec fn session_fails(action: SessionAction, text: Seq<char>) -> bool {
    action matches SessionAction::Fail(message) && message@ == text
}

/// What follows an event while a profile is brought into use.
pub open spec fn session_moves(
    profile_id: u128,
    event: SessionEvent,
    action: SessionAction,
) -> bool {
    match event {
        SessionEvent::Loaded(id) => if id != profile_id {
            session_fails(
                action,
                "Admin profile identity does not match its protected directory"@,
            )
        } else {
            action is Activate
        },
        SessionEvent::Activated => action is Commit,
        SessionEvent::ActivationFailed(_) => action is RollBackIfPrevious,
        SessionEvent::RolledBack { restored, error } => session_fails(
            action,
            if restored {
                "activate Admin credential generation; restored the previous active credential"@
            } else {
                error@
            },
        ),
        SessionEvent::RollBackFailed(error) => session_fails(action, error@),
        SessionEvent::Committed { expires_at, now } => if later_by_days(expires_at, now, 30) {
            action == (SessionAction::Connect { renewed: false })
        } else {
            action is Renew
        },
        SessionEvent::CommitFailed => session_fails(
            action,
            "finalize recovered Admin credential pointer"@,
        ),
        SessionEvent::Renewed => action == (SessionAction::Connect { renewed: true }),
        SessionEvent::RenewalFailed { expires_at, now, error } => if expires_at@ > now@ {
            action == (SessionAction::Connect { renewed: false })
        } else {
            session_fails(action, error@)
        },
    }
}

/// Tells what using the profile with a number does next.
pub fn session_step(profile_id: u128, event: SessionEvent) -> (action: SessionAction)
    ensures
        session_moves(profile_id, event, action),
{
    match event {
        SessionEvent::Loaded(id) => {
            if id != profile_id {
                return SessionAction::Fail(
                    "Admin profile identity does not match its protected directory".to_owned(),
                );
            }
            SessionAction::Activate
        },
        SessionEvent::Activated => SessionAction::Commit,
        SessionEvent::ActivationFailed(_) => SessionAction::RollBackIfPrevious,
        SessionEvent::RolledBack { restored, error } => SessionAction::Fail(
            if restored {
                "activate Admin credential generation; restored the previous active credential".to_owned()
            } else {
                error
            },
        ),
        SessionEvent::RollBackFailed(error) => SessionAction::Fail(error),
        SessionEvent::Committed { expires_at, now } => {
            if crate::client::daemon::renewal_is_due(&expires_at, &now) {
                SessionAction::Renew
            } else {
                SessionAction::Connect { renewed: false }
            }
        },
        SessionEvent::CommitFailed => SessionAction::Fail(
            "finalize recovered Admin credential pointer".to_owned(),
        ),
        SessionEvent::Renewed => SessionAction::Connect { renewed: true },
        SessionEvent::RenewalFailed { expires_at, now, error } => {
            if now.before(&expires_at) {
                SessionAction::Connect { renewed: false }
            } else {
                SessionAction::Fail(error)
            }
        },
    }
}

/// Why the server's answer is no activation, if it is none.
pub open spec fn admin_activation_fault(success: bool, message: Seq<char>) -> Option<Seq<char>> {
    if success {
        None
    } else {
        Some("server rejected Admin identity activation: "@ + message)
    }
}

/// Judges the server's answer to an activation.
pub fn admin_activation_outcome(success: bool, message: &str) -> (result: Result<(), String>)
    ensures
        told(result, admin_activation_fault(success, message@)),
{
    if success {
        Ok(())
    } else {
        tell(&concat("server rejected Admin identity activation: ", message))
    }
}

/// A profile is activated exactly if it is the one in its directory.
pub proof fn profiles_are_activated_in_place(profile_id: u128, id: u128, action: SessionAction)
    requires
        session_moves(profile_id, SessionEvent::Loaded(id), action),
    ensures
        action is Activate <==> id == profile_id,
        action is Activate || action is Fail,
{
}

/// A profile is renewed exactly if its certificate ends within thirty days, and otherwise it
/// connects as it is. A renewal that fails keeps the profile in use exactly as long as its
/// certificate lasts.
pub proof fn profiles_are_renewed_in_time(
    profile_id: u128,
    expires_at: Timestamp,
    now: Timestamp,
    error: String,
    action: SessionAction,
    fallback: SessionAction,
)
    requires
        session_moves(profile_id, (SessionEvent::Committed { expires_at, now }), action),
        session_moves(
            profile_id,
            (SessionEvent::RenewalFailed { expires_at, now, error }),
            fallback,
        ),
    ensures
        action is Renew || action == (SessionAction::Connect { renewed: false }),
        expires_at.seconds_spec() > now.seconds_spec() + 30 * 86_400 ==> action is Connect,
        expires_at.seconds_spec() < now.seconds_spec() + 30 * 86_400 ==> action is Renew,
        fallback is Connect <==> expires_at@ > now@,
        fallback is Connect ==> fallback == (SessionAction::Connect { renewed: false }),
        expires_at@ <= now@ ==> (fallback matches SessionAction::Fail(text) && text@ == error@),
{
}

/// A profile whose activation fails is rolled back and not used; one that was activated is
/// committed; and a renewed one connects with what was renewed.
pub proof fn failed_profiles_are_not_used(
    profile_id: u128,
    event: SessionEvent,
    action: SessionAction,
)
    requires
        session_moves(profile_id, event, action),
    ensures
        event is Activated <==> action is Commit,
        event is ActivationFailed <==> action is RollBackIfPrevious,
        event is Renewed ==> action == (SessionAction::Connect { renewed: true }),
        event is RolledBack || event is RollBackFailed || event is CommitFailed ==> action is Fail,
        event matches SessionEvent::RollBackFailed(error) ==> (action matches SessionAction::Fail(
            text,
        ) && text@ == error@),
        event matches SessionEvent::RolledBack { restored: false, error } ==> (
        action matches SessionAction::Fail(text) && text@ == error@),
        action is Connect ==> event is Committed || event is Renewed || event is RenewalFailed,
{
}

/// What is done while every step goes well, from a phase on.
pub open spec fn admin_actions(purpose: AdminPurpose, phase: AdminPhase, steps: nat) -> Seq<
    AdminModel,
>
    decreases steps,
{
    if steps == 0 {
        Seq::empty()
    } else {
        seq![admin_next(purpose, phase, Seq::empty(), Ok(())).1] + admin_actions(
            purpose,
            admin_next(purpose, phase, Seq::empty(), Ok(())).0,
            (steps - 1) as nat,
        )
    }
}

/// An enrollment in which every step goes well locks and prepares the new directory, keeps both
/// keys, asks the server, persists and publishes the answer, activates it, commits it and secures
/// it.
pub proof fn admin_enrollment_runs_to_its_end()
    ensures
        admin_actions(AdminPurpose::Enrollment, AdminPhase::CreatingDirectory, 12) == seq![
            AdminModel::Lock,
            AdminModel::Prepare,
            AdminModel::WriteIdentityKey,
            AdminModel::WriteElevationKey,
            AdminModel::Connect,
            AdminModel::Request,
            AdminModel::Persist,
            AdminModel::Publish,
            AdminModel::Activate,
            AdminModel::Commit,
            AdminModel::Secure,
            AdminModel::Succeed,
        ],
{
    reveal_with_fuel(admin_actions, 13);
    assert(admin_actions(AdminPurpose::Enrollment, AdminPhase::CreatingDirectory, 12) =~= seq![
        AdminModel::Lock,
        AdminModel::Prepare,
        AdminModel::WriteIdentityKey,
        AdminModel::WriteElevationKey,
        AdminModel::Connect,
        AdminModel::Request,
        AdminModel::Persist,
        AdminModel::Publish,
        AdminModel::Activate,
        AdminModel::Commit,
        AdminModel::Secure,
        AdminModel::Succeed,
    ]);
}

/// A renewal in which every step goes well asks the server, persists and publishes the answer,
/// activates it, commits it and secures it.
pub proof fn admin_renewal_runs_to_its_end()
    ensures
        admin_actions(AdminPurpose::Renewal, AdminPhase::Connecting, 7) == seq![
            AdminModel::Request,
            AdminModel::Persist,
            AdminModel::Publish,
            AdminModel::Activate,
            AdminModel::Commit,
            AdminModel::Secure,
            AdminModel::Succeed,
        ],
{
    reveal_with_fuel(admin_actions, 8);
    assert(admin_actions(AdminPurpose::Renewal, AdminPhase::Connecting, 7) =~= seq![
        AdminModel::Request,
        AdminModel::Persist,
        AdminModel::Publish,
        AdminModel::Activate,
        AdminModel::Commit,
        AdminModel::Secure,
        AdminModel::Succeed,
    ]);
}

/// A step that goes wrong ends the transition without success, except that a published generation
/// that is not activated is rolled back first. What was begun is cleaned up unless it is in use,
/// may be needed for recovery, or was there before.
pub proof fn failed_admin_steps_end_the_transition(
    purpose: AdminPurpose,
    phase: AdminPhase,
    profile_dir: Seq<char>,
    error: Seq<char>,
)
    ensures
        ({
            let (next, action) = admin_next(purpose, phase, profile_dir, Err(error));
            &&& !(action is Succeed)
            &&& action is RollBack <==> phase == AdminPhase::Activating
            &&& action is RollBack <==> next == AdminPhase::RollingBack
            &&& !(action is RollBack) ==> action is Fail && next == AdminPhase::Ended
            &&& phase == AdminPhase::Locking || phase == AdminPhase::Preparing || phase
                == AdminPhase::WritingIdentityKey || phase == AdminPhase::WritingElevationKey
                || phase == AdminPhase::Publishing ==> action is Fail && action->clean_up
            &&& phase == AdminPhase::Connecting || phase == AdminPhase::Requesting || phase
                == AdminPhase::Persisting ==> action is Fail && (action->clean_up <==> purpose
                == AdminPurpose::Enrollment)
            &&& phase == AdminPhase::CreatingDirectory || phase == AdminPhase::RollingBack || phase
                == AdminPhase::Committing || phase == AdminPhase::Securing ==> action is Fail
                && !action->clean_up
        }),
        ({
            let (next, action) = admin_next(
                purpose,
                AdminPhase::RollingBack,
                profile_dir,
                Ok(()),
            );
            next == AdminPhase::Ended && action is Fail && action->clean_up
        }),
{
}

/// An invitation is taken exactly if it is valid, for an Admin and not yet expired.
pub proof fn live_admin_invitations_are_taken(
    decoded: Option<EnrollmentInvitationClaims>,
    now: Timestamp,
)
    ensures
        admin_invitation_fault(decoded, now) is None <==> {
            &&& decoded is Some
            &&& decoded->0.valid()
            &&& decoded->0.role == EnrollmentRole::Admin
            &&& now@ < decoded->0.expires_at@
        },
{
}

/// A typed key is opened exactly if it holds at least eighty bytes and opens as any other does.
pub proof fn long_keys_are_opened(access_key: Seq<char>)
    ensures
        typed_payload(access_key) is Ok <==> encode_utf8(access_key).len() >= 80 && opened(
            access_key,
        ) is Ok,
        typed_payload(access_key) is Ok ==> typed_payload(access_key)->Ok_0 == opened(
            access_key,
        )->Ok_0,
{
}

/// An override that is more than blanks is connected to; without one, the invitation's server is.
pub proof fn admin_override_is_connected_to(
    connection_override: Option<Seq<char>>,
    server_name: Seq<char>,
)
    ensures
        connection_override is Some && trim(connection_override->0).len() > 0 ==> connection_host(
            connection_override,
            server_name,
        ) == connection_override->0,
        connection_override is None || trim(connection_override->0).len() == 0 ==> connection_host(
            connection_override,
            server_name,
        ) == server_name,
{
}

/// An answer is taken exactly if it names an identity, an Admin's, with a certificate and a moment
/// at which that expires.
pub proof fn complete_admin_answers_are_taken(response: AdminEnrollmentResponse)
    ensures
        admin_response_fault(response) is None <==> {
            &&& uuid_reading(response.identity_id@) is Ok
            &&& response.role == Some(IdentityRole::Admin)
            &&& response.certificate_chain_pem@.len() > 0
            &&& moment_of(response.expires_at) is Ok
        },
{
}

/// A renewed certificate is taken if it is there and lasts more than a day from now, and not if it
/// lasts less.
pub proof fn renewed_admin_certificate_outlives_a_day(
    chain: Seq<u8>,
    expires_at: Option<WireTimestamp>,
    now: Timestamp,
)
    ensures
        admin_renewal_fault(chain, expires_at, now) is None ==> {
            &&& chain.len() > 0
            &&& moment_of(expires_at) is Ok
            &&& moment_of(expires_at)->Ok_0.0 >= now.seconds_spec() + 86_400
        },
        chain.len() > 0 && moment_of(expires_at) is Ok && moment_of(expires_at)->Ok_0.0
            > now.seconds_spec() + 86_400 ==> admin_renewal_fault(chain, expires_at, now) is None,
{
}

/// A generation is written in full and secured before and after the document that leads to it, and
/// the document is the last thing written.
pub proof fn profiles_are_written_before_they_are_named(
    profile_dir: Seq<char>,
    generation_id: u128,
    with_key: bool,
)
    ensures
        ({
            let steps = profile_persistence(profile_dir, generation_id, with_key);
            &&& steps[0] is PrepareDirectories
            &&& steps.contains(PersistModel::WriteRoot)
            &&& steps.contains(PersistModel::WriteCertificate)
            &&& steps.contains(PersistModel::WritePrivateKey) <==> with_key
            &&& steps.last() is SecureTree
            &&& steps[steps.len() - 3] is SecureTree
            &&& forall|i: int|
                0 <= i < steps.len() ==> ((#[trigger] steps[i]) is WriteDocument <==> i
                    == steps.len() - 2)
        }),
{
    let steps = profile_persistence(profile_dir, generation_id, with_key);
    assert(steps[1] is WriteRoot && steps[2] is WriteCertificate);
    if with_key {
        assert(steps[3] is WritePrivateKey);
    }
}

/// A profile is renewed only while its certificate lasts, and the server's refusal of an activation
/// is told with its own words at the end.
pub proof fn living_profiles_are_renewed(
    expires_at: Timestamp,
    now: Timestamp,
    success: bool,
    message: Seq<char>,
)
    ensures
        expired_fault(expires_at, now) is None <==> now@ < expires_at@,
        admin_activation_fault(success, message) is None <==> success,
        !success ==> message.is_suffix_of(admin_activation_fault(success, message)->0),
{
    if !success {
        let text = admin_activation_fault(success, message)->0;
        assert(text.subrange(text.len() - message.len(), text.len() as int) =~= message);
    }
}

} // verus!
