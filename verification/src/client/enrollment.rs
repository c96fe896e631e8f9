//! One-paste client enrollment, and the layout of the client's state.

use vstd::prelude::*;
use vstd::utf8::encode_utf8;

use crate::admin::profiles::IdentityRole;
use crate::common::config::{
    configuration_file, generation_dir, generation_directory, ClientConfig, CLIENT_DATA_DIR,
};
use crate::common::enrollment::{EnrollmentInvitationClaims, EnrollmentRole, MAX_INVITATION_BYTES};
use crate::common::host::{https_endpoint, origin};
use crate::common::secure_fs::EntryKind;
use crate::ident::{hyphenated, id_text, parse_id, uuid_value};
use crate::instant::{nameable, Timestamp};
use crate::paths::{
    absolute, components, file_name, has_parent, is_absolute, is_under, join_path, joined,
    parent_is, path_components, path_file_name, same_path, same_path_as, starts_with_path,
};
use crate::text::{
    after_prefix, before_suffix, byte_length, caused, concat, control, ends_with, fields, has_control,
    has_white_space, lines, parse_unsigned, same_text, split, starts_with, strip_prefix,
    strip_suffix, tell, text_lines, told, trim, trimmed, unsigned, utf8_text, views, white_space,
    with_cause,
};

use super::daemon::{generation_fault, plans_generation, validate_generation, GenerationPlan};

verus! {

/// A moment as it travels: seconds since 1970 and nanoseconds.
#[derive(Debug, Clone, Copy, PartialEq, Eq, Structural)]
pub struct WireTimestamp {
    pub seconds: i64,
    pub nanos: i32,
}

/// The moment that a timestamp denotes, or why it denotes none.
pub open spec fn moment_of(value: Option<WireTimestamp>) -> Result<(int, int), Seq<char>> {
    match value {
        None => Err("timestamp is missing"@),
        Some(value) => if value.nanos < 0 {
            Err("timestamp nanoseconds are invalid"@)
        } else if !nameable(value.seconds as int, value.nanos as int) {
            Err("timestamp is outside the supported range"@)
        } else {
            Ok((value.seconds as int, value.nanos as int))
        },
    }
}

/// Reads a moment as it travels.
pub fn timestamp_to_datetime(value: Option<WireTimestamp>) -> (result: Result<Timestamp, String>)
    ensures
        match moment_of(value) {
            Ok((seconds, nanos)) => result is Ok && result->Ok_0.seconds_spec() == seconds
                && result->Ok_0.nanos_spec() == nanos,
            Err(text) => told(result, Some(text)),
        },
{
    let value = match value {
        Some(value) => value,
        None => return tell("timestamp is missing"),
    };
    if value.nanos < 0 {
        return tell("timestamp nanoseconds are invalid");
    }
    match Timestamp::new(value.seconds, value.nanos as u32) {
        Some(moment) => Ok(moment),
        None => tell("timestamp is outside the supported range"),
    }
}

/// The access key in what was typed or read, or what is wrong with it.
pub open spec fn access_key(value: Seq<char>, label: Seq<char>) -> Result<Seq<char>, Seq<char>> {
    let key = trim(value);
    if key.len() == 0 {
        Err(label + " must not be empty"@)
    } else if exists|i: int| 0 <= i < key.len() && white_space(#[trigger] key[i]) {
        Err(label + " must be one invitation token without whitespace"@)
    } else {
        Ok(key)
    }
}

/// Takes the access key out of what was typed or read.
pub fn normalize_access_key(value: &str, label: &str) -> (result: Result<String, String>)
    ensures
        match access_key(value@, label@) {
            Ok(key) => result is Ok && result->Ok_0@ == key,
            Err(text) => told(result, Some(text)),
        },
{
    let key = trimmed(value);
    if key.as_str().is_empty() {
        return tell(&concat(label, " must not be empty"));
    }
    if has_white_space(&key) {
        return tell(&concat(label, " must be one invitation token without whitespace"));
    }
    Ok(key)
}

/// Where an access key was read from.
#[derive(Debug, Clone, Copy, PartialEq, Eq, Structural)]
pub enum KeySource {
    StandardInput,
    File,
}

/// The access key in bytes that were read, or what is wrong with them.
pub open spec fn key_in_bytes(source: KeySource, bytes: Seq<u8>, label: Seq<char>) -> Result<
    Seq<char>,
    Seq<char>,
> {
    if bytes.len() > MAX_INVITATION_BYTES {
        Err(
            label + match source {
                KeySource::StandardInput => " exceeds the maximum supported invitation size"@,
                KeySource::File => " file exceeds the maximum supported invitation size"@,
            },
        )
    } else if !vstd::utf8::valid_utf8(bytes) {
        Err(
            match source {
                KeySource::StandardInput => "access key from standard input is not UTF-8"@,
                KeySource::File => "access-key file is not UTF-8"@,
            },
        )
    } else {
        access_key(vstd::utf8::decode_utf8(bytes), label)
    }
}

/// Takes the access key out of bytes that were read, of which there is at most
/// one more than there may be.
pub fn read_access_key(source: KeySource, bytes: Vec<u8>, label: &str) -> (result: Result<
    String,
    String,
>)
    ensures
        match key_in_bytes(source, bytes@, label@) {
            Ok(key) => result is Ok && result->Ok_0@ == key,
            Err(text) => told(result, Some(text)),
        },
{
    if bytes.len() > MAX_INVITATION_BYTES {
        return tell(
            &concat(
                label,
                match source {
                    KeySource::StandardInput => " exceeds the maximum supported invitation size",
                    KeySource::File => " file exceeds the maximum supported invitation size",
                },
            ),
        );
    }
    match utf8_text(bytes) {
        Some(text) => {
            proof {
                vstd::utf8::encode_utf8_decode_utf8(text@);
            }
            normalize_access_key(&text, label)
        },
        None => tell(
            match source {
                KeySource::StandardInput => "access key from standard input is not UTF-8",
                KeySource::File => "access-key file is not UTF-8",
            },
        ),
    }
}

/// What the file system shows of an access-key file.
#[derive(Debug, Clone, Copy, PartialEq, Eq, Structural)]
pub struct KeyFileFacts {
    pub kind: EntryKind,
    pub length: u64,
    pub uid: u32,
    pub mode: u32,
    pub links: u64,
    pub device: u64,
    pub inode: u64,
}

/// What the file system shows of a directory above an access-key file.
#[derive(Debug)]
pub struct KeyAncestor {
    pub path: String,
    pub kind: EntryKind,
    pub mode: u32,
    pub uid: u32,
}

/// What is wrong with a directory above an access-key file, if anything.
pub open spec fn key_ancestor_fault(ancestor: KeyAncestor) -> Option<Seq<char>> {
    if !(ancestor.kind is Directory) {
        Some("access-key ancestor must be a real directory: "@ + ancestor.path@)
    } else if ancestor.mode & 0o022 != 0 {
        Some("access-key ancestor must not be group/world writable: "@ + ancestor.path@)
    } else if ancestor.uid != 0 {
        Some("access-key ancestor must be root-owned: "@ + ancestor.path@)
    } else {
        None
    }
}

/// The first fault among the directories above an access-key file from `i` on.
pub open spec fn key_ancestors_fault(ancestors: Seq<KeyAncestor>, i: int) -> Option<Seq<char>>
    decreases ancestors.len() - i,
{
    if i < 0 || i >= ancestors.len() {
        None
    } else {
        match key_ancestor_fault(ancestors[i]) {
            Some(text) => Some(text),
            None => key_ancestors_fault(ancestors, i + 1),
        }
    }
}

/// Checks the directories above an access-key file.
pub fn validate_access_key_ancestors(ancestors: &Vec<KeyAncestor>) -> (result: Result<(), String>)
    ensures
        told(result, key_ancestors_fault(ancestors@, 0)),
{
    let mut i: usize = 0;
    while i < ancestors.len()
        invariant
            i <= ancestors.len(),
            key_ancestors_fault(ancestors@, 0) == key_ancestors_fault(ancestors@, i as int),
        decreases ancestors.len() - i,
    {
        let ancestor = &ancestors[i];
        if ancestor.kind != EntryKind::Directory {
            return tell(
                &concat("access-key ancestor must be a real directory: ", &ancestor.path),
            );
        }
        if ancestor.mode & 0o022 != 0 {
            return tell(
                &concat("access-key ancestor must not be group/world writable: ", &ancestor.path),
            );
        }
        if ancestor.uid != 0 {
            return tell(&concat("access-key ancestor must be root-owned: ", &ancestor.path));
        }
        i += 1;
    }
    Ok(())
}

/// What is wrong with an access-key file before it is opened, if anything.
pub open spec fn key_file_fault(
    path: Seq<char>,
    facts: KeyFileFacts,
    ancestors: Seq<KeyAncestor>,
    label: Seq<char>,
) -> Option<Seq<char>> {
    if !absolute(path) {
        Some("access-key file path must be absolute"@)
    } else if !(facts.kind is Regular) {
        Some("access-key path must be a regular, non-symbolic-link file"@)
    } else if facts.length > MAX_INVITATION_BYTES {
        Some(label + " file exceeds the maximum supported invitation size"@)
    } else if facts.uid != 0 || facts.mode & 0o077 != 0 || facts.links != 1 {
        Some(
            "access-key file must be root-owned, private (no group/other permissions), and single-linked: "@
                + path,
        )
    } else {
        key_ancestors_fault(ancestors, 0)
    }
}

/// Checks an access-key file before it is opened.
pub fn check_access_key_file(
    path: &str,
    facts: &KeyFileFacts,
    ancestors: &Vec<KeyAncestor>,
    label: &str,
) -> (result: Result<(), String>)
    ensures
        told(result, key_file_fault(path@, *facts, ancestors@, label@)),
{
    if !is_absolute(path) {
        return tell("access-key file path must be absolute");
    }
    if facts.kind != EntryKind::Regular {
        return tell("access-key path must be a regular, non-symbolic-link file");
    }
    if facts.length > MAX_INVITATION_BYTES as u64 {
        return tell(&concat(label, " file exceeds the maximum supported invitation size"));
    }
    if facts.uid != 0 || facts.mode & 0o077 != 0 || facts.links != 1 {
        return tell(
            &concat(
                "access-key file must be root-owned, private (no group/other permissions), and single-linked: ",
                path,
            ),
        );
    }
    validate_access_key_ancestors(ancestors)
}

/// Whether an access-key file that was opened is the one that was looked at: a
/// rename between inspection and open fails instead of silently changing which
/// invitation root reads.
pub open spec fn same_key_file(inspected: KeyFileFacts, opened: KeyFileFacts) -> bool {
    &&& opened.device == inspected.device
    &&& opened.inode == inspected.inode
    &&& opened.kind is Regular
    &&& opened.uid == 0
    &&& opened.links == 1
    &&& opened.mode & 0o077 == 0
}

/// The access key in a file, or what is wrong with the file: as it was inspected
/// before it was opened, as it was found then, or in what it holds.
pub open spec fn key_in_file(
    path: Seq<char>,
    inspected: KeyFileFacts,
    ancestors: Seq<KeyAncestor>,
    opened: KeyFileFacts,
    bytes: Seq<u8>,
    label: Seq<char>,
) -> Result<Seq<char>, Seq<char>> {
    match key_file_fault(path, inspected, ancestors, label) {
        Some(text) => Err(text),
        None => if !same_key_file(inspected, opened) {
            Err("access-key file changed while it was being opened"@)
        } else {
            key_in_bytes(KeySource::File, bytes, label)
        },
    }
}

/// Takes the access key out of a file that was inspected, checked and opened. No
/// key comes out of a file that the check before opening refuses.
pub fn read_access_key_file(
    path: &str,
    inspected: &KeyFileFacts,
    ancestors: &Vec<KeyAncestor>,
    opened: &KeyFileFacts,
    bytes: Vec<u8>,
    label: &str,
) -> (result: Result<String, String>)
    ensures
        match key_in_file(path@, *inspected, ancestors@, *opened, bytes@, label@) {
            Ok(key) => result is Ok && result->Ok_0@ == key,
            Err(text) => told(result, Some(text)),
        },
{
    match check_access_key_file(path, inspected, ancestors, label) {
        Ok(()) => {},
        Err(text) => return Err(text),
    }
    if opened.device != inspected.device || opened.inode != inspected.inode || opened.kind
        != EntryKind::Regular || opened.uid != 0 || opened.links != 1 || opened.mode & 0o077 != 0 {
        return tell("access-key file changed while it was being opened");
    }
    read_access_key(KeySource::File, bytes, label)
}

/// What is wrong with the claims of an invitation for a managed client, if
/// anything. `decoded` is what an intact invitation's payload reads as.
pub open spec fn invitation_fault(decoded: Option<EnrollmentInvitationClaims>, now: Timestamp) ->
    Option<Seq<char>> {
    if decoded is None || !decoded->0.valid() {
        Some("invalid CentralD access key"@)
    } else if decoded->0.role != EnrollmentRole::Client {
        Some("this access key is for an Admin, not a managed client"@)
    } else if decoded->0.expires_at@ <= now@ {
        Some("this client invitation has expired"@)
    } else {
        None
    }
}

/// Accepts the claims of an invitation for a managed client.
pub fn accept_invitation(decoded: Option<EnrollmentInvitationClaims>, now: &Timestamp) -> (result:
    Result<EnrollmentInvitationClaims, String>)
    ensures
        told(result, invitation_fault(decoded, *now)),
        result is Ok ==> decoded == Some(result->Ok_0),
{
    let claims = match crate::common::enrollment::accept_claims(decoded) {
        Ok(claims) => claims,
        Err(_) => return tell("invalid CentralD access key"),
    };
    if claims.role != EnrollmentRole::Client {
        return tell("this access key is for an Admin, not a managed client");
    }
    if claims.expires_at.at_or_before(now) {
        return tell("this client invitation has expired");
    }
    Ok(claims)
}

/// The server that the client connects to, or what is wrong with it. A key that
/// was not typed is for unattended provisioning: without an override the
/// invitation's own server is taken, and nothing is asked.
pub open spec fn chosen_server(
    automated: bool,
    server: Option<Seq<char>>,
    typed: Seq<char>,
    default: Seq<char>,
) -> Result<Seq<char>, Seq<char>> {
    match server {
        Some(value) => if trim(value).len() == 0 {
            Err("server must not be empty"@)
        } else {
            Ok(trim(value))
        },
        None => if automated || trim(typed).len() == 0 {
            Ok(default)
        } else {
            Ok(trim(typed))
        },
    }
}

/// Chooses the server that the client connects to; `typed` is what was typed
/// where it was asked for.
pub fn choose_server(automated: bool, server: &Option<String>, typed: &str, default: &str) -> (
    result: Result<String, String>)
    ensures
        match chosen_server(
            automated,
            crate::text::optional_view(*server),
            typed@,
            default@,
        ) {
            Ok(name) => result is Ok && result->Ok_0@ == name,
            Err(text) => told(result, Some(text)),
        },
{
    match server {
        Some(value) => {
            let name = trimmed(value);
            if name.as_str().is_empty() {
                return tell("server must not be empty");
            }
            Ok(name)
        },
        None => {
            let name = trimmed(typed);
            if automated || name.as_str().is_empty() {
                return Ok(default.to_owned());
            }
            Ok(name)
        },
    }
}

/// Whether the server's address is asked for.
pub open spec fn server_is_asked_for(automated: bool, server: Option<String>) -> bool {
    !automated && server is None
}

/// Whether the choice of a server is to be asked for.
pub fn asks_for_server(automated: bool, server: &Option<String>) -> (result: bool)
    ensures
        result == server_is_asked_for(automated, *server),
{
    !automated && server.is_none()
}

/// The endpoint of a service, or what is wrong with the server's name.
pub open spec fn service_origin(server: Seq<char>, port: u16) -> Result<Seq<char>, Seq<char>> {
    let canonical = crate::common::host::canonical(server);
    if port == 0 || canonical is None {
        Err(
            "server must be a canonical ASCII IP or FQDN without credentials, port, path, query, or fragment"@,
        )
    } else {
        Ok(origin(canonical->0, port))
    }
}

/// Builds the endpoint of a service.
pub fn service_endpoint(server: &str, port: u16) -> (result: Result<String, String>)
    ensures
        match service_origin(server@, port) {
            Ok(endpoint) => result is Ok && result->Ok_0@ == endpoint,
            Err(text) => told(result, Some(text)),
        },
{
    match https_endpoint(server, port) {
        Ok(endpoint) => Ok(endpoint),
        Err(_) => tell(
            "server must be a canonical ASCII IP or FQDN without credentials, port, path, query, or fragment",
        ),
    }
}

/// The machine's name as it is told to the server, or what is wrong with it.
pub open spec fn hostname_of(name: Option<Seq<char>>) -> Result<Seq<char>, Seq<char>> {
    match name {
        None => Err("local hostname is not valid UTF-8"@),
        Some(name) => {
            let inner = trim(name);
            if inner.len() == 0 || encode_utf8(inner).len() > 253 || exists|i: int|
                0 <= i < inner.len() && control(#[trigger] inner[i]) {
                Err("local hostname is invalid"@)
            } else {
                Ok(inner)
            }
        },
    }
}

/// Checks the machine's name, which is none where it is no text.
pub fn local_hostname(name: &Option<String>) -> (result: Result<String, String>)
    ensures
        match hostname_of(crate::text::optional_view(*name)) {
            Ok(inner) => result is Ok && result->Ok_0@ == inner,
            Err(text) => told(result, Some(text)),
        },
{
    let inner = match name {
        Some(name) => trimmed(name),
        None => return tell("local hostname is not valid UTF-8"),
    };
    if inner.as_str().is_empty() || byte_length(&inner) > 253 || has_control(&inner) {
        return tell("local hostname is invalid");
    }
    Ok(inner)
}

/// Checks the operating system by the name that the compiler has for it.
pub fn normalized_os(name: &str) -> (result: Result<&'static str, String>)
    ensures
        if name@ == "linux"@ || name@ == "windows"@ {
            result is Ok && result->Ok_0@ == name@
        } else {
            told(result, Some("unsupported client operating system: "@ + name@))
        },
{
    if same_text(name, "linux") {
        Ok("linux")
    } else if same_text(name, "windows") {
        Ok("windows")
    } else {
        tell(&concat("unsupported client operating system: ", name))
    }
}

/// Why a machine's architecture is not supported, if it is not.
pub open spec fn architecture_fault(name: Seq<char>) -> Option<Seq<char>> {
    if name == "x86_64"@ || name == "aarch64"@ {
        None
    } else {
        Some("unsupported client architecture: "@ + name)
    }
}

/// Checks the architecture by the name that the compiler has for it.
pub fn normalized_architecture(name: &str) -> (result: Result<&'static str, String>)
    ensures
        told(result, architecture_fault(name@)),
        result is Ok ==> result->Ok_0@ == name@,
{
    if same_text(name, "x86_64") {
        Ok("x86_64")
    } else if same_text(name, "aarch64") {
        Ok("aarch64")
    } else {
        tell(&concat("unsupported client architecture: ", name))
    }
}

/// The client's identity before an enrollment: it has none, one that can be
/// loaded, or one that cannot.
#[derive(Debug, Clone, Copy, PartialEq, Eq, Structural)]
pub enum ActiveIdentity {
    Absent,
    Usable(u128),
    Unusable,
}

/// The identity that an enrollment replaces, if any, or why there can be no
/// enrollment.
pub open spec fn enrollment_basis_of(reenroll: bool, pending: bool, active: ActiveIdentity) ->
    Result<Option<u128>, Seq<char>> {
    if pending {
        Err(
            "a prior credential publication still needs activation; start the client service or run rescue before enrolling again"@,
        )
    } else {
        match (reenroll, active) {
            (true, ActiveIdentity::Usable(id)) => Ok(Some(id)),
            (true, ActiveIdentity::Unusable) => Err(
                "reenroll requires an existing usable client identity"@,
            ),
            (true, ActiveIdentity::Absent) => Err(
                "reenroll requires an existing enrolled client identity"@,
            ),
            (false, ActiveIdentity::Absent) => Ok(None),
            (false, _) => Err("client is already enrolled; use centrald-client reenroll"@),
        }
    }
}

/// Tells which identity an enrollment replaces; `pending` says whether an earlier
/// publication was not finalized.
pub fn enrollment_basis(reenroll: bool, pending: bool, active: ActiveIdentity) -> (result: Result<
    Option<u128>,
    String,
>)
    ensures
        match enrollment_basis_of(reenroll, pending, active) {
            Ok(previous) => result == Ok::<Option<u128>, String>(previous),
            Err(text) => told(result, Some(text)),
        },
{
    if pending {
        return tell(
            "a prior credential publication still needs activation; start the client service or run rescue before enrolling again",
        );
    }
    match (reenroll, active) {
        (true, ActiveIdentity::Usable(id)) => Ok(Some(id)),
        (true, ActiveIdentity::Unusable) => tell(
            "reenroll requires an existing usable client identity",
        ),
        (true, ActiveIdentity::Absent) => tell(
            "reenroll requires an existing enrolled client identity",
        ),
        (false, ActiveIdentity::Absent) => Ok(None),
        (false, _) => tell("client is already enrolled; use centrald-client reenroll"),
    }
}

/// The server's answer to an enrollment.
#[derive(Debug)]
pub struct EnrollmentResponse {
    pub identity_id: String,
    /// The role that the identity has; none where its number has no meaning.
    pub role: Option<IdentityRole>,
    pub certificate_chain_pem: Vec<u8>,
    pub grant_signing_public_key: Vec<u8>,
    pub expires_at: Option<WireTimestamp>,
}

/// What is wrong with the server's answer to an enrollment, if anything.
pub open spec fn response_fault(response: EnrollmentResponse) -> Option<Seq<char>> {
    if uuid_value(response.identity_id@) is None {
        Some("server returned an invalid identity ID"@)
    } else if response.role != Some(IdentityRole::Client) || response.certificate_chain_pem@.len() == 0
        || response.grant_signing_public_key@.len() == 0 {
        Some("server returned incomplete or mismatched enrollment material"@)
    } else if moment_of(response.expires_at) is Err {
        Some("server returned an invalid certificate expiration"@)
    } else {
        None
    }
}

/// Whether a plan is for the identity that the server issued for an invitation.
pub open spec fn plans_enrollment(
    plan: GenerationPlan,
    claims: EnrollmentInvitationClaims,
    client_endpoint: Seq<char>,
    response: EnrollmentResponse,
    generation_id: u128,
) -> bool {
    let expires_at = plan.config.certificate_expires_at;
    &&& plans_generation(
        plan,
        CLIENT_DATA_DIR@,
        uuid_value(response.identity_id@)->0,
        generation_id,
        expires_at,
    )
    &&& moment_of(response.expires_at) == Ok::<(int, int), Seq<char>>(
        (expires_at.seconds_spec() as int, expires_at.nanos_spec() as int),
    )
    &&& plan.config.identity_name == claims.name
    &&& plan.config.server_name == claims.server_name
    &&& plan.config.endpoint@ == client_endpoint
}

/// Plans the first generation of the identity that the server issued for an
/// invitation.
pub fn plan_enrollment(
    claims: &EnrollmentInvitationClaims,
    client_endpoint: &str,
    response: &EnrollmentResponse,
    generation_id: u128,
) -> (result: Result<GenerationPlan, String>)
    ensures
        match response_fault(*response) {
            Some(text) => told(result, Some(text)),
            None => exists|plan: GenerationPlan|
                {
                    &&& #[trigger] plans_enrollment(
                        plan,
                        *claims,
                        client_endpoint@,
                        *response,
                        generation_id,
                    )
                    &&& told(result, generation_fault(plan))
                    &&& result is Ok ==> result->Ok_0 == plan
                },
        },
{
    let identity_id = match parse_id(&response.identity_id) {
        Some(id) => id,
        None => return tell("server returned an invalid identity ID"),
    };
    if response.role != Some(IdentityRole::Client) || response.certificate_chain_pem.len() == 0
        || response.grant_signing_public_key.len() == 0 {
        return tell("server returned incomplete or mismatched enrollment material");
    }
    let expires_at = match timestamp_to_datetime(response.expires_at) {
        Ok(moment) => moment,
        Err(_) => return tell("server returned an invalid certificate expiration"),
    };
    let identity_dir = generation_dir(CLIENT_DATA_DIR, identity_id, generation_id);
    let config_path = configuration_file(CLIENT_DATA_DIR, identity_id, generation_id);
    let config = ClientConfig {
        identity_id,
        identity_name: claims.name.clone(),
        endpoint: client_endpoint.to_owned(),
        server_name: claims.server_name.clone(),
        data_dir: CLIENT_DATA_DIR.to_owned(),
        identity_cert: join_path(&identity_dir, "identity-chain.pem"),
        identity_key: join_path(&identity_dir, "identity-key.pem"),
        root_ca: join_path(&identity_dir, "root-ca.pem"),
        grant_signing_public_key: join_path(&identity_dir, "grant-signing-public.pem"),
        certificate_expires_at: expires_at,
    };
    let plan = GenerationPlan { generation_id, config, config_path, identity_dir };
    assert(plans_enrollment(plan, *claims, client_endpoint@, *response, generation_id));
    match validate_generation(&plan) {
        Ok(()) => Ok(plan),
        Err(text) => Err(text),
    }
}

/// The path of the configuration that a pointer names, or what is wrong with the
/// name.
pub open spec fn config_target(data_dir: Seq<char>, filename: Seq<char>) -> Result<
    Seq<char>,
    Seq<char>,
> {
    if absolute(filename) || components(filename).len() != 1 || !"client-"@.is_prefix_of(filename)
        || !".toml"@.is_suffix_of(filename) {
        Err("active client configuration pointer is invalid"@)
    } else {
        Ok(joined(joined(data_dir, "configurations"@), filename))
    }
}

/// Names the path of the configuration that a pointer names.
pub fn active_config_target(data_dir: &str, filename: &str) -> (result: Result<String, String>)
    ensures
        match config_target(data_dir@, filename@) {
            Ok(path) => result is Ok && result->Ok_0@ == path,
            Err(text) => told(result, Some(text)),
        },
{
    let parts = path_components(filename);
    assert(views(parts@).len() == parts.len());
    if is_absolute(filename) || parts.len() != 1 || !starts_with(filename, "client-") || !ends_with(
        filename,
        ".toml",
    ) {
        return tell("active client configuration pointer is invalid");
    }
    Ok(join_path(&join_path(data_dir, "configurations"), filename))
}

/// Checks that the configuration that a pointer names is a regular file, by what
/// stands at its path.
pub fn validate_active_config_target(data_dir: &str, filename: &str, kind: EntryKind) -> (result:
    Result<String, String>)
    ensures
        match config_target(data_dir@, filename@) {
            Err(text) => told(result, Some(text)),
            Ok(path) => {
                &&& told(
                    result,
                    match kind {
                        EntryKind::Missing => Some(
                            "inspect active client configuration "@ + path,
                        ),
                        EntryKind::Regular => None,
                        _ => Some(
                            "active client configuration is not a regular file: "@ + path,
                        ),
                    },
                )
                &&& result is Ok ==> result->Ok_0@ == path
            },
        },
{
    let path = match active_config_target(data_dir, filename) {
        Ok(path) => path,
        Err(text) => return Err(text),
    };
    match kind {
        EntryKind::Regular => Ok(path),
        EntryKind::Missing => tell(&concat("inspect active client configuration ", &path)),
        _ => tell(&concat("active client configuration is not a regular file: ", &path)),
    }
}

/// The name under which a configuration is published, or what is wrong with its
/// path.
pub open spec fn published_name(data_dir: Seq<char>, config_path: Seq<char>) -> Result<
    Seq<char>,
    Seq<char>,
> {
    if !parent_is(config_path, joined(data_dir, "configurations"@)) {
        Err("client configuration escaped the protected configurations directory"@)
    } else if file_name(config_path) is None {
        Err("client configuration filename is invalid"@)
    } else {
        match config_target(data_dir, file_name(config_path)->0) {
            Err(text) => Err(text),
            Ok(_) => Ok(file_name(config_path)->0),
        }
    }
}

/// Names a configuration under which it is published.
pub fn publish_active_config(data_dir: &str, config_path: &str) -> (result: Result<String, String>)
    ensures
        match published_name(data_dir@, config_path@) {
            Ok(name) => result is Ok && result->Ok_0@ == name,
            Err(text) => told(result, Some(text)),
        },
{
    if !has_parent(config_path, &join_path(data_dir, "configurations")) {
        return tell("client configuration escaped the protected configurations directory");
    }
    let name = match path_file_name(config_path) {
        Some(name) => name,
        None => return tell("client configuration filename is invalid"),
    };
    match active_config_target(data_dir, &name) {
        Ok(_) => Ok(name),
        Err(text) => Err(text),
    }
}

/// What is told of a publication that was not secured.
pub open spec fn unsecured(error: Seq<char>, rollback: Result<(), Seq<char>>) -> Seq<char> {
    match rollback {
        Ok(_) => error,
        Err(text) => caused(
            "secure active pointer files failed and rollback also failed: "@ + text,
            error,
        ),
    }
}

/// What is told where the pointer's files could not be secured after a
/// publication, by what came of rolling it back.
pub fn publication_not_secured(error: String, rollback: Result<(), String>) -> (result: String)
    ensures
        result@ == unsecured(error@, super::publication::outcome_view(rollback)),
{
    match rollback {
        Ok(()) => error,
        Err(text) => with_cause(
            &concat("secure active pointer files failed and rollback also failed: ", &text),
            &error,
        ),
    }
}

/// Whether a file of the pointer is secured: it is where it is there, and must
/// then be a regular file.
pub fn pointer_file_is_secured(path: &str, kind: EntryKind) -> (result: Result<bool, String>)
    ensures
        match pointer_file_secured(path@, kind) {
            Ok(secured) => result == Ok::<bool, String>(secured),
            Err(text) => told(result, Some(text)),
        },
{
    match kind {
        EntryKind::Missing => Ok(false),
        EntryKind::Regular => Ok(true),
        _ => tell(&concat("refusing unsafe active pointer file ", path)),
    }
}

/// Whether a directory of the client's state is to be created, by what stands
/// there.
pub fn ensure_real_directory(path: &str, kind: EntryKind) -> (result: Result<bool, String>)
    ensures
        match directory_is_made(path@, kind) {
            Ok(made) => result == Ok::<bool, String>(made),
            Err(text) => told(result, Some(text)),
        },
{
    if path.is_empty() {
        return tell("client state directory must not be empty");
    }
    match kind {
        EntryKind::Directory => Ok(false),
        EntryKind::Missing => Ok(true),
        _ => tell(&concat("refusing unsafe client state directory ", path)),
    }
}

/// Why a generation's directory is refused, if it is.
pub open spec fn escape_fault(data_dir: Seq<char>, identity_dir: Seq<char>) -> Option<Seq<char>> {
    if starts_with_path(identity_dir, data_dir) {
        None
    } else {
        Some("client identity generation escaped the protected data directory"@)
    }
}

/// Checks that a generation lies in the protected data directory.
pub fn prepare_identity_generation(data_dir: &str, identity_dir: &str) -> (result: Result<
    (),
    String,
>)
    ensures
        told(result, escape_fault(data_dir@, identity_dir@)),
{
    if !is_under(identity_dir, data_dir) {
        return tell("client identity generation escaped the protected data directory");
    }
    Ok(())
}

/// The identity and the generation that a directory is for, or what is wrong
/// with its path.
pub open spec fn generation_in(data_dir: Seq<char>, identity_dir: Seq<char>) -> Result<
    (u128, u128),
    Seq<char>,
> {
    let parts = components(identity_dir).skip(components(data_dir).len() as int);
    if !starts_with_path(identity_dir, data_dir) {
        Err("client identity generation escaped the fixed data root"@)
    } else if parts.len() != 4 || parts[0] != "identities"@ || parts[2] != "generations"@ {
        Err("client identity generation path has an invalid shape"@)
    } else {
        match uuid_value(parts[1]) {
            None => Err("client identity path is not a UUID"@),
            Some(identity) => match uuid_value(parts[3]) {
                None => Err("client generation path is not a UUID"@),
                Some(generation) => Ok((identity, generation)),
            },
        }
    }
}

/// Reads the identity and the generation that a directory is for from its path.
pub fn parse_generation_path(data_dir: &str, identity_dir: &str) -> (result: Result<
    (u128, u128),
    String,
>)
    ensures
        match generation_in(data_dir@, identity_dir@) {
            Ok(ids) => result == Ok::<(u128, u128), String>(ids),
            Err(text) => told(result, Some(text)),
        },
{
    if !is_under(identity_dir, data_dir) {
        return tell("client identity generation escaped the fixed data root");
    }
    let root = path_components(data_dir);
    let all = path_components(identity_dir);
    let ghost base = components(data_dir@);
    let ghost whole = components(identity_dir@);
    assert(base.len() == root.len() && whole.len() == all.len());
    let skipped: usize = root.len();
    let ghost parts = whole.skip(skipped as int);
    if all.len() - skipped != 4 {
        return tell("client identity generation path has an invalid shape");
    }
    assert(parts[0] == all@[skipped as int]@);
    assert(parts[1] == all@[skipped + 1]@);
    assert(parts[2] == all@[skipped + 2]@);
    assert(parts[3] == all@[skipped + 3]@);
    if !same_text(&all[skipped], "identities") || !same_text(&all[skipped + 2], "generations") {
        return tell("client identity generation path has an invalid shape");
    }
    let identity = match parse_id(&all[skipped + 1]) {
        Some(id) => id,
        None => return tell("client identity path is not a UUID"),
    };
    match parse_id(&all[skipped + 3]) {
        Some(generation) => Ok((identity, generation)),
        None => tell("client generation path is not a UUID"),
    }
}

/// What the layout of a client's state names.
#[derive(Debug, Clone, Copy, PartialEq, Eq, Structural)]
pub struct RepairLayout {
    pub identity_id: u128,
    pub generation_id: u128,
}

/// The text of the generation in the name of an active configuration.
pub open spec fn generation_in_name(filename: Seq<char>, identity_id: u128) -> Option<Seq<char>> {
    match after_prefix(filename, "client-"@ + hyphenated(identity_id) + "-"@) {
        None => None,
        Some(rest) => before_suffix(rest, ".toml"@),
    }
}

/// What a path that is no repair target is told.
pub open spec fn target_fault(actual: Seq<char>, expected: Seq<char>) -> Option<Seq<char>> {
    if same_path_as(actual, expected) {
        None
    } else {
        Some(
            "client configuration contains a nonstandard repair target "@ + actual + "; expected "@
                + expected,
        )
    }
}

/// The first path of a configuration that is no repair target in a directory.
pub open spec fn targets_fault(config: ClientConfig, directory: Seq<char>) -> Option<Seq<char>> {
    let cert = target_fault(config.identity_cert@, joined(directory, "identity-chain.pem"@));
    let key = target_fault(config.identity_key@, joined(directory, "identity-key.pem"@));
    let root = target_fault(config.root_ca@, joined(directory, "root-ca.pem"@));
    let grant = target_fault(
        config.grant_signing_public_key@,
        joined(directory, "grant-signing-public.pem"@),
    );
    if cert is Some {
        cert
    } else if key is Some {
        key
    } else if root is Some {
        root
    } else {
        grant
    }
}

/// What the layout of a client's state names, or what is wrong with it.
pub open spec fn repair_layout_of(config_path: Seq<char>, config: ClientConfig) -> Result<
    RepairLayout,
    Seq<char>,
> {
    if !same_path_as(config.data_dir@, CLIENT_DATA_DIR@) {
        Err("client configuration data root must be "@ + CLIENT_DATA_DIR@)
    } else if !parent_is(config_path, joined(CLIENT_DATA_DIR@, "configurations"@)) {
        Err("active configuration is outside the fixed CentralD configurations directory"@)
    } else if file_name(config_path) is None {
        Err("active configuration filename is invalid"@)
    } else {
        match generation_in_name(file_name(config_path)->0, config.identity_id) {
            None => Err("active configuration filename does not match its identity"@),
            Some(text) => match uuid_value(text) {
                None => Err("active configuration generation UUID is invalid"@),
                Some(generation_id) => match targets_fault(
                    config,
                    generation_directory(CLIENT_DATA_DIR@, config.identity_id, generation_id),
                ) {
                    Some(fault) => Err(fault),
                    None => Ok(RepairLayout { identity_id: config.identity_id, generation_id }),
                },
            },
        }
    }
}

fn check_target(actual: &str, directory: &str, name: &str) -> (result: Result<(), String>)
    ensures
        told(result, target_fault(actual@, joined(directory@, name@))),
{
    let expected = join_path(directory, name);
    if !same_path(actual, &expected) {
        let mut message = concat(
            "client configuration contains a nonstandard repair target ",
            actual,
        );
        message.append("; expected ");
        message.append(&expected);
        return tell(&message);
    }
    Ok(())
}

/// Checks that the active configuration and all its files are where they belong.
pub fn validate_repair_layout(config_path: &str, config: &ClientConfig) -> (result: Result<
    RepairLayout,
    String,
>)
    ensures
        match repair_layout_of(config_path@, *config) {
            Ok(layout) => result == Ok::<RepairLayout, String>(layout),
            Err(text) => told(result, Some(text)),
        },
{
    if !same_path(&config.data_dir, CLIENT_DATA_DIR) {
        return tell(&concat("client configuration data root must be ", CLIENT_DATA_DIR));
    }
    if !has_parent(config_path, &join_path(CLIENT_DATA_DIR, "configurations")) {
        return tell(
            "active configuration is outside the fixed CentralD configurations directory",
        );
    }
    let filename = match path_file_name(config_path) {
        Some(name) => name,
        None => return tell("active configuration filename is invalid"),
    };
    let mut prefix = concat("client-", &id_text(config.identity_id));
    prefix.append("-");
    let rest = match strip_prefix(&filename, &prefix) {
        Some(rest) => rest,
        None => return tell("active configuration filename does not match its identity"),
    };
    let text = match strip_suffix(&rest, ".toml") {
        Some(text) => text,
        None => return tell("active configuration filename does not match its identity"),
    };
    let generation_id = match parse_id(&text) {
        Some(id) => id,
        None => return tell("active configuration generation UUID is invalid"),
    };
    let directory = generation_dir(CLIENT_DATA_DIR, config.identity_id, generation_id);
    match check_target(&config.identity_cert, &directory, "identity-chain.pem") {
        Ok(()) => {},
        Err(text) => return Err(text),
    }
    match check_target(&config.identity_key, &directory, "identity-key.pem") {
        Ok(()) => {},
        Err(text) => return Err(text),
    }
    match check_target(&config.root_ca, &directory, "root-ca.pem") {
        Ok(()) => {},
        Err(text) => return Err(text),
    }
    match check_target(&config.grant_signing_public_key, &directory, "grant-signing-public.pem") {
        Ok(()) => {},
        Err(text) => return Err(text),
    }
    Ok(RepairLayout { identity_id: config.identity_id, generation_id })
}

/// A repair never takes its root from a configuration: what is repaired lies in
/// the fixed state root, whatever the configuration says.
pub proof fn repair_stays_below_the_fixed_root(config_path: Seq<char>, config: ClientConfig)
    requires
        repair_layout_of(config_path, config) is Ok,
    ensures
        same_path_as(config.data_dir@, CLIENT_DATA_DIR@),
        parent_is(config_path, joined(CLIENT_DATA_DIR@, "configurations"@)),
        ({
            let layout = repair_layout_of(config_path, config)->Ok_0;
            let directory = generation_directory(
                CLIENT_DATA_DIR@,
                layout.identity_id,
                layout.generation_id,
            );
            &&& layout.identity_id == config.identity_id
            &&& same_path_as(config.identity_cert@, joined(directory, "identity-chain.pem"@))
            &&& same_path_as(config.identity_key@, joined(directory, "identity-key.pem"@))
            &&& same_path_as(config.root_ca@, joined(directory, "root-ca.pem"@))
            &&& same_path_as(
                config.grant_signing_public_key@,
                joined(directory, "grant-signing-public.pem"@),
            )
        }),
{
}

/// What a line of the account file says of the service account: nothing, its
/// numbers, or what is wrong with it.
pub open spec fn account_in(line: Seq<char>) -> Result<Option<(u32, u32)>, Seq<char>> {
    let parts = split(line, ':');
    if parts.len() == 0 || parts[0] != "centrald"@ {
        Ok(None)
    } else if parts.len() < 3 {
        Err("centrald account has no UID"@)
    } else if unsigned(parts[2], u32::MAX as nat) is None {
        Err("centrald account UID is invalid"@)
    } else if parts.len() < 4 {
        Err("centrald account has no primary GID"@)
    } else if unsigned(parts[3], u32::MAX as nat) is None {
        Err("centrald account GID is invalid"@)
    } else {
        Ok(
            Some(
                (
                    unsigned(parts[2], u32::MAX as nat)->0 as u32,
                    unsigned(parts[3], u32::MAX as nat)->0 as u32,
                ),
            ),
        )
    }
}

/// What the first `n` lines of the account file say of the service account.
pub open spec fn account_before(lines: Seq<Seq<char>>, n: int) -> Result<
    Option<(u32, u32)>,
    Seq<char>,
>
    decreases n,
{
    if n <= 0 {
        Ok(None)
    } else {
        match account_before(lines, n - 1) {
            Err(text) => Err(text),
            Ok(found) => match account_in(lines[n - 1]) {
                Err(text) => Err(text),
                Ok(None) => Ok(found),
                Ok(Some(ids)) => if found is Some {
                    Err("/etc/passwd contains more than one centrald account"@)
                } else {
                    Ok(Some(ids))
                },
            },
        }
    }
}

proof fn account_fault_stands(lines: Seq<Seq<char>>, n: int, m: int)
    requires
        n <= m,
        account_before(lines, n) is Err,
    ensures
        account_before(lines, m) == account_before(lines, n),
    decreases m - n,
{
    if n < m {
        account_fault_stands(lines, n, m - 1);
    }
}

fn account_of_line(line: &str) -> (result: Result<Option<(u32, u32)>, String>)
    ensures
        match account_in(line@) {
            Ok(found) => result == Ok::<Option<(u32, u32)>, String>(found),
            Err(text) => told(result, Some(text)),
        },
{
    let parts = fields(line, ':');
    let ghost texts = split(line@, ':');
    assert(texts.len() == parts.len());
    if parts.len() == 0 {
        return Ok(None);
    }
    assert(texts[0] == parts@[0]@);
    if !same_text(&parts[0], "centrald") {
        return Ok(None);
    }
    if parts.len() < 3 {
        return tell("centrald account has no UID");
    }
    assert(texts[2] == parts@[2]@);
    let uid: u64 = match parse_unsigned(&parts[2], 0xffff_ffff) {
        Some(uid) => uid,
        None => return tell("centrald account UID is invalid"),
    };
    if parts.len() < 4 {
        return tell("centrald account has no primary GID");
    }
    assert(texts[3] == parts@[3]@);
    match parse_unsigned(&parts[3], 0xffff_ffff) {
        Some(gid) => Ok(Some((uid as u32, gid as u32))),
        None => tell("centrald account GID is invalid"),
    }
}

/// Reads the user and group of the service account from the account file, which
/// names it at most once.
pub fn service_account_ids(passwd: &str) -> (result: Result<Option<(u32, u32)>, String>)
    ensures
        match account_before(lines(passwd@), lines(passwd@).len() as int) {
            Ok(found) => result == Ok::<Option<(u32, u32)>, String>(found),
            Err(text) => told(result, Some(text)),
        },
{
    let all = text_lines(passwd);
    let ghost texts = lines(passwd@);
    assert(texts.len() == all.len());
    let mut found: Option<(u32, u32)> = None;
    let mut n: usize = 0;
    while n < all.len()
        invariant
            n <= all.len(),
            texts == views(all@),
            texts == lines(passwd@),
            texts.len() == all.len(),
            account_before(texts, n as int) == Ok::<Option<(u32, u32)>, Seq<char>>(found),
        decreases all.len() - n,
    {
        assert(texts[n as int] == all@[n as int]@);
        match account_of_line(&all[n]) {
            Err(text) => {
                proof {
                    account_fault_stands(texts, n + 1, texts.len() as int);
                }
                return Err(text);
            },
            Ok(None) => {},
            Ok(Some(ids)) => {
                if found.is_some() {
                    proof {
                        account_fault_stands(texts, n + 1, texts.len() as int);
                    }
                    return tell("/etc/passwd contains more than one centrald account");
                }
                found = Some(ids);
            },
        }
        n += 1;
    }
    Ok(found)
}

/// Where a file of the client's state is secured: it is the lock, or it has a
/// name in the configurations directory.
#[derive(Debug)]
pub enum SecuredFile {
    Lock,
    Configuration(String),
}

/// What a file of the client's state is secured as, or why it is not.
pub open spec fn secured_as(
    data_dir: Seq<char>,
    config_path: Seq<char>,
    result: Result<SecuredFile, String>,
) -> bool {
    if same_path_as(config_path, super::unix_state::LOCK_PATH@) {
        result == Ok::<SecuredFile, String>(SecuredFile::Lock)
    } else if !parent_is(config_path, joined(data_dir, "configurations"@)) {
        told(
            result,
            Some("client configuration escaped the protected configurations directory"@),
        )
    } else {
        match file_name(config_path) {
            None => told(result, Some("client configuration filename is invalid"@)),
            Some(name) => {
                &&& result matches Ok(SecuredFile::Configuration(text))
                &&& text@ == name
            },
        }
    }
}

/// Tells where a file of the client's state is secured.
pub fn secure_configuration_file(data_dir: &str, config_path: &str) -> (result: Result<
    SecuredFile,
    String,
>)
    ensures
        secured_as(data_dir@, config_path@, result),
{
    if same_path(config_path, super::unix_state::LOCK_PATH) {
        return Ok(SecuredFile::Lock);
    }
    if !has_parent(config_path, &join_path(data_dir, "configurations")) {
        return tell("client configuration escaped the protected configurations directory");
    }
    match path_file_name(config_path) {
        Some(name) => Ok(SecuredFile::Configuration(name)),
        None => tell("client configuration filename is invalid"),
    }
}

/// The command that enables and starts the client's service on Linux.
pub fn enable_linux_service() -> (result: Vec<String>)
    ensures
        views(result@) == seq![
            "/usr/bin/systemctl"@,
            "enable"@,
            "--now"@,
            "centrald-client.service"@,
        ],
{
    let mut words: Vec<String> = Vec::new();
    words.push("/usr/bin/systemctl".to_owned());
    words.push("enable".to_owned());
    words.push("--now".to_owned());
    words.push("centrald-client.service".to_owned());
    assert(views(words@) =~= seq![
        "/usr/bin/systemctl"@,
        "enable"@,
        "--now"@,
        "centrald-client.service"@,
    ]);
    words
}

/// Whether a file of the pointer is secured, or why it cannot be.
pub open spec fn pointer_file_secured(path: Seq<char>, kind: EntryKind) -> Result<bool, Seq<char>> {
    match kind {
        EntryKind::Missing => Ok(false),
        EntryKind::Regular => Ok(true),
        _ => Err("refusing unsafe active pointer file "@ + path),
    }
}

/// Whether a directory of the state is made, or why it cannot be used.
pub open spec fn directory_is_made(path: Seq<char>, kind: EntryKind) -> Result<bool, Seq<char>> {
    if path.len() == 0 {
        Err("client state directory must not be empty"@)
    } else {
        match kind {
            EntryKind::Directory => Ok(false),
            EntryKind::Missing => Ok(true),
            _ => Err("refusing unsafe client state directory "@ + path),
        }
    }
}

/// A directory of the state is made where there is none and used where there is a real
/// one; nothing else that stands in its place, a link least of all, is used.
pub proof fn state_directories_are_real(path: Seq<char>, kind: EntryKind)
    ensures
        directory_is_made(path, kind) is Ok <==> path.len() > 0 && (kind == EntryKind::Directory
            || kind == EntryKind::Missing),
        directory_is_made(path, kind) matches Ok(made) ==> made == (kind == EntryKind::Missing),
        pointer_file_secured(path, kind) is Ok <==> kind == EntryKind::Regular || kind
            == EntryKind::Missing,
        pointer_file_secured(path, kind) matches Ok(secured) ==> secured == (kind
            == EntryKind::Regular),
{
}

/// An override is connected to, exactly as it was given but for white space around it:
/// neither what was typed nor the invitation's own server takes its place, whether the
/// enrollment is attended or not. A blank override is refused.
pub proof fn override_is_the_destination(
    automated: bool,
    value: Seq<char>,
    typed: Seq<char>,
    default: Seq<char>,
    other_automated: bool,
    other_typed: Seq<char>,
    other_default: Seq<char>,
)
    ensures
        trim(value).len() > 0 ==> chosen_server(automated, Some(value), typed, default) == Ok::<
            Seq<char>,
            Seq<char>,
        >(trim(value)),
        trim(value).len() == 0 ==> chosen_server(automated, Some(value), typed, default) is Err,
        chosen_server(automated, Some(value), typed, default) == chosen_server(
            other_automated,
            Some(value),
            other_typed,
            other_default,
        ),
{
}

/// Without an override an unattended enrollment connects to the invitation's server,
/// and so does an attended one at which nothing is typed; otherwise what is typed is
/// connected to. Nothing of that is ever refused.
pub proof fn invitation_names_the_server_otherwise(
    automated: bool,
    typed: Seq<char>,
    default: Seq<char>,
)
    ensures
        chosen_server(automated, None, typed, default) is Ok,
        automated || trim(typed).len() == 0 ==> chosen_server(automated, None, typed, default)
            == Ok::<Seq<char>, Seq<char>>(default),
        !automated && trim(typed).len() > 0 ==> chosen_server(automated, None, typed, default)
            == Ok::<Seq<char>, Seq<char>>(trim(typed)),
{
}

/// A service is reached at a canonical host and at the port that was asked for, over
/// HTTPS, and at nothing else.
pub proof fn services_are_reached_at_their_port(server: Seq<char>, port: u16)
    ensures
        service_origin(server, port) is Ok <==> port != 0 && crate::common::host::canonical(
            server,
        ) is Some,
        service_origin(server, port) matches Ok(endpoint) ==> {
            &&& "https://"@.is_prefix_of(endpoint)
            &&& crate::text::numeral(port as nat, 10).is_suffix_of(endpoint)
            &&& endpoint == origin(crate::common::host::canonical(server)->0, port)
        },
{
    if service_origin(server, port) is Ok {
        let endpoint = service_origin(server, port)->Ok_0;
        let number = crate::text::numeral(port as nat, 10);
        reveal_strlit("https://");
        reveal_strlit("https://[");
        assert(endpoint.subrange(endpoint.len() - number.len(), endpoint.len() as int) =~= number);
        assert(endpoint.subrange(0, 8) =~= "https://"@);
    }
}

/// An invitation is taken exactly if it is usable, is for a managed client, and has not
/// expired: it is refused from the very instant of its expiry on.
pub proof fn only_live_client_invitations_are_taken(
    claims: EnrollmentInvitationClaims,
    now: Timestamp,
)
    ensures
        invitation_fault(Some(claims), now) is None <==> claims.valid() && claims.role
            == EnrollmentRole::Client && now@ < claims.expires_at@,
        invitation_fault(None, now) is Some,
{
}

/// A first enrollment needs a client without an identity, and another one needs one
/// whose identity it then replaces; while a publication is pending neither is made.
pub proof fn enrollments_build_on_what_is_active(
    reenroll: bool,
    pending: bool,
    active: ActiveIdentity,
)
    ensures
        enrollment_basis_of(reenroll, pending, active) is Ok <==> !pending && (if reenroll {
            active is Usable
        } else {
            active is Absent
        }),
        enrollment_basis_of(reenroll, pending, active) matches Ok(previous) ==> match previous {
            Some(id) => reenroll && active == ActiveIdentity::Usable(id),
            None => !reenroll && active is Absent,
        },
{
}

/// The server's answer is taken exactly if it names an identity of a client, with a
/// certificate, a key to verify grants with, and a moment of expiry.
pub proof fn only_complete_answers_are_taken(response: EnrollmentResponse)
    ensures
        response_fault(response) is None <==> {
            &&& uuid_value(response.identity_id@) is Some
            &&& response.role == Some(IdentityRole::Client)
            &&& response.certificate_chain_pem@.len() > 0
            &&& response.grant_signing_public_key@.len() > 0
            &&& moment_of(response.expires_at) is Ok
        },
{
}

/// What an enrollment persists is the identity that the server answered with, under the
/// name of the invitation, for the endpoint that was chosen, and for as long as the
/// server said; TLS goes on verifying the name of the invitation.
pub proof fn enrolled_identity_is_the_answered_one(
    plan: GenerationPlan,
    claims: EnrollmentInvitationClaims,
    client_endpoint: Seq<char>,
    response: EnrollmentResponse,
    generation_id: u128,
)
    requires
        plans_enrollment(plan, claims, client_endpoint, response, generation_id),
        response_fault(response) is None,
    ensures
        uuid_value(response.identity_id@) == Some(plan.config.identity_id),
        plan.generation_id == generation_id,
        plan.config.identity_name@ == claims.name@,
        plan.config.server_name@ == claims.server_name@,
        plan.config.endpoint@ == client_endpoint,
        plan.config.data_dir@ == "/var/lib/centrald-client"@,
        response.expires_at matches Some(moment) && moment.seconds
            == plan.config.certificate_expires_at.seconds_spec() && moment.nanos
            == plan.config.certificate_expires_at.nanos_spec(),
{
}

/// An access key is one word: it is not empty and holds no white space, and it is what
/// was given but for white space around it.
pub proof fn access_keys_are_one_word(value: Seq<char>, label: Seq<char>)
    ensures
        access_key(value, label) matches Ok(key) ==> {
            &&& key == trim(value)
            &&& key.len() > 0
            &&& forall|i: int| 0 <= i < key.len() ==> !white_space(#[trigger] key[i])
        },
        access_key(value, label) is Err ==> trim(value).len() == 0 || exists|i: int|
            0 <= i < trim(value).len() && white_space(#[trigger] trim(value)[i]),
{
}

/// A key is taken out of a file exactly if the file, before it was opened, was a
/// private regular file of root's with one name and of a bounded size, at an absolute
/// path below real directories that nobody but root may write; if what was opened is
/// that very file, still private; and if it holds one word of UTF-8.
pub proof fn keys_come_from_private_files(
    path: Seq<char>,
    inspected: KeyFileFacts,
    ancestors: Seq<KeyAncestor>,
    opened: KeyFileFacts,
    bytes: Seq<u8>,
    label: Seq<char>,
)
    ensures
        key_in_file(path, inspected, ancestors, opened, bytes, label) is Ok <==> {
            &&& path.len() > 0 && path[0] == '/'
            &&& inspected.kind == EntryKind::Regular
            &&& inspected.length <= 131_072
            &&& inspected.uid == 0
            &&& inspected.mode & 0o077 == 0
            &&& inspected.links == 1
            &&& forall|i: int|
                0 <= i < ancestors.len() ==> (#[trigger] ancestors[i]).kind == EntryKind::Directory
                    && ancestors[i].uid == 0 && ancestors[i].mode & 0o022 == 0
            &&& opened.device == inspected.device
            &&& opened.inode == inspected.inode
            &&& opened.kind == EntryKind::Regular
            &&& opened.uid == 0
            &&& opened.links == 1
            &&& opened.mode & 0o077 == 0
            &&& bytes.len() <= 131_072
            &&& vstd::utf8::valid_utf8(bytes)
            &&& access_key(vstd::utf8::decode_utf8(bytes), label) is Ok
        },
        key_in_file(path, inspected, ancestors, opened, bytes, label) matches Ok(key) ==> key == trim(
            vstd::utf8::decode_utf8(bytes),
        ),
{
    ancestors_are_sound(ancestors, 0);
}

proof fn ancestors_are_sound(ancestors: Seq<KeyAncestor>, i: int)
    requires
        0 <= i <= ancestors.len(),
    ensures
        key_ancestors_fault(ancestors, i) is None <==> forall|j: int|
            i <= j < ancestors.len() ==> (#[trigger] ancestors[j]).kind == EntryKind::Directory
                && ancestors[j].uid == 0 && ancestors[j].mode & 0o022 == 0,
    decreases ancestors.len() - i,
{
    if i < ancestors.len() {
        ancestors_are_sound(ancestors, i + 1);
        assert(key_ancestor_fault(ancestors[i]) is None <==> ancestors[i].kind
            == EntryKind::Directory && ancestors[i].uid == 0 && ancestors[i].mode & 0o022 == 0);
    }
}

/// A piped key is held to the same size and form as one in a file.
pub proof fn piped_keys_are_bounded(bytes: Seq<u8>, label: Seq<char>)
    ensures
        key_in_bytes(KeySource::StandardInput, bytes, label) is Ok <==> key_in_bytes(
            KeySource::File,
            bytes,
            label,
        ) is Ok,
        key_in_bytes(KeySource::StandardInput, bytes, label) matches Ok(key) ==> bytes.len()
            <= 131_072 && key == trim(vstd::utf8::decode_utf8(bytes)),
{
}

/// A moment as it travels is taken exactly as it is, if it can be named.
pub proof fn wire_moments_are_exact(value: Option<WireTimestamp>)
    ensures
        moment_of(value) matches Ok((seconds, nanos)) ==> {
            &&& value is Some
            &&& seconds == value->0.seconds
            &&& nanos == value->0.nanos
            &&& nameable(seconds, nanos)
        },
        value is Some && value->0.nanos >= 0 && nameable(
            value->0.seconds as int,
            value->0.nanos as int,
        ) ==> moment_of(value) is Ok,
{
}

/// The machine's own name is told without white space around it, and never blank, too
/// long or with a control character.
pub proof fn hostnames_are_printable(name: Seq<char>)
    ensures
        hostname_of(Some(name)) is Ok <==> {
            &&& trim(name).len() > 0
            &&& encode_utf8(trim(name)).len() <= 253
            &&& forall|i: int| 0 <= i < trim(name).len() ==> !control(#[trigger] trim(name)[i])
        },
        hostname_of(Some(name)) matches Ok(inner) ==> inner == trim(name),
        hostname_of(None) is Err,
{
}

/// A pointer leads to one file of the configurations directory that is named as a
/// client's configuration.
pub proof fn pointers_lead_to_configurations(data_dir: Seq<char>, filename: Seq<char>)
    ensures
        config_target(data_dir, filename) matches Ok(path) ==> {
            &&& path == joined(joined(data_dir, "configurations"@), filename)
            &&& "client-"@.is_prefix_of(filename)
            &&& ".toml"@.is_suffix_of(filename)
            &&& components(filename).len() == 1
            &&& !absolute(filename)
        },
        config_target(data_dir, filename) is Err ==> absolute(filename) || components(filename).len()
            != 1 || !"client-"@.is_prefix_of(filename) || !".toml"@.is_suffix_of(filename),
{
}

/// A configuration is published under its own name, and only from the configurations
/// directory.
pub proof fn configurations_are_published_by_name(data_dir: Seq<char>, config_path: Seq<char>)
    ensures
        published_name(data_dir, config_path) matches Ok(name) ==> {
            &&& parent_is(config_path, joined(data_dir, "configurations"@))
            &&& file_name(config_path) == Some(name)
            &&& config_target(data_dir, name) is Ok
        },
        parent_is(config_path, joined(data_dir, "configurations"@)) && file_name(config_path) is Some
            && config_target(data_dir, file_name(config_path)->0) is Ok ==> published_name(
            data_dir,
            config_path,
        ) is Ok,
{
}

/// The service account is the one line of the account file that is named for it, and
/// its two numbers are the third and the fourth field of that line.
pub proof fn service_account_is_read_from_its_line(lines: Seq<Seq<char>>, n: int)
    requires
        0 <= n <= lines.len(),
    ensures
        account_before(lines, n) matches Ok(Some((uid, gid))) ==> exists|i: int|
            0 <= i < n && {
                let parts = split(#[trigger] lines[i], ':');
                &&& parts.len() >= 4
                &&& parts[0] == "centrald"@
                &&& unsigned(parts[2], u32::MAX as nat) == Some(uid as nat)
                &&& unsigned(parts[3], u32::MAX as nat) == Some(gid as nat)
            },
        account_before(lines, n) matches Ok(None) ==> forall|i: int|
            0 <= i < n ==> split(#[trigger] lines[i], ':').len() == 0 || split(lines[i], ':')[0]
                != "centrald"@,
    decreases n,
{
    if n > 0 {
        service_account_is_read_from_its_line(lines, n - 1);
        if account_before(lines, n) matches Ok(Some((uid, gid))) {
            let parts = split(lines[n - 1], ':');
            if account_in(lines[n - 1]) matches Ok(Some(ids)) {
                assert(0 <= n - 1 < n);
            }
        }
    }
}

/// Only an operator who sits at the machine and named no server is asked for one.
pub proof fn automated_enrollments_are_not_asked(automated: bool, server: Option<String>)
    ensures
        server_is_asked_for(automated, server) <==> !(automated || server is Some),
{
}

/// A client runs on the two supported architectures and on no other.
pub proof fn two_architectures_are_supported(name: Seq<char>)
    ensures
        architecture_fault(name) is None <==> name == "x86_64"@ || name == "aarch64"@,
        architecture_fault(name) is Some ==> name.is_suffix_of(architecture_fault(name)->0),
{
    if architecture_fault(name) is Some {
        let text = architecture_fault(name)->0;
        assert(text.subrange(text.len() - name.len(), text.len() as int) =~= name);
    }
}

/// The lock is secured as the lock, a configuration in its own directory as itself, and nothing
/// outside is secured.
pub proof fn only_state_files_are_secured(
    data_dir: Seq<char>,
    config_path: Seq<char>,
    result: Result<SecuredFile, String>,
)
    requires
        secured_as(data_dir, config_path, result),
    ensures
        (result matches Ok(SecuredFile::Lock)) <==> same_path_as(
            config_path,
            "/var/lib/centrald-client.lock"@,
        ),
        (result matches Ok(SecuredFile::Configuration(name)) ==> parent_is(
            config_path,
            joined(data_dir, "configurations"@),
        ) && file_name(config_path) == Some(name@)),
        parent_is(config_path, joined(data_dir, "configurations"@)) && file_name(config_path)
            is Some ==> result is Ok,
{
}

/// A rollback that went well adds nothing to what went wrong first.
pub proof fn first_faults_are_told(error: Seq<char>)
    ensures
        unsecured(error, Ok(())) == error,
{
}

/// A generation is prepared exactly below the client's own directory.
pub proof fn generations_stay_below_their_client(data_dir: Seq<char>, identity_dir: Seq<char>)
    ensures
        escape_fault(data_dir, identity_dir) is None <==> starts_with_path(identity_dir, data_dir),
{
}

} // verus!
