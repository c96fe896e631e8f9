//! The persisted configuration of the server and of a client.

use vstd::prelude::*;
use vstd::utf8::encode_utf8;

use crate::address::Address;
use crate::ident::{hyphenated, id_text, parse_id, uuid_value};
use crate::instant::Timestamp;
use crate::paths::{
    absolute, components, is_absolute, join_path, joined, normal, path_components, same_path,
    same_path_as,
};
use crate::text::{
    ascii_digit, ascii_lower, byte_length, characters, concat, control, decimal, has_control,
    numeral, same_text, starts_with, trim, trimmed, views,
};

use super::build_info::{is_supported_channel, supported_channel};
use super::host::{canonical, canonical_host};
use super::url::{plain_https, url_parts, UrlParts};

verus! {

pub const SERVER_CONFIG_SCHEMA_VERSION: u32 = 1;

pub const SERVER_DATABASE_URL_ENV: &'static str = "CENTRALD_DATABASE_URL";

pub const SERVER_DATA_DIR: &'static str = "/var/lib/centrald";

pub const SERVER_LOCAL_SOCKET: &'static str = "/run/centrald/server.sock";

pub const SERVER_DATABASE_ENV_FILE: &'static str = "/etc/centrald/server.env";

pub const CLIENT_DATA_DIR: &'static str = "/var/lib/centrald-client";

#[derive(Debug)]
pub enum ConfigError {
    Validation(String),
    PlatformPath(&'static str),
}

impl ConfigError {
    pub open spec fn message_spec(self) -> Seq<char> {
        match self {
            ConfigError::Validation(text) => "invalid configuration: "@ + text@,
            ConfigError::PlatformPath(text) =>
                "required platform path is unavailable: "@ + text@,
        }
    }

    pub fn message(&self) -> (result: String)
        ensures
            result@ == self.message_spec(),
    {
        match self {
            ConfigError::Validation(text) => concat("invalid configuration: ", text),
            ConfigError::PlatformPath(text) => concat(
                "required platform path is unavailable: ",
                text,
            ),
        }
    }
}

/// Whether a result reports a fault by its text, or is fine without one.
pub open spec fn reports<T>(result: Result<T, ConfigError>, fault: Option<Seq<char>>) -> bool {
    match fault {
        Some(text) => result matches Err(ConfigError::Validation(message)) && message@ == text,
        None => result is Ok,
    }
}

fn invalid<T>(message: &str) -> (result: Result<T, ConfigError>)
    ensures
        reports(result, Some(message@)),
{
    Err(ConfigError::Validation(message.to_owned()))
}

/// Returns the one supported client state root on Unix platforms.
///
/// This location is intentionally not configurable. Privileged repair and
/// service ACL operations must never take their target root from daemon-writable
/// configuration or process environment variables.
pub fn client_data_dir() -> (result: Result<String, ConfigError>)
    ensures
        result is Ok,
        result->Ok_0@ == CLIENT_DATA_DIR@,
{
    Ok(CLIENT_DATA_DIR.to_owned())
}

/// A name inside a Windows directory.
pub open spec fn windows_joined(directory: Seq<char>, name: Seq<char>) -> Seq<char> {
    if directory.len() > 0 && (directory.last() == '\\' || directory.last() == '/') {
        directory + name
    } else {
        directory.push('\\') + name
    }
}

/// Puts a name inside a Windows directory.
pub fn windows_join(directory: &str, name: &str) -> (result: String)
    ensures
        result@ == windows_joined(directory@, name@),
{
    let all = characters(directory);
    let mut result: String = directory.to_owned();
    if !(all.len() > 0 && (all[all.len() - 1] == '\\' || all[all.len() - 1] == '/')) {
        result.push('\\');
    }
    result.append(name);
    result
}

/// Returns the one supported client state root on Windows, from the known
/// folder that Windows returned for program data.
pub fn windows_client_data_dir(program_data: Option<&str>) -> (result: Result<String, ConfigError>)
    ensures
        match program_data {
            Some(directory) => result is Ok && result->Ok_0@ == windows_joined(
                directory@,
                "CentralD"@,
            ),
            None => result matches Err(ConfigError::PlatformPath(text)) && text@
                == "Windows did not return FOLDERID_ProgramData; refusing to guess a machine state path"@,
        },
{
    match program_data {
        Some(directory) => Ok(windows_join(directory, "CentralD")),
        None => Err(
            ConfigError::PlatformPath(
                "Windows did not return FOLDERID_ProgramData; refusing to guess a machine state path",
            ),
        ),
    }
}

/// Returns the package-managed Windows installation directory without trusting
/// `ProgramFiles` from the process environment or guessing a drive on failure.
pub fn client_install_dir(program_files: Option<&str>) -> (result: Result<String, ConfigError>)
    ensures
        match program_files {
            Some(directory) => result is Ok && result->Ok_0@ == windows_joined(
                directory@,
                "CentralD"@,
            ),
            None => result matches Err(ConfigError::PlatformPath(text)) && text@
                == "Windows did not return FOLDERID_ProgramFiles; refusing to guess an installation path"@,
        },
{
    match program_files {
        Some(directory) => Ok(windows_join(directory, "CentralD")),
        None => Err(
            ConfigError::PlatformPath(
                "Windows did not return FOLDERID_ProgramFiles; refusing to guess an installation path",
            ),
        ),
    }
}

/// Returns the administrator-owned Windows service-start policy marker.
///
/// The managed client account has read/execute access to the installation
/// directory but must not be able to change this operator policy.
pub fn client_manual_start_marker(program_files: Option<&str>) -> (result: Result<
    String,
    ConfigError,
>)
    ensures
        match program_files {
            Some(directory) => result is Ok && result->Ok_0@ == windows_joined(
                windows_joined(directory@, "CentralD"@),
                "manual-start.optout"@,
            ),
            None => result is Err,
        },
{
    match client_install_dir(program_files) {
        Ok(directory) => Ok(windows_join(&directory, "manual-start.optout")),
        Err(error) => Err(error),
    }
}

/// Returns an executable in the native Windows system directory without PATH
/// or environment-variable lookup.
pub fn windows_system_executable(system_directory: Option<&str>, name: &str) -> (result: Option<
    String,
>)
    ensures
        match system_directory {
            Some(directory) => result is Some && result->0@ == windows_joined(directory@, name@),
            None => result is None,
        },
{
    match system_directory {
        Some(directory) => Some(windows_join(directory, name)),
        None => None,
    }
}

/// Returns the in-box Windows PowerShell executable without PATH lookup.
/// Failure to query the system directory is propagated by callers rather than
/// falling back to a potentially attacker-controlled hard-coded drive.
pub fn windows_powershell_executable(system_directory: Option<&str>) -> (result: Option<String>)
    ensures
        match system_directory {
            Some(directory) => result is Some && result->0@ == windows_joined(
                windows_joined(windows_joined(directory@, "WindowsPowerShell"@), "v1.0"@),
                "powershell.exe"@,
            ),
            None => result is None,
        },
{
    match system_directory {
        Some(directory) => Some(
            windows_join(
                &windows_join(&windows_join(directory, "WindowsPowerShell"), "v1.0"),
                "powershell.exe",
            ),
        ),
        None => None,
    }
}

/// Where a service listens.
#[derive(Debug, Clone, Copy)]
pub struct Listener {
    pub address: Address,
    pub port: u16,
}

#[derive(Debug)]
pub struct ServerConfig {
    pub schema_version: u32,
    pub server: ServerSection,
    pub database: DatabaseSection,
    pub pki: ServerPkiSection,
    pub runtime: RuntimeSection,
    pub updates: UpdateSection,
}

#[derive(Debug)]
pub struct ServerSection {
    pub instance_id: u128,
    pub public_host: String,
    pub enrollment_listen: Listener,
    pub client_listen: Listener,
    pub admin_listen: Listener,
    pub data_dir: String,
    pub local_socket: String,
}

#[derive(Debug)]
pub struct DatabaseSection {
    pub url_env: String,
    pub environment_file: String,
    pub max_connections: u32,
    /// Dedicated local `PostgreSQL` role created by the guided setup, when used.
    pub managed_local_role: Option<String>,
}

#[derive(Debug)]
pub struct ServerPkiSection {
    pub root_cert: String,
    pub server_chain: String,
    pub server_key: String,
    pub server_issuer_cert: String,
    pub server_issuer_key: String,
    pub client_issuer_cert: String,
    pub client_issuer_key: String,
    pub admin_issuer_cert: String,
    pub admin_issuer_key: String,
    pub grant_signing_key: String,
    pub grant_signing_public_key: String,
}

#[derive(Debug, Clone, Copy, PartialEq, Eq, Structural)]
pub struct RuntimeSection {
    pub heartbeat_interval_seconds: u32,
    pub offline_after_seconds: u32,
    pub job_ttl_seconds: u32,
    pub shell_idle_timeout_seconds: u32,
    pub max_shell_frame_bytes: u32,
}

#[derive(Debug)]
pub struct UpdateSection {
    pub enabled: bool,
    pub channel: String,
    pub manifest_url: String,
    pub check_interval_seconds: u32,
    pub allow_prerelease: bool,
}

/// What is wrong with the runtime section, if anything.
pub open spec fn runtime_fault(runtime: RuntimeSection) -> Option<Seq<char>> {
    if !(5 <= runtime.heartbeat_interval_seconds <= 3600) {
        Some("runtime.heartbeat_interval_seconds must be between 5 and 3600"@)
    } else if runtime.offline_after_seconds <= runtime.heartbeat_interval_seconds
        || runtime.offline_after_seconds > 86_400 {
        Some(
            "runtime.offline_after_seconds must exceed the heartbeat interval and be no more than 86400"@,
        )
    } else if !(1800 <= runtime.job_ttl_seconds <= 604_800) {
        Some(
            "runtime.job_ttl_seconds must be at least 1800 seconds so long broker operations can report their terminal event"@,
        )
    } else if !(30 <= runtime.shell_idle_timeout_seconds <= 86_400) {
        Some("runtime.shell_idle_timeout_seconds must be between 30 and 86400"@)
    } else if !(1024 <= runtime.max_shell_frame_bytes <= 1_048_576) {
        Some("runtime.max_shell_frame_bytes must be between 1024 and 1048576"@)
    } else {
        None
    }
}

/// Validates the runtime section.
pub fn validate_runtime(runtime: &RuntimeSection) -> (result: Result<(), ConfigError>)
    ensures
        reports(result, runtime_fault(*runtime)),
{
    if runtime.heartbeat_interval_seconds < 5 || runtime.heartbeat_interval_seconds > 3600 {
        return invalid("runtime.heartbeat_interval_seconds must be between 5 and 3600");
    }
    if runtime.offline_after_seconds <= runtime.heartbeat_interval_seconds
        || runtime.offline_after_seconds > 86_400 {
        return invalid(
            "runtime.offline_after_seconds must exceed the heartbeat interval and be no more than 86400",
        );
    }
    if runtime.job_ttl_seconds < 1800 || runtime.job_ttl_seconds > 604_800 {
        return invalid(
            "runtime.job_ttl_seconds must be at least 1800 seconds so long broker operations can report their terminal event",
        );
    }
    if runtime.shell_idle_timeout_seconds < 30 || runtime.shell_idle_timeout_seconds > 86_400 {
        return invalid("runtime.shell_idle_timeout_seconds must be between 30 and 86400");
    }
    if runtime.max_shell_frame_bytes < 1024 || runtime.max_shell_frame_bytes > 1_048_576 {
        return invalid("runtime.max_shell_frame_bytes must be between 1024 and 1048576");
    }
    Ok(())
}

/// Whether a channel is one that CentralD serves.
pub fn valid_channel(value: &str) -> (result: bool)
    ensures
        result == supported_channel(value@),
{
    is_supported_channel(value)
}

/// What is wrong with an HTTPS URL, if anything.
pub open spec fn https_fault(value: Seq<char>, label: Seq<char>, allow_path: bool) -> Option<
    Seq<char>,
> {
    parts_fault(url_parts(value), label, allow_path)
}

/// Validates an HTTPS URL.
pub fn validate_https_url(value: &str, label: &str, allow_path: bool) -> (result: Result<
    (),
    ConfigError,
>)
    ensures
        reports(result, https_fault(value@, label@, allow_path)),
{
    validate_url_parts(UrlParts::parse(value), label, allow_path)
}

/// What is wrong with the parts of a URL, if anything.
pub open spec fn parts_fault(
    parts: Option<super::url::UrlModel>,
    label: Seq<char>,
    allow_path: bool,
) -> Option<Seq<char>> {
    match parts {
        None => Some(label + " must be an absolute HTTPS URL"@),
        Some(parts) => if !plain_https(parts) || (!allow_path && parts.path.len() > 0 && parts.path
            != "/"@) {
            Some(label + " must be HTTPS without credentials, a query, or a fragment"@)
        } else {
            None
        },
    }
}

/// The parts that a URL was taken apart into, as a value.
pub open spec fn parts_view(parts: Option<UrlParts>) -> Option<super::url::UrlModel> {
    match parts {
        Some(parts) => Some(parts@),
        None => None,
    }
}

/// Validates an HTTPS URL by its parts.
pub fn validate_url_parts(parts: Option<UrlParts>, label: &str, allow_path: bool) -> (result:
    Result<(), ConfigError>)
    ensures
        reports(result, parts_fault(parts_view(parts), label@, allow_path)),
{
    match parts {
        None => invalid(&concat(label, " must be an absolute HTTPS URL")),
        Some(parts) => {
            if !parts.is_plain_https() || (!allow_path && !parts.path.as_str().is_empty()
                && !same_text(&parts.path, "/")) {
                return invalid(
                    &concat(label, " must be HTTPS without credentials, a query, or a fragment"),
                );
            }
            Ok(())
        },
    }
}

/// What is wrong with a host, if anything: it must be in its canonical form.
pub open spec fn host_fault(value: Seq<char>, label: Seq<char>) -> Option<Seq<char>> {
    match canonical(value) {
        None => Some(
            label
                + " must be a canonical ASCII DNS name or IP without scheme, port, path, or whitespace"@,
        ),
        Some(form) => if form != value {
            Some(label + " must use its canonical form: "@ + form)
        } else {
            None
        },
    }
}

/// Validates that a host is in its canonical form.
pub fn validate_host(value: &str, label: &str) -> (result: Result<(), ConfigError>)
    ensures
        reports(result, host_fault(value@, label@)),
{
    match canonical_host(value) {
        Err(_) => invalid(
            &concat(
                label,
                " must be a canonical ASCII DNS name or IP without scheme, port, path, or whitespace",
            ),
        ),
        Ok(form) => {
            if !same_text(&form, value) {
                let mut message = concat(label, " must use its canonical form: ");
                message.append(&form);
                return invalid(&message);
            }
            Ok(())
        },
    }
}

/// What is wrong with the update section, if anything.
pub open spec fn updates_fault(updates: UpdateSection) -> Option<Seq<char>> {
    if !supported_channel(updates.channel@) {
        Some("updates.channel must be stable, alpha, or beta"@)
    } else if (updates.enabled || updates.manifest_url@.len() > 0) && https_fault(
        updates.manifest_url@,
        "updates.manifest_url"@,
        true,
    ) is Some {
        https_fault(updates.manifest_url@, "updates.manifest_url"@, true)
    } else if updates.enabled && !(300 <= updates.check_interval_seconds <= 2_592_000) {
        Some("updates.check_interval_seconds must be between 300 and 2592000"@)
    } else {
        None
    }
}

/// Validates the update section.
pub fn validate_updates(updates: &UpdateSection) -> (result: Result<(), ConfigError>)
    ensures
        reports(result, updates_fault(*updates)),
{
    if !valid_channel(&updates.channel) {
        return invalid("updates.channel must be stable, alpha, or beta");
    }
    if updates.enabled || !updates.manifest_url.as_str().is_empty() {
        match validate_https_url(&updates.manifest_url, "updates.manifest_url", true) {
            Ok(()) => {},
            Err(error) => return Err(error),
        }
    }
    if updates.enabled && (updates.check_interval_seconds < 300 || updates.check_interval_seconds
        > 2_592_000) {
        return invalid("updates.check_interval_seconds must be between 300 and 2592000");
    }
    Ok(())
}

/// What the file system shows where a path has an ancestor.
#[derive(Debug)]
pub enum AncestorStatus {
    Missing,
    Unreadable(String),
    Entry { real_directory: bool, uid: u32, mode: u32 },
}

/// An ancestor of a path, or the path itself where it is a directory.
#[derive(Debug)]
pub struct Ancestor {
    pub path: String,
    pub status: AncestorStatus,
}

/// What the file system shows of one configured path: why an ancestor of it is
/// unsafe, whether it is a symbolic link, and its ancestors from below.
#[derive(Debug)]
pub struct PathInspection {
    pub unsafe_ancestor: Option<String>,
    pub symbolic_link: bool,
    pub ancestors: Vec<Ancestor>,
}

/// What is wrong with an ancestor, if anything.
pub open spec fn ancestor_fault(ancestor: Ancestor, label: Seq<char>) -> Option<Seq<char>> {
    match ancestor.status {
        AncestorStatus::Missing => None,
        AncestorStatus::Unreadable(error) => Some(
            "could not inspect "@ + label + " ancestor "@ + ancestor.path@ + ": "@ + error@,
        ),
        AncestorStatus::Entry { real_directory, uid, mode } => if !real_directory {
            Some(label + " ancestor "@ + ancestor.path@ + " must be a real directory"@)
        } else if uid != 0 || mode & 0o022 != 0 {
            Some(
                label + " ancestor "@ + ancestor.path@
                    + " must be root-owned and not group/world writable"@,
            )
        } else {
            None
        },
    }
}

/// The first fault among the ancestors from `i` on.
pub open spec fn ancestor_fault_from(ancestors: Seq<Ancestor>, label: Seq<char>, i: int) -> Option<
    Seq<char>,
>
    decreases ancestors.len() - i,
{
    if i < 0 || i >= ancestors.len() {
        None
    } else {
        match ancestor_fault(ancestors[i], label) {
            Some(text) => Some(text),
            None => ancestor_fault_from(ancestors, label, i + 1),
        }
    }
}

/// What is wrong with the ancestors of a path, if anything. At least one of
/// them must exist.
pub open spec fn ancestors_fault(ancestors: Seq<Ancestor>, label: Seq<char>) -> Option<Seq<char>> {
    match ancestor_fault_from(ancestors, label, 0) {
        Some(text) => Some(text),
        None => if exists|i: int|
            0 <= i < ancestors.len() && (#[trigger] ancestors[i]).status is Entry {
            None
        } else {
            Some(label + " has no existing filesystem ancestor"@)
        },
    }
}

/// Validates that every ancestor of a path is a real directory of root's that
/// nobody else may write.
pub fn validate_server_path_parent_security(ancestors: &Vec<Ancestor>, label: &str) -> (result:
    Result<(), ConfigError>)
    ensures
        reports(result, ancestors_fault(ancestors@, label@)),
{
    let mut found_existing = false;
    let mut i: usize = 0;
    while i < ancestors.len()
        invariant
            i <= ancestors.len(),
            ancestor_fault_from(ancestors@, label@, 0) == ancestor_fault_from(
                ancestors@,
                label@,
                i as int,
            ),
            found_existing == exists|j: int|
                0 <= j < i && (#[trigger] ancestors@[j]).status is Entry,
        decreases ancestors.len() - i,
    {
        let ancestor = &ancestors[i];
        match &ancestor.status {
            AncestorStatus::Missing => {},
            AncestorStatus::Unreadable(error) => {
                let mut message = concat("could not inspect ", label);
                message.append(" ancestor ");
                message.append(&ancestor.path);
                message.append(": ");
                message.append(error);
                return invalid(&message);
            },
            AncestorStatus::Entry { real_directory, uid, mode } => {
                found_existing = true;
                assert(ancestors@[i as int].status is Entry);
                let mut message = concat(label, " ancestor ");
                message.append(&ancestor.path);
                if !*real_directory {
                    message.append(" must be a real directory");
                    return invalid(&message);
                }
                if *uid != 0 || *mode & 0o022 != 0 {
                    message.append(" must be root-owned and not group/world writable");
                    return invalid(&message);
                }
            },
        }
        i += 1;
    }
    if found_existing {
        Ok(())
    } else {
        invalid(&concat(label, " has no existing filesystem ancestor"))
    }
}

/// The managed paths of a server: each with its label, its value and the one
/// value that it may have.
pub open spec fn managed_paths(config: ServerConfig) -> Seq<(Seq<char>, Seq<char>, Seq<char>)> {
    let pki = config.pki;
    seq![
        ("server.data_dir"@, config.server.data_dir@, SERVER_DATA_DIR@),
        ("server.local_socket"@, config.server.local_socket@, SERVER_LOCAL_SOCKET@),
        (
            "database.environment_file"@,
            config.database.environment_file@,
            SERVER_DATABASE_ENV_FILE@,
        ),
        ("pki.root_cert"@, pki.root_cert@, "/var/lib/centrald/pki/root-ca.pem"@),
        ("pki.server_chain"@, pki.server_chain@, "/var/lib/centrald/pki/server-chain.pem"@),
        ("pki.server_key"@, pki.server_key@, "/var/lib/centrald/pki/server-key.pem"@),
        (
            "pki.server_issuer_cert"@,
            pki.server_issuer_cert@,
            "/var/lib/centrald/pki/server-issuer.pem"@,
        ),
        (
            "pki.server_issuer_key"@,
            pki.server_issuer_key@,
            "/var/lib/centrald/pki/server-issuer-key.pem"@,
        ),
        (
            "pki.client_issuer_cert"@,
            pki.client_issuer_cert@,
            "/var/lib/centrald/pki/client-issuer.pem"@,
        ),
        (
            "pki.client_issuer_key"@,
            pki.client_issuer_key@,
            "/var/lib/centrald/pki/client-issuer-key.pem"@,
        ),
        (
            "pki.admin_issuer_cert"@,
            pki.admin_issuer_cert@,
            "/var/lib/centrald/pki/admin-issuer.pem"@,
        ),
        (
            "pki.admin_issuer_key"@,
            pki.admin_issuer_key@,
            "/var/lib/centrald/pki/admin-issuer-key.pem"@,
        ),
        (
            "pki.grant_signing_key"@,
            pki.grant_signing_key@,
            "/var/lib/centrald/pki/grant-signing-key.pem"@,
        ),
        (
            "pki.grant_signing_public_key"@,
            pki.grant_signing_public_key@,
            "/var/lib/centrald/pki/grant-signing-public.pem"@,
        ),
    ]
}

/// A managed path with its label and the one value that it may have.
#[derive(Debug)]
pub struct ManagedPath {
    pub label: &'static str,
    pub path: String,
    pub expected: &'static str,
}

/// The view of managed paths.
pub open spec fn managed_views(paths: Seq<ManagedPath>) -> Seq<(Seq<char>, Seq<char>, Seq<char>)> {
    paths.map_values(|path: ManagedPath| (path.label@, path.path@, path.expected@))
}

fn managed(label: &'static str, path: &String, expected: &'static str) -> (result: ManagedPath)
    ensures
        result.label@ == label@,
        result.path@ == path@,
        result.expected@ == expected@,
{
    ManagedPath { label, path: path.clone(), expected }
}

/// Lists the managed paths of a server.
pub fn server_paths(config: &ServerConfig) -> (result: Vec<ManagedPath>)
    ensures
        managed_views(result@) == managed_paths(*config),
{
    let pki = &config.pki;
    let mut result: Vec<ManagedPath> = Vec::new();
    result.push(managed("server.data_dir", &config.server.data_dir, SERVER_DATA_DIR));
    result.push(managed("server.local_socket", &config.server.local_socket, SERVER_LOCAL_SOCKET));
    result.push(
        managed(
            "database.environment_file",
            &config.database.environment_file,
            SERVER_DATABASE_ENV_FILE,
        ),
    );
    result.push(managed("pki.root_cert", &pki.root_cert, "/var/lib/centrald/pki/root-ca.pem"));
    result.push(
        managed("pki.server_chain", &pki.server_chain, "/var/lib/centrald/pki/server-chain.pem"),
    );
    result.push(managed("pki.server_key", &pki.server_key, "/var/lib/centrald/pki/server-key.pem"));
    result.push(
        managed(
            "pki.server_issuer_cert",
            &pki.server_issuer_cert,
            "/var/lib/centrald/pki/server-issuer.pem",
        ),
    );
    result.push(
        managed(
            "pki.server_issuer_key",
            &pki.server_issuer_key,
            "/var/lib/centrald/pki/server-issuer-key.pem",
        ),
    );
    result.push(
        managed(
            "pki.client_issuer_cert",
            &pki.client_issuer_cert,
            "/var/lib/centrald/pki/client-issuer.pem",
        ),
    );
    result.push(
        managed(
            "pki.client_issuer_key",
            &pki.client_issuer_key,
            "/var/lib/centrald/pki/client-issuer-key.pem",
        ),
    );
    result.push(
        managed(
            "pki.admin_issuer_cert",
            &pki.admin_issuer_cert,
            "/var/lib/centrald/pki/admin-issuer.pem",
        ),
    );
    result.push(
        managed(
            "pki.admin_issuer_key",
            &pki.admin_issuer_key,
            "/var/lib/centrald/pki/admin-issuer-key.pem",
        ),
    );
    result.push(
        managed(
            "pki.grant_signing_key",
            &pki.grant_signing_key,
            "/var/lib/centrald/pki/grant-signing-key.pem",
        ),
    );
    result.push(
        managed(
            "pki.grant_signing_public_key",
            &pki.grant_signing_public_key,
            "/var/lib/centrald/pki/grant-signing-public.pem",
        ),
    );
    assert(managed_views(result@) =~= managed_paths(*config));
    result
}

/// The first managed path from `i` on that has another value than its own.
pub open spec fn fixed_fault_from(
    paths: Seq<(Seq<char>, Seq<char>, Seq<char>)>,
    i: int,
) -> Option<Seq<char>>
    decreases paths.len() - i,
{
    if i < 0 || i >= paths.len() {
        None
    } else if !same_path_as(paths[i].1, paths[i].2) {
        Some(paths[i].0 + " is package-managed and must be "@ + paths[i].2)
    } else {
        fixed_fault_from(paths, i + 1)
    }
}

/// Validates that every managed path has the one value that it may have.
pub fn validate_server_fixed_paths(config: &ServerConfig) -> (result: Result<(), ConfigError>)
    ensures
        reports(result, fixed_fault_from(managed_paths(*config), 0)),
{
    let paths = server_paths(config);
    let ghost views = managed_paths(*config);
    let mut i: usize = 0;
    while i < paths.len()
        invariant
            i <= paths.len(),
            views == managed_views(paths@),
            views == managed_paths(*config),
            fixed_fault_from(views, 0) == fixed_fault_from(views, i as int),
        decreases paths.len() - i,
    {
        let path = &paths[i];
        assert(views[i as int] == (path.label@, path.path@, path.expected@));
        if !same_path(&path.path, path.expected) {
            let mut message = concat(path.label, " is package-managed and must be ");
            message.append(path.expected);
            return invalid(&message);
        }
        i += 1;
    }
    Ok(())
}

/// What is wrong with one path as the file system shows it, if anything. A path
/// that was not inspected has no ancestor.
pub open spec fn inspection_fault(
    inspections: Seq<PathInspection>,
    label: Seq<char>,
    i: int,
) -> Option<Seq<char>> {
    if i >= inspections.len() {
        Some(label + " has no existing filesystem ancestor"@)
    } else if inspections[i].unsafe_ancestor is Some {
        Some(
            label + " has an unsafe filesystem ancestor: "@
                + inspections[i].unsafe_ancestor->0@,
        )
    } else if inspections[i].symbolic_link {
        Some(label + " must not be a symbolic link"@)
    } else {
        ancestors_fault(inspections[i].ancestors@, label)
    }
}

/// The first managed path from `i` on that the file system shows to be unsafe.
pub open spec fn storage_fault_from(
    paths: Seq<(Seq<char>, Seq<char>, Seq<char>)>,
    inspections: Seq<PathInspection>,
    i: int,
) -> Option<Seq<char>>
    decreases paths.len() - i,
{
    if i < 0 || i >= paths.len() {
        None
    } else {
        match inspection_fault(inspections, paths[i].0, i) {
            Some(text) => Some(text),
            None => storage_fault_from(paths, inspections, i + 1),
        }
    }
}

fn validate_inspection(inspections: &Vec<PathInspection>, label: &str, i: usize) -> (result: Result<
    (),
    ConfigError,
>)
    ensures
        reports(result, inspection_fault(inspections@, label@, i as int)),
{
    if i >= inspections.len() {
        return invalid(&concat(label, " has no existing filesystem ancestor"));
    }
    let inspection = &inspections[i];
    match &inspection.unsafe_ancestor {
        Some(error) => {
            let mut message = concat(label, " has an unsafe filesystem ancestor: ");
            message.append(error);
            return invalid(&message);
        },
        None => {},
    }
    if inspection.symbolic_link {
        return invalid(&concat(label, " must not be a symbolic link"));
    }
    validate_server_path_parent_security(&inspection.ancestors, label)
}

fn validate_storage(config: &ServerConfig, inspections: &Vec<PathInspection>) -> (result: Result<
    (),
    ConfigError,
>)
    ensures
        reports(result, storage_fault_from(managed_paths(*config), inspections@, 0)),
{
    let paths = server_paths(config);
    let ghost views = managed_paths(*config);
    let mut i: usize = 0;
    while i < paths.len()
        invariant
            i <= paths.len(),
            views == managed_views(paths@),
            views == managed_paths(*config),
            storage_fault_from(views, inspections@, 0) == storage_fault_from(
                views,
                inspections@,
                i as int,
            ),
        decreases paths.len() - i,
    {
        assert(views[i as int].0 == paths@[i as int].label@);
        match validate_inspection(inspections, paths[i].label, i) {
            Ok(()) => {},
            Err(error) => return Err(error),
        }
        i += 1;
    }
    Ok(())
}

pub open spec fn role_character(c: char) -> bool {
    ascii_lower(c) || ascii_digit(c) || c == '_'
}

/// The name of a database role that the guided setup created.
pub open spec fn managed_role(s: Seq<char>) -> bool {
    &&& 10 <= s.len() <= 63
    &&& "centrald_"@.is_prefix_of(s)
    &&& forall|i: int| 0 <= i < s.len() ==> role_character(#[trigger] s[i])
}

fn is_managed_role(role: &str) -> (result: bool)
    ensures
        result == managed_role(role@),
{
    let all = characters(role);
    if all.len() < 10 || all.len() > 63 || !starts_with(role, "centrald_") {
        return false;
    }
    let mut i: usize = 0;
    while i < all.len()
        invariant
            i <= all.len(),
            all@ == role@,
            forall|j: int| 0 <= j < i ==> role_character(#[trigger] role@[j]),
        decreases all.len() - i,
    {
        let c = all[i];
        if !(('a' <= c && c <= 'z') || ('0' <= c && c <= '9') || c == '_') {
            assert(!role_character(role@[i as int]));
            return false;
        }
        i += 1;
    }
    true
}

/// What is wrong with the settings that no file is needed to judge and that
/// come before the paths, if anything.
pub open spec fn server_head_fault(config: ServerConfig) -> Option<Seq<char>> {
    let enrollment = config.server.enrollment_listen.port;
    let client = config.server.client_listen.port;
    let admin = config.server.admin_listen.port;
    if config.schema_version != SERVER_CONFIG_SCHEMA_VERSION {
        Some(
            "unsupported schema_version "@ + numeral(config.schema_version as nat, 10)
                + "; expected 1"@,
        )
    } else if config.server.instance_id == 0 {
        Some("server.instance_id must not be nil"@)
    } else if host_fault(config.server.public_host@, "server.public_host"@) is Some {
        host_fault(config.server.public_host@, "server.public_host"@)
    } else if config.database.url_env@ != SERVER_DATABASE_URL_ENV@ {
        Some("database.url_env must be CENTRALD_DATABASE_URL"@)
    } else if !(1 <= config.database.max_connections <= 100) {
        Some("database.max_connections must be between 1 and 100"@)
    } else if config.database.managed_local_role is Some && !managed_role(
        config.database.managed_local_role->0@,
    ) {
        Some("database.managed_local_role is not a valid CentralD-managed PostgreSQL role"@)
    } else if enrollment == client || enrollment == admin || client == admin {
        Some("enrollment, client, and admin listeners must use distinct ports"@)
    } else if enrollment < 1024 || client < 1024 || admin < 1024 {
        Some(
            "listener ports must be between 1024 and 65535 because the packaged server runs without privileged bind capabilities"@,
        )
    } else {
        None
    }
}

/// What is wrong with a server configuration, if anything: its own settings
/// first, then the managed paths, what the file system shows of them, the
/// runtime and the updates.
pub open spec fn server_fault(config: ServerConfig, inspections: Seq<PathInspection>) -> Option<
    Seq<char>,
> {
    if server_head_fault(config) is Some {
        server_head_fault(config)
    } else if fixed_fault_from(managed_paths(config), 0) is Some {
        fixed_fault_from(managed_paths(config), 0)
    } else if storage_fault_from(managed_paths(config), inspections, 0) is Some {
        storage_fault_from(managed_paths(config), inspections, 0)
    } else if runtime_fault(config.runtime) is Some {
        runtime_fault(config.runtime)
    } else {
        updates_fault(config.updates)
    }
}

impl ServerConfig {
    fn validate_head(&self) -> (result: Result<(), ConfigError>)
        ensures
            reports(result, server_head_fault(*self)),
    {
        if self.schema_version != SERVER_CONFIG_SCHEMA_VERSION {
            let mut message = concat(
                "unsupported schema_version ",
                &decimal(self.schema_version as u64),
            );
            message.append("; expected 1");
            return invalid(&message);
        }
        if self.server.instance_id == 0 {
            return invalid("server.instance_id must not be nil");
        }
        match validate_host(&self.server.public_host, "server.public_host") {
            Ok(()) => {},
            Err(error) => return Err(error),
        }
        if !same_text(&self.database.url_env, SERVER_DATABASE_URL_ENV) {
            return invalid("database.url_env must be CENTRALD_DATABASE_URL");
        }
        if self.database.max_connections < 1 || self.database.max_connections > 100 {
            return invalid("database.max_connections must be between 1 and 100");
        }
        match &self.database.managed_local_role {
            Some(role) => {
                if !is_managed_role(role) {
                    return invalid(
                        "database.managed_local_role is not a valid CentralD-managed PostgreSQL role",
                    );
                }
            },
            None => {},
        }
        let enrollment: u16 = self.server.enrollment_listen.port;
        let client: u16 = self.server.client_listen.port;
        let admin: u16 = self.server.admin_listen.port;
        if enrollment == client || enrollment == admin || client == admin {
            return invalid("enrollment, client, and admin listeners must use distinct ports");
        }
        if enrollment < 1024 || client < 1024 || admin < 1024 {
            return invalid(
                "listener ports must be between 1024 and 65535 because the packaged server runs without privileged bind capabilities",
            );
        }
        Ok(())
    }

    /// Validates every persisted server setting against what the file system
    /// shows of the managed paths, in their order.
    pub fn validate(&self, inspections: &Vec<PathInspection>) -> (result: Result<(), ConfigError>)
        ensures
            reports(result, server_fault(*self, inspections@)),
    {
        match self.validate_head() {
            Ok(()) => {},
            Err(error) => return Err(error),
        }
        match validate_server_fixed_paths(self) {
            Ok(()) => {},
            Err(error) => return Err(error),
        }
        match validate_storage(self, inspections) {
            Ok(()) => {},
            Err(error) => return Err(error),
        }
        match validate_runtime(&self.runtime) {
            Ok(()) => {},
            Err(error) => return Err(error),
        }
        validate_updates(&self.updates)
    }
}

#[derive(Debug)]
pub struct ClientConfig {
    pub identity_id: u128,
    pub identity_name: String,
    pub endpoint: String,
    pub server_name: String,
    pub data_dir: String,
    pub identity_cert: String,
    pub identity_key: String,
    pub root_ca: String,
    pub grant_signing_public_key: String,
    pub certificate_expires_at: Timestamp,
}

impl Clone for ClientConfig {
    fn clone(&self) -> (result: ClientConfig)
        ensures
            result == *self,
    {
        ClientConfig {
            identity_id: self.identity_id,
            identity_name: self.identity_name.clone(),
            endpoint: self.endpoint.clone(),
            server_name: self.server_name.clone(),
            data_dir: self.data_dir.clone(),
            identity_cert: self.identity_cert.clone(),
            identity_key: self.identity_key.clone(),
            root_ca: self.root_ca.clone(),
            grant_signing_public_key: self.grant_signing_public_key.clone(),
            certificate_expires_at: self.certificate_expires_at,
        }
    }
}

/// The directory of one generation of an identity's credentials.
pub open spec fn generation_directory(
    data_dir: Seq<char>,
    identity_id: u128,
    generation: u128,
) -> Seq<char> {
    joined(
        joined(
            joined(joined(data_dir, "identities"@), hyphenated(identity_id)),
            "generations"@,
        ),
        hyphenated(generation),
    )
}

/// The file that holds the configuration of a generation.
pub open spec fn configuration_path(
    data_dir: Seq<char>,
    identity_id: u128,
    generation: u128,
) -> Seq<char> {
    joined(joined(data_dir, "configurations"@), configuration_name(identity_id, generation))
}

/// The name of that file.
pub open spec fn configuration_name(identity_id: u128, generation: u128) -> Seq<char> {
    "client-"@ + hyphenated(identity_id) + "-"@ + hyphenated(generation) + ".toml"@
}

/// Names the directory of one generation of an identity's credentials.
pub fn generation_dir(data_dir: &str, identity_id: u128, generation: u128) -> (result: String)
    ensures
        result@ == generation_directory(data_dir@, identity_id, generation),
{
    join_path(
        &join_path(
            &join_path(&join_path(data_dir, "identities"), &id_text(identity_id)),
            "generations",
        ),
        &id_text(generation),
    )
}

/// Names the file that holds the configuration of a generation.
pub fn configuration_file_name(identity_id: u128, generation: u128) -> (result: String)
    ensures
        result@ == configuration_name(identity_id, generation),
{
    let mut name = concat("client-", &id_text(identity_id));
    name.append("-");
    name.append(&id_text(generation));
    name.append(".toml");
    name
}

/// Names the path of the configuration of a generation.
pub fn configuration_file(data_dir: &str, identity_id: u128, generation: u128) -> (result: String)
    ensures
        result@ == configuration_path(data_dir@, identity_id, generation),
{
    join_path(
        &join_path(data_dir, "configurations"),
        &configuration_file_name(identity_id, generation),
    )
}

/// The text of the generation that an identity key's path names.
pub open spec fn generation_text(identity_key: Seq<char>) -> Result<Seq<char>, Seq<char>> {
    let parts = components(identity_key);
    if parts.len() == 0 {
        Err("client identity key has no generation directory"@)
    } else if parts.len() == 1 || !normal(parts[parts.len() - 2]) {
        Err("client identity generation name is invalid"@)
    } else {
        Ok(parts[parts.len() - 2])
    }
}

/// What a path that is not the expected one is told.
pub open spec fn credential_fault(actual: Seq<char>, expected: Seq<char>) -> Option<Seq<char>> {
    if same_path_as(actual, expected) {
        None
    } else {
        Some("client credential path must be "@ + expected + "; got "@ + actual)
    }
}

/// The first credential path that is not in a directory under its name.
pub open spec fn credentials_fault(config: ClientConfig, directory: Seq<char>) -> Option<
    Seq<char>,
> {
    let cert = credential_fault(config.identity_cert@, joined(directory, "identity-chain.pem"@));
    let key = credential_fault(config.identity_key@, joined(directory, "identity-key.pem"@));
    let root = credential_fault(config.root_ca@, joined(directory, "root-ca.pem"@));
    let grant = credential_fault(
        config.grant_signing_public_key@,
        joined(directory, "grant-signing-public.pem"@),
    );
    if cert is Some {
        cert
    } else if key is Some {
        key
    } else if root is Some {
        root
    } else {
        grant
    }
}

/// The generation that all credential paths of a configuration name.
pub open spec fn generation_of(config: ClientConfig) -> Result<u128, Seq<char>> {
    match generation_text(config.identity_key@) {
        Err(text) => Err(text),
        Ok(name) => match uuid_value(name) {
            None => Err("client identity generation is not a UUID"@),
            Some(generation) => match credentials_fault(
                config,
                generation_directory(config.data_dir@, config.identity_id, generation),
            ) {
                Some(text) => Err(text),
                None => Ok(generation),
            },
        },
    }
}

fn check_credential(actual: &str, directory: &str, name: &str) -> (result: Result<(), ConfigError>)
    ensures
        reports(result, credential_fault(actual@, joined(directory@, name@))),
{
    let expected = join_path(directory, name);
    if !same_path(actual, &expected) {
        let mut message = concat("client credential path must be ", &expected);
        message.append("; got ");
        message.append(actual);
        return invalid(&message);
    }
    Ok(())
}

/// A printable name of at most 128 bytes that is not blank.
pub open spec fn printable_name(s: Seq<char>) -> bool {
    &&& trim(s).len() > 0
    &&& encode_utf8(s).len() <= 128
    &&& forall|i: int| 0 <= i < s.len() ==> !control(#[trigger] s[i])
}

/// Whether a name is printable, not blank, and at most 128 bytes long.
pub fn is_printable_name(name: &str) -> (result: bool)
    ensures
        result == printable_name(name@),
{
    !trimmed(name).as_str().is_empty() && byte_length(name) <= 128 && !has_control(name)
}

/// What is wrong with a client configuration, if anything.
pub open spec fn client_fault(config: ClientConfig) -> Option<Seq<char>> {
    if https_fault(config.endpoint@, "client endpoint"@, false) is Some {
        https_fault(config.endpoint@, "client endpoint"@, false)
    } else if host_fault(config.server_name@, "client server_name"@) is Some {
        host_fault(config.server_name@, "client server_name"@)
    } else if !printable_name(config.identity_name@) {
        Some("client identity_name must be 1-128 printable characters"@)
    } else if !same_path_as(config.data_dir@, CLIENT_DATA_DIR@) {
        Some(
            "client data_dir must be the platform-managed state root /var/lib/centrald-client"@,
        )
    } else if !absolute(config.identity_cert@) || !absolute(config.identity_key@) || !absolute(
        config.root_ca@,
    ) || !absolute(config.grant_signing_public_key@) {
        Some("client identity paths must be absolute and non-empty"@)
    } else {
        match generation_of(config) {
            Ok(_) => None,
            Err(text) => Some(text),
        }
    }
}

impl ClientConfig {
    /// The generation that all credential paths name.
    pub fn identity_generation_id(&self) -> (result: Result<u128, ConfigError>)
        ensures
            match generation_of(*self) {
                Ok(generation) => result == Ok::<u128, ConfigError>(generation),
                Err(text) => reports(result, Some(text)),
            },
    {
        let parts = path_components(&self.identity_key);
        let count: usize = parts.len();
        assert(components(self.identity_key@).len() == count);
        if count == 0 {
            return invalid("client identity key has no generation directory");
        }
        if count == 1 {
            return invalid("client identity generation name is invalid");
        }
        assert(components(self.identity_key@)[count - 2] == parts@[count - 2]@);
        if same_text(&parts[count - 2], ".") || same_text(&parts[count - 2], "..") {
            return invalid("client identity generation name is invalid");
        }
        let generation = match parse_id(&parts[count - 2]) {
            Some(generation) => generation,
            None => return invalid("client identity generation is not a UUID"),
        };
        let directory = generation_dir(&self.data_dir, self.identity_id, generation);
        match check_credential(&self.identity_cert, &directory, "identity-chain.pem") {
            Ok(()) => {},
            Err(error) => return Err(error),
        }
        match check_credential(&self.identity_key, &directory, "identity-key.pem") {
            Ok(()) => {},
            Err(error) => return Err(error),
        }
        match check_credential(&self.root_ca, &directory, "root-ca.pem") {
            Ok(()) => {},
            Err(error) => return Err(error),
        }
        match check_credential(
            &self.grant_signing_public_key,
            &directory,
            "grant-signing-public.pem",
        ) {
            Ok(()) => {},
            Err(error) => return Err(error),
        }
        Ok(generation)
    }

    /// Validates the secure client endpoint and required identity paths.
    pub fn validate(&self) -> (result: Result<(), ConfigError>)
        ensures
            reports(result, client_fault(*self)),
    {
        match validate_https_url(&self.endpoint, "client endpoint", false) {
            Ok(()) => {},
            Err(error) => return Err(error),
        }
        match validate_host(&self.server_name, "client server_name") {
            Ok(()) => {},
            Err(error) => return Err(error),
        }
        if !is_printable_name(&self.identity_name) {
            return invalid("client identity_name must be 1-128 printable characters");
        }
        if !same_path(&self.data_dir, CLIENT_DATA_DIR) {
            return invalid(
                "client data_dir must be the platform-managed state root /var/lib/centrald-client",
            );
        }
        if !is_absolute(&self.identity_cert) || !is_absolute(&self.identity_key) || !is_absolute(
            &self.root_ca,
        ) || !is_absolute(&self.grant_signing_public_key) {
            return invalid("client identity paths must be absolute and non-empty");
        }
        match self.identity_generation_id() {
            Ok(_) => Ok(()),
            Err(error) => Err(error),
        }
    }

    /// Verifies that the configuration filename and all credential paths name
    /// one canonical identity generation under the fixed client state root.
    pub fn validate_storage_path(&self, path: &str) -> (result: Result<(), ConfigError>)
        ensures
            reports(result, storage_fault(*self, path@)),
    {
        let generation = match self.identity_generation_id() {
            Ok(generation) => generation,
            Err(error) => return Err(error),
        };
        if !same_path(&self.data_dir, CLIENT_DATA_DIR) {
            return invalid(
                "client data_dir must be the platform-managed state root /var/lib/centrald-client",
            );
        }
        let expected = configuration_file(&self.data_dir, self.identity_id, generation);
        if !same_path(path, &expected) {
            let mut message = concat("client configuration path must be ", &expected);
            message.append("; got ");
            message.append(path);
            return invalid(&message);
        }
        Ok(())
    }
}

/// What is wrong with where a configuration is stored, if anything: it must lie in
/// the fixed configurations directory, under the name of the generation that its
/// credentials are in.
pub open spec fn storage_fault(config: ClientConfig, path: Seq<char>) -> Option<Seq<char>> {
    match generation_of(config) {
        Err(text) => Some(text),
        Ok(generation) => {
            let expected = configuration_path(config.data_dir@, config.identity_id, generation);
            if !same_path_as(config.data_dir@, CLIENT_DATA_DIR@) {
                Some(
                    "client data_dir must be the platform-managed state root /var/lib/centrald-client"@,
                )
            } else if same_path_as(path, expected) {
                None
            } else {
                Some("client configuration path must be "@ + expected + "; got "@ + path)
            }
        },
    }
}

/// A client configuration that is valid keeps all its credentials in the
/// directory of one generation of its identity, below the fixed state root.
pub proof fn valid_client_keeps_one_generation(config: ClientConfig)
    requires
        client_fault(config) is None,
    ensures
        same_path_as(config.data_dir@, CLIENT_DATA_DIR@),
        generation_of(config) is Ok,
        ({
            let directory = generation_directory(
                config.data_dir@,
                config.identity_id,
                generation_of(config)->Ok_0,
            );
            &&& same_path_as(config.identity_cert@, joined(directory, "identity-chain.pem"@))
            &&& same_path_as(config.identity_key@, joined(directory, "identity-key.pem"@))
            &&& same_path_as(config.root_ca@, joined(directory, "root-ca.pem"@))
            &&& same_path_as(
                config.grant_signing_public_key@,
                joined(directory, "grant-signing-public.pem"@),
            )
        }),
{
}

proof fn fixed_paths_hold(paths: Seq<(Seq<char>, Seq<char>, Seq<char>)>, from: int, i: int)
    requires
        0 <= from <= i < paths.len(),
        fixed_fault_from(paths, from) is None,
    ensures
        same_path_as(paths[i].1, paths[i].2),
    decreases i - from,
{
    if from < i {
        fixed_paths_hold(paths, from + 1, i);
    }
}

proof fn stored_paths_hold(
    paths: Seq<(Seq<char>, Seq<char>, Seq<char>)>,
    inspections: Seq<PathInspection>,
    from: int,
    i: int,
)
    requires
        0 <= from <= i < paths.len(),
        storage_fault_from(paths, inspections, from) is None,
    ensures
        inspection_fault(inspections, paths[i].0, i) is None,
    decreases i - from,
{
    if from < i {
        stored_paths_hold(paths, inspections, from + 1, i);
    }
}

proof fn ancestors_hold(ancestors: Seq<Ancestor>, label: Seq<char>, from: int, i: int)
    requires
        0 <= from <= i < ancestors.len(),
        ancestor_fault_from(ancestors, label, from) is None,
    ensures
        ancestor_fault(ancestors[i], label) is None,
    decreases i - from,
{
    if from < i {
        ancestors_hold(ancestors, label, from + 1, i);
    }
}

/// A server configuration that is valid has every managed path where it belongs,
/// reached through no link, and below directories that only root may write.
pub proof fn valid_server_paths_are_protected(
    config: ServerConfig,
    inspections: Seq<PathInspection>,
    i: int,
    j: int,
)
    requires
        server_fault(config, inspections) is None,
        0 <= i < 14,
    ensures
        same_path_as(managed_paths(config)[i].1, managed_paths(config)[i].2),
        i < inspections.len(),
        inspections[i].unsafe_ancestor is None,
        !inspections[i].symbolic_link,
        0 <= j < inspections[i].ancestors@.len() ==> match inspections[i].ancestors@[j].status {
            AncestorStatus::Missing => true,
            AncestorStatus::Unreadable(_) => false,
            AncestorStatus::Entry { real_directory, uid, mode } => real_directory && uid == 0
                && mode & 0o022 == 0,
        },
{
    let paths = managed_paths(config);
    fixed_paths_hold(paths, 0, i);
    stored_paths_hold(paths, inspections, 0, i);
    if 0 <= j < inspections[i].ancestors@.len() {
        ancestors_hold(inspections[i].ancestors@, paths[i].0, 0, j);
    }
}

/// The listeners of a server configuration that is valid have different ports,
/// for none of which a privilege is needed.
pub proof fn valid_server_ports_are_usable(config: ServerConfig, inspections: Seq<PathInspection>)
    requires
        server_fault(config, inspections) is None,
    ensures
        config.server.enrollment_listen.port >= 1024,
        config.server.client_listen.port >= 1024,
        config.server.admin_listen.port >= 1024,
        config.server.enrollment_listen.port != config.server.client_listen.port,
        config.server.enrollment_listen.port != config.server.admin_listen.port,
        config.server.client_listen.port != config.server.admin_listen.port,
{
}

/// Runtime limits are accepted exactly within their bounds, with a client offline only after it
/// has missed a heartbeat.
pub proof fn bounded_runtimes_are_valid(runtime: RuntimeSection)
    ensures
        runtime_fault(runtime) is None <==> {
            &&& 5 <= runtime.heartbeat_interval_seconds <= 3600
            &&& runtime.heartbeat_interval_seconds < runtime.offline_after_seconds <= 86_400
            &&& 1800 <= runtime.job_ttl_seconds <= 604_800
            &&& 30 <= runtime.shell_idle_timeout_seconds <= 86_400
            &&& 1024 <= runtime.max_shell_frame_bytes <= 1_048_576
        },
{
}

/// Updates that are switched off need no address; ones that are on are looked for at a plain HTTPS
/// address, every five minutes at most and every thirty days at least.
pub proof fn enabled_updates_have_an_address(updates: UpdateSection)
    ensures
        updates_fault(updates) is None <==> {
            &&& updates.channel@ == "stable"@ || updates.channel@ == "alpha"@ || updates.channel@
                == "beta"@
            &&& updates.enabled || updates.manifest_url@.len() > 0 ==> url_parts(
                updates.manifest_url@,
            ) is Some && plain_https(url_parts(updates.manifest_url@)->0)
            &&& updates.enabled ==> 300 <= updates.check_interval_seconds <= 2_592_000
        },
{
}

/// An address is accepted exactly if it is a plain HTTPS one, and without a path where none is
/// allowed.
pub proof fn plain_addresses_are_valid(
    parts: Option<super::url::UrlModel>,
    label: Seq<char>,
    allow_path: bool,
)
    ensures
        parts_fault(parts, label, allow_path) is None <==> {
            &&& parts is Some
            &&& parts->0.scheme == "https"@
            &&& parts->0.host is Some
            &&& parts->0.username.len() == 0
            &&& !parts->0.has_password
            &&& !parts->0.has_query
            &&& !parts->0.has_fragment
            &&& allow_path || parts->0.path.len() == 0 || parts->0.path == "/"@
        },
{
}

/// A host is accepted exactly if it is its own canonical form.
pub proof fn canonical_hosts_are_valid(value: Seq<char>, label: Seq<char>)
    ensures
        host_fault(value, label) is None <==> canonical(value) == Some(value),
{
}

/// An ancestor is trusted exactly if it is not there yet, or is a real directory that belongs to
/// root and that nobody else may write to.
pub proof fn root_owned_ancestors_are_trusted(ancestor: Ancestor, label: Seq<char>)
    ensures
        ancestor_fault(ancestor, label) is None <==> {
            ||| ancestor.status is Missing
            ||| {
                &&& ancestor.status is Entry
                &&& ancestor.status->real_directory
                &&& ancestor.status->uid == 0
                &&& (ancestor.status->mode / 0o20) % 2 == 0
                &&& (ancestor.status->mode / 2) % 2 == 0
            }
        },
{
    if ancestor.status is Entry {
        let mode = ancestor.status->mode;
        assert((mode & 0o022 == 0) <==> (mode / 0o20) % 2 == 0 && (mode / 2) % 2 == 0)
            by (bit_vector);
    }
}

/// A path is trusted exactly if every ancestor is and at least one of them is there.
pub proof fn trusted_paths_have_trusted_ancestors(ancestors: Seq<Ancestor>, label: Seq<char>)
    ensures
        ancestors_fault(ancestors, label) is None <==> {
            &&& forall|i: int|
                0 <= i < ancestors.len() ==> ancestor_fault(#[trigger] ancestors[i], label) is None
            &&& exists|i: int|
                0 <= i < ancestors.len() && (#[trigger] ancestors[i]).status is Entry
        },
{
    if forall|i: int|
        0 <= i < ancestors.len() ==> ancestor_fault(#[trigger] ancestors[i], label) is None {
        trusted_from(ancestors, label, 0);
    }
    if ancestor_fault_from(ancestors, label, 0) is None {
        assert forall|i: int| 0 <= i < ancestors.len() implies ancestor_fault(
            #[trigger] ancestors[i],
            label,
        ) is None by {
            ancestors_hold(ancestors, label, 0, i);
        }
    }
}

proof fn trusted_from(ancestors: Seq<Ancestor>, label: Seq<char>, from: int)
    requires
        0 <= from,
        forall|i: int|
            0 <= i < ancestors.len() ==> ancestor_fault(#[trigger] ancestors[i], label) is None,
    ensures
        ancestor_fault_from(ancestors, label, from) is None,
    decreases ancestors.len() - from,
{
    if from < ancestors.len() {
        trusted_from(ancestors, label, from + 1);
    }
}

/// A server's own values are accepted exactly if they follow the schema, name the server and its
/// host, reach the database by its variable with 1 to 100 connections, and listen on three ports
/// of their own above the privileged ones.
pub proof fn sound_server_values_are_valid(config: ServerConfig)
    ensures
        server_head_fault(config) is None <==> {
            let enrollment = config.server.enrollment_listen.port;
            let client = config.server.client_listen.port;
            let admin = config.server.admin_listen.port;
            &&& config.schema_version == 1
            &&& config.server.instance_id != 0
            &&& canonical(config.server.public_host@) == Some(config.server.public_host@)
            &&& config.database.url_env@ == "CENTRALD_DATABASE_URL"@
            &&& 1 <= config.database.max_connections <= 100
            &&& config.database.managed_local_role is None || managed_role(
                config.database.managed_local_role->0@,
            )
            &&& enrollment != client && enrollment != admin && client != admin
            &&& enrollment >= 1024 && client >= 1024 && admin >= 1024
        },
{
}

/// A server is accepted exactly if its values, its paths, their storage, its limits and its updates
/// are.
pub proof fn sound_servers_are_valid(config: ServerConfig, inspections: Seq<PathInspection>)
    ensures
        server_fault(config, inspections) is None <==> {
            &&& server_head_fault(config) is None
            &&& fixed_fault_from(managed_paths(config), 0) is None
            &&& storage_fault_from(managed_paths(config), inspections, 0) is None
            &&& runtime_fault(config.runtime) is None
            &&& updates_fault(config.updates) is None
        },
{
}

/// Paths that are each where they belong pass, in whatever order they are looked at.
pub proof fn paths_in_place_are_valid(paths: Seq<(Seq<char>, Seq<char>, Seq<char>)>, from: int)
    requires
        0 <= from,
        forall|i: int|
            0 <= i < paths.len() ==> same_path_as((#[trigger] paths[i]).1, paths[i].2),
    ensures
        fixed_fault_from(paths, from) is None,
    decreases paths.len() - from,
{
    if from < paths.len() {
        paths_in_place_are_valid(paths, from + 1);
    }
}

/// A client is accepted exactly if it reaches a server by a plain HTTPS address and a canonical
/// name, has a printable name of its own, keeps its state in its place and names the four
/// credentials of one generation.
pub proof fn sound_clients_are_valid(config: ClientConfig)
    ensures
        client_fault(config) is None <==> {
            &&& parts_fault(url_parts(config.endpoint@), "client endpoint"@, false) is None
            &&& canonical(config.server_name@) == Some(config.server_name@)
            &&& printable_name(config.identity_name@)
            &&& same_path_as(config.data_dir@, "/var/lib/centrald-client"@)
            &&& absolute(config.identity_cert@) && absolute(config.identity_key@) && absolute(
                config.root_ca@,
            ) && absolute(config.grant_signing_public_key@)
            &&& generation_of(config) is Ok
        },
{
}

/// The generation that a configuration names is the one whose directory its key stands in, and it
/// is accepted exactly if all four credentials stand there.
pub proof fn credentials_of_one_generation_are_valid(config: ClientConfig, generation: u128)
    ensures
        generation_of(config) == Ok::<u128, Seq<char>>(generation) <==> {
            let directory = generation_directory(
                config.data_dir@,
                config.identity_id,
                generation,
            );
            &&& generation_text(config.identity_key@) is Ok
            &&& uuid_value(generation_text(config.identity_key@)->Ok_0) == Some(generation)
            &&& same_path_as(config.identity_cert@, joined(directory, "identity-chain.pem"@))
            &&& same_path_as(config.identity_key@, joined(directory, "identity-key.pem"@))
            &&& same_path_as(config.root_ca@, joined(directory, "root-ca.pem"@))
            &&& same_path_as(
                config.grant_signing_public_key@,
                joined(directory, "grant-signing-public.pem"@),
            )
        },
{
}

/// A configuration is kept exactly at the path of its own identity and generation.
pub proof fn configurations_are_kept_in_place(config: ClientConfig, path: Seq<char>)
    ensures
        storage_fault(config, path) is None <==> {
            &&& generation_of(config) is Ok
            &&& same_path_as(config.data_dir@, "/var/lib/centrald-client"@)
            &&& same_path_as(
                path,
                configuration_path(
                    config.data_dir@,
                    config.identity_id,
                    generation_of(config)->Ok_0,
                ),
            )
        },
{
}

} // verus!
