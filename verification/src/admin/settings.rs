//! The server's settings, as an Admin sees and changes them.

use vstd::prelude::*;

use super::profiles::ServerSettingsView;

verus! {

/// The server's settings as they travel.
#[derive(Debug)]
pub struct ServerSettings {
    pub revision: String,
    pub instance_id: String,
    pub public_host: String,
    pub enrollment_listen: String,
    pub client_listen: String,
    pub admin_listen: String,
    pub database_max_connections: u32,
    pub heartbeat_interval_seconds: u32,
    pub offline_after_seconds: u32,
    pub job_ttl_seconds: u32,
    pub shell_idle_timeout_seconds: u32,
    pub max_shell_frame_bytes: u32,
    pub updates_enabled: bool,
    pub update_channel: String,
    pub update_manifest_url: String,
    pub update_check_interval_seconds: u32,
    pub update_allow_prerelease: bool,
    pub data_dir: String,
    pub local_socket: String,
    pub database_url_env: String,
    pub database_environment_file: String,
    pub root_cert_path: String,
    pub local_only_fields: Vec<String>,
    pub restart_required: bool,
    pub update_latest_version: String,
    pub update_available: bool,
    pub update_last_check_error: String,
}

/// A change of the server's settings, which the server makes only if they still
/// have the expected revision.
#[derive(Debug)]
pub struct SettingsUpdate {
    pub expected_revision: String,
    pub settings: ServerSettings,
}

/// Settings that came from the server, as they are shown.
pub open spec fn shown_settings(settings: ServerSettings) -> ServerSettingsView {
    ServerSettingsView {
        revision: settings.revision,
        instance_id: settings.instance_id,
        public_host: settings.public_host,
        enrollment_listen: settings.enrollment_listen,
        client_listen: settings.client_listen,
        admin_listen: settings.admin_listen,
        database_max_connections: settings.database_max_connections,
        heartbeat_interval_seconds: settings.heartbeat_interval_seconds,
        offline_after_seconds: settings.offline_after_seconds,
        job_ttl_seconds: settings.job_ttl_seconds,
        shell_idle_timeout_seconds: settings.shell_idle_timeout_seconds,
        max_shell_frame_bytes: settings.max_shell_frame_bytes,
        updates_enabled: settings.updates_enabled,
        update_channel: settings.update_channel,
        update_manifest_url: settings.update_manifest_url,
        update_check_interval_seconds: settings.update_check_interval_seconds,
        update_allow_prerelease: settings.update_allow_prerelease,
        data_dir: settings.data_dir,
        local_socket: settings.local_socket,
        database_url_env: settings.database_url_env,
        database_environment_file: settings.database_environment_file,
        root_cert_path: settings.root_cert_path,
        local_only_fields: settings.local_only_fields,
        restart_required: settings.restart_required,
        update_latest_version: settings.update_latest_version,
        update_available: settings.update_available,
        update_last_check_error: settings.update_last_check_error,
    }
}

/// Settings that were shown, as they travel.
pub open spec fn sent_settings(settings: ServerSettingsView) -> ServerSettings {
    ServerSettings {
        revision: settings.revision,
        instance_id: settings.instance_id,
        public_host: settings.public_host,
        enrollment_listen: settings.enrollment_listen,
        client_listen: settings.client_listen,
        admin_listen: settings.admin_listen,
        database_max_connections: settings.database_max_connections,
        heartbeat_interval_seconds: settings.heartbeat_interval_seconds,
        offline_after_seconds: settings.offline_after_seconds,
        job_ttl_seconds: settings.job_ttl_seconds,
        shell_idle_timeout_seconds: settings.shell_idle_timeout_seconds,
        max_shell_frame_bytes: settings.max_shell_frame_bytes,
        updates_enabled: settings.updates_enabled,
        update_channel: settings.update_channel,
        update_manifest_url: settings.update_manifest_url,
        update_check_interval_seconds: settings.update_check_interval_seconds,
        update_allow_prerelease: settings.update_allow_prerelease,
        data_dir: settings.data_dir,
        local_socket: settings.local_socket,
        database_url_env: settings.database_url_env,
        database_environment_file: settings.database_environment_file,
        root_cert_path: settings.root_cert_path,
        local_only_fields: settings.local_only_fields,
        restart_required: settings.restart_required,
        update_latest_version: settings.update_latest_version,
        update_available: settings.update_available,
        update_last_check_error: settings.update_last_check_error,
    }
}

/// Nothing is lost between the server and what is shown, in either direction.
pub proof fn settings_round_trip(sent: ServerSettings, shown: ServerSettingsView)
    ensures
        sent_settings(shown_settings(sent)) == sent,
        shown_settings(sent_settings(shown)) == shown,
{
}

/// Shows settings that came from the server.
pub fn settings_view(settings: ServerSettings) -> (result: ServerSettingsView)
    ensures
        result == shown_settings(settings),
{
    ServerSettingsView {
        revision: settings.revision,
        instance_id: settings.instance_id,
        public_host: settings.public_host,
        enrollment_listen: settings.enrollment_listen,
        client_listen: settings.client_listen,
        admin_listen: settings.admin_listen,
        database_max_connections: settings.database_max_connections,
        heartbeat_interval_seconds: settings.heartbeat_interval_seconds,
        offline_after_seconds: settings.offline_after_seconds,
        job_ttl_seconds: settings.job_ttl_seconds,
        shell_idle_timeout_seconds: settings.shell_idle_timeout_seconds,
        max_shell_frame_bytes: settings.max_shell_frame_bytes,
        updates_enabled: settings.updates_enabled,
        update_channel: settings.update_channel,
        update_manifest_url: settings.update_manifest_url,
        update_check_interval_seconds: settings.update_check_interval_seconds,
        update_allow_prerelease: settings.update_allow_prerelease,
        data_dir: settings.data_dir,
        local_socket: settings.local_socket,
        database_url_env: settings.database_url_env,
        database_environment_file: settings.database_environment_file,
        root_cert_path: settings.root_cert_path,
        local_only_fields: settings.local_only_fields,
        restart_required: settings.restart_required,
        update_latest_version: settings.update_latest_version,
        update_available: settings.update_available,
        update_last_check_error: settings.update_last_check_error,
    }
}

/// Writes settings that were shown as they travel.
pub fn settings_proto(settings: ServerSettingsView) -> (result: ServerSettings)
    ensures
        result == sent_settings(settings),
{
    ServerSettings {
        revision: settings.revision,
        instance_id: settings.instance_id,
        public_host: settings.public_host,
        enrollment_listen: settings.enrollment_listen,
        client_listen: settings.client_listen,
        admin_listen: settings.admin_listen,
        database_max_connections: settings.database_max_connections,
        heartbeat_interval_seconds: settings.heartbeat_interval_seconds,
        offline_after_seconds: settings.offline_after_seconds,
        job_ttl_seconds: settings.job_ttl_seconds,
        shell_idle_timeout_seconds: settings.shell_idle_timeout_seconds,
        max_shell_frame_bytes: settings.max_shell_frame_bytes,
        updates_enabled: settings.updates_enabled,
        update_channel: settings.update_channel,
        update_manifest_url: settings.update_manifest_url,
        update_check_interval_seconds: settings.update_check_interval_seconds,
        update_allow_prerelease: settings.update_allow_prerelease,
        data_dir: settings.data_dir,
        local_socket: settings.local_socket,
        database_url_env: settings.database_url_env,
        database_environment_file: settings.database_environment_file,
        root_cert_path: settings.root_cert_path,
        local_only_fields: settings.local_only_fields,
        restart_required: settings.restart_required,
        update_latest_version: settings.update_latest_version,
        update_available: settings.update_available,
        update_last_check_error: settings.update_last_check_error,
    }
}

/// Asks for a change of the settings. The revision that they were shown with is
/// the one that the server must still have.
pub fn settings_update(settings: ServerSettingsView) -> (result: SettingsUpdate)
    ensures
        result.expected_revision@ == settings.revision@,
        result.settings == sent_settings(settings),
{
    let expected_revision = settings.revision.clone();
    SettingsUpdate { expected_revision, settings: settings_proto(settings) }
}

} // verus!
