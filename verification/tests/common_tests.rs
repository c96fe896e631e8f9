use centrald::address::{parse_address, Address};
use centrald::common::active_pointer::{
    is_pointer_value, ActivePointer, ActivePointerError, PointerAction, PointerFile, PointerSlot,
    FIRST_PUBLICATION_MARK,
};
use centrald::common::build_info::{
    channel_manifest_url, is_supported_channel, manifest_url_for_channel, release_manifest_url,
    tauri_update_manifest_url, RELEASE_CHANNEL,
};
use centrald::common::build_settings::{
    default_update_base, detect_channel, read_config, BuildSettings,
};
use centrald::common::config::{
    client_data_dir, client_install_dir, client_manual_start_marker, valid_channel,
    windows_client_data_dir, windows_powershell_executable, windows_system_executable, Ancestor,
    AncestorStatus, ClientConfig, ConfigError, DatabaseSection, Listener, PathInspection,
    RuntimeSection, ServerConfig, ServerPkiSection, ServerSection, UpdateSection,
    SERVER_CONFIG_SCHEMA_VERSION,
};
use centrald::common::enrollment::{
    accept_claims, claims_text, enrollment_key_id, generate_enrollment_invitation,
    hash_enrollment_key, parse_enrollment_invitation, seal_invitation, verify_enrollment_key,
    EnrollmentInvitationClaims, EnrollmentRole, EnrollmentSecretError,
};
use centrald::common::grant::{GrantError, GrantOperation, PrivilegedGrant};
use centrald::common::host::{canonical_host, https_endpoint};
use centrald::common::https::{follows_redirect, https_redirect_is_allowed};
use centrald::common::release::{
    Architecture, Component, ManifestError, OperatingSystem, PackageKind, ReleaseArtifact,
    ReleaseManifestV1,
};
use centrald::common::secure_fs::{
    file_action_failed, prune_file_backups, replace_file_atomically, replace_file_with_backup,
    validate_no_symlink_ancestors, write_new_file, DirectoryEntry, EntryKind, FileAction,
    Inspected, SecureFileError,
};
use centrald::common::url::UrlParts;
use centrald::common::version::Version;
use centrald::common::{privileged_operations_enabled, terminal_sessions_enabled};
use centrald::crypto::SigningKey;
use centrald::instant::Timestamp;

fn id() -> u128 {
    uuid::Uuid::now_v7().as_u128()
}

fn moment(value: chrono::DateTime<chrono::Utc>) -> Timestamp {
    Timestamp::new(value.timestamp(), value.timestamp_subsec_nanos()).unwrap()
}

fn now() -> Timestamp {
    moment(chrono::Utc::now())
}

fn later(seconds: i64) -> Timestamp {
    moment(chrono::Utc::now() + chrono::Duration::seconds(seconds))
}

fn pointer() -> ActivePointer {
    ActivePointer::new(
        "/state",
        Ok(EntryKind::Directory),
        false,
        PointerSlot::Missing,
        PointerSlot::Missing,
        PointerSlot::Missing,
    )
    .unwrap()
}

#[test]
fn publication_can_commit_and_rollback_without_ordering() {
    let mut pointer = pointer();
    let first = pointer.publish("generation-one.toml").expect("publish");
    first.commit(&mut pointer).expect("commit");
    assert_eq!(pointer.read().expect("read"), "generation-one.toml");

    let pending = pointer.publish("generation-two.toml").expect("publish second");
    assert_eq!(pointer.read().expect("read new"), "generation-two.toml");
    assert_eq!(
        pointer.previous().expect("read previous").as_deref(),
        Some("generation-one.toml")
    );
    pending.rollback(&mut pointer).expect("rollback");
    assert_eq!(pointer.read().expect("read restored"), "generation-one.toml");
}

#[test]
fn a_second_publication_waits_for_the_first() {
    let mut pointer = pointer();
    let first = pointer.publish("a.toml").unwrap();
    first.commit(&mut pointer).unwrap();
    let _pending = pointer.publish("b.toml").unwrap();
    assert!(matches!(
        pointer.publish("c.toml"),
        Err(ActivePointerError::PendingPublication)
    ));
    assert!(pointer.rollback_recovered_if_previous().unwrap());
    assert!(!pointer.rollback_recovered_if_previous().unwrap());
    pointer.commit_recovered().unwrap();
    assert_eq!(pointer.read().unwrap(), "a.toml");
}

#[test]
fn a_pending_first_publication_is_not_overwritten() {
    let mut pointer = pointer();
    let first = pointer.publish("a.toml").unwrap();
    assert!(matches!(
        pointer.publish("b.toml"),
        Err(ActivePointerError::PendingPublication)
    ));
    assert_eq!(pointer.read().unwrap(), "a.toml");
    assert_eq!(pointer.previous().unwrap(), None);
    assert!(!pointer.rollback_recovered_if_previous().unwrap());
    first.commit(&mut pointer).unwrap();
    let second = pointer.publish("b.toml").unwrap();
    second.rollback(&mut pointer).unwrap();
    assert_eq!(pointer.read().unwrap(), "a.toml");
}

#[test]
fn a_first_publication_is_rolled_back_to_nothing() {
    let mut pointer = pointer();
    let first = pointer.publish("a.toml").unwrap();
    first.rollback(&mut pointer).unwrap();
    assert!(matches!(pointer.read(), Err(ActivePointerError::Missing)));
    assert!(pointer.publish("b.toml").is_ok());
}

#[test]
fn a_generic_origin_has_a_directory_for_every_channel() {
    for channel in ["stable", "beta"] {
        assert_eq!(
            channel_manifest_url(
                "",
                "https://example.test/centrald",
                "centrald-release.yml",
                channel
            ),
            format!("https://example.test/centrald/{channel}/latest/centrald-release.yml")
        );
        assert_eq!(
            default_update_base("https://example.test/centrald/", channel).unwrap(),
            format!("https://example.test/centrald/{channel}/latest")
        );
    }
}

#[test]
fn the_pointer_refuses_what_is_unsafe() {
    let opened = |found: Result<EntryKind, String>| {
        ActivePointer::new(
            "/state",
            found,
            false,
            PointerSlot::Missing,
            PointerSlot::Missing,
            PointerSlot::Missing,
        )
    };
    assert!(opened(Ok(EntryKind::Directory)).is_ok());
    for kind in [EntryKind::Symlink, EntryKind::Regular, EntryKind::Other] {
        assert!(matches!(
            opened(Ok(kind)),
            Err(ActivePointerError::UnsafeDirectory(path)) if path == "/state"
        ));
    }
    assert!(matches!(
        opened(Ok(EntryKind::Missing)),
        Err(ActivePointerError::Io { path, .. }) if path == "/state"
    ));
    let denied = opened(Err("Permission denied (os error 13)".into())).err().unwrap();
    assert_eq!(
        denied.message(),
        "active-pointer I/O failed for /state: Permission denied (os error 13)"
    );
    let mut empty = pointer();
    assert!(matches!(empty.read(), Err(ActivePointerError::Missing)));
    assert!(matches!(
        empty.publish("../escape"),
        Err(ActivePointerError::InvalidValue)
    ));
    let mut locked = ActivePointer::new(
        "/state",
        Ok(EntryKind::Directory),
        true,
        PointerSlot::Missing,
        PointerSlot::Missing,
        PointerSlot::Missing,
    )
    .unwrap();
    assert!(matches!(
        locked.read(),
        Err(ActivePointerError::UnsafeFile(path)) if path == "/state/.current.pointer.lock"
    ));
    let mut linked = ActivePointer::new(
        "/state",
        Ok(EntryKind::Directory),
        false,
        PointerSlot::Unsafe,
        PointerSlot::Missing,
        PointerSlot::Missing,
    )
    .unwrap();
    assert!(matches!(
        linked.read(),
        Err(ActivePointerError::UnsafeFile(path)) if path == "/state/current.pointer"
    ));
    let mut binary = ActivePointer::new(
        "/state",
        Ok(EntryKind::Directory),
        false,
        PointerSlot::Unreadable("stream did not contain valid UTF-8".into()),
        PointerSlot::Missing,
        PointerSlot::Missing,
    )
    .unwrap();
    assert!(matches!(
        binary.read(),
        Err(ActivePointerError::Io { path, source })
            if path == "/state/current.pointer" && source == "stream did not contain valid UTF-8"
    ));
}

#[test]
fn an_empty_previous_file_is_an_invalid_value() {
    let open = |current: PointerSlot, previous: PointerSlot| {
        ActivePointer::new(
            "/state",
            Ok(EntryKind::Directory),
            false,
            current,
            PointerSlot::Missing,
            previous,
        )
        .unwrap()
    };
    let empty = || PointerSlot::File(String::new());
    let mut beside = open(PointerSlot::File("a.toml\n".into()), empty());
    assert!(matches!(beside.previous(), Err(ActivePointerError::InvalidValue)));
    assert!(matches!(beside.publish("b.toml"), Err(ActivePointerError::PendingPublication)));
    assert!(beside.rollback_recovered_if_previous().unwrap());
    assert!(matches!(beside.read(), Err(ActivePointerError::InvalidValue)));
    let mut alone = open(PointerSlot::Missing, empty());
    assert!(matches!(alone.read(), Err(ActivePointerError::InvalidValue)));
    assert!(matches!(
        alone.plan()[0],
        PointerAction::Rename { from: PointerFile::Previous, to: PointerFile::Current }
    ));
    let mark = || PointerSlot::File(FIRST_PUBLICATION_MARK.into());
    let mut marked = open(PointerSlot::Missing, mark());
    assert!(matches!(marked.read(), Err(ActivePointerError::Missing)));
    assert!(!is_pointer_value(FIRST_PUBLICATION_MARK.trim()));
}

#[test]
fn an_interrupted_publication_is_recovered() {
    // The old file stepped back and the staged one did not take its place yet.
    let mut pointer = ActivePointer::new(
        "/state",
        Ok(EntryKind::Directory),
        false,
        PointerSlot::Missing,
        PointerSlot::File("new.toml\n".to_owned()),
        PointerSlot::File("old.toml\n".to_owned()),
    )
    .unwrap();
    assert_eq!(pointer.read().unwrap(), "new.toml");
    assert_eq!(pointer.previous().unwrap().as_deref(), Some("old.toml"));
    assert!(matches!(
        pointer.plan()[0],
        PointerAction::Rename { from: PointerFile::Next, to: PointerFile::Current }
    ));

    // A torn staged file beside a current one is discarded.
    let mut torn = ActivePointer::new(
        "/state",
        Ok(EntryKind::Directory),
        false,
        PointerSlot::File("old.toml\n".to_owned()),
        PointerSlot::File("ne".to_owned()),
        PointerSlot::Missing,
    )
    .unwrap();
    assert_eq!(torn.read().unwrap(), "old.toml");
    assert!(matches!(torn.plan()[0], PointerAction::Remove(PointerFile::Next)));
}

#[test]
fn a_failed_publication_is_undone() {
    let mut pointer = ActivePointer::new(
        "/state",
        Ok(EntryKind::Directory),
        false,
        PointerSlot::Missing,
        PointerSlot::File("new.toml\n".to_owned()),
        PointerSlot::File("old.toml\n".to_owned()),
    )
    .unwrap();
    pointer.undo_publication(&PointerAction::Rename {
        from: PointerFile::Next,
        to: PointerFile::Current,
    });
    assert_eq!(pointer.read().unwrap(), "old.toml");
    assert_eq!(pointer.previous().unwrap(), None);
    assert_eq!(pointer.managed_paths()[1], "/state/.current.pointer.next");
}

#[test]
fn pointer_values_are_simple_names() {
    assert!(is_pointer_value("client-1.toml"));
    for value in ["", ".", "..", "a/b", "a\\b", "a\0b"] {
        assert!(!is_pointer_value(value));
    }
    assert!(is_pointer_value(&"x".repeat(255)));
    assert!(!is_pointer_value(&"x".repeat(256)));
}

fn listener(port: u16) -> Listener {
    Listener { address: Address::V4([0, 0, 0, 0]), port }
}

fn valid_config() -> ServerConfig {
    ServerConfig {
        schema_version: SERVER_CONFIG_SCHEMA_VERSION,
        server: ServerSection {
            instance_id: id(),
            public_host: "centrald.home.arpa".into(),
            enrollment_listen: listener(7443),
            client_listen: listener(7444),
            admin_listen: listener(7445),
            data_dir: "/var/lib/centrald".into(),
            local_socket: "/run/centrald/server.sock".into(),
        },
        database: DatabaseSection {
            url_env: "CENTRALD_DATABASE_URL".into(),
            environment_file: "/etc/centrald/server.env".into(),
            max_connections: 10,
            managed_local_role: None,
        },
        pki: ServerPkiSection {
            root_cert: "/var/lib/centrald/pki/root-ca.pem".into(),
            server_chain: "/var/lib/centrald/pki/server-chain.pem".into(),
            server_key: "/var/lib/centrald/pki/server-key.pem".into(),
            server_issuer_cert: "/var/lib/centrald/pki/server-issuer.pem".into(),
            server_issuer_key: "/var/lib/centrald/pki/server-issuer-key.pem".into(),
            client_issuer_cert: "/var/lib/centrald/pki/client-issuer.pem".into(),
            client_issuer_key: "/var/lib/centrald/pki/client-issuer-key.pem".into(),
            admin_issuer_cert: "/var/lib/centrald/pki/admin-issuer.pem".into(),
            admin_issuer_key: "/var/lib/centrald/pki/admin-issuer-key.pem".into(),
            grant_signing_key: "/var/lib/centrald/pki/grant-signing-key.pem".into(),
            grant_signing_public_key: "/var/lib/centrald/pki/grant-signing-public.pem".into(),
        },
        runtime: RuntimeSection {
            heartbeat_interval_seconds: 30,
            offline_after_seconds: 90,
            job_ttl_seconds: 1_800,
            shell_idle_timeout_seconds: 900,
            max_shell_frame_bytes: 65_536,
        },
        updates: UpdateSection {
            enabled: true,
            channel: "stable".into(),
            manifest_url: "https://example.test/centrald-release.yml".into(),
            check_interval_seconds: 21_600,
            allow_prerelease: false,
        },
    }
}

fn safe_inspections() -> Vec<PathInspection> {
    (0..14)
        .map(|_| PathInspection {
            unsafe_ancestor: None,
            symbolic_link: false,
            ancestors: vec![Ancestor {
                path: "/".to_owned(),
                status: AncestorStatus::Entry { real_directory: true, uid: 0, mode: 0o755 },
            }],
        })
        .collect()
}

#[test]
fn valid_config_is_accepted() {
    assert!(valid_config().validate(&safe_inspections()).is_ok());
}

#[test]
fn job_ttl_meets_the_broker_reporting_floor() {
    assert!((1800..=604_800).contains(&valid_config().runtime.job_ttl_seconds));
}

#[test]
fn rejects_shared_listener_port() {
    let mut config = valid_config();
    config.server.admin_listen = config.server.client_listen;
    let error = config.validate(&safe_inspections()).expect_err("shared ports must fail");
    assert!(error.message().contains("distinct ports"));
}

#[test]
fn rejects_privileged_listener_port_without_bind_capability() {
    let mut config = valid_config();
    config.server.enrollment_listen.port = 443;
    let error = config.validate(&safe_inspections()).expect_err("port 443 must fail");
    assert!(error.message().contains("1024 and 65535"));
}

#[test]
fn rejects_insecure_update_manifest() {
    let mut config = valid_config();
    config.updates.manifest_url = "http://example.test/manifest.yml".into();
    assert!(config.validate(&safe_inspections()).is_err());
}

fn refusal(config: &ServerConfig, inspections: &Vec<PathInspection>) -> String {
    match config.validate(inspections) {
        Err(ConfigError::Validation(text)) => text,
        _ => panic!("the configuration should be refused"),
    }
}

#[test]
fn server_configuration_refusals_are_exact() {
    let safe = safe_inspections();
    let mut config = valid_config();
    config.schema_version = 2;
    assert_eq!(refusal(&config, &safe), "unsupported schema_version 2; expected 1");
    let mut config = valid_config();
    config.server.instance_id = 0;
    assert_eq!(refusal(&config, &safe), "server.instance_id must not be nil");
    let mut config = valid_config();
    config.server.public_host = "Centrald.Home.Arpa".into();
    assert_eq!(
        refusal(&config, &safe),
        "server.public_host must use its canonical form: centrald.home.arpa"
    );
    let mut config = valid_config();
    config.database.max_connections = 0;
    assert_eq!(refusal(&config, &safe), "database.max_connections must be between 1 and 100");
    let mut config = valid_config();
    config.database.managed_local_role = Some("centrald_".into());
    assert!(refusal(&config, &safe).contains("managed_local_role"));
    config.database.managed_local_role = Some("centrald_x".into());
    assert!(config.validate(&safe).is_ok());
    let mut config = valid_config();
    config.pki.server_key = "/tmp/server-key.pem".into();
    assert_eq!(
        refusal(&config, &safe),
        "pki.server_key is package-managed and must be /var/lib/centrald/pki/server-key.pem"
    );
    let mut config = valid_config();
    config.pki.server_key = "/var/lib/centrald//pki/./server-key.pem".into();
    assert!(config.validate(&safe).is_ok());
    let mut config = valid_config();
    config.runtime.heartbeat_interval_seconds = 4;
    assert!(refusal(&config, &safe).contains("between 5 and 3600"));
    let mut config = valid_config();
    config.updates.channel = "prerelease".into();
    assert_eq!(refusal(&config, &safe), "updates.channel must be stable, alpha, or beta");
}

#[test]
fn managed_paths_need_safe_ancestors() {
    let config = valid_config();
    let mut linked = safe_inspections();
    linked[1].symbolic_link = true;
    assert_eq!(refusal(&config, &linked), "server.local_socket must not be a symbolic link");
    let mut writable = safe_inspections();
    writable[0].ancestors[0].status =
        AncestorStatus::Entry { real_directory: true, uid: 0, mode: 0o777 };
    assert_eq!(
        refusal(&config, &writable),
        "server.data_dir ancestor / must be root-owned and not group/world writable"
    );
    let mut missing = safe_inspections();
    missing[3].ancestors[0].status = AncestorStatus::Missing;
    assert_eq!(
        refusal(&config, &missing),
        "pki.root_cert has no existing filesystem ancestor"
    );
    let mut unsafe_ancestor = safe_inspections();
    unsafe_ancestor[2].unsafe_ancestor = Some("a link".into());
    assert_eq!(
        refusal(&config, &unsafe_ancestor),
        "database.environment_file has an unsafe filesystem ancestor: a link"
    );
    assert!(config.validate(&Vec::new()).is_err());
}

fn valid_client_config() -> (ClientConfig, String) {
    let identity_id = uuid::Uuid::now_v7();
    let generation_id = uuid::Uuid::now_v7();
    let data_dir = client_data_dir().unwrap();
    let identity_dir = format!("{data_dir}/identities/{identity_id}/generations/{generation_id}");
    let path = format!("{data_dir}/configurations/client-{identity_id}-{generation_id}.toml");
    (
        ClientConfig {
            identity_id: identity_id.as_u128(),
            identity_name: "test-client".into(),
            endpoint: "https://centrald.home.arpa:7444".into(),
            server_name: "centrald.home.arpa".into(),
            data_dir,
            identity_cert: format!("{identity_dir}/identity-chain.pem"),
            identity_key: format!("{identity_dir}/identity-key.pem"),
            root_ca: format!("{identity_dir}/root-ca.pem"),
            grant_signing_public_key: format!("{identity_dir}/grant-signing-public.pem"),
            certificate_expires_at: later(90 * 86_400),
        },
        path,
    )
}

#[test]
fn accepts_canonical_client_generation_paths() {
    let (config, path) = valid_client_config();
    assert!(config.validate().is_ok());
    assert!(config.validate_storage_path(&path).is_ok());
}

#[test]
fn rejects_client_path_outside_identity_generation() {
    let (mut config, path) = valid_client_config();
    config.identity_key = format!("{}/identity-key.pem", config.data_dir);
    assert!(config.validate().is_err());
    assert!(config.validate_storage_path(&path).is_err());
}

#[test]
fn rejects_client_configuration_filename_mismatch() {
    let (config, _path) = valid_client_config();
    let wrong_path = format!(
        "{}/configurations/client-{}-{}.toml",
        config.data_dir,
        uuid::Uuid::from_u128(config.identity_id),
        uuid::Uuid::now_v7()
    );
    assert!(config.validate_storage_path(&wrong_path).is_err());
}

#[test]
fn a_configuration_outside_the_state_root_is_refused() {
    let (mut config, path) = valid_client_config();
    let root = config.data_dir.clone();
    let moved = |text: &str| text.replace(&root, "/srv/other");
    config.data_dir = "/srv/other".into();
    config.identity_cert = moved(&config.identity_cert);
    config.identity_key = moved(&config.identity_key);
    config.root_ca = moved(&config.root_ca);
    config.grant_signing_public_key = moved(&config.grant_signing_public_key);
    assert!(matches!(
        config.validate_storage_path(&moved(&path)),
        Err(ConfigError::Validation(_))
    ));
}

#[test]
fn client_configuration_is_checked_in_full() {
    let (mut config, _path) = valid_client_config();
    config.endpoint = "https://centrald.home.arpa:7444/path".into();
    assert!(config.validate().unwrap_err().message().contains("client endpoint must be HTTPS"));
    let (mut config, _path) = valid_client_config();
    config.data_dir = "/tmp".into();
    assert!(config.validate().unwrap_err().message().contains("platform-managed state root"));
    let (mut config, _path) = valid_client_config();
    config.identity_name = " ".into();
    assert!(config.validate().is_err());
    let (mut config, _path) = valid_client_config();
    config.root_ca = "root-ca.pem".into();
    assert!(config.validate().unwrap_err().message().contains("absolute and non-empty"));
}

#[test]
fn windows_paths_are_built_from_known_folders() {
    assert_eq!(
        windows_client_data_dir(Some("C:\\ProgramData")).unwrap(),
        "C:\\ProgramData\\CentralD"
    );
    assert!(windows_client_data_dir(None).is_err());
    assert_eq!(
        client_install_dir(Some("C:\\Program Files")).unwrap(),
        "C:\\Program Files\\CentralD"
    );
    assert_eq!(
        client_manual_start_marker(Some("C:\\Program Files")).unwrap(),
        "C:\\Program Files\\CentralD\\manual-start.optout"
    );
    assert!(client_manual_start_marker(None).is_err());
    assert_eq!(
        windows_system_executable(Some("C:\\Windows\\System32"), "sc.exe").unwrap(),
        "C:\\Windows\\System32\\sc.exe"
    );
    assert_eq!(
        windows_powershell_executable(Some("C:\\Windows\\System32")).unwrap(),
        "C:\\Windows\\System32\\WindowsPowerShell\\v1.0\\powershell.exe"
    );
    assert!(windows_powershell_executable(None).is_none());
}

fn claims() -> EnrollmentInvitationClaims {
    EnrollmentInvitationClaims::new(
        id(),
        id(),
        EnrollmentRole::Client,
        "workstation".into(),
        "centrald.home.arpa".into(),
        7443,
        7444,
        7445,
        "-----BEGIN CERTIFICATE-----\nZmFrZQ==\n-----END CERTIFICATE-----\n".into(),
        later(15 * 60),
    )
}

fn text_member(payload: &[u8], name: &str) -> String {
    let document: serde_json::Value = serde_json::from_slice(payload).unwrap();
    document.get(name).unwrap().as_str().unwrap().to_owned()
}

#[test]
fn generated_invitation_round_trips_and_wrong_key_fails() {
    let given = claims();
    let key = generate_enrollment_invitation(&given).unwrap();
    let payload = parse_enrollment_invitation(&key).unwrap();
    assert_eq!(text_member(&payload, "role"), EnrollmentRole::Client.as_str());
    assert_eq!(payload, claims_text(&given).into_bytes());
    let parsed_id = uuid::Uuid::parse_str(&text_member(&payload, "id")).unwrap().as_u128();
    assert_eq!(parsed_id, given.id);
    assert_eq!(enrollment_key_id(Some(given)).unwrap(), parsed_id);
    let hash = hash_enrollment_key(&key).unwrap();
    assert!(verify_enrollment_key(&key, &hash).unwrap());
    assert!(!verify_enrollment_key("wrong", &hash).unwrap());
    assert!(!hash.contains(&key));
    assert!(hash.starts_with("$argon2id$v=19$m=65536,t=3,p=1$"));
    assert_eq!(hash.len(), 97);
}

#[test]
fn invitation_rejects_privileged_listener_ports() {
    let mut claims = claims();
    claims.enrollment_port = 443;
    assert!(generate_enrollment_invitation(&claims).is_err());
}

#[test]
fn tampered_invitation_is_rejected() {
    let key = generate_enrollment_invitation(&claims()).unwrap();
    let mut token = key.clone();
    let last = token.pop().unwrap();
    token.push(if last == 'A' { 'B' } else { 'A' });
    assert!(parse_enrollment_invitation(&token).is_err());
}

#[test]
fn every_other_last_character_is_refused() {
    let key = seal_invitation(&b"payload".to_vec(), &vec![7u8; 32]);
    let front = &key[..key.len() - 1];
    let alphabet = ('A'..='Z').chain('a'..='z').chain('0'..='9').chain(['-', '_', '.', '=', ' ']);
    for c in alphabet {
        let token = format!("{front}{c}");
        assert_eq!(parse_enrollment_invitation(&token).is_ok(), token == key, "{c}");
    }
}

#[test]
fn a_hash_with_too_many_lanes_verifies_nothing() {
    let hash = hash_enrollment_key("key").unwrap();
    for lanes in ["536870912", "4294967295", "99999999999"] {
        let other = hash.replace(",p=1$", &format!(",p={lanes}$"));
        assert_ne!(other, hash);
        assert_eq!(verify_enrollment_key("key", &other), Ok(false));
    }
    let twice = hash.replace(",p=1$", ",p=536870912,p=1$");
    assert_eq!(verify_enrollment_key("key", &twice), Ok(true));
    let other = hash.replace(",p=1$", ",p=16777216$");
    assert_eq!(verify_enrollment_key("key", &other), Ok(false));
}

#[test]
fn changed_payload_fails_the_integrity_check() {
    let key = seal_invitation(&b"payload".to_vec(), &vec![7u8; 32]);
    assert_eq!(parse_enrollment_invitation(&key).unwrap(), b"payload");
    let parts: Vec<&str> = key.split('.').collect();
    let other = seal_invitation(&b"another".to_vec(), &vec![7u8; 32]);
    let other_parts: Vec<&str> = other.split('.').collect();
    let mixed = format!("{}.{}.{}.{}", parts[0], other_parts[1], parts[2], parts[3]);
    assert_eq!(parse_enrollment_invitation(&mixed), Err(EnrollmentSecretError::Integrity));
    let short = format!("{}.{}.{}", parts[0], parts[1], parts[2]);
    assert_eq!(parse_enrollment_invitation(&short), Err(EnrollmentSecretError::InvalidFormat));
    let oversized = "x".repeat(128 * 1024 + 1);
    assert_eq!(
        parse_enrollment_invitation(&oversized),
        Err(EnrollmentSecretError::InvalidFormat)
    );
    assert_eq!(
        verify_enrollment_key(&key, "not a hash"),
        Err(EnrollmentSecretError::InvalidHash)
    );
}

#[test]
fn invitation_hash_is_the_keyed_hash_of_the_signed_part() {
    // The keyed hash of RFC 4231, test case 2.
    let mac = centrald::crypto::hmac_sha256(b"Jefe", b"what do ya want for nothing?");
    assert_eq!(
        hex::encode(mac),
        "5bdcc146bf60754e6a042426089575c75a003f089d2739839dec58b964ec3843"
    );
    let long_key = vec![0xaau8; 131];
    let mac = centrald::crypto::hmac_sha256(
        &long_key,
        b"Test Using Larger Than Block-Size Key - Hash Key First",
    );
    assert_eq!(
        hex::encode(mac),
        "60e431591ee0b67f0d8a26aacbf5b77f8e0bc6213728c5140546040f0ee37f54"
    );
    assert!(centrald::crypto::constant_time_equal(b"same", b"same"));
    assert!(!centrald::crypto::constant_time_equal(b"same", b"sane"));
}

#[test]
fn claims_are_validated_once_decoded() {
    assert_eq!(accept_claims(None).unwrap_err(), EnrollmentSecretError::InvalidFormat);
    let mut bad = claims();
    bad.server_name = "a b".into();
    assert_eq!(accept_claims(Some(bad)).unwrap_err(), EnrollmentSecretError::InvalidClaims);
    let mut bad = claims();
    bad.client_port = bad.admin_port;
    assert!(accept_claims(Some(bad)).is_err());
    let mut bad = claims();
    bad.root_ca_pem = "no certificate".into();
    assert!(accept_claims(Some(bad)).is_err());
    let mut bad = claims();
    bad.schema_version = 2;
    assert_eq!(enrollment_key_id(Some(bad)), Err(EnrollmentSecretError::InvalidClaims));
    assert!(accept_claims(Some(claims())).is_ok());
}

fn grant(device_id: u128) -> PrivilegedGrant {
    PrivilegedGrant {
        id: id(),
        device_id,
        job_or_session_id: id(),
        admin_id: id(),
        operation: GrantOperation::RestartMachine,
        parameters_sha256: "00".repeat(32),
        issued_at: later(-1),
        expires_at: later(30),
        nonce: "nonce".into(),
    }
}

#[test]
fn grant_is_bound_to_device_and_signature() {
    let key = SigningKey::from_bytes(&[7_u8; 32]);
    let device = id();
    let signed = grant(device).sign(&key).unwrap();
    assert!(signed.verify(&key.verifying_key(), device, now()).is_ok());
    assert!(matches!(
        signed.verify(&key.verifying_key(), id(), now()),
        Err(GrantError::WrongDevice)
    ));
}

#[test]
fn grants_are_refused_when_changed_or_expired() {
    let key = SigningKey::from_bytes(&[7_u8; 32]);
    let device = id();
    let mut signed = grant(device).sign(&key).unwrap();
    assert!(matches!(
        signed.verify(&key.verifying_key(), device, later(31)),
        Err(GrantError::OutsideValidity)
    ));
    signed.grant.nonce = "other".into();
    assert!(matches!(
        signed.verify(&key.verifying_key(), device, now()),
        Err(GrantError::InvalidSignature)
    ));
    signed.signature_base64 = "!".into();
    assert!(matches!(
        signed.verify(&key.verifying_key(), device, now()),
        Err(GrantError::SignatureEncoding)
    ));
}

#[test]
fn canonical_hosts_are_their_own_canonical_form() {
    for (text, expected) in [
        ("Example.TEST.", "example.test"),
        ("1.2.3.4.", "1.2.3.4"),
        ("[2001:DB8:0:0:1:0:0:1]", "2001:db8::1:0:0:1"),
        ("0:0:0:0:0:ffff:192.0.2.1", "::ffff:192.0.2.1"),
        ("0:0:0:0:0:0:0:0", "::"),
        ("1:0:3:4:5:6:7:8", "1:0:3:4:5:6:7:8"),
        ("1:2:3:4:5:6:0:0", "1:2:3:4:5:6::"),
    ] {
        let canonical = canonical_host(text).unwrap();
        assert_eq!(canonical, expected);
        assert_eq!(canonical_host(&canonical), Ok(canonical.clone()));
    }
}

#[test]
fn invalid_addresses_are_no_names() {
    for value in ["256.0.0.1", "01.2.3.4", "256.0.0.1.", "1.2.3.999"] {
        assert!(canonical_host(value).is_err(), "{value}");
    }
    assert_eq!(canonical_host("1.2.3.4."), Ok("1.2.3.4".into()));
    assert_eq!(canonical_host("1.2.3.4.example"), Ok("1.2.3.4.example".into()));
    assert_eq!(canonical_host("256.0.0.a"), Ok("256.0.0.a".into()));
}

#[test]
fn canonicalizes_supported_hosts() {
    assert_eq!(canonical_host("CentralD.Home.Arpa"), Ok("centrald.home.arpa".into()));
    assert_eq!(canonical_host("192.0.2.10"), Ok("192.0.2.10".into()));
    assert_eq!(canonical_host("2001:db8::10"), Ok("2001:db8::10".into()));
    assert_eq!(canonical_host("[2001:db8::10]"), Ok("2001:db8::10".into()));
    assert_eq!(
        https_endpoint("2001:db8::10", 7443),
        Ok("https://[2001:db8::10]:7443".into())
    );
}

#[test]
fn rejects_ambiguous_hosts() {
    for value in [
        "https://centrald.home.arpa",
        "centrald.home.arpa:7443",
        "user@centrald.home.arpa",
        "bad_label.home",
        "-bad.home",
        "centrald.例.test",
        "fe80::1%eth0",
    ] {
        assert!(canonical_host(value).is_err(), "{value}");
    }
}

fn redirect(url: &str) -> bool {
    let parts = UrlParts::parse(url).unwrap();
    https_redirect_is_allowed(&parts, None).is_ok()
}

#[test]
fn allows_public_https_hosts() {
    assert!(redirect("https://github.com/x"));
    assert!(redirect("https://objects.githubusercontent.com/releases/x"));
}

#[test]
fn rejects_http_and_private_literals() {
    assert!(!redirect("http://example.test/x"));
    assert!(!redirect("https://127.0.0.1/x"));
    assert!(!redirect("https://10.0.0.1/x"));
    assert!(!redirect("https://192.168.1.1/x"));
    assert!(!redirect("https://[::1]/x"));
    assert!(!redirect("https://[fd12:3456:789a::1]/x"));
    assert!(!redirect("https://192.0.2.1/x"));
}

#[test]
fn redirects_are_few_and_secure() {
    assert!(follows_redirect(2, "https"));
    assert!(!follows_redirect(3, "https"));
    assert!(!follows_redirect(0, "http"));
    assert!(matches!(
        parse_address("::1"),
        Some(Address::V6([0, 0, 0, 0, 0, 0, 0, 1]))
    ));
}

fn artifact() -> ReleaseArtifact {
    ReleaseArtifact {
        component: Component::Client,
        os: OperatingSystem::Linux,
        architecture: Architecture::X86_64,
        package: PackageKind::Deb,
        filename: "centrald-client_0.1.0-alpha.1_linux_x86_64.deb".into(),
        url: "https://downloads.example.test/centrald/releases/0.1.0-alpha.1/centrald-client_0.1.0-alpha.1_linux_x86_64.deb".into(),
        size: 1,
        sha256: "a".repeat(64),
        signature_url: Some("https://downloads.example.test/centrald/releases/0.1.0-alpha.1/centrald-client_0.1.0-alpha.1_linux_x86_64.deb.minisig".into()),
    }
}

fn manifest() -> ReleaseManifestV1 {
    ReleaseManifestV1 {
        schema_version: 1,
        version: Version::parse("0.1.0-alpha.1").expect("test version should parse"),
        channel: "prerelease".into(),
        protocol_major: 1,
        // Noon on the sixth of August 2026.
        generated_at: Timestamp::new(1_786_017_600, 0).expect("test timestamp should be valid"),
        repository: "https://github.com/BurntToasters/centrald".into(),
        artifacts: vec![artifact()],
    }
}

#[test]
fn accepts_generic_immutable_https_artifact_urls() {
    assert_eq!(manifest().validate(), Ok(()));
}

#[test]
fn rejects_latest_asset_url_and_channel_mismatch() {
    let mut release = manifest();
    release.artifacts[0].url = "https://example.test/centrald/latest/centrald-client.deb".into();
    assert_eq!(release.validate(), Err(ManifestError::Url));

    let mut release = manifest();
    release.channel = "stable".into();
    assert_eq!(release.validate(), Err(ManifestError::ChannelVersion));
}

#[test]
fn rejects_duplicate_platform_package_entries() {
    let mut release = manifest();
    let mut duplicate = artifact();
    duplicate.filename = "other.deb".into();
    duplicate.url = "https://example.test/releases/1/other.deb".into();
    duplicate.signature_url = Some("https://example.test/releases/1/other.deb.minisig".into());
    release.artifacts.push(duplicate);
    assert_eq!(release.validate(), Err(ManifestError::Duplicate));
}

#[test]
fn versions_follow_semver_precedence() {
    let older = Version::parse("1.0.0-alpha.2").unwrap();
    let newer = Version::parse("1.0.0-alpha.10").unwrap();
    let built = Version::parse("1.0.0-alpha.10+build.7").unwrap();
    assert!(newer.comes_after(&older));
    assert!(!older.comes_after(&newer));
    assert!(!built.comes_after(&newer));
    assert!(!newer.same(&built));
    assert_eq!(built.text(), "1.0.0-alpha.10+build.7");
    assert!(Version::parse("banana").is_none());
}

#[test]
fn precedence_is_a_strict_order() {
    let texts = [
        "0.9.9",
        "1.0.0-alpha",
        "1.0.0-alpha.1",
        "1.0.0-alpha.beta",
        "1.0.0-beta",
        "1.0.0-beta.2",
        "1.0.0-beta.11",
        "1.0.0-rc.1",
        "1.0.0",
        "1.0.1-0",
        "1.1.0",
        "2.0.0",
    ];
    let versions = texts.map(|text| Version::parse(text).unwrap());
    for (i, left) in versions.iter().enumerate() {
        for (j, right) in versions.iter().enumerate() {
            assert_eq!(left.comes_after(right), i > j, "{} {}", texts[i], texts[j]);
        }
    }
    let mut odd = Version::parse("1.0.0-alpha").unwrap();
    odd.pre = "01".into();
    assert!(odd.comes_after(&versions[7]));
    assert_eq!(
        Version::read("banana").unwrap_err(),
        semver::Version::parse("banana").unwrap_err().to_string()
    );
}

fn regular(path: &str) -> Inspected {
    Inspected { path: path.to_owned(), kind: Ok(EntryKind::Regular) }
}

fn directories(paths: &[&str]) -> Vec<Inspected> {
    paths
        .iter()
        .map(|path| Inspected { path: (*path).to_owned(), kind: Ok(EntryKind::Directory) })
        .collect()
}

/// A file table that performs plans the way a file system does.
fn perform(files: &mut std::collections::BTreeMap<String, Vec<u8>>, plan: &[FileAction]) {
    for action in plan {
        match action {
            FileAction::CreateDirectories(_) | FileAction::SyncDirectory(_) => {}
            FileAction::Write { path, contents, .. } | FileAction::Create { path, contents, .. } => {
                assert!(files.insert(path.clone(), contents.clone()).is_none());
            }
            FileAction::Link { from, to } => {
                let contents = files[from].clone();
                assert!(files.insert(to.clone(), contents).is_none());
            }
            FileAction::Rename { from, to } => {
                let contents = files.remove(from).unwrap();
                files.insert(to.clone(), contents);
            }
            FileAction::Remove(path) => {
                files.remove(path).unwrap();
            }
        }
    }
}

#[test]
fn refuses_to_replace_existing_file() {
    let mut files = std::collections::BTreeMap::new();
    let above = directories(&["/state", "/"]);
    let path = "/state/secret";
    let plan =
        write_new_file(path, &b"first".to_vec(), true, &above, EntryKind::Missing, id())
            .expect("initial write should succeed");
    perform(&mut files, &plan);
    assert!(matches!(
        write_new_file(path, &b"replacement".to_vec(), true, &above, EntryKind::Regular, id()),
        Err(SecureFileError::Exists(_))
    ));
    assert_eq!(files[path], b"first");
    assert_eq!(files.len(), 1);
}

#[test]
fn replacement_preserves_backup_and_rejects_symlink() {
    let mut files = std::collections::BTreeMap::new();
    let above = directories(&["/etc", "/"]);
    let path = "/etc/server.toml";
    let plan = write_new_file(path, &b"old".to_vec(), true, &above, EntryKind::Missing, id())
        .expect("initial file should be creatable");
    perform(&mut files, &plan);
    let (backup, plan) = replace_file_with_backup(
        true,
        path,
        &files[path].clone(),
        &b"new".to_vec(),
        true,
        &above,
        &regular(path),
        id(),
    )
    .expect("regular file replacement should succeed");
    perform(&mut files, &plan);
    assert_eq!(files[path], b"new");
    assert_eq!(files[&backup], b"old");

    let linked = Inspected { path: "/etc/linked.toml".into(), kind: Ok(EntryKind::Symlink) };
    assert!(matches!(
        replace_file_with_backup(
            true,
            "/etc/linked.toml",
            &Vec::new(),
            &b"bad".to_vec(),
            true,
            &above,
            &linked,
            id()
        ),
        Err(SecureFileError::Symlink(_))
    ));
}

#[test]
fn atomic_replacement_does_not_create_a_backup() {
    let mut files = std::collections::BTreeMap::new();
    let above = directories(&["/etc", "/"]);
    let path = "/etc/server.toml";
    let plan = write_new_file(path, &b"old".to_vec(), true, &above, EntryKind::Missing, id())
        .expect("initial file should be creatable");
    perform(&mut files, &plan);
    let plan = replace_file_atomically(
        true,
        path,
        &b"new".to_vec(),
        true,
        &above,
        &regular(path),
        id(),
    )
    .expect("replacement should succeed");
    perform(&mut files, &plan);
    assert_eq!(files[path], b"new");
    assert_eq!(files.keys().filter(|name| name.contains("centrald-backup")).count(), 0);
}

#[test]
fn backup_pruning_keeps_only_the_newest_entries() {
    let mut files = std::collections::BTreeMap::new();
    let above = directories(&["/etc", "/"]);
    let path = "/etc/server.toml";
    let plan = write_new_file(path, &b"zero".to_vec(), true, &above, EntryKind::Missing, id())
        .expect("initial file should be creatable");
    perform(&mut files, &plan);
    let mut newest = Vec::new();
    for value in [b"one".as_slice(), b"two".as_slice(), b"three".as_slice()] {
        let (backup, plan) = replace_file_with_backup(
            true,
            path,
            &files[path].clone(),
            &value.to_vec(),
            true,
            &above,
            &regular(path),
            id(),
        )
        .expect("replacement should succeed");
        newest.push(backup);
        perform(&mut files, &plan);
    }
    let entries: Vec<DirectoryEntry> = files
        .keys()
        .rev()
        .map(|name| DirectoryEntry {
            name: Some(name["/etc/".len()..].to_owned()),
            kind: Ok(EntryKind::Regular),
        })
        .collect();
    let gone =
        prune_file_backups(true, path, 2, &above, &entries).expect("pruning should succeed");
    assert_eq!(gone.len(), 1);
    assert_eq!(format!("/etc/{}", gone[0]), newest[0]);
    for name in gone {
        files.remove(&format!("/etc/{name}"));
    }
    let remaining = files.keys().filter(|name| name.contains("centrald-backup")).count();
    assert_eq!(remaining, 2);
}

#[test]
fn rejects_symlinked_parent_directory() {
    let above = vec![
        Inspected { path: "/root/linked".into(), kind: Ok(EntryKind::Symlink) },
        Inspected { path: "/root".into(), kind: Ok(EntryKind::Directory) },
    ];
    assert!(matches!(
        write_new_file(
            "/root/linked/secret",
            &b"nope".to_vec(),
            true,
            &above,
            EntryKind::Missing,
            id()
        ),
        Err(SecureFileError::UnsafeAncestor(_))
    ));
    assert!(validate_no_symlink_ancestors(&directories(&["/a", "/"])).is_ok());
}

#[test]
fn replacement_is_disabled_without_atomic_unix_rename() {
    assert!(matches!(
        replace_file_with_backup(
            false,
            "unused",
            &Vec::new(),
            &b"new".to_vec(),
            true,
            &Vec::new(),
            &regular("unused"),
            id()
        ),
        Err(SecureFileError::ReplacementUnsupported)
    ));
    assert!(matches!(
        replace_file_atomically(
            false,
            "unused",
            &b"new".to_vec(),
            true,
            &Vec::new(),
            &regular("unused"),
            id()
        ),
        Err(SecureFileError::ReplacementUnsupported)
    ));
}

#[test]
fn failed_file_changes_are_cleaned_up() {
    let plan = write_new_file(
        "/state/secret",
        &b"x".to_vec(),
        false,
        &Vec::new(),
        EntryKind::Missing,
        7,
    )
    .unwrap();
    let temporary = "/state/.secret.centrald-tmp-00000000-0000-0000-0000-000000000007";
    assert!(matches!(&plan[1], FileAction::Write { path, mode: 0o644, .. } if path == temporary));
    let (remove, error) = file_action_failed(&plan, 2, true, "taken");
    assert_eq!(remove.as_deref(), Some(temporary));
    assert!(matches!(error, SecureFileError::Exists(path) if path == "/state/secret"));
    let (remove, error) = file_action_failed(&plan, 3, false, "busy");
    assert_eq!(remove.as_deref(), Some("/state/secret"));
    assert_eq!(
        error.message(),
        format!("filesystem operation failed for {temporary}: busy")
    );
    assert!(matches!(
        write_new_file("secret", &Vec::new(), true, &Vec::new(), EntryKind::Missing, 7),
        Err(SecureFileError::MissingParent(_))
    ));
}

#[test]
fn pruning_reports_unsafe_backups() {
    let name = "server.toml.centrald-backup-00000000-0000-0000-0000-000000000001";
    let entries = vec![
        DirectoryEntry { name: Some("unrelated".into()), kind: Ok(EntryKind::Symlink) },
        DirectoryEntry { name: None, kind: Ok(EntryKind::Symlink) },
        DirectoryEntry {
            name: Some("server.toml.centrald-backup-nothing".into()),
            kind: Ok(EntryKind::Symlink),
        },
        DirectoryEntry { name: Some(name.into()), kind: Ok(EntryKind::Symlink) },
    ];
    assert!(matches!(
        prune_file_backups(true, "/etc/server.toml", 1, &Vec::new(), &entries),
        Err(SecureFileError::Symlink(path)) if path == format!("/etc/{name}")
    ));
}

#[test]
fn build_channels_are_the_supported_ones() {
    assert!(is_supported_channel("alpha"));
    assert!(is_supported_channel("beta"));
    assert!(is_supported_channel("stable"));
    assert!(!is_supported_channel("prerelease"));
    assert!(valid_channel(RELEASE_CHANNEL));
    assert!(release_manifest_url().ends_with("/centrald-release.yml"));
    assert!(tauri_update_manifest_url().ends_with("/centrald-admin-updater.json"));
    assert!(manifest_url_for_channel("beta").contains("beta"));
    assert_eq!(detect_channel("1.0.0").unwrap(), "stable");
    assert_eq!(detect_channel("1.0.0-beta.1").unwrap(), "beta");
    let values = read_config("# nothing\n").unwrap();
    let settings = BuildSettings::from_values(&values, "0.1.0-alpha.1").unwrap();
    assert_eq!(settings.release_channel, "alpha");
    assert!(read_config("UNKNOWN=1\n").is_err());
}

#[test]
fn release_gates_are_closed() {
    assert!(!privileged_operations_enabled());
    assert!(!terminal_sessions_enabled());
}

#[test]
fn timestamps_read_as_rfc_3339() {
    let moment = Timestamp::new(1_786_017_600, 0).unwrap();
    assert_eq!(moment.text(), "2026-08-06T12:00:00Z");
    assert_eq!(moment.text_with_offset(), "2026-08-06T12:00:00+00:00");
    assert!(Timestamp::new(i64::MAX, 0).is_none());
    assert!(moment.before(&moment.plus_seconds(1)));
}
