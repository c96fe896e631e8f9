use centrald::admin::enroll::{
    accept_admin_invitation, admin_profile, check_admin_renewal, open_access_key,
    persist_profile_generation, plan_admin_profile, renewed_profile, session_step, AdminAction,
    AdminEnrollmentResponse, AdminPurpose, AdminTransition, PersistStep, SessionAction,
    SessionEvent,
};
use centrald::admin::lock::{check_lock, lock_step, LockAction, LockAttempt};
use centrald::admin::profiles::{
    check_client_invitation, check_invitation_revocation, enrollment_key_view, list_profiles,
    parse_job_kind, plan_job, revocation_outcome, service_endpoint, target_view, timestamp_text,
    validate_profile_target, AdminProfile, EnrollAdminInput, EnrollmentKeySummary, IdentityRole,
    InvitationView, ProfileEntry, TargetSummary,
};
use centrald::admin::shell::{
    begin_elevation, ElevationChallenge, ShellEvent, ShellFrame, ShellRequest, ShellSessions,
    StreamAction, StreamEvent,
};
use centrald::admin::updates::{
    check_feed_channel, check_feed_headers, feed_urls, verify_admin_update_feed, FeedBody,
};
use centrald::client::enrollment::WireTimestamp;
use centrald::client::relay::JobKind;
use centrald::common::enrollment::{
    generate_enrollment_invitation, EnrollmentInvitationClaims, EnrollmentRole,
};
use centrald::common::secure_fs::EntryKind;
use centrald::crypto::SigningKey;
use centrald::instant::Timestamp;

fn now() -> Timestamp {
    let value = chrono::Utc::now();
    Timestamp::new(value.timestamp(), value.timestamp_subsec_nanos()).unwrap()
}

fn later(seconds: i64) -> Timestamp {
    let value = chrono::Utc::now() + chrono::Duration::seconds(seconds);
    Timestamp::new(value.timestamp(), value.timestamp_subsec_nanos()).unwrap()
}

fn wire(at: Timestamp) -> Option<WireTimestamp> {
    Some(WireTimestamp { seconds: at.seconds(), nanos: at.nanos() as i32 })
}

#[test]
fn connection_override_uses_strict_host_and_invitation_port() {
    assert_eq!(service_endpoint("192.0.2.5", 7445).unwrap(), "https://192.0.2.5:7445");
    assert_eq!(
        service_endpoint("2001:db8::5", 7445).unwrap(),
        "https://[2001:db8::5]:7445"
    );
    assert!(service_endpoint("192.0.2.5:1234", 7445).is_err());
}

fn invitation(role: EnrollmentRole) -> EnrollmentInvitationClaims {
    EnrollmentInvitationClaims::new(
        1,
        2,
        role,
        "operator".into(),
        "centrald.home.arpa".into(),
        7443,
        7444,
        7445,
        "-----BEGIN CERTIFICATE-----\nZmFrZQ==\n-----END CERTIFICATE-----\n".into(),
        later(900),
    )
}

#[test]
fn an_admin_is_enrolled_into_a_profile() {
    let claims = invitation(EnrollmentRole::Admin);
    let access_key = generate_enrollment_invitation(&claims).unwrap();
    let input = EnrollAdminInput { access_key, connection_override: Some("192.0.2.5".into()) };
    assert!(!input.debug_text().contains("centrald-invite1"));
    assert_eq!(
        input.debug_text(),
        "EnrollAdminInput { access_key: \"[REDACTED]\", connection_override: Some(\"192.0.2.5\") }"
    );
    assert!(!open_access_key(&input).unwrap().is_empty());
    let short = EnrollAdminInput { access_key: "x".into(), connection_override: None };
    assert_eq!(open_access_key(&short).unwrap_err(), "Admin access key is invalid");
    assert!(accept_admin_invitation(Some(invitation(EnrollmentRole::Client)), &now()).is_err());
    assert!(accept_admin_invitation(Some(invitation(EnrollmentRole::Admin)), &later(901))
        .unwrap_err()
        .contains("clock is skewed"));
    let claims = accept_admin_invitation(Some(claims), &now()).unwrap();
    let plan =
        plan_admin_profile(&claims, &input.connection_override, "/profiles", 3, 4).unwrap();
    assert_eq!(plan.enrollment_endpoint, "https://192.0.2.5:7443");
    assert_eq!(plan.admin_endpoint, "https://192.0.2.5:7445");
    assert_eq!(plan.profile_dir, "/profiles/00000000-0000-0000-0000-000000000003");
    assert!(plan.identity_private_key.ends_with("000000000004/identity-key.pem"));
    let response = AdminEnrollmentResponse {
        identity_id: "00000000-0000-0000-0000-000000000009".into(),
        role: Some(IdentityRole::Admin),
        certificate_chain_pem: b"chain".to_vec(),
        expires_at: wire(later(90 * 86_400)),
    };
    let profile = admin_profile(&plan, &claims, &response).unwrap();
    assert_eq!(profile.identity_id, 9);
    assert_eq!(profile.endpoint, "https://192.0.2.5:7445");
    assert_eq!(profile.summary().name, "operator");
    assert!(profile.elevation_private_key().unwrap().ends_with("elevation-key.pem"));
    let persist = persist_profile_generation(&plan.profile_dir, 4, &profile, false).unwrap();
    assert_eq!(persist.steps.len(), 6);
    assert!(matches!(&persist.steps[4], PersistStep::WriteDocument(path)
        if path.ends_with("/profile-00000000-0000-0000-0000-000000000004.json")));
    assert_eq!(persist.credential_dir, plan.credential_dir);
}

#[test]
fn a_failed_enrollment_removes_the_new_profile() {
    let mut transition = AdminTransition::new(AdminPurpose::Enrollment, "/profiles/p".into());
    assert!(matches!(transition.step(Ok(())), AdminAction::Lock));
    assert!(matches!(transition.step(Ok(())), AdminAction::Prepare));
    assert!(matches!(transition.step(Ok(())), AdminAction::WriteIdentityKey));
    assert!(matches!(transition.step(Ok(())), AdminAction::WriteElevationKey));
    assert!(matches!(transition.step(Ok(())), AdminAction::Connect));
    assert!(matches!(transition.step(Ok(())), AdminAction::Request));
    assert!(matches!(
        transition.step(Err("server returned incomplete Admin enrollment material".into())),
        AdminAction::Fail { clean_up: true, message }
            if message == "server returned incomplete Admin enrollment material"
    ));
    let mut renewal = AdminTransition::new(AdminPurpose::Renewal, "/profiles/p".into());
    for _ in 0..4 {
        renewal.step(Ok(()));
    }
    assert!(matches!(renewal.step(Err("refused".into())), AdminAction::RollBack));
    assert!(matches!(
        renewal.step(Ok(())),
        AdminAction::Fail { clean_up: true, message }
            if message == "activate renewed Admin certificate after durable publication"
    ));
}

fn profile(name: &str, expires: Timestamp) -> AdminProfile {
    AdminProfile {
        id: 1,
        identity_id: 2,
        name: name.into(),
        endpoint: "https://192.0.2.5:7445".into(),
        server_name: "centrald.home.arpa".into(),
        root_ca: "/p/credentials/a/root-ca.pem".into(),
        identity_certificate: "/p/credentials/a/identity-chain.pem".into(),
        identity_private_key: "/p/credentials/a/identity-key.pem".into(),
        certificate_expires_at: expires,
        elevation_private_key: None,
    }
}

#[test]
fn admin_certificates_are_renewed() {
    let current = profile("a", later(86_400));
    assert!(check_admin_renewal(&current, &now()).is_ok());
    assert!(check_admin_renewal(&current, &later(86_401)).is_err());
    let renewed =
        renewed_profile(&current, "/p", &b"chain".to_vec(), wire(later(90 * 86_400)), &now(), 7)
            .unwrap();
    assert_eq!(
        renewed.root_ca,
        "/p/credentials/00000000-0000-0000-0000-000000000007/root-ca.pem"
    );
    assert_eq!(renewed.identity_id, current.identity_id);
    assert!(renewed_profile(&current, "/p", &Vec::new(), wire(later(1)), &now(), 7).is_err());
    assert!(matches!(session_step(1, SessionEvent::Loaded(2)), SessionAction::Fail(_)));
    assert!(matches!(session_step(1, SessionEvent::Loaded(1)), SessionAction::Activate));
    let committed = SessionEvent::Committed { expires_at: later(86_400), now: now() };
    assert!(matches!(session_step(1, committed), SessionAction::Renew));
    let fresh = SessionEvent::Committed { expires_at: later(40 * 86_400), now: now() };
    assert!(matches!(session_step(1, fresh), SessionAction::Connect { renewed: false }));
}

#[test]
fn profiles_are_listed_by_name() {
    let directory = |name: &str, profile| ProfileEntry::Directory { name: name.into(), profile };
    let entries = vec![
        directory("1", Ok(profile("zeta", now()))),
        directory("z", Err("broken".into())),
        ProfileEntry::NotDirectory,
        directory("2", Ok(profile("alpha", now()))),
        ProfileEntry::NotInspected { name: "b".into(), error: "denied".into() },
        ProfileEntry::Unreadable("io".into()),
    ];
    let list = list_profiles(&entries);
    let names: Vec<&str> = list.profiles.iter().map(|profile| profile.name.as_str()).collect();
    assert_eq!(names, ["alpha", "zeta"]);
    let warnings: Vec<(&str, &str)> = list
        .warnings
        .iter()
        .map(|warning| (warning.directory.as_str(), warning.message.as_str()))
        .collect();
    assert_eq!(
        warnings,
        [
            ("<unreadable-entry>", "io"),
            ("b", "could not inspect profile directory: denied"),
            ("z", "broken"),
        ]
    );
}

#[test]
fn profile_requests_are_checked() {
    assert_eq!(parse_job_kind("update-client").unwrap(), JobKind::UpdateClient);
    assert!(parse_job_kind("format-disk").is_err());
    assert!(plan_job(false, "update-client", "{}").unwrap_err().contains("alpha release"));
    let (kind, bytes) = plan_job(true, "restart-machine", " { \"a\" : 1 } ").unwrap();
    assert_eq!(kind, JobKind::RestartMachine);
    assert_eq!(bytes, b"{\"a\":1}");
    assert_eq!(
        plan_job(true, "restart-machine", "[]").unwrap_err(),
        "job parameters must be a JSON object"
    );
    assert!(check_client_invitation("node", 60).is_ok());
    assert!(check_client_invitation(" ", 60).is_err());
    assert!(check_client_invitation("node", 59).is_err());
    assert_eq!(
        check_invitation_revocation("x", "reason").unwrap_err(),
        uuid::Uuid::parse_str("x").unwrap_err().to_string()
    );
    assert!(check_invitation_revocation("00000000-0000-0000-0000-000000000009", "lost").is_ok());
    assert!(check_invitation_revocation("00000000-0000-0000-0000-000000000009", "\n").is_err());
    assert_eq!(revocation_outcome(true, "done".into()).unwrap(), "done");
    assert_eq!(revocation_outcome(false, "no".into()).unwrap_err(), "no");
    assert_eq!(
        validate_profile_target("/p", "profile-1.JSON", EntryKind::Regular).unwrap(),
        "/p/profile-1.JSON"
    );
    assert!(validate_profile_target("/p", "other.json", EntryKind::Regular).is_err());
    assert_eq!(
        timestamp_text(Some(WireTimestamp { seconds: 0, nanos: 0 })),
        "1970-01-01T00:00:00+00:00"
    );
    assert_eq!(timestamp_text(None), "");
}

#[test]
fn server_facts_are_shown() {
    let view = target_view(TargetSummary {
        id: "1".into(),
        name: "node".into(),
        os: "linux".into(),
        architecture: "x86_64".into(),
        version: "0.1.0".into(),
        last_seen: None,
        online: true,
        server: false,
    });
    assert_eq!(view.last_seen, "");
    let key = |revoked: bool, consumed: bool, expires: Timestamp| EnrollmentKeySummary {
        id: "1".into(),
        name: "node".into(),
        role: Some(IdentityRole::Client),
        created_at: wire(now()),
        expires_at: wire(expires),
        consumed_at: if consumed { wire(now()) } else { None },
        revoked_at: if revoked { wire(now()) } else { None },
        revoked_reason: String::new(),
    };
    let status = |key| enrollment_key_view(key, &now()).status;
    assert_eq!(status(key(true, true, later(60))), "revoked");
    assert_eq!(status(key(false, true, later(60))), "consumed");
    assert_eq!(status(key(false, false, later(-60))), "expired");
    assert_eq!(status(key(false, false, later(60))), "pending");
    let mut unknown = key(false, false, later(60));
    unknown.role = None;
    assert_eq!(enrollment_key_view(unknown, &now()).role, "unknown");
    let shown = InvitationView { id: "1".into(), access_key: "secret".into(), expires_at: "t".into() };
    assert_eq!(
        shown.debug_text(),
        "InvitationView { id: \"1\", access_key: \"[REDACTED]\", expires_at: \"t\" }"
    );
}

#[test]
fn profile_locks_are_waited_for() {
    assert!(check_lock("/p", EntryKind::Directory, "/p/l", EntryKind::Missing).is_ok());
    assert!(check_lock("/p", EntryKind::Symlink, "/p/l", EntryKind::Missing).is_err());
    assert!(matches!(lock_step(LockAttempt::Held, 0, "/p", "/p/l"), LockAction::Proceed));
    assert!(matches!(
        lock_step(LockAttempt::Busy, 14_999, "/p", "/p/l"),
        LockAction::SleepAndRetry
    ));
    assert!(matches!(
        lock_step(LockAttempt::Busy, 15_000, "/p", "/p/l"),
        LockAction::Fail(text) if text == "Admin profile state remained busy for 15 seconds: /p"
    ));
}

fn shell_request() -> ShellRequest {
    ShellRequest {
        target_id: "target".into(),
        privilege: "low".into(),
        columns: 80,
        rows: 24,
        reason: "maintenance".into(),
        account_user: "user".into(),
        account_password: "secret".into(),
        save_credentials: false,
        challenge_id: String::new(),
        challenge_signature: "AQI=".into(),
    }
}

#[test]
fn terminals_open_relay_and_close() {
    let mut sessions = ShellSessions::new();
    assert_eq!(
        sessions.open_shell(false, shell_request(), "h").err().unwrap(),
        "interactive terminal is unavailable in this alpha release"
    );
    let mut wide = shell_request();
    wide.columns = 501;
    assert!(sessions.open_shell(true, wide, "h").is_err());
    let mut odd = shell_request();
    odd.privilege = "root".into();
    assert!(sessions.open_shell(true, odd, "h").is_err());
    let mut broken = shell_request();
    broken.challenge_signature = "!".into();
    assert!(sessions.open_shell(true, broken, "h").is_err());
    assert_eq!(
        sessions.shell_input(true, "h", "aGk=").unwrap_err(),
        "shell session does not exist"
    );
    let frame = sessions.open_shell(true, shell_request(), "h").ok().unwrap();
    assert_eq!(frame.challenge_signature, [1, 2]);
    assert_eq!(frame.account_password, b"secret");
    assert_eq!(
        sessions.shell_input(true, "h", "aGk=").unwrap_err(),
        "shell session is not open yet"
    );
    assert!(matches!(
        sessions.receive("h", StreamEvent::Opened { session_id: "s".into() }),
        StreamAction::Continue
    ));
    assert!(matches!(
        sessions.shell_input(true, "h", "aGk="),
        Ok(ShellFrame::Data { session_id, data }) if session_id == "s" && data == b"hi"
    ));
    assert!(sessions.shell_input(true, "h", &"A".repeat(96 * 1024 + 4)).is_err());
    assert!(sessions.shell_resize(true, "h", 1, 24).is_err());
    assert!(matches!(
        sessions.shell_resize(true, "h", 100, 30),
        Ok(ShellFrame::Resize { columns: 100, rows: 30, .. })
    ));
    assert!(matches!(
        sessions.receive("h", StreamEvent::Data { session_id: "s".into(), data: b"hi".to_vec() }),
        StreamAction::Show(ShellEvent::Data { data, .. }) if data == "aGk="
    ));
    assert!(matches!(
        sessions.shell_close(true, "h"),
        Ok(Some(ShellFrame::Close { reason, exit_code: 0, .. }))
            if reason == "operator closed the terminal"
    ));
    assert!(sessions.shell_close(true, "h").is_err());
    sessions.open_shell(true, shell_request(), "h").ok().unwrap();
    assert!(matches!(
        sessions.receive("h", StreamEvent::Failed { message: "gone".into() }),
        StreamAction::ShowAndEnd(ShellEvent::Error { message }) if message == "gone"
    ));
    assert!(sessions.shell_close(true, "h").is_err());
}

fn challenge() -> ElevationChallenge {
    ElevationChallenge {
        id: "c".into(),
        nonce: vec![1, 2],
        context_hash: vec![3],
        expires_at: None,
    }
}

#[test]
fn elevation_challenges_are_signed() {
    let key = SigningKey::from_bytes(&[8; 32]);
    let pem = Some(key.to_pem().unwrap());
    let view = begin_elevation(true, challenge(), &pem).unwrap();
    let signature = base64::Engine::decode(
        &base64::engine::general_purpose::STANDARD,
        &view.challenge_signature,
    )
    .unwrap();
    let mut payload = b"centrald-elevation-v1\0".to_vec();
    payload.extend_from_slice(&[1, 2, 3]);
    assert!(key.verifying_key().accepts(&payload, &signature));
    assert_eq!(view.nonce, "AQI=");
    assert!(begin_elevation(false, challenge(), &pem).is_err());
    assert!(begin_elevation(true, challenge(), &None)
        .unwrap_err()
        .contains("no elevation key"));
    assert!(begin_elevation(true, challenge(), &Some("nonsense".into())).is_err());
}

#[test]
fn the_updater_feed_is_verified() {
    let pair = minisign::KeyPair::generate_unencrypted_keypair().unwrap();
    let sign = |data: &[u8]| {
        minisign::sign(Some(&pair.pk), &pair.sk, std::io::Cursor::new(data), None, None)
            .unwrap()
            .into_string()
            .into_bytes()
    };
    let key = pair.pk.to_base64();
    let feed = b"{\"channel\":\"alpha\"}".to_vec();
    assert!(verify_admin_update_feed(&key, &feed, sign(&feed)).is_ok());
    let other = b"{\"channel\":\"beta\"}".to_vec();
    assert!(verify_admin_update_feed(&key, &feed, sign(&other)).is_err());
    assert_eq!(
        verify_admin_update_feed("", &feed, sign(&feed)).unwrap_err(),
        "this Admin build has no Minisign public key; update verification is disabled"
    );
    assert_eq!(
        verify_admin_update_feed(&key, &other, sign(&other)).unwrap_err(),
        "Admin updater channel \"beta\" does not match this build's alpha channel"
    );
    let empty = b"{}".to_vec();
    assert!(verify_admin_update_feed(&key, &empty, sign(&empty))
        .unwrap_err()
        .starts_with("Admin updater channel \"\""));
    assert_eq!(check_feed_channel(None).unwrap_err(), "decode the Admin updater JSON");
    assert!(check_feed_headers(&Some("gzip".into()), None, 10).is_err());
    assert!(check_feed_headers(&None, Some(11), 10).is_err());
    assert!(feed_urls("").is_err());
    assert_eq!(feed_urls("https://x/f").unwrap().1, "https://x/f.minisig");
    let mut body = FeedBody::new(3);
    assert!(body.accept(&vec![1, 2]).is_ok());
    assert!(body.accept(&vec![3]).is_ok());
    assert!(body.accept(&vec![4]).is_err());
    assert_eq!(body.finish(), [1, 2, 3, 4]);
}

#[test]
fn settings_are_changed_at_the_revision_that_was_shown() {
    let sent = || centrald::admin::settings::ServerSettings {
        revision: "r7".into(),
        instance_id: "i".into(),
        public_host: "centrald.home.arpa".into(),
        enrollment_listen: "a".into(),
        client_listen: "b".into(),
        admin_listen: "c".into(),
        database_max_connections: 1,
        heartbeat_interval_seconds: 2,
        offline_after_seconds: 3,
        job_ttl_seconds: 4,
        shell_idle_timeout_seconds: 5,
        max_shell_frame_bytes: 6,
        updates_enabled: true,
        update_channel: "stable".into(),
        update_manifest_url: "https://example.test/m".into(),
        update_check_interval_seconds: 7,
        update_allow_prerelease: false,
        data_dir: "/var/lib/centrald".into(),
        local_socket: "/run/s".into(),
        database_url_env: "E".into(),
        database_environment_file: "/etc/e".into(),
        root_cert_path: "/etc/r".into(),
        local_only_fields: vec!["data_dir".into()],
        restart_required: true,
        update_latest_version: "1.2.3".into(),
        update_available: true,
        update_last_check_error: "none".into(),
    };
    let mut shown = centrald::admin::settings::settings_view(sent());
    assert_eq!(shown.job_ttl_seconds, 4);
    assert_eq!(shown.local_only_fields, vec!["data_dir".to_owned()]);
    let again = centrald::admin::settings::settings_proto(
        centrald::admin::settings::settings_view(sent()),
    );
    assert_eq!(format!("{again:?}"), format!("{:?}", sent()));
    shown.job_ttl_seconds = 9;
    let update = centrald::admin::settings::settings_update(shown);
    assert_eq!(update.expected_revision, "r7");
    assert_eq!(update.settings.revision, "r7");
    assert_eq!(update.settings.job_ttl_seconds, 9);
    assert_eq!(update.settings.update_last_check_error, "none");
}

#[test]
fn an_unsecured_profile_is_told_with_its_rollback() {
    let told = centrald::admin::enroll::profile_publication_not_secured;
    assert_eq!(told("a".into(), Ok(())), "a");
    assert_eq!(
        told("a".into(), Err("b".into())),
        "secure Admin pointer files failed and rollback also failed: b: a"
    );
}

#[test]
fn a_failed_renewal_ends_an_expired_profile() {
    let now = now();
    let failed = |expires_at: Timestamp| SessionEvent::RenewalFailed {
        expires_at,
        now,
        error: "refused".into(),
    };
    assert!(matches!(
        session_step(1, failed(now.plus_seconds(1))),
        SessionAction::Connect { renewed: false }
    ));
    assert!(matches!(
        session_step(1, failed(now)),
        SessionAction::Fail(text) if text == "refused"
    ));
}
