use centrald::client::broker::{
    classify_connection, classify_frame, encode_wire_error, encode_wire_result, plan_socket, reply_to_oversized,
    reply_with, request_fits, validate_socket_path, Admission, BrokerExecutor, ConnectionKind,
    ExecutionError, SocketEntry, SocketError, WireResult, BROKER_SOCKET_PATH,
};
use centrald::client::broker_session::{
    decode_parameters, frame_size, open_session, session_outcome, Credentials, ServedSession,
    SessionAction, SessionError, SessionEvent, SessionFrameError, SessionManager,
    SessionParameterError, SessionParameters, SessionWireFrame,
};
use centrald::client::ledger::{record_line, BrokerLedger};
use centrald::client::ptys::{opening_size, resized, shell_command_on, PtySessionSpec, SessionPrivilege};
use centrald::client::job_run::{JobAction, JobProgress, JobRun};
use centrald::client::relay::{
    accept_job, BrokerReply, JobDelivery, JobKind, JobState, PendingGrants, ShellDecision, ShellOpen,
    ShellRelays,
};
use centrald::client::rescue::{
    command_detail, linux_service_command, repair_outcome, rescue_checks, rescue_verdict,
    run_checked, stop_outcome, unusable_configuration, CheckedFile, CommandOutput, Findings,
    RescueCheck,
};
use centrald::client::rescue_run::{RescueAction, RescueEvent, RescueRun};
use centrald::client::unix_state::{
    cleanup_enrollment_generation, persistence_failure, secure_base_state, secure_lock,
    typed_service_ids, ServiceIds, StateAction, StatePlace, DATA_ROOT, LOCK_PATH,
};
use centrald::client::updates::{
    installation_outcome, staging_directory, verify_artifact, verify_manifest, UpdateParameters,
};
use centrald::common::config::ClientConfig;
use centrald::common::grant::{GrantOperation, PrivilegedGrant, SignedGrant};
use centrald::common::release::OperatingSystem;
use centrald::common::secure_fs::EntryKind;
use centrald::crypto::SigningKey;
use centrald::instant::Timestamp;
use centrald::platform::broker::{BrokerError, BrokerRequest, BrokerResponse, GrantVerifier};
use sha2::Digest;

const DEVICE: u128 = 17;

fn at(seconds: i64) -> Timestamp {
    Timestamp::new(1_800_000_000 + seconds, 0).unwrap()
}

fn key() -> SigningKey {
    SigningKey::from_bytes(&[5; 32])
}

fn digest(bytes: &[u8]) -> String {
    hex::encode(sha2::Sha256::digest(bytes))
}

fn grant(
    grant_id: u128,
    session: u128,
    operation: GrantOperation,
    parameters: &[u8],
    nonce: &str,
) -> SignedGrant {
    PrivilegedGrant {
        id: grant_id,
        device_id: DEVICE,
        job_or_session_id: session,
        admin_id: 1,
        operation,
        parameters_sha256: digest(parameters),
        issued_at: at(-1),
        expires_at: at(60),
        nonce: nonce.to_owned(),
    }
    .sign(&key())
    .unwrap()
}

fn parameters(privilege: &str) -> SessionParameters {
    SessionParameters {
        privilege: privilege.into(),
        user: "centrald".into(),
        shell: "/bin/bash".into(),
        max_frame_bytes: 65_536,
        idle_timeout_seconds: 900,
        absolute_timeout_seconds: 28_800,
        credentials_sha256: String::new(),
    }
}

fn executor() -> BrokerExecutor {
    BrokerExecutor::new(
        GrantVerifier::new(DEVICE, key().verifying_key()),
        BrokerLedger::open(Vec::new(), Vec::new()),
    )
}

fn uuid_text(id: u128) -> String {
    uuid::Uuid::from_u128(id).to_string()
}

#[test]
fn jobs_and_sessions_share_one_replay_set() {
    let mut executor = executor();
    let mut sessions = SessionManager::new();
    let signed = grant(1, 40, GrantOperation::OpenLowShell, b"{}", "n");
    let request = BrokerRequest { signed_grant: signed.clone(), parameters_json: b"{}".to_vec() };
    let Ok(Admission::Run { line }) = executor.begin(&request, at(0)) else {
        panic!("the job is not run");
    };
    assert!(line.ends_with(b"\n"));
    assert!(matches!(
        executor.open_session(&mut sessions, &signed, &b"{}".to_vec(), &parameters("low"), at(1)),
        Err(SessionError::Grant(BrokerError::Replay))
    ));
    assert_eq!(sessions.active_count(), 0);

    let signed = grant(2, 41, GrantOperation::OpenLowShell, b"{}", "n");
    assert!(executor
        .open_session(&mut sessions, &signed, &b"{}".to_vec(), &parameters("low"), at(1))
        .is_ok());
    assert_eq!(sessions.active_count(), 1);
    let request = BrokerRequest { signed_grant: signed, parameters_json: b"{}".to_vec() };
    assert!(matches!(
        executor.begin(&request, at(2)),
        Err(ExecutionError::Grant(BrokerError::Replay))
    ));
}

#[test]
fn a_completed_job_is_recorded_and_told() {
    let mut executor = executor();
    let signed = grant(1, 40, GrantOperation::RestartMachine, b"{}", "n");
    let request = BrokerRequest { signed_grant: signed, parameters_json: b"{}".to_vec() };
    assert!(matches!(executor.begin(&request, at(0)), Ok(Admission::Run { .. })));
    let response = BrokerResponse { success: true, output: b"done".to_vec(), exit_code: 0 };
    let (told, line) = executor.complete(40, Ok(response), at(0)).unwrap();
    assert_eq!(told.output, b"done");
    let text = String::from_utf8(line).unwrap();
    assert!(text.contains("\"state\":\"completed\""));
    assert!(matches!(
        executor.complete(40, Err("fake runner failure".into()), at(0)),
        Err(ExecutionError::Runner(message)) if message == "fake runner failure"
    ));

    let again = grant(2, 40, GrantOperation::RestartMachine, b"{}", "n");
    let request = BrokerRequest { signed_grant: again, parameters_json: b"{}".to_vec() };
    assert!(matches!(
        executor.begin(&request, at(5)),
        Ok(Admission::Replay(response)) if response.output == b"done"
    ));
}

#[test]
fn ledger_lines_are_checksummed_documents() {
    let mut ledger = BrokerLedger::open(Vec::new(), Vec::new());
    let line = ledger.mark_executing(3, GrantOperation::CheckOsUpdates, at(0)).unwrap();
    let records = ledger.read_committed(at(0)).unwrap();
    assert_eq!(record_line(&records[0]), line);
    let value: serde_json::Value = serde_json::from_slice(&line).unwrap();
    assert_eq!(value["record"]["job_id"], uuid_text(3));
    assert_eq!(value["record"]["operation"], "check_os_updates");
    let record = serde_json::to_string(&value["record"]).unwrap();
    assert_eq!(value["checksum_sha256"].as_str().unwrap().len(), 64);
    assert!(record.contains("\"executing\""));
    assert_eq!(
        ledger.latest_operation(3, at(0)).unwrap(),
        Some(GrantOperation::CheckOsUpdates)
    );
    assert_eq!(ledger.latest_operation(4, at(0)).unwrap(), None);
}

#[test]
fn wire_results_are_tagged_and_bounded() {
    assert_eq!(
        encode_wire_error("no \"grant\""),
        br#"{"result":"error","message":"no \"grant\""}"#.to_vec()
    );
    let response = BrokerResponse { success: true, output: vec![1, 2], exit_code: -3 };
    let success = WireResult::Success { response };
    assert_eq!(
        encode_wire_result(&success),
        br#"{"result":"ok","response":{"success":true,"output":[1,2],"exit_code":-3}}"#.to_vec()
    );
    assert_eq!(reply_with(&success), encode_wire_result(&success));
    assert_eq!(reply_to_oversized(), encode_wire_error("broker request exceeds the wire bound"));
    let response = BrokerResponse { success: true, output: vec![200; 200_000], exit_code: 0 };
    assert_eq!(
        reply_with(&WireResult::Success { response }),
        encode_wire_error("broker response exceeded the wire bound")
    );
    assert!(request_fits(&[0; 16 * 1024]));
    assert!(!request_fits(&[0; 16 * 1024 + 1]));
    assert_eq!(classify_connection(Some("open"), 9_999_999), ConnectionKind::Session);
    assert_eq!(classify_connection(Some("data"), 16 * 1024), ConnectionKind::Request);
    assert_eq!(classify_connection(None, 16 * 1024 + 1), ConnectionKind::Oversized);
    assert_eq!(classify_frame(b"{\"kind\": \"open\"}"), ConnectionKind::Session);
    assert_eq!(classify_frame(b"{\"kind\": \"data\"}"), ConnectionKind::Request);
    assert_eq!(classify_frame(b"{\"kind\": 1}"), ConnectionKind::Request);
    assert_eq!(classify_frame(b"open"), ConnectionKind::Request);
    assert_eq!(classify_frame(&[b'x'; 16 * 1024 + 1]), ConnectionKind::Oversized);
    let mut long = b"{\"kind\":\"open\",\"x\":\"".to_vec();
    long.extend_from_slice(&[b'x'; 16 * 1024]);
    long.extend_from_slice(b"\"}");
    assert_eq!(classify_frame(&long), ConnectionKind::Session);
}

#[test]
fn only_a_stale_broker_socket_is_replaced() {
    assert!(validate_socket_path(BROKER_SOCKET_PATH));
    assert!(!validate_socket_path("/tmp/broker.sock"));
    assert_eq!(plan_socket(BROKER_SOCKET_PATH, true, SocketEntry::Absent), Ok(false));
    assert_eq!(
        plan_socket(BROKER_SOCKET_PATH, true, SocketEntry::Socket { answered: false }),
        Ok(true)
    );
    assert_eq!(
        plan_socket(BROKER_SOCKET_PATH, true, SocketEntry::Socket { answered: true }),
        Err(SocketError::InUse)
    );
    assert_eq!(
        plan_socket(BROKER_SOCKET_PATH, true, SocketEntry::Other),
        Err(SocketError::NotASocket)
    );
    assert_eq!(
        plan_socket(BROKER_SOCKET_PATH, false, SocketEntry::Absent),
        Err(SocketError::UnsafeDirectory)
    );
}

#[test]
fn session_grants_are_held_against_their_parameters() {
    let mut verifier = GrantVerifier::new(DEVICE, key().verifying_key());
    let mut sessions = SessionManager::new();
    let signed = grant(1, 40, GrantOperation::OpenLowShell, b"{}", "n");
    let mut wrong = parameters("root");
    assert!(matches!(
        open_session(&mut verifier, &mut sessions, &signed, &b"{}".to_vec(), &wrong, at(0)),
        Err(SessionError::Parameters(SessionParameterError::Privilege))
    ));
    wrong = parameters("low");
    assert!(matches!(
        open_session(&mut verifier, &mut sessions, &signed, &b"{ }".to_vec(), &wrong, at(0)),
        Err(SessionError::ParametersMismatch)
    ));
    assert!(
        open_session(&mut verifier, &mut sessions, &signed, &b"{}".to_vec(), &wrong, at(0)).is_ok()
    );
    assert_eq!(decode_parameters("e30=").unwrap(), b"{}");
    assert!(matches!(decode_parameters("?"), Err(SessionError::ParameterEncoding)));
    assert_eq!(frame_size(&[0, 0, 1, 0], 256), Ok(256));
    assert_eq!(frame_size(&[0, 0, 1, 1], 256), Err(SessionFrameError::OutOfBounds));
    assert_eq!(frame_size(&[0, 0, 0, 0], 256), Err(SessionFrameError::OutOfBounds));
}

#[test]
fn an_elevated_session_is_authenticated_and_gives_its_slot_back() {
    let mut sessions = SessionManager::new();
    sessions.reserve(40).ok().unwrap();
    let mut session = ServedSession::new(40, &parameters("elevated"));
    assert!(matches!(
        session.step(SessionEvent::Credentials(Ok(None)), &mut sessions),
        SessionAction::Refuse { message } if message == "elevated shells require OS account credentials"
    ));
    assert_eq!(sessions.active_count(), 0);

    sessions.reserve(41).ok().unwrap();
    let mut session = ServedSession::new(41, &parameters("elevated"));
    let credentials = Credentials { user: "root".into(), password: "secret".into() };
    assert!(matches!(
        session.step(SessionEvent::Credentials(Ok(Some(credentials))), &mut sessions),
        SessionAction::Authenticate { user, password } if user == "root" && password == "secret"
    ));
    assert!(matches!(
        session.step(SessionEvent::Authenticated(Ok(())), &mut sessions),
        SessionAction::OpenTerminal
    ));
    assert!(matches!(
        session.step(SessionEvent::Terminal(Ok(())), &mut sessions),
        SessionAction::Announce
    ));
    assert!(matches!(
        session.step(SessionEvent::Announced(Ok(())), &mut sessions),
        SessionAction::Relay
    ));
    assert_eq!(sessions.active_count(), 1);
    assert!(matches!(
        session.step(SessionEvent::Relayed(Err("gone".into())), &mut sessions),
        SessionAction::Fail { message } if message == "gone"
    ));
    assert_eq!(sessions.active_count(), 0);
    assert_eq!(
        session_outcome(Some("a".into()), Some("b".into())).unwrap_err(),
        "terminal output thread failed: b"
    );
    assert_eq!(
        session_outcome(Some("a".into()), None).unwrap_err(),
        "terminal input thread failed: a"
    );
    assert!(session_outcome(None, None).is_ok());
}

#[test]
fn terminal_sizes_are_clamped() {
    assert_eq!(opening_size(0, 100_000), (2, 500));
    assert_eq!(opening_size(80, 24), (80, 24));
    assert_eq!(resized(80, 24), (80, 24));
    let spec = |privilege| PtySessionSpec {
        privilege,
        user: String::new(),
        shell: String::new(),
        columns: 80,
        rows: 24,
    };
    let elevated = shell_command_on(OperatingSystem::Windows, &spec(SessionPrivilege::Elevated));
    assert!(!elevated.unwrap().0.is_empty());
    assert!(shell_command_on(OperatingSystem::Windows, &spec(SessionPrivilege::Low)).is_err());
}

fn delivery(id: u128, nonce: &str, kind: JobKind) -> JobDelivery {
    JobDelivery {
        id: uuid_text(id),
        delivery_id: nonce.into(),
        kind: Some(kind),
        parameters_json: b"{}".to_vec(),
    }
}

#[test]
fn a_job_whose_start_is_not_told_is_not_run() {
    let mut grants = PendingGrants::new();
    let verifying = key().verifying_key();
    let mut begin = |id: u128| {
        let signed = grant(id, 50 + id, GrantOperation::CheckOsUpdates, b"{}", "lease");
        grants.accept(Some(signed), &verifying, DEVICE, at(0)).unwrap();
        let delivered = delivery(50 + id, "lease", JobKind::CheckOsUpdates);
        JobRun::begin(accept_job(delivered, &mut grants).unwrap()).0
    };
    let mut run = begin(1);
    assert!(matches!(
        run.step(JobProgress::Sent(Err("closed".into()))),
        JobAction::Done(Err(text)) if text == "acknowledge verified job delivery: closed"
    ));
    let mut run = begin(2);
    run.step(JobProgress::Sent(Ok(())));
    assert!(matches!(
        run.step(JobProgress::Sent(Err("closed".into()))),
        JobAction::Done(Err(text)) if text == "send job event: closed"
    ));
    let mut run = begin(3);
    assert!(matches!(
        run.step(JobProgress::Replied(BrokerReply::Failed("early".into()))),
        JobAction::Done(Err(text)) if text == "job progress is out of order"
    ));
}

#[test]
fn jobs_run_only_with_their_own_grant() {
    let mut grants = PendingGrants::new();
    let verifying = key().verifying_key();
    let signed = grant(1, 40, GrantOperation::CheckOsUpdates, b"{}", "lease");
    grants.accept(Some(signed), &verifying, DEVICE, at(0)).unwrap();
    let accepted = accept_job(delivery(40, "lease", JobKind::CheckOsUpdates), &mut grants).unwrap();
    assert_eq!(accepted.started.state, JobState::Running);
    assert_eq!(accepted.started.sequence, 1);
    assert_eq!(accepted.started.output, b"executing via the privileged broker");
    let (mut run, action) = JobRun::begin(accepted);
    assert!(matches!(
        action,
        JobAction::Acknowledge { job_id, delivery_id }
            if job_id == uuid_text(40) && delivery_id == "lease"
    ));
    assert!(matches!(
        run.step(JobProgress::Sent(Ok(()))),
        JobAction::Report(event) if event.sequence == 1 && !event.terminal
    ));
    assert!(matches!(
        run.step(JobProgress::Sent(Ok(()))),
        JobAction::Submit(request) if request.parameters_json == b"{}"
    ));
    assert!(matches!(
        run.step(JobProgress::Replied(BrokerReply::Failed("no broker".into()))),
        JobAction::Report(event)
            if event.sequence == 2 && event.terminal && event.output == b"no broker"
    ));
    assert!(matches!(run.step(JobProgress::Sent(Ok(()))), JobAction::Done(Ok(()))));
    assert_eq!(
        accept_job(delivery(40, "lease", JobKind::CheckOsUpdates), &mut grants).unwrap_err(),
        "server did not provide a verified privileged-operation grant"
    );

    let signed = grant(2, 41, GrantOperation::CheckOsUpdates, b"{}", "lease");
    grants.accept(Some(signed), &verifying, DEVICE, at(0)).unwrap();
    assert_eq!(
        accept_job(delivery(41, "lease", JobKind::RestartMachine), &mut grants).unwrap_err(),
        "signed grant does not match the delivered job"
    );
    assert_eq!(
        accept_job(delivery(42, "", JobKind::RestartMachine), &mut grants).unwrap_err(),
        "server sent a job without a delivery lease"
    );
    assert_eq!(
        grants.accept(None, &verifying, DEVICE, at(0)).unwrap_err(),
        "server sent malformed signed grant"
    );
}

fn open(session: u128, privilege: Option<SessionPrivilege>) -> ShellOpen {
    ShellOpen {
        session_id: uuid_text(session),
        columns: 80,
        rows: 24,
        privilege,
        parameters_json: b"{}".to_vec(),
        account_user: String::new(),
        account_password: Vec::new(),
        save_credentials: false,
    }
}

#[test]
fn shells_are_relayed_with_their_grants() {
    let mut grants = PendingGrants::new();
    let mut shells = ShellRelays::new();
    let verifying = key().verifying_key();
    let refused = shells.open_shell_session(
        open(40, Some(SessionPrivilege::Low)),
        &mut grants,
        &Vec::new(),
    );
    assert!(matches!(
        refused,
        Ok(ShellDecision::Refuse(close))
            if close.reason == "server did not provide a shell-operation grant" && close.exit_code == 1
    ));
    let signed = grant(1, 40, GrantOperation::OpenLowShell, b"{}", &uuid_text(40));
    grants.accept(Some(signed), &verifying, DEVICE, at(0)).unwrap();
    let connected = shells.open_shell_session(
        open(40, Some(SessionPrivilege::Low)),
        &mut grants,
        &Vec::new(),
    );
    assert!(matches!(
        connected,
        Ok(ShellDecision::Connect {
            session_id: 40,
            frame: SessionWireFrame::Open { parameters_base64, .. },
        }) if parameters_base64 == "e30="
    ));
    assert!(matches!(
        shells.relay_shell_data(&uuid_text(40), &b"ls".to_vec()),
        Ok(ShellDecision::Relay {
            session_id: 40,
            frame: SessionWireFrame::Data { data_base64 },
        }) if data_base64 == "bHM="
    ));
    assert!(matches!(
        shells.relay_shell_data(&uuid_text(41), &b"ls".to_vec()),
        Ok(ShellDecision::Ignore)
    ));
    assert!(shells.relay_shell_resize(&uuid_text(40), 0, 24).is_err());
    assert!(matches!(
        shells.relay_shell_resize(&uuid_text(40), 100, 30),
        Ok(ShellDecision::Relay { frame: SessionWireFrame::Resize { columns: 100, rows: 30 }, .. })
    ));
    assert!(matches!(
        shells.relay_shell_close(&uuid_text(40), String::new(), 0),
        Ok(ShellDecision::Relay { frame: SessionWireFrame::Close { reason, .. }, .. })
            if reason == "operator closed the terminal"
    ));
    assert!(matches!(
        shells.relay_shell_close(&uuid_text(40), String::new(), 0),
        Ok(ShellDecision::Ignore)
    ));
    assert!(shells.relay_shell_data("nonsense", &Vec::new()).is_err());
}

fn output(success: bool, stdout: &str, stderr: &str) -> CommandOutput {
    CommandOutput {
        success,
        stdout: stdout.into(),
        stderr: stderr.into(),
        status: "exit status: 3".into(),
    }
}

fn found(path: &str, mode: u32) -> CheckedFile {
    CheckedFile { path: path.into(), found: Ok((EntryKind::Regular, mode)) }
}

fn client_config() -> ClientConfig {
    let identity = uuid_text(7);
    let generation = uuid_text(8);
    let directory = format!("/var/lib/centrald-client/identities/{identity}/generations/{generation}");
    ClientConfig {
        identity_id: 7,
        identity_name: "node-1".into(),
        endpoint: "https://centrald.home.arpa:7444".into(),
        server_name: "centrald.home.arpa".into(),
        data_dir: "/var/lib/centrald-client".into(),
        identity_cert: format!("{directory}/identity-chain.pem"),
        identity_key: format!("{directory}/identity-key.pem"),
        root_ca: format!("{directory}/root-ca.pem"),
        grant_signing_public_key: format!("{directory}/grant-signing-public.pem"),
        certificate_expires_at: at(1_000),
    }
}

fn findings(connection: Result<(), String>) -> Findings {
    Findings {
        repaired: None,
        restarted: true,
        identity_cert: found("cert", 0o644),
        identity_key: found("key", 0o600),
        root_ca: found("root", 0o644),
        grant_key: found("grant", 0o644),
        configuration: found("config", 0o600),
        now: at(0),
        service: RescueCheck { name: "client service", ok: true, detail: "active".into() },
        connection,
    }
}

#[test]
fn rescue_reports_every_check() {
    let checks = rescue_checks(&client_config(), findings(Ok(())), true);
    let names = checks.iter().map(|check| check.name).collect::<Vec<_>>();
    assert_eq!(
        names,
        [
            "configuration",
            "service restart",
            "configuration schema",
            "identity certificate",
            "identity private key",
            "root trust certificate",
            "grant verification key",
            "active configuration file",
            "certificate lifetime",
            "client service",
            "server mTLS",
        ]
    );
    assert!(rescue_verdict(&checks).is_ok());

    let mut worse = findings(Err("refused".into()));
    worse.identity_key = found("key", 0o640);
    worse.now = at(2_000);
    let checks = rescue_checks(&client_config(), worse, true);
    let failed = checks
        .iter()
        .filter(|check| !check.ok)
        .map(|check| (check.name, check.detail.as_str()))
        .collect::<Vec<_>>();
    assert_eq!(failed[0], ("identity private key", "key is accessible outside its owner"));
    assert_eq!(failed[1].0, "certificate lifetime");
    assert!(failed[1].1.starts_with("expired at "));
    assert_eq!(failed[2], ("server mTLS", "refused"));
    assert_eq!(
        rescue_verdict(&checks).unwrap_err(),
        "one or more CentralD client rescue checks failed"
    );
    let check = unusable_configuration("client is not enrolled");
    assert_eq!((check.name, check.ok), ("configuration", false));
}

#[test]
fn service_commands_are_fixed_and_judged() {
    assert_eq!(
        linux_service_command("stop"),
        ["/usr/bin/systemctl", "stop", "centrald-client.service"]
    );
    assert_eq!(command_detail(&output(false, " out ", " err ")), "err");
    assert_eq!(command_detail(&output(false, " out ", " ")), "out");
    assert_eq!(command_detail(&output(false, "", "")), "exit status exit status: 3");
    assert!(run_checked(&output(true, "", "")).is_ok());
    assert_eq!(
        run_checked(&output(false, "", "denied")).unwrap_err(),
        "service manager failed: denied"
    );
    assert_eq!(
        stop_outcome(&output(false, "", "denied")).unwrap_err(),
        "could not stop centrald-client.service: denied"
    );
    assert_eq!(
        repair_outcome(Ok(()), Ok(()), true).unwrap().detail,
        "state permissions were reapplied and the previously running client service was restored"
    );
    assert!(repair_outcome(Err("a".into()), Err("b".into()), true)
        .unwrap_err()
        .contains("service restoration also failed: b: a"));
    assert_eq!(repair_outcome(Ok(()), Err("b".into()), true).unwrap_err(), "b");
}

const ROOT_STATUS: &str = "Name:\tcentrald\nUid:\t0\t0\t0\t0\n";

#[test]
fn a_rescue_restores_a_running_service_even_after_a_failed_repair() {
    let mut run = RescueRun::new(true, true, false);
    assert!(matches!(run.step(RescueEvent::Loaded(Ok(()))), RescueAction::ReadStatus));
    assert!(matches!(
        run.step(RescueEvent::StatusRead(Ok(ROOT_STATUS.into()))),
        RescueAction::Query
    ));
    assert!(matches!(run.step(RescueEvent::Queried(true)), RescueAction::Stop));
    assert!(matches!(
        run.step(RescueEvent::Stopped(Ok(output(true, "", "")))),
        RescueAction::Repair
    ));
    assert!(matches!(run.step(RescueEvent::Repaired(Err("denied".into()))), RescueAction::Start));
    assert!(matches!(
        run.step(RescueEvent::Started(Ok(output(false, "", "gone")))),
        RescueAction::Done(Err(text)) if text
            == "service restoration also failed: restore previously running CentralD client service: service manager failed: gone: repair client state ownership and permissions: denied"
    ));
}

#[test]
fn a_rescue_repairs_restarts_and_reports() {
    let mut run = RescueRun::new(true, true, false);
    run.step(RescueEvent::Loaded(Ok(())));
    run.step(RescueEvent::StatusRead(Ok(ROOT_STATUS.into())));
    run.step(RescueEvent::Queried(false));
    run.step(RescueEvent::Stopped(Ok(output(true, "", ""))));
    assert!(matches!(run.step(RescueEvent::Repaired(Ok(()))), RescueAction::Restart));
    assert!(matches!(run.step(RescueEvent::Restarted(Ok(()))), RescueAction::Inspect));
    let event = RescueEvent::Inspected { config: client_config(), findings: findings(Ok(())) };
    let RescueAction::Report { checks, repaired } = run.step(event) else {
        panic!("nothing is reported");
    };
    assert!(repaired);
    assert_eq!(checks.len(), 12);
    assert_eq!(checks[1].name, "repair");
    assert_eq!(
        checks[1].detail,
        "state permissions were reapplied while the client service remained stopped"
    );
    assert_eq!(checks[2].name, "service restart");
    assert!(matches!(run.step(RescueEvent::Reported(Ok(()))), RescueAction::Done(Ok(()))));
}

#[test]
fn a_rescue_is_refused_without_privilege_or_configuration() {
    let mut run = RescueRun::new(false, true, false);
    run.step(RescueEvent::Loaded(Ok(())));
    assert!(matches!(
        run.step(RescueEvent::StatusRead(Ok("Uid:\t1000\t1000\t0\t0\n".into()))),
        RescueAction::Done(Err(text))
            if text == "centrald-client rescue --repair must run as root"
    ));
    let mut run = RescueRun::new(false, false, false);
    assert!(matches!(
        run.step(RescueEvent::Loaded(Err("not enrolled".into()))),
        RescueAction::Report { checks, repaired: false }
            if checks.len() == 1 && checks[0].detail == "not enrolled"
    ));
    assert!(matches!(
        run.step(RescueEvent::Reported(Ok(()))),
        RescueAction::Done(Err(text))
            if text == "no usable CentralD client configuration: not enrolled"
    ));
    let mut run = RescueRun::new(true, false, true);
    assert!(matches!(
        run.step(RescueEvent::Loaded(Ok(()))),
        RescueAction::Done(Err(text)) if text.starts_with("Windows client ACL repair is")
    ));
    let mut run = RescueRun::new(true, false, false);
    run.step(RescueEvent::Loaded(Ok(())));
    run.step(RescueEvent::StatusRead(Ok(ROOT_STATUS.into())));
    run.step(RescueEvent::Queried(true));
    assert!(matches!(
        run.step(RescueEvent::Stopped(Ok(output(false, "", "busy")))),
        RescueAction::Done(Err(text)) if text
            == "stop CentralD client service before permission repair: could not stop centrald-client.service: busy"
    ));
    assert!(matches!(
        run.step(RescueEvent::Queried(true)),
        RescueAction::Done(Err(text)) if text == "rescue event is out of order"
    ));
}

#[test]
fn failed_generations_are_cleaned_up() {
    let ids = ServiceIds { uid: 990, gid: 990 };
    assert!(typed_service_ids(ids).is_ok());
    assert!(typed_service_ids(ServiceIds { uid: 0, gid: 990 }).is_err());
    assert!(typed_service_ids(ServiceIds { uid: u32::MAX, gid: 990 }).is_err());
    let name = format!("client-{}-{}.toml", uuid_text(7), uuid_text(8));
    let plan = cleanup_enrollment_generation(DATA_ROOT, ids, 8, &name, false, false).unwrap();
    assert_eq!(plan.len(), 1);
    assert!(matches!(
        &plan[0],
        StateAction::RemoveFile { parent: StatePlace::Configurations, name: removed, sync: true }
            if *removed == name
    ));
    let plan = cleanup_enrollment_generation(DATA_ROOT, ids, 8, &name, true, true).unwrap();
    assert!(matches!(
        plan.last(),
        Some(StateAction::RemoveDirectory { parent: StatePlace::Generations, name: removed })
            if *removed == uuid_text(8)
    ));
    assert!(cleanup_enrollment_generation("/tmp", ids, 8, &name, true, true).is_err());
    assert_eq!(persistence_failure("a".into(), Ok(())), "a");
    assert_eq!(
        persistence_failure("a".into(), Err("b".into())),
        "failed generation cleanup also failed: b: a"
    );
    let (steps, lock) = secure_base_state(DATA_ROOT, LOCK_PATH, ids).unwrap();
    assert_eq!(steps.len(), 6);
    assert_eq!((lock.mode, lock.uid, lock.gid), (0o600, 990, 990));
    assert_eq!(secure_lock(LOCK_PATH, ids).unwrap(), lock);
    assert!(secure_lock("/tmp/lock", ids).is_err());
}

#[test]
fn manifests_without_a_key_are_refused() {
    let parameters = UpdateParameters {
        manifest_url: "https://example.test/centrald-release.yml".into(),
        channel: "alpha".into(),
        allow_prerelease: true,
        expected_version: "0.2.0".into(),
    };
    assert_eq!(
        verify_manifest("", b"{}", Vec::new(), None, &parameters, "0.1.0").err().unwrap(),
        "this client build has no Minisign public key; update verification is disabled"
    );
    assert!(verify_manifest("", b"{}", Vec::new(), None, &parameters, "x").is_err());
    assert!(installation_outcome(false, true, "").is_ok());
    assert_eq!(
        installation_outcome(false, false, "bad").unwrap_err(),
        "dpkg rejected the package: bad"
    );
    assert_eq!(
        installation_outcome(true, false, "bad").unwrap_err(),
        "the CentralD installer failed: bad"
    );
    assert_eq!(staging_directory(EntryKind::Missing), Ok(true));
    assert_eq!(staging_directory(EntryKind::Directory), Ok(false));
    assert_eq!(
        staging_directory(EntryKind::Symlink).unwrap_err(),
        "update staging path is not a real directory"
    );
    let artifact = centrald::common::release::ReleaseArtifact {
        component: centrald::common::release::Component::Client,
        os: OperatingSystem::Linux,
        architecture: centrald::common::release::Architecture::X86_64,
        package: centrald::common::release::PackageKind::Deb,
        filename: "client.deb".into(),
        url: "https://example.test/client.deb".into(),
        size: 7,
        sha256: digest(b"package"),
        signature_url: None,
    };
    assert_eq!(
        verify_artifact("", &artifact, b"package", None).unwrap_err(),
        "release artifact has no Minisign signature"
    );
    assert!(verify_artifact("", &artifact, b"other", None)
        .unwrap_err()
        .starts_with("artifact SHA-256 mismatch"));
}

#[test]
fn documents_have_their_wire_form() {
    let signed = grant(1, 2, GrantOperation::UpdateClient, b"{}", "n\"1");
    let zero = "00000000-0000-0000-0000-0000000000";
    let text = format!(
        "{{\"id\":\"{zero}01\",\"device_id\":\"{zero}11\",\"job_or_session_id\":\"{zero}02\",\"admin_id\":\"{zero}01\",\"operation\":\"update_client\",\"parameters_sha256\":\"{}\",\"issued_at\":\"2027-01-15T07:59:59Z\",\"expires_at\":\"2027-01-15T08:01:00Z\",\"nonce\":\"n\\\"1\"}}",
        digest(b"{}")
    );
    assert_eq!(centrald::common::grant::grant_text(&signed.grant), text);
    let mut payload = b"centrald-grant-v1\0".to_vec();
    payload.extend_from_slice(text.as_bytes());
    assert_eq!(centrald::common::grant::signing_payload(&signed.grant), payload);
    assert!(ed25519_dalek::Verifier::verify(
        &ed25519_dalek::SigningKey::from_bytes(&[5; 32]).verifying_key(),
        &payload,
        &ed25519_dalek::Signature::from_slice(
            &base64::Engine::decode(
                &base64::engine::general_purpose::STANDARD,
                &signed.signature_base64
            )
            .unwrap()
        )
        .unwrap(),
    )
    .is_ok());

    // Keys of a free-form document are sorted.
    let line = centrald::client::journal::consumed_grant_line(3, at(0));
    let value: serde_json::Value = serde_json::from_slice(&line).unwrap();
    let mut again = serde_json::to_vec(&value).unwrap();
    again.push(b'\n');
    assert_eq!(line, again);
    assert_eq!(value["record"]["grant_id"], uuid_text(3));
    assert_eq!(
        value["checksum_sha256"],
        digest(&serde_json::to_vec(&value["record"]).unwrap())
    );
    assert_eq!(
        centrald::client::ledger::response_text(&BrokerResponse {
            success: false,
            output: b"a".to_vec(),
            exit_code: 1
        }),
        "{\"success\":false,\"output\":[97],\"exit_code\":1}"
    );
}
