use centrald::client::auth::validate_account_credentials;
use centrald::client::broker::{
    broker_state_dir, frame_bytes, resolve_daemon_account, serve_step, unframe_bytes,
    windows_broker_state_dir, BrokerExecutor, ServeAction, ServeEvent,
};
use centrald::client::broker_session::{
    encode_frame, input_step, output_step, read_frame, resolve_credentials, unframe_message,
    watchdog_step, write_frame, InputAction, OutputEvent, SessionManager, SessionParameters,
    SessionTotals, SessionWireFrame, WatchdogVerdict, MAX_SESSION_WIRE_FRAME_BYTES,
};
use centrald::client::compaction::{compact_records, needs_compaction};
use centrald::client::journal::{
    check_ledger_file, consumed_grant_line, consumed_grant_of_line, consumed_grants_of,
    journal_lines, split_torn_tail, torn_record_name,
};
use centrald::client::ledger::{BrokerLedger, LedgerLookup, MAX_RECORDED_OUTPUT_BYTES};
use centrald::client::ptys::{shell_command, PtySessionSpec, SessionPrivilege};
use centrald::common::grant::{GrantOperation, PrivilegedGrant};
use centrald::common::secure_fs::EntryKind;
use centrald::crypto::SigningKey;
use centrald::instant::Timestamp;
use centrald::platform::broker::{
    BrokerError, BrokerRequest, BrokerResponse, GrantVerifier, OperationRunner,
    MAX_WIRE_RESPONSE_BYTES,
};

fn id() -> u128 {
    uuid::Uuid::now_v7().as_u128()
}

fn moment(value: chrono::DateTime<chrono::Utc>) -> Timestamp {
    Timestamp::new(value.timestamp(), value.timestamp_subsec_nanos()).unwrap()
}

fn now() -> Timestamp {
    moment(chrono::Utc::now())
}

fn digest(bytes: &[u8]) -> String {
    hex::encode(<sha2::Sha256 as sha2::Digest>::digest(bytes))
}

#[derive(Debug, Default)]
struct FakeRunner {
    calls: usize,
}

impl OperationRunner for FakeRunner {
    fn run(
        &mut self,
        _operation: &GrantOperation,
        _parameters_json: &[u8],
    ) -> Result<BrokerResponse, String> {
        self.calls += 1;
        Ok(BrokerResponse { success: true, output: b"ok".to_vec(), exit_code: 0 })
    }
}

fn empty_ledger() -> BrokerLedger {
    BrokerLedger::open(Vec::new(), Vec::new())
}

fn fixture(seed: u8) -> (u128, SigningKey, BrokerExecutor) {
    let device_id = id();
    let key = SigningKey::from_bytes(&[seed; 32]);
    let executor = BrokerExecutor::new(
        GrantVerifier::new(device_id, key.verifying_key()),
        empty_ledger(),
    );
    (device_id, key, executor)
}

fn request(device_id: u128, key: &SigningKey, job_id: u128, parameters: &[u8]) -> BrokerRequest {
    let now = chrono::Utc::now();
    let grant = PrivilegedGrant {
        id: id(),
        device_id,
        job_or_session_id: job_id,
        admin_id: id(),
        operation: GrantOperation::RestartClientService,
        parameters_sha256: digest(parameters),
        issued_at: moment(now - chrono::Duration::seconds(1)),
        expires_at: moment(now + chrono::Duration::seconds(60)),
        nonce: uuid::Uuid::now_v7().to_string(),
    };
    BrokerRequest {
        signed_grant: grant.sign(key).unwrap(),
        parameters_json: parameters.to_vec(),
    }
}

#[test]
fn executes_once_and_replays_for_redispatched_jobs() {
    let (device, key, mut executor) = fixture(3);
    let mut runner = FakeRunner::default();
    let job = id();
    let first = request(device, &key, job, b"{}");
    let response = executor.execute(&first, now(), &mut runner).unwrap();
    assert_eq!(response.output, b"ok");
    // A re-dispatched job with a fresh grant replays the recorded result
    // instead of executing again.
    let redispatched = request(device, &key, job, b"{}");
    let replay = executor.execute(&redispatched, now(), &mut runner).unwrap();
    assert_eq!(replay.output, b"ok");
    assert_eq!(runner.calls, 1);
}

#[test]
fn rejects_replayed_grants_wrong_devices_and_wrong_keys() {
    let (device, key, mut executor) = fixture(3);
    let mut runner = FakeRunner::default();
    let (other_device, other_key, _other_executor) = fixture(9);
    let job = id();
    let first = request(device, &key, job, b"{}");
    assert!(executor.execute(&first, now(), &mut runner).is_ok());
    assert!(executor.execute(&first, now(), &mut runner).is_err());

    // A grant for another device, validly signed, must be rejected.
    let wrong_device = request(other_device, &other_key, job, b"{}");
    assert!(executor.execute(&wrong_device, now(), &mut runner).is_err());

    // A grant for this device signed by the wrong key must be rejected.
    let wrong_key = request(device, &other_key, job, b"{}");
    assert!(executor.execute(&wrong_key, now(), &mut runner).is_err());
}

#[test]
fn rejects_tampered_parameters() {
    let (device, key, mut executor) = fixture(3);
    let mut runner = FakeRunner::default();
    let job = id();
    let mut tampered = request(device, &key, job, b"{\"delay\":1}");
    tampered.parameters_json = b"{\"delay\":2}".to_vec();
    assert!(executor.execute(&tampered, now(), &mut runner).is_err());
}

fn parameters() -> SessionParameters {
    SessionParameters {
        privilege: "low".into(),
        user: "centrald".into(),
        shell: "/bin/bash".into(),
        max_frame_bytes: 65_536,
        idle_timeout_seconds: 900,
        absolute_timeout_seconds: 28_800,
        credentials_sha256: String::new(),
    }
}

#[test]
fn session_parameters_validate_bounds() {
    let mut params = parameters();
    assert!(params.validate().is_ok());
    params.privilege = "root".into();
    assert!(params.validate().is_err());
    params.privilege = "low".into();
    params.max_frame_bytes = 10;
    assert!(params.validate().is_err());
    params.max_frame_bytes = 65_536;
    params.credentials_sha256 = "zz".repeat(32);
    assert!(params.validate().is_err());
}

#[test]
fn frames_round_trip_with_bounds() {
    let payload = encode_frame(&SessionWireFrame::Data {
        data_base64: base64::Engine::encode(
            &base64::engine::general_purpose::STANDARD,
            b"hello",
        ),
    });
    let mut framed = Vec::new();
    framed.extend_from_slice(&u32::try_from(payload.len()).unwrap().to_be_bytes());
    framed.extend_from_slice(&payload);
    let decoded = read_frame(&framed, MAX_SESSION_WIRE_FRAME_BYTES).unwrap();
    assert_eq!(decoded, payload);
    assert!(read_frame(&[], 1024).is_err());
    let mut oversized = Vec::new();
    oversized.extend_from_slice(&(u32::MAX).to_be_bytes());
    assert!(read_frame(&oversized, 1024).is_err());
    assert_eq!(write_frame(&payload).unwrap(), framed);
    assert_eq!(unframe_message(&framed, 1024).unwrap(), payload);
    framed.push(0);
    assert!(unframe_message(&framed, 1024).is_err());
    assert_eq!(payload, b"{\"kind\":\"data\",\"data_base64\":\"aGVsbG8=\"}");
}

#[test]
fn saved_credentials_are_release_gated() {
    let params = parameters();
    let error = resolve_credentials(&params, "centrald", "", true).err().unwrap();
    assert!(error.message().contains("unavailable"));
    assert!(resolve_credentials(&params, "centrald", "", false).ok().unwrap().is_none());
}

fn response(output: &[u8]) -> BrokerResponse {
    BrokerResponse { success: true, output: output.to_vec(), exit_code: 0 }
}

#[test]
fn records_execution_then_completion() {
    let mut ledger = empty_ledger();
    let now = now();
    let job = id();
    ledger.mark_executing(job, GrantOperation::RestartClientService, now).unwrap();
    assert!(matches!(
        ledger.lookup(job, now).unwrap().unwrap(),
        LedgerLookup::Executing { interrupted: false }
    ));
    ledger.record_completed(job, &response(b"ok"), now).unwrap();
    assert!(matches!(
        ledger.lookup(job, now).unwrap().unwrap(),
        LedgerLookup::Completed(_)
    ));
}

#[test]
fn replays_the_recorded_result_after_reopen() {
    let mut ledger = empty_ledger();
    let now = now();
    let job = id();
    ledger.mark_executing(job, GrantOperation::RestartClientService, now).unwrap();
    ledger.record_completed(job, &response(b"restarted"), now).unwrap();
    let (journal, consumed) = ledger.into_journals();
    let reopened = BrokerLedger::open(journal, consumed);
    let LedgerLookup::Completed(recorded) = reopened.lookup(job, now).unwrap().unwrap() else {
        panic!("expected completed record");
    };
    assert_eq!(recorded.output, b"restarted");
}

#[test]
fn rejects_duplicate_executing_markers() {
    let mut ledger = empty_ledger();
    let now = now();
    let job = id();
    ledger.mark_executing(job, GrantOperation::RestartClientService, now).unwrap();
    assert!(ledger.mark_executing(job, GrantOperation::RestartClientService, now).is_err());
}

#[test]
fn expired_interrupted_marker_fails_closed() {
    let mut ledger = empty_ledger();
    let now = now();
    let job = id();
    ledger.mark_executing(job, GrantOperation::RestartMachine, now).unwrap();
    let later = now.plus_seconds(3600);
    assert!(matches!(
        ledger.lookup(job, later).unwrap().unwrap(),
        LedgerLookup::Executing { interrupted: true }
    ));
}

#[test]
fn torn_final_record_is_quarantined() {
    let mut ledger = empty_ledger();
    let now = now();
    let job = id();
    let line = ledger.mark_executing(job, GrantOperation::RestartClientService, now).unwrap();
    let mut raw = line.clone();
    raw.extend_from_slice(b"{\"torn");
    let (committed, tail) = split_torn_tail(&raw);
    assert_eq!(committed, line);
    assert_eq!(tail, b"{\"torn");
    assert_eq!(journal_lines(&committed).len(), 1);
    assert!(matches!(
        ledger.lookup(job, now).unwrap().unwrap(),
        LedgerLookup::Executing { interrupted: false }
    ));
}

#[test]
fn record_output_respects_the_job_event_bound() {
    let mut ledger = empty_ledger();
    let now = now();
    let job = id();
    ledger.mark_executing(job, GrantOperation::CheckOsUpdates, now).unwrap();
    let oversized = vec![b'x'; MAX_RECORDED_OUTPUT_BYTES + 1];
    assert!(ledger.record_completed(job, &response(&oversized), now).is_err());
    assert!(ledger.record_completed(job, &response(b"ok"), now).is_ok());
}

#[test]
fn recorded_response_cannot_exceed_the_wire_bound() {
    let mut ledger = empty_ledger();
    let now = now();
    let job = id();
    ledger.mark_executing(job, GrantOperation::CheckOsUpdates, now).unwrap();
    let oversized = vec![b'x'; MAX_WIRE_RESPONSE_BYTES + 1];
    assert!(ledger.record_completed(job, &response(&oversized), now).is_err());
}

#[test]
fn compaction_keeps_the_latest_record_of_a_job() {
    let mut ledger = empty_ledger();
    let now = now();
    let (first, second) = (id(), id());
    ledger.mark_executing(first, GrantOperation::CheckOsUpdates, now).unwrap();
    ledger.record_completed(first, &response(b"done"), now).unwrap();
    ledger.mark_executing(second, GrantOperation::RestartMachine, now).unwrap();
    let records = ledger.read_committed(now).unwrap();
    assert_eq!(records.len(), 3);
    let kept = compact_records(&records);
    assert_eq!(kept.len(), 2);
    assert!(kept.iter().any(|record| record.job_id == first && record.response.is_some()));
    assert!(kept.iter().any(|record| record.job_id == second));
    assert!(!needs_compaction(4 * 1024 * 1024));
    assert!(needs_compaction(4 * 1024 * 1024 + 1));
}

#[test]
fn consumed_grants_are_remembered_until_they_expire() {
    let mut ledger = empty_ledger();
    let now = now();
    let grant = id();
    ledger.record_consumed_grant(grant, now.plus_seconds(60));
    assert!(ledger.grant_was_consumed(grant, now).unwrap());
    assert!(!ledger.grant_was_consumed(id(), now).unwrap());
    assert!(ledger.grant_was_consumed(grant, now.plus_seconds(60)).unwrap());
    assert!(!ledger.grant_was_consumed(grant, now.plus_seconds(61)).unwrap());
}

#[test]
fn a_grant_is_consumed_once_even_as_it_expires() {
    let key = SigningKey::from_bytes(&[9_u8; 32]);
    let device = id();
    let mut verifier = GrantVerifier::new(device, key.verifying_key());
    let now = now();
    let grant = machine_request(device, &key, b"{}", now).signed_grant;
    let expiry = grant.grant.expires_at;
    assert!(verifier.verify_and_consume(&grant, now).is_ok());
    assert!(matches!(verifier.verify_and_consume(&grant, expiry), Err(BrokerError::Replay)));
    let mut restored = GrantVerifier::new(device, key.verifying_key());
    restored.restore(grant.grant.id, expiry, expiry);
    assert!(matches!(restored.verify_and_consume(&grant, expiry), Err(BrokerError::Replay)));
}

fn journal_line(record: &str, checksum: &str) -> Vec<u8> {
    format!("{{\"record\":{record},\"checksum_sha256\":{checksum}}}").into_bytes()
}

#[test]
fn consumed_grants_are_read_back_from_their_journal() {
    let grant = id();
    let expiry = Timestamp::new(1_700_000_000, 250_000_000).unwrap();
    let mut journal = consumed_grant_line(grant, expiry);
    journal.extend_from_slice(b"  \n");
    journal.extend(consumed_grant_line(7, expiry));
    let entries = consumed_grants_of(&journal).unwrap();
    assert_eq!(entries.len(), 2);
    assert_eq!((entries[0].line, entries[0].grant_id), (1, grant));
    assert_eq!((entries[1].line, entries[1].grant_id), (3, 7));
    assert_eq!(entries[1].expires_at, expiry);
    assert!(consumed_grants_of(b"").unwrap().is_empty());
    for (seconds, nanos) in [
        (0, 1),
        (253_402_300_799, 999_999_999),
        (253_402_300_800, 0),
        (-62_167_219_201, 1_000),
        (1_483_228_799, 1_500_000_000),
        (centrald::instant::FIRST_SECOND, 0),
        (centrald::instant::LAST_SECOND, 999_999_999),
    ] {
        let moment = Timestamp::new(seconds, nanos).unwrap();
        let line = consumed_grant_line(grant, moment);
        let entry = consumed_grant_of_line(1, &line[..line.len() - 1]).unwrap();
        assert_eq!((entry.grant_id, entry.expires_at), (grant, moment));
    }
    journal.extend_from_slice(b"{");
    assert_eq!(
        consumed_grants_of(&journal).unwrap_err(),
        "parse consumed-grant journal record 4"
    );
}

#[test]
fn damaged_consumed_grants_are_told_apart() {
    let refusal = |line: &[u8]| consumed_grant_of_line(5, line).unwrap_err();
    assert_eq!(refusal(b"nonsense"), "parse consumed-grant journal record 5");
    assert_eq!(refusal(b"[]"), "consumed-grant journal record missing payload");
    assert_eq!(
        refusal(b"{\"record\":{}}"),
        "consumed-grant journal record missing checksum"
    );
    assert_eq!(
        refusal(&journal_line("{}", "7")),
        "consumed-grant journal record missing checksum"
    );
    assert_eq!(
        refusal(&journal_line("{}", "\"00\"")),
        "consumed-grant journal checksum mismatch on record 5"
    );
    let signed = |record: &str| {
        let compact = serde_json::to_vec(
            &serde_json::from_str::<serde_json::Value>(record).unwrap(),
        )
        .unwrap();
        journal_line(record, &format!("\"{}\"", digest(&compact)))
    };
    assert_eq!(refusal(&signed("{}")), "consumed-grant journal record missing grant_id");
    let grant = uuid::Uuid::from_u128(7);
    assert_eq!(
        refusal(&signed(&format!("{{\"grant_id\":\"{grant}\"}}"))),
        "consumed-grant journal record missing expires_at"
    );
    assert_eq!(
        refusal(&signed("{\"grant_id\":7}")),
        serde_json::from_str::<serde_json::Value>("7")
            .and_then(serde_json::from_value::<uuid::Uuid>)
            .unwrap_err()
            .to_string()
    );
    assert!(refusal(&signed(&format!(
        "{{\"grant_id\":\"{grant}\",\"expires_at\":\"soon\"}}"
    )))
    .contains("input contains invalid characters"));
    let entry = consumed_grant_of_line(
        5,
        &signed(&format!(
            "{{ \"grant_id\": \"{grant}\", \"expires_at\": \"2026-01-02T03:04:05.5+01:00\" }}"
        )),
    )
    .unwrap();
    assert_eq!(entry.grant_id, 7);
    assert_eq!(entry.expires_at.text(), "2026-01-02T02:04:05.500Z");
}

#[test]
fn elevated_shell_must_be_allowlisted() {
    let spec = PtySessionSpec {
        privilege: SessionPrivilege::Elevated,
        user: String::new(),
        shell: "/usr/bin/python3".to_owned(),
        columns: 80,
        rows: 24,
    };
    assert!(shell_command(&spec).is_err());
    assert_eq!(
        shell_command(&spec).unwrap_err().message(&spec.shell),
        "requested shell \"/usr/bin/python3\" is not in the broker allowlist"
    );
}

#[test]
fn empty_shell_selects_the_platform_default() {
    let spec = PtySessionSpec {
        privilege: SessionPrivilege::Elevated,
        user: String::new(),
        shell: String::new(),
        columns: 80,
        rows: 24,
    };
    let (program, args) = shell_command(&spec).unwrap();
    assert!(!program.is_empty());
    assert!(args.is_empty());
}

#[test]
fn low_shell_targets_the_service_account_and_rejects_root() {
    let spec = PtySessionSpec {
        privilege: SessionPrivilege::Low,
        user: String::new(),
        shell: "/bin/bash".to_owned(),
        columns: 80,
        rows: 24,
    };
    let (program, args) = shell_command(&spec).unwrap();
    assert_eq!(program, "/usr/bin/runuser");
    assert_eq!(args, ["-u", "centrald", "--", "/bin/bash"]);

    let root = PtySessionSpec {
        privilege: SessionPrivilege::Low,
        user: "root".to_owned(),
        shell: "/bin/bash".to_owned(),
        columns: 80,
        rows: 24,
    };
    assert!(shell_command(&root).is_err());
}

#[test]
fn rejects_empty_account_and_password() {
    assert!(validate_account_credentials("", "x").is_err());
    assert!(validate_account_credentials("root", "").is_err());
    assert!(validate_account_credentials(" ", "x").is_err());
    assert!(validate_account_credentials("root", "x").is_ok());
}

fn machine_request(device_id: u128, key: &SigningKey, parameters: &[u8], at: Timestamp) -> BrokerRequest {
    let grant = PrivilegedGrant {
        id: id(),
        device_id,
        job_or_session_id: id(),
        admin_id: id(),
        operation: GrantOperation::RestartMachine,
        parameters_sha256: digest(parameters),
        issued_at: Timestamp::new(at.seconds() - 1, at.nanos()).unwrap(),
        expires_at: at.plus_seconds(3600),
        nonce: uuid::Uuid::now_v7().to_string(),
    };
    BrokerRequest {
        signed_grant: grant.sign(key).unwrap(),
        parameters_json: parameters.to_vec(),
    }
}

#[test]
fn executes_once_and_burns_mismatched_grants() {
    let key = SigningKey::from_bytes(&[9_u8; 32]);
    let device = id();
    let mut verifier = GrantVerifier::new(device, key.verifying_key());
    let mut runner = FakeRunner::default();
    let valid = machine_request(device, &key, b"{}", now());
    assert!(verifier.execute(&valid, now(), &mut runner).is_ok());
    assert_eq!(runner.calls, 1);
    assert!(matches!(
        verifier.execute(&valid, now(), &mut runner),
        Err(BrokerError::Replay)
    ));

    let mut tampered = machine_request(device, &key, b"{}", now());
    tampered.parameters_json = b"{\"delay\":999}".to_vec();
    assert!(matches!(
        verifier.execute(&tampered, now(), &mut runner),
        Err(BrokerError::ParametersMismatch)
    ));
    assert!(matches!(
        verifier.execute(&tampered, now(), &mut runner),
        Err(BrokerError::Replay)
    ));
    assert_eq!(runner.calls, 1);
}

#[test]
fn refuses_to_evict_unexpired_grants() {
    let key = SigningKey::from_bytes(&[9_u8; 32]);
    let device = id();
    let mut verifier = GrantVerifier::new(device, key.verifying_key());
    let now = now();
    let first = machine_request(device, &key, b"{}", now);
    assert!(verifier.verify_and_consume(&first.signed_grant, now).is_ok());
    for count in 1..4096 {
        if count < 768 {
            let extra = machine_request(device, &key, b"{}", now);
            verifier.verify_and_consume(&extra.signed_grant, now).unwrap();
        } else {
            // Checking a signature takes milliseconds in a debug build, so the
            // rest was consumed before a restart.
            verifier.restore(id(), now.plus_seconds(3600), now);
        }
    }
    let overflow = machine_request(device, &key, b"{}", now);
    assert!(matches!(
        verifier.verify_and_consume(&overflow.signed_grant, now),
        Err(BrokerError::ReplaySetFull)
    ));
    assert!(matches!(
        verifier.verify_and_consume(&first.signed_grant, now),
        Err(BrokerError::Replay)
    ));
}

#[test]
fn broker_frames_are_bounded() {
    let framed = frame_bytes(b"body").unwrap();
    assert_eq!(framed, b"\0\0\0\x04body");
    assert_eq!(unframe_bytes(&framed, 4).unwrap(), (b"body".to_vec(), 8));
    assert!(unframe_bytes(&framed, 3).is_err());
    assert!(unframe_bytes(&framed[..5], 4).is_err());
}

#[test]
fn only_the_daemon_account_is_served() {
    let passwd = b"root:x:0:0:root:/root:/bin/sh\ncentrald:x:991:990::/:/bin/false\n".to_vec();
    assert_eq!(resolve_daemon_account(passwd).unwrap(), (991, 990));
    assert!(resolve_daemon_account(b"centrald:x:0:0::/:/bin/false\n".to_vec()).is_err());
    assert_eq!(serve_step(ServeEvent::Connected { uid: 991 }, 991), ServeAction::Serve);
    assert_eq!(serve_step(ServeEvent::Connected { uid: 0 }, 991), ServeAction::Reject);
    assert_eq!(
        serve_step(ServeEvent::Shutdown { requested: Some(true) }, 991),
        ServeAction::Stop
    );
    assert_eq!(broker_state_dir().unwrap(), "/var/lib/centrald-broker");
    assert_eq!(
        windows_broker_state_dir(Some("C:\\ProgramData")).unwrap(),
        "C:\\ProgramData\\CentralD\\Broker"
    );
}

#[test]
fn sessions_are_bounded() {
    let mut manager = SessionManager::new();
    for session in 0..8 {
        assert!(manager.reserve(session).is_ok());
    }
    assert!(manager.reserve(8).is_err());
    manager.release(3);
    assert_eq!(manager.active_count(), 7);
    assert!(manager.reserve(8).is_ok());

    let mut totals = SessionTotals { input_bytes: 0, output_bytes: 0 };
    let frame = SessionWireFrame::Data { data_base64: "aGVsbG8=".into() };
    assert!(matches!(
        input_step(&frame, 65_536, &mut totals),
        Ok(InputAction::Write { data }) if data == b"hello"
    ));
    assert_eq!(totals.input_bytes, 5);
    assert!(input_step(&frame, 4, &mut totals).is_err());
    let (sent, ended) = output_step(OutputEvent::Data { data: b"hi".to_vec() }, &mut totals);
    assert!(sent.is_some() && !ended);
    let (_, ended) = output_step(OutputEvent::Exited, &mut totals);
    assert!(ended);
    assert_eq!(watchdog_step(false, 0, 0, &parameters()), WatchdogVerdict::Continue);
}

#[test]
fn the_ledger_file_is_a_regular_one_of_roots() {
    assert!(check_ledger_file("/l", EntryKind::Regular, 0).is_ok());
    assert_eq!(
        check_ledger_file("/l", EntryKind::Symlink, 0).unwrap_err(),
        "broker ledger is not a regular file: /l"
    );
    assert_eq!(
        check_ledger_file("/l", EntryKind::Regular, 1000).unwrap_err(),
        "broker ledger must be root-owned"
    );
    assert_eq!(
        torn_record_name(7),
        ".centrald-broker-ledger-torn-00000000-0000-0000-0000-000000000007.bin"
    );
}

#[test]
fn a_recorded_answer_is_replayed_at_the_end_of_time() {
    let (device, key, mut executor) = fixture(3);
    let mut runner = FakeRunner::default();
    let retention = 7 * 86_400;
    let start = Timestamp::new(centrald::instant::LAST_SECOND - retention, 0).unwrap();
    let job = id();
    let granted = |issued: Timestamp, expires: Timestamp| BrokerRequest {
        signed_grant: PrivilegedGrant {
            id: id(),
            device_id: device,
            job_or_session_id: job,
            admin_id: id(),
            operation: GrantOperation::RestartClientService,
            parameters_sha256: digest(b"{}"),
            issued_at: issued,
            expires_at: expires,
            nonce: "nonce".into(),
        }
        .sign(&key)
        .unwrap(),
        parameters_json: b"{}".to_vec(),
    };
    let first = granted(start, start.plus_seconds(60));
    assert_eq!(executor.execute(&first, start, &mut runner).unwrap().output, b"ok");
    let late = Timestamp::new(centrald::instant::LAST_SECOND - 1, 0).unwrap();
    let second = granted(late, late.plus_seconds(1));
    assert_eq!(executor.execute(&second, late, &mut runner).unwrap().output, b"ok");
    assert_eq!(runner.calls, 1);
}

#[test]
fn a_marked_job_is_refused_at_the_end_of_time() {
    let mut ledger = empty_ledger();
    let now = now();
    let job = id();
    let operation = GrantOperation::RestartMachine;
    ledger.mark_executing(job, operation, now).unwrap();
    let last = Timestamp::new(centrald::instant::LAST_SECOND, 999_999_999).unwrap();
    assert!(ledger.mark_executing(job, operation, last).is_err());
    assert!(matches!(
        ledger.lookup(job, last),
        Ok(Some(LedgerLookup::Executing { interrupted: true }))
    ));
    assert!(matches!(
        ledger.lookup(job, now.plus_seconds(30 * 60 - 1)),
        Ok(Some(LedgerLookup::Executing { interrupted: false }))
    ));
}
