//! Privileged broker: the root-side half of the job execution path.
//!
//! The client daemon is unprivileged. Typed, short-lived, server-signed
//! grants are forwarded over an ACL-restricted local channel to this broker,
//! which verifies the grant, executes the allowlisted operation, and reports
//! the bounded result back to the daemon for delivery as a job event.
//!
//! Exactly-once semantics are provided by a durable ledger: each job is marked
//! `Executing` before its operation runs and `Completed` after. A re-dispatched
//! job replays the recorded result instead of running twice, and an
//! interrupted marker fails closed with an explicit "outcome unknown" error.

use vstd::prelude::*;
use vstd::utf8::{decode_utf8, encode_utf8, valid_utf8};

use crate::codec::{
    be32, be32_round_trip, be32_value, hex_text, json_member_text, json_string, json_text,
    json_text_member, member, member_text, object, object_text, push_be32, quote, quoted,
    read_be32,
};
use crate::common::config::{windows_client_data_dir, windows_join, windows_joined};
use crate::common::grant::SignedGrant;
use crate::crypto::sha256_digest;
use crate::instant::Timestamp;
use crate::platform::broker::{
    parameters_match, unexpired_grant_is_not_consumed_twice, BrokerError, BrokerRequest,
    BrokerResponse, GrantVerifier, OperationRunner, ResponseModel, MAX_WIRE_REQUEST_BYTES,
    MAX_WIRE_RESPONSE_BYTES,
};
use crate::text::{
    fields, lines, parse_unsigned, same_text, split, tell, text_lines, told, unsigned, utf8_text,
    views,
};

use super::broker_session::{
    open_session, opening, SessionError, SessionManager, SessionParameters,
};
use super::ledger::{
    appended, appended_record_is_read, appending_adds_no_fault, committed, first_fault,
    is_completion, is_marker, is_recorded, latest, line_of, marked_job_is_never_forgotten,
    response_document, response_text, standing, BrokerLedger, EnvelopeModel, LedgerError,
    LedgerLookup, LedgerState, LookupModel, RecordModel, EXECUTING_MARKER_TTL_SECONDS,
    MAX_RECORDED_OUTPUT_BYTES, RECORD_RETENTION_SECONDS,
};

verus! {

/// The one supported Unix broker socket. Daemon and broker both hard-code it;
/// a client daemon never learns the path from configuration.
pub const BROKER_SOCKET_PATH: &'static str = "/run/centrald/broker.sock";

pub const MAX_PASSWD_BYTES: usize = 1024 * 1024;

/// How long the daemon waits for a broker round trip before giving up.
pub const BROKER_ROUND_TRIP_TIMEOUT_SECONDS: u64 = 1200;

/// First-frame bound: the larger of the one-shot request and the session
/// open frame.
pub const MAX_FIRST_FRAME_BYTES: usize = 128 * 1024;

/// Tagged wire result so a rejected/errored request round-trips as a typed
/// failure instead of a parse error.
#[derive(Debug)]
pub enum WireResult {
    Success { response: BrokerResponse },
    Error { message: String },
}

/// The JSON document of a wire result.
pub open spec fn wire_document(result: WireResult) -> Seq<char> {
    match result {
        WireResult::Success { response } => object(
            seq![
                member("result"@, quoted("ok"@)),
                member("response"@, response_document(response@)),
            ],
        ),
        WireResult::Error { message } => error_document(message@),
    }
}

/// The JSON document of a failure.
pub open spec fn error_document(message: Seq<char>) -> Seq<char> {
    object(
        seq![member("result"@, quoted("error"@)), member("message"@, json_string(message))],
    )
}

/// Encodes a wire result.
pub fn encode_wire_result(result: &WireResult) -> (bytes: Vec<u8>)
    ensures
        bytes@ == encode_utf8(wire_document(*result)),
{
    match result {
        WireResult::Success { response } => {
            let mut members: Vec<String> = Vec::new();
            members.push(member_text("result", &quote("ok")));
            members.push(member_text("response", &response_text(response)));
            let document = object_text(&members);
            assert(views(members@) =~= seq![
                member("result"@, quoted("ok"@)),
                member("response"@, response_document(response@)),
            ]);
            document.as_str().as_bytes_vec()
        },
        WireResult::Error { message } => encode_wire_error(message),
    }
}

/// Encodes a failure.
pub fn encode_wire_error(message: &str) -> (bytes: Vec<u8>)
    ensures
        bytes@ == encode_utf8(error_document(message@)),
{
    let mut members: Vec<String> = Vec::new();
    members.push(member_text("result", &quote("error")));
    members.push(member_text("message", &json_text(message)));
    let document = object_text(&members);
    assert(views(members@) =~= seq![
        member("result"@, quoted("error"@)),
        member("message"@, json_string(message@)),
    ]);
    document.as_str().as_bytes_vec()
}

/// Why a broker message is refused on the wire.
#[derive(Debug, Clone, Copy, PartialEq, Eq, Structural)]
pub enum FrameError {
    TooLarge,
    Truncated,
    OutOfBounds,
}

impl FrameError {
    pub open spec fn message_spec(self) -> Seq<char> {
        match self {
            FrameError::TooLarge => "broker request is too large"@,
            FrameError::Truncated => "broker response is truncated"@,
            FrameError::OutOfBounds => "broker response exceeds the wire bound"@,
        }
    }

    pub fn message(&self) -> (result: &'static str)
        ensures
            result@ == self.message_spec(),
    {
        match self {
            FrameError::TooLarge => "broker request is too large",
            FrameError::Truncated => "broker response is truncated",
            FrameError::OutOfBounds => "broker response exceeds the wire bound",
        }
    }
}

/// A message with its length before it.
pub open spec fn framed(body: Seq<u8>) -> Seq<u8> {
    be32(body.len()) + body
}

/// Length-prefixes a request body for the broker wire.
pub fn frame_bytes(body: &[u8]) -> (result: Result<Vec<u8>, FrameError>)
    ensures
        match result {
            Ok(bytes) => body@.len() <= u32::MAX && bytes@ == framed(body@),
            Err(error) => body@.len() > u32::MAX && error == FrameError::TooLarge,
        },
{
    let length: usize = body.len();
    if length > 0xffff_ffff {
        return Err(FrameError::TooLarge);
    }
    let mut bytes: Vec<u8> = Vec::new();
    push_be32(&mut bytes, length as u32);
    let mut copy = vstd::slice::slice_to_vec(body);
    bytes.append(&mut copy);
    assert(bytes@ =~= framed(body@));
    Ok(bytes)
}

/// What stripping a length prefix gives: the body and the length of the whole
/// message.
pub open spec fn unframed(framed: Seq<u8>, max_body: int) -> Result<(Seq<u8>, int), FrameError> {
    if framed.len() < 4 {
        Err(FrameError::Truncated)
    } else {
        let size = be32_value(framed) as int;
        if size == 0 || size > max_body {
            Err(FrameError::OutOfBounds)
        } else if 4 + size > framed.len() {
            Err(FrameError::Truncated)
        } else {
            Ok((framed.subrange(4, 4 + size), 4 + size))
        }
    }
}

/// Strips the length prefix from a broker wire message.
pub fn unframe_bytes(framed: &[u8], max_body: usize) -> (result: Result<
    (Vec<u8>, usize),
    FrameError,
>)
    ensures
        match result {
            Ok((body, total)) => unframed(framed@, max_body as int) == Ok::<
                (Seq<u8>, int),
                FrameError,
            >((body@, total as int)),
            Err(error) => unframed(framed@, max_body as int) == Err::<(Seq<u8>, int), FrameError>(
                error,
            ),
        },
{
    if framed.len() < 4 {
        return Err(FrameError::Truncated);
    }
    let size: u32 = read_be32(framed);
    if size == 0 || size as usize > max_body {
        return Err(FrameError::OutOfBounds);
    }
    if size as usize > framed.len() - 4 {
        return Err(FrameError::Truncated);
    }
    let total: usize = 4 + size as usize;
    let body = vstd::slice::slice_to_vec(vstd::slice::slice_subrange(framed, 4, total));
    Ok((body, total))
}

/// Stripping the prefix gives back the body that was framed, whatever follows
/// it on the wire.
pub proof fn frames_round_trip(body: Seq<u8>, rest: Seq<u8>, max_body: int)
    requires
        0 < body.len() <= max_body,
        body.len() <= u32::MAX,
    ensures
        unframed(framed(body) + rest, max_body) == Ok::<(Seq<u8>, int), FrameError>(
            (body, 4 + body.len() as int),
        ),
{
    be32_round_trip(body.len());
    let bytes = framed(body) + rest;
    assert(bytes[0] == be32(body.len())[0]);
    assert(bytes[1] == be32(body.len())[1]);
    assert(bytes[2] == be32(body.len())[2]);
    assert(bytes[3] == be32(body.len())[3]);
    assert(bytes.subrange(4, 4 + body.len() as int) =~= body);
}

/// What a broker connection is for, by its first frame.
#[derive(Debug, Clone, Copy, PartialEq, Eq, Structural)]
pub enum ConnectionKind {
    /// A shell session.
    Session,
    /// A one-shot request that is too large to be read.
    Oversized,
    /// A one-shot request.
    Request,
}

/// What a connection is for whose first frame opens a session or does not.
pub open spec fn connection_kind(opens: bool, first_frame_bytes: int) -> ConnectionKind {
    if opens {
        ConnectionKind::Session
    } else if first_frame_bytes > MAX_WIRE_REQUEST_BYTES {
        ConnectionKind::Oversized
    } else {
        ConnectionKind::Request
    }
}

/// Decides what a connection is for. `kind` is the text of the first frame's
/// `kind` member, if the frame is a JSON object that has one.
pub fn classify_connection(kind: Option<&str>, first_frame_bytes: usize) -> (result: ConnectionKind)
    ensures
        result == connection_kind(kind is Some && kind->0@ == "open"@, first_frame_bytes as int),
{
    match kind {
        Some(kind) if same_text(kind, "open") => return ConnectionKind::Session,
        _ => {},
    }
    if first_frame_bytes > MAX_WIRE_REQUEST_BYTES {
        ConnectionKind::Oversized
    } else {
        ConnectionKind::Request
    }
}

/// Decides what a connection is for by the bytes of its first frame.
pub fn classify_frame(first_frame: &[u8]) -> (result: ConnectionKind)
    ensures
        result == connection_kind(
            json_text_member(first_frame@, "kind"@) == Some(Some("open"@)),
            first_frame@.len() as int,
        ),
{
    match json_member_text(first_frame, "kind") {
        Some(Some(kind)) => classify_connection(Some(kind.as_str()), first_frame.len()),
        _ => classify_connection(None, first_frame.len()),
    }
}

/// The bytes that answer a one-shot request: its result, or a failure where the
/// request or the encoded result exceeds its bound.
pub open spec fn reply(oversized: bool, result: WireResult) -> Seq<u8> {
    if oversized {
        encode_utf8(error_document("broker request exceeds the wire bound"@))
    } else if encode_utf8(wire_document(result)).len() > MAX_WIRE_RESPONSE_BYTES {
        encode_utf8(error_document("broker response exceeded the wire bound"@))
    } else {
        encode_utf8(wire_document(result))
    }
}

/// Answers a one-shot request that is too large to be read.
pub fn reply_to_oversized() -> (bytes: Vec<u8>)
    ensures
        forall|result: WireResult| bytes@ == #[trigger] reply(true, result),
{
    encode_wire_error("broker request exceeds the wire bound")
}

/// Answers a one-shot request with its bounded result.
pub fn reply_with(result: &WireResult) -> (bytes: Vec<u8>)
    ensures
        bytes@ == reply(false, *result),
{
    let bytes = encode_wire_result(result);
    if bytes.len() > MAX_WIRE_RESPONSE_BYTES {
        return encode_wire_error("broker response exceeded the wire bound");
    }
    bytes
}

/// Whether an encoded request may be sent.
pub fn request_fits(bytes: &[u8]) -> (result: bool)
    ensures
        result == (bytes@.len() <= MAX_WIRE_REQUEST_BYTES),
{
    bytes.len() <= MAX_WIRE_REQUEST_BYTES
}

/// Whether a path is the broker's socket.
pub fn validate_socket_path(path: &str) -> (result: bool)
    ensures
        result == (path@ == BROKER_SOCKET_PATH@),
{
    same_text(path, BROKER_SOCKET_PATH)
}

/// What stands where the broker's socket is to be bound.
#[derive(Debug, Clone, Copy, PartialEq, Eq, Structural)]
pub enum SocketEntry {
    Absent,
    Socket { answered: bool },
    Other,
}

#[derive(Debug, Clone, Copy, PartialEq, Eq, Structural)]
pub enum SocketError {
    WrongPath,
    UnsafeDirectory,
    NotASocket,
    InUse,
}

impl SocketError {
    pub open spec fn message_spec(self) -> Seq<char> {
        match self {
            SocketError::WrongPath => "broker socket must be exactly /run/centrald/broker.sock"@,
            SocketError::UnsafeDirectory => "broker socket directory is not a real directory"@,
            SocketError::NotASocket => "refusing to replace a non-socket broker path"@,
            SocketError::InUse => "another privileged broker is already using the socket"@,
        }
    }

    pub fn message(&self) -> (result: &'static str)
        ensures
            result@ == self.message_spec(),
    {
        match self {
            SocketError::WrongPath => "broker socket must be exactly /run/centrald/broker.sock",
            SocketError::UnsafeDirectory => "broker socket directory is not a real directory",
            SocketError::NotASocket => "refusing to replace a non-socket broker path",
            SocketError::InUse => "another privileged broker is already using the socket",
        }
    }
}

/// What becomes of what stands at the socket's path: whether it is removed, or
/// why the broker does not start.
pub open spec fn socket_plan(path: Seq<char>, real_directory: bool, entry: SocketEntry) -> Result<
    bool,
    SocketError,
> {
    if path != BROKER_SOCKET_PATH@ {
        Err(SocketError::WrongPath)
    } else if !real_directory {
        Err(SocketError::UnsafeDirectory)
    } else {
        match entry {
            SocketEntry::Absent => Ok(false),
            SocketEntry::Socket { answered: false } => Ok(true),
            SocketEntry::Socket { answered: true } => Err(SocketError::InUse),
            SocketEntry::Other => Err(SocketError::NotASocket),
        }
    }
}

/// Decides whether the broker may bind its socket, and whether a stale one is
/// removed first: only a socket that nobody answers on is.
pub fn plan_socket(path: &str, real_directory: bool, entry: SocketEntry) -> (result: Result<
    bool,
    SocketError,
>)
    ensures
        result == socket_plan(path@, real_directory, entry),
{
    if !validate_socket_path(path) {
        return Err(SocketError::WrongPath);
    }
    if !real_directory {
        return Err(SocketError::UnsafeDirectory);
    }
    match entry {
        SocketEntry::Absent => Ok(false),
        SocketEntry::Socket { answered } => if answered {
            Err(SocketError::InUse)
        } else {
            Ok(true)
        },
        SocketEntry::Other => Err(SocketError::NotASocket),
    }
}

/// What the accept loop of the broker is told.
#[derive(Debug, Clone, Copy, PartialEq, Eq, Structural)]
pub enum ServeEvent {
    /// The shutdown channel reported; `requested` is its value, if it still has one.
    Shutdown { requested: Option<bool> },
    /// A peer with this user identifier connected.
    Connected { uid: u32 },
}

/// What the accept loop does next.
#[derive(Debug, Clone, Copy, PartialEq, Eq, Structural)]
pub enum ServeAction {
    Stop,
    Wait,
    Reject,
    Serve,
}

/// What the accept loop does about an event.
pub open spec fn served(event: ServeEvent, daemon_uid: u32) -> ServeAction {
    match event {
        ServeEvent::Shutdown { requested: Some(true) } => ServeAction::Stop,
        ServeEvent::Shutdown { .. } => ServeAction::Wait,
        ServeEvent::Connected { uid } => if uid == daemon_uid {
            ServeAction::Serve
        } else {
            ServeAction::Reject
        },
    }
}

/// One step of the accept loop: only the daemon's account is served.
pub fn serve_step(event: ServeEvent, daemon_uid: u32) -> (result: ServeAction)
    ensures
        result == served(event, daemon_uid),
{
    match event {
        ServeEvent::Shutdown { requested } => match requested {
            Some(requested) => if requested {
                ServeAction::Stop
            } else {
                ServeAction::Wait
            },
            None => ServeAction::Wait,
        },
        ServeEvent::Connected { uid } => if uid == daemon_uid {
            ServeAction::Serve
        } else {
            ServeAction::Reject
        },
    }
}

/// Why the daemon's account cannot be found.
#[derive(Debug, Clone, Copy, PartialEq, Eq, Structural)]
pub enum AccountError {
    TooLarge,
    NotText,
    InvalidUid,
    RootUid,
    InvalidGid,
    Missing,
}

impl AccountError {
    pub open spec fn message_spec(self) -> Seq<char> {
        match self {
            AccountError::TooLarge => "/etc/passwd exceeds the bounded read size"@,
            AccountError::NotText => "/etc/passwd is not valid UTF-8"@,
            AccountError::InvalidUid => "centrald UID is invalid in /etc/passwd"@,
            AccountError::RootUid => "the centrald service account must not be UID 0"@,
            AccountError::InvalidGid => "centrald GID is invalid in /etc/passwd"@,
            AccountError::Missing =>
                "the centrald service account is missing from /etc/passwd"@,
        }
    }

    pub fn message(&self) -> (result: &'static str)
        ensures
            result@ == self.message_spec(),
    {
        match self {
            AccountError::TooLarge => "/etc/passwd exceeds the bounded read size",
            AccountError::NotText => "/etc/passwd is not valid UTF-8",
            AccountError::InvalidUid => "centrald UID is invalid in /etc/passwd",
            AccountError::RootUid => "the centrald service account must not be UID 0",
            AccountError::InvalidGid => "centrald GID is invalid in /etc/passwd",
            AccountError::Missing => "the centrald service account is missing from /etc/passwd",
        }
    }
}

/// Whether a line of the account file is about the daemon's account.
pub open spec fn names_daemon(line: Seq<char>) -> bool {
    split(line, ':').len() >= 4 && split(line, ':')[0] == "centrald"@
}

/// What the daemon's line says.
pub open spec fn account_of(line: Seq<char>) -> Result<(u32, u32), AccountError> {
    match unsigned(split(line, ':')[2], u32::MAX as nat) {
        None => Err(AccountError::InvalidUid),
        Some(uid) => if uid == 0 {
            Err(AccountError::RootUid)
        } else {
            match unsigned(split(line, ':')[3], u32::MAX as nat) {
                None => Err(AccountError::InvalidGid),
                Some(gid) => Ok((uid as u32, gid as u32)),
            }
        },
    }
}

/// What the first line from `i` on that names the daemon says.
pub open spec fn account_from(lines: Seq<Seq<char>>, i: int) -> Result<(u32, u32), AccountError>
    decreases lines.len() - i,
{
    if i < 0 || i >= lines.len() {
        Err(AccountError::Missing)
    } else if names_daemon(lines[i]) {
        account_of(lines[i])
    } else {
        account_from(lines, i + 1)
    }
}

/// What the bytes of the account file say of the daemon's account.
pub open spec fn daemon_account(content: Seq<u8>) -> Result<(u32, u32), AccountError> {
    if content.len() > MAX_PASSWD_BYTES {
        Err(AccountError::TooLarge)
    } else if !valid_utf8(content) {
        Err(AccountError::NotText)
    } else {
        account_from(lines(decode_utf8(content)), 0)
    }
}

fn read_account(parts: &Vec<String>, line: &str) -> (result: Result<(u32, u32), AccountError>)
    requires
        views(parts@) == split(line@, ':'),
        parts.len() >= 4,
    ensures
        result == account_of(line@),
{
    assert(split(line@, ':')[2] == parts@[2]@);
    assert(split(line@, ':')[3] == parts@[3]@);
    let uid: u64 = match parse_unsigned(&parts[2], 0xffff_ffff) {
        Some(uid) => uid,
        None => return Err(AccountError::InvalidUid),
    };
    if uid == 0 {
        return Err(AccountError::RootUid);
    }
    match parse_unsigned(&parts[3], 0xffff_ffff) {
        Some(gid) => Ok((uid as u32, gid as u32)),
        None => Err(AccountError::InvalidGid),
    }
}

/// Resolves the packaged client daemon account's UID and primary GID from the
/// bytes of `/etc/passwd`. Fails closed when the account is missing.
pub fn resolve_daemon_account(content: Vec<u8>) -> (result: Result<(u32, u32), AccountError>)
    ensures
        result == daemon_account(content@),
{
    if content.len() > MAX_PASSWD_BYTES {
        return Err(AccountError::TooLarge);
    }
    let text = match utf8_text(content) {
        Some(text) => text,
        None => return Err(AccountError::NotText),
    };
    proof {
        vstd::utf8::encode_utf8_decode_utf8(text@);
    }
    let all = text_lines(&text);
    let ghost texts = lines(text@);
    let mut i: usize = 0;
    while i < all.len()
        invariant
            i <= all.len(),
            texts == views(all@),
            account_from(texts, 0) == account_from(texts, i as int),
            account_from(texts, 0) == daemon_account(content@),
        decreases all.len() - i,
    {
        assert(texts[i as int] == all@[i as int]@);
        let parts = fields(&all[i], ':');
        assert(split(texts[i as int], ':')[0] == parts@[0]@);
        if parts.len() >= 4 && same_text(&parts[0], "centrald") {
            return read_account(&parts, &all[i]);
        }
        i += 1;
    }
    Err(AccountError::Missing)
}

/// Resolves the UID of the packaged client daemon account.
pub fn resolve_daemon_uid(content: Vec<u8>) -> (result: Result<u32, AccountError>)
    ensures
        result == match daemon_account(content@) {
            Ok(account) => Ok::<u32, AccountError>(account.0),
            Err(error) => Err(error),
        },
{
    match resolve_daemon_account(content) {
        Ok((uid, _)) => Ok(uid),
        Err(error) => Err(error),
    }
}

/// Why a request is not executed, or has no recorded outcome.
#[derive(Debug)]
pub enum ExecutionError {
    Grant(BrokerError),
    ParametersMismatch,
    InProgress,
    Interrupted,
    Ledger(LedgerError),
    Runner(String),
}

impl ExecutionError {
    pub open spec fn message_spec(self) -> Seq<char> {
        match self {
            ExecutionError::Grant(error) => error.message_spec(),
            ExecutionError::ParametersMismatch =>
                "operation parameters do not match the signed grant"@,
            ExecutionError::InProgress =>
                "job execution is already recorded as in progress; outcome unknown"@,
            ExecutionError::Interrupted =>
                "job execution was interrupted and its outcome is unknown; verify the machine and resubmit if needed"@,
            ExecutionError::Ledger(error) => error.message_spec(),
            ExecutionError::Runner(text) => text@,
        }
    }

    pub fn message(&self) -> (result: String)
        ensures
            result@ == self.message_spec(),
    {
        match self {
            ExecutionError::Grant(error) => error.message(),
            ExecutionError::ParametersMismatch =>
                "operation parameters do not match the signed grant".to_owned(),
            ExecutionError::InProgress =>
                "job execution is already recorded as in progress; outcome unknown".to_owned(),
            ExecutionError::Interrupted =>
                "job execution was interrupted and its outcome is unknown; verify the machine and resubmit if needed".to_owned(),
            ExecutionError::Ledger(error) => error.message(),
            ExecutionError::Runner(text) => text.clone(),
        }
    }
}

/// What an admitted request leads to.
#[derive(Debug)]
pub enum Admission {
    /// The job was completed before; this is its recorded response.
    Replay(BrokerResponse),
    /// The job runs as soon as this line is durably in the ledger's journal.
    Run { line: Vec<u8> },
}

/// What becomes of a request.
pub enum Decision {
    Refused(ExecutionError),
    Replay(ResponseModel),
    Run,
}

/// Executes verified requests with exactly-once ledger semantics.
#[derive(Debug)]
pub struct BrokerExecutor {
    verifier: GrantVerifier,
    ledger: BrokerLedger,
}

impl BrokerExecutor {
    pub closed spec fn wf(self) -> bool {
        self.verifier.wf()
    }

    /// The grant verifier, which shell sessions share.
    pub closed spec fn verifier_spec(self) -> GrantVerifier {
        self.verifier
    }

    /// The ledger's journal.
    pub closed spec fn journal(self) -> Seq<EnvelopeModel> {
        self.ledger@
    }

    pub fn new(verifier: GrantVerifier, ledger: BrokerLedger) -> (result: BrokerExecutor)
        requires
            verifier.wf(),
        ensures
            result.wf(),
            result.verifier_spec() == verifier,
            result.journal() == ledger@,
    {
        BrokerExecutor { verifier, ledger }
    }

    /// Exposes the grant verifier so shell sessions consume grants from the
    /// same replay set as one-shot job operations.
    pub fn grant_verifier(&self) -> (result: &GrantVerifier)
        ensures
            *result == self.verifier_spec(),
    {
        &self.verifier
    }

    /// Admits a shell session, which consumes its grant from the same replay set
    /// as one-shot job operations.
    pub fn open_session(
        &mut self,
        manager: &mut SessionManager,
        grant: &SignedGrant,
        parameters_json: &Vec<u8>,
        params: &SessionParameters,
        now: Timestamp,
    ) -> (result: Result<(), SessionError>)
        requires
            old(self).wf(),
            old(manager).wf(),
        ensures
            final(self).wf(),
            final(manager).wf(),
            final(self).journal() == old(self).journal(),
            final(self).verifier_spec().device() == old(self).verifier_spec().device(),
            final(self).verifier_spec().key() == old(self).verifier_spec().key(),
            result == opening(
                old(self).verifier_spec(),
                old(manager)@,
                *grant,
                parameters_json@,
                *params,
                now@,
            ),
            final(manager)@ == if result is Ok {
                old(manager)@.push(grant.grant.job_or_session_id)
            } else {
                old(manager)@
            },
            final(self).verifier_spec()@ == if params.violation() is Some || hex_text(
                sha256_digest(parameters_json@),
            ) != grant.grant.parameters_sha256@ {
                old(self).verifier_spec()@
            } else {
                old(self).verifier_spec().outcome(*grant, now@).0
            },
    {
        open_session(&mut self.verifier, manager, grant, parameters_json, params, now)
    }

    /// What becomes of a request: the grant first, then the parameters, then
    /// what the ledger says of the job.
    pub open spec fn decision(self, request: BrokerRequest, now: int) -> Decision {
        match self.verifier_spec().outcome(request.signed_grant, now).1 {
            Err(error) => Decision::Refused(ExecutionError::Grant(error)),
            Ok(_) => if hex_text(sha256_digest(request.parameters_json@))
                != request.signed_grant.grant.parameters_sha256@ {
                Decision::Refused(ExecutionError::ParametersMismatch)
            } else {
                job_decision(
                    standing(self.journal(), request.signed_grant.grant.job_or_session_id, now),
                )
            },
        }
    }

    /// Verifies and consumes the grant and decides whether the job runs. If it
    /// does, its marker is in the ledger.
    pub fn begin(&mut self, request: &BrokerRequest, now: Timestamp) -> (result: Result<
        Admission,
        ExecutionError,
    >)
        requires
            old(self).wf(),
            old(self).decision(*request, now@) is Run ==> now.can_add(
                EXECUTING_MARKER_TTL_SECONDS as int,
            ),
        ensures
            final(self).wf(),
            final(self).verifier_spec().device() == old(self).verifier_spec().device(),
            final(self).verifier_spec().key() == old(self).verifier_spec().key(),
            final(self).verifier_spec()@ == old(self).verifier_spec().outcome(
                request.signed_grant,
                now@,
            ).0,
            match old(self).decision(*request, now@) {
                Decision::Refused(error) => result == Err::<Admission, ExecutionError>(error)
                    && final(self).journal() == old(self).journal(),
                Decision::Replay(response) => final(self).journal() == old(self).journal()
                    && match result {
                    Ok(Admission::Replay(recorded)) => recorded@ == response,
                    _ => false,
                },
                Decision::Run => match result {
                    Ok(Admission::Run { line }) => exists|marker: RecordModel| #[trigger]
                        is_marker(
                            marker,
                            request.signed_grant.grant.job_or_session_id,
                            request.signed_grant.grant.operation,
                            now,
                        ) && line@ == line_of(marker) && final(self).journal() == appended(
                            old(self).journal(),
                            marker,
                        ),
                    _ => false,
                },
            },
    {
        match self.verifier.verify_and_consume(&request.signed_grant, now) {
            Ok(()) => {},
            Err(error) => return Err(ExecutionError::Grant(error)),
        }
        if !parameters_match(
            &request.parameters_json,
            &request.signed_grant.grant.parameters_sha256,
        ) {
            return Err(ExecutionError::ParametersMismatch);
        }
        let job_id = request.signed_grant.grant.job_or_session_id;
        match self.ledger.lookup(job_id, now) {
            Err(error) => return Err(ExecutionError::Ledger(error)),
            Ok(Some(LedgerLookup::Completed(response))) => return Ok(Admission::Replay(response)),
            Ok(Some(LedgerLookup::Executing { interrupted })) => {
                if interrupted {
                    return Err(ExecutionError::Interrupted);
                }
                return Err(ExecutionError::InProgress);
            },
            Ok(None) => {},
        }
        match self.ledger.mark_executing(job_id, request.signed_grant.grant.operation, now) {
            Err(error) => Err(ExecutionError::Ledger(error)),
            Ok(line) => Ok(Admission::Run { line }),
        }
    }

    /// Records what an admitted job came to. A failed run leaves its marker, so
    /// the job is not run again.
    pub fn complete(
        &mut self,
        job_id: u128,
        outcome: Result<BrokerResponse, String>,
        now: Timestamp,
    ) -> (result: Result<(BrokerResponse, Vec<u8>), ExecutionError>)
        requires
            old(self).wf(),
            outcome is Ok && outcome->Ok_0.output@.len() <= MAX_RECORDED_OUTPUT_BYTES
                && is_recorded(standing(old(self).journal(), job_id, now@)) ==> now.can_add(
                RECORD_RETENTION_SECONDS as int,
            ),
        ensures
            final(self).wf(),
            final(self).verifier_spec() == old(self).verifier_spec(),
            completed(old(self).journal(), job_id, outcome, now, final(self).journal(), result),
    {
        match outcome {
            Err(text) => Err(ExecutionError::Runner(text)),
            Ok(response) => match self.ledger.record_completed(job_id, &response, now) {
                Err(error) => Err(ExecutionError::Ledger(error)),
                Ok(line) => Ok((response, line)),
            },
        }
    }

    /// Verifies and consumes the grant, then executes the operation once, for a
    /// ledger that is kept in memory. Unless the job is new, the runner is not
    /// called.
    pub fn execute<R: OperationRunner>(
        &mut self,
        request: &BrokerRequest,
        now: Timestamp,
        runner: &mut R,
    ) -> (result: Result<BrokerResponse, ExecutionError>)
        requires
            old(self).wf(),
            old(self).decision(*request, now@) is Run ==> now.can_add(
                RECORD_RETENTION_SECONDS as int,
            ),
        ensures
            final(self).wf(),
            final(self).verifier_spec().device() == old(self).verifier_spec().device(),
            final(self).verifier_spec().key() == old(self).verifier_spec().key(),
            final(self).verifier_spec()@ == old(self).verifier_spec().outcome(
                request.signed_grant,
                now@,
            ).0,
            match old(self).decision(*request, now@) {
                Decision::Refused(error) => result == Err::<BrokerResponse, ExecutionError>(error)
                    && final(self).journal() == old(self).journal() && *final(runner) == *old(runner),
                Decision::Replay(response) => result is Ok && result->Ok_0@ == response && final(self).journal() == old(self).journal() && *final(runner) == *old(runner),
                Decision::Run => exists|
                    marker: RecordModel,
                    outcome: Result<BrokerResponse, String>,
                |
                    #[trigger] is_marker(
                        marker,
                        request.signed_grant.grant.job_or_session_id,
                        request.signed_grant.grant.operation,
                        now,
                    ) && #[trigger] R::ran(
                        *old(runner),
                        request.signed_grant.grant.operation,
                        request.parameters_json@,
                        *final(runner),
                        outcome,
                    ) && executed(
                        appended(old(self).journal(), marker),
                        marker,
                        outcome,
                        now,
                        final(self).journal(),
                        result,
                    ),
            },
    {
        let job_id = request.signed_grant.grant.job_or_session_id;
        match self.begin(request, now) {
            Err(error) => return Err(error),
            Ok(Admission::Replay(response)) => return Ok(response),
            Ok(Admission::Run { line }) => {},
        }
        let ghost marked = self.journal();
        let ghost marker = choose|marker: RecordModel| #[trigger]
            is_marker(
                marker,
                request.signed_grant.grant.job_or_session_id,
                request.signed_grant.grant.operation,
                now,
            ) && self.journal() == appended(old(self).journal(), marker);
        proof {
            appended_record_is_read(old(self).journal(), marker, now@);
        }
        let outcome = runner.run(&request.signed_grant.grant.operation, &request.parameters_json);
        let ghost told = outcome;
        match self.complete(job_id, outcome, now) {
            Err(error) => {
                let result: Result<BrokerResponse, ExecutionError> = Err(error);
                assert(executed(marked, marker, told, now, self.journal(), result));
                result
            },
            Ok((response, line)) => {
                let result: Result<BrokerResponse, ExecutionError> = Ok(response);
                assert(executed(marked, marker, told, now, self.journal(), result));
                result
            },
        }
    }
}

/// What the ledger's word on a job leads to.
pub open spec fn job_decision(said: Result<Option<LookupModel>, LedgerError>) -> Decision {
    match said {
        Err(error) => Decision::Refused(ExecutionError::Ledger(error)),
        Ok(Some(LookupModel::Completed(response))) => Decision::Replay(response),
        Ok(Some(LookupModel::Executing { interrupted })) => Decision::Refused(
            if interrupted {
                ExecutionError::Interrupted
            } else {
                ExecutionError::InProgress
            },
        ),
        Ok(None) => Decision::Run,
    }
}

/// What completing a job answers, and what it records.
pub open spec fn completed(
    before: Seq<EnvelopeModel>,
    job_id: u128,
    outcome: Result<BrokerResponse, String>,
    now: Timestamp,
    after: Seq<EnvelopeModel>,
    result: Result<(BrokerResponse, Vec<u8>), ExecutionError>,
) -> bool {
    match outcome {
        Err(text) => result == Err::<(BrokerResponse, Vec<u8>), ExecutionError>(
            ExecutionError::Runner(text),
        ) && after == before,
        Ok(response) => if response.output@.len() > MAX_RECORDED_OUTPUT_BYTES {
            result == Err::<(BrokerResponse, Vec<u8>), ExecutionError>(
                ExecutionError::Ledger(LedgerError::OutputTooLarge),
            ) && after == before
        } else {
            match standing(before, job_id, now@) {
                Err(error) => result == Err::<(BrokerResponse, Vec<u8>), ExecutionError>(
                    ExecutionError::Ledger(error),
                ) && after == before,
                Ok(None) => result == Err::<(BrokerResponse, Vec<u8>), ExecutionError>(
                    ExecutionError::Ledger(LedgerError::MissingMarker),
                ) && after == before,
                Ok(Some(_)) => result is Ok && result->Ok_0.0 == response
                    && exists|completion: RecordModel| #[trigger]
                    is_completion(
                        completion,
                        latest(committed(before, now@), job_id)->0,
                        response@,
                        now,
                    ) && result->Ok_0.1@ == line_of(completion) && after
                        == appended(before, completion),
            }
        },
    }
}

/// What running a marked job leaves in the journal and answers.
pub open spec fn executed(
    marked: Seq<EnvelopeModel>,
    marker: RecordModel,
    outcome: Result<BrokerResponse, String>,
    now: Timestamp,
    journal: Seq<EnvelopeModel>,
    result: Result<BrokerResponse, ExecutionError>,
) -> bool {
    match outcome {
        Err(text) => journal == marked && result == Err::<BrokerResponse, ExecutionError>(
            ExecutionError::Runner(text),
        ),
        Ok(response) => if response.output@.len() > MAX_RECORDED_OUTPUT_BYTES {
            journal == marked && result == Err::<BrokerResponse, ExecutionError>(
                ExecutionError::Ledger(LedgerError::OutputTooLarge),
            )
        } else {
            &&& result == Ok::<BrokerResponse, ExecutionError>(response)
            &&& exists|completion: RecordModel| #[trigger]
                is_completion(completion, marker, response@, now) && journal == appended(
                    marked,
                    completion,
                )
        },
    }
}

/// A job that was marked once is never run again: whatever request comes for
/// it, and whenever, the answer is a refusal or the recorded response.
pub proof fn marked_job_is_not_run_again(
    executor: BrokerExecutor,
    request: BrokerRequest,
    now: int,
    i: int,
)
    requires
        0 <= i < executor.journal().len(),
        executor.journal()[i].record.job_id == request.signed_grant.grant.job_or_session_id,
        executor.journal()[i].record.state == LedgerState::Executing,
    ensures
        !(executor.decision(request, now) is Run),
{
    marked_job_is_never_forgotten(
        executor.journal(),
        request.signed_grant.grant.job_or_session_id,
        now,
        i,
    );
}

/// A grant that was consumed, by a job or by a session, and has not expired opens
/// no session and runs no job.
pub proof fn consumed_grant_is_spent(
    executor: BrokerExecutor,
    sessions: Seq<u128>,
    request: BrokerRequest,
    params: SessionParameters,
    now: int,
    i: int,
)
    requires
        0 <= i < executor.verifier_spec()@.len(),
        executor.verifier_spec()@[i].0 == request.signed_grant.grant.id,
        executor.verifier_spec()@[i].1@ >= now,
    ensures
        opening(
            executor.verifier_spec(),
            sessions,
            request.signed_grant,
            request.parameters_json@,
            params,
            now,
        ) is Err,
        executor.decision(request, now) is Refused,
{
    unexpired_grant_is_not_consumed_twice(executor.verifier_spec(), request.signed_grant, now, i);
}

/// A completed job is answered with its recorded response for as long as the
/// record is retained, to every request that its grant and parameters admit.
pub proof fn completed_job_is_replayed(
    executor: BrokerExecutor,
    earlier: Seq<EnvelopeModel>,
    completion: RecordModel,
    request: BrokerRequest,
    now: int,
)
    requires
        first_fault(earlier) is None,
        executor.journal() == appended(earlier, completion),
        completion.state == LedgerState::Completed,
        completion.response is Some,
        completion.expires_at@ > now,
        completion.job_id == request.signed_grant.grant.job_or_session_id,
    ensures
        match executor.decision(request, now) {
            Decision::Refused(error) => error is Grant || error is ParametersMismatch,
            Decision::Replay(response) => completion.response == Some(response),
            Decision::Run => false,
        },
{
    appended_record_is_read(earlier, completion, now);
}

/// A job that was run and answered is not run again: for seven days every request
/// for it that its grant and its parameters admit is answered with what was
/// recorded.
pub proof fn executed_job_is_replayed(
    executor: BrokerExecutor,
    earlier: Seq<EnvelopeModel>,
    marker: RecordModel,
    outcome: Result<BrokerResponse, String>,
    now: Timestamp,
    result: Result<BrokerResponse, ExecutionError>,
    request: BrokerRequest,
    later: int,
)
    requires
        first_fault(earlier) is None,
        is_marker(marker, marker.job_id, marker.operation, now),
        executed(appended(earlier, marker), marker, outcome, now, executor.journal(), result),
        result is Ok,
        request.signed_grant.grant.job_or_session_id == marker.job_id,
        executor.verifier_spec().outcome(request.signed_grant, later).1 is Ok,
        hex_text(sha256_digest(request.parameters_json@))
            == request.signed_grant.grant.parameters_sha256@,
        later < (now.seconds_spec() + RECORD_RETENTION_SECONDS) * 2_000_000_000 + now.nanos_spec()
            % 1_000_000_000,
    ensures
        executor.decision(request, later) == Decision::Replay(result->Ok_0@),
{
    let completion = choose|completion: RecordModel| #[trigger]
        is_completion(completion, marker, result->Ok_0@, now) && executor.journal() == appended(
            appended(earlier, marker),
            completion,
        );
    appending_adds_no_fault(earlier, marker);
    appended_record_is_read(appended(earlier, marker), completion, later);
}

/// The fixed root-owned broker state directory on Unix.
pub fn broker_state_dir() -> (result: Result<String, String>)
    ensures
        result is Ok,
        result->Ok_0@ == "/var/lib/centrald-broker"@,
{
    Ok("/var/lib/centrald-broker".to_owned())
}

/// The fixed broker state directory on Windows, from the known folder that
/// Windows returned for program data.
pub fn windows_broker_state_dir(program_data: Option<&str>) -> (result: Result<String, String>)
    ensures
        match program_data {
            Some(directory) => result is Ok && result->Ok_0@ == windows_joined(
                windows_joined(directory@, "CentralD"@),
                "Broker"@,
            ),
            None => told(result, Some("resolve the fixed CentralD state root"@)),
        },
{
    match windows_client_data_dir(program_data) {
        Ok(directory) => Ok(windows_join(&directory, "Broker")),
        Err(_) => tell("resolve the fixed CentralD state root"),
    }
}

/// Only the daemon's own account is served, whoever else connects; and the loop ends exactly when
/// the service is told to stop.
pub proof fn only_the_daemon_is_served(event: ServeEvent, daemon_uid: u32)
    ensures
        served(event, daemon_uid) == ServeAction::Serve <==> event is Connected && event->uid
            == daemon_uid,
        served(event, daemon_uid) == ServeAction::Stop <==> event is Shutdown
            && event->requested == Some(true),
        served(event, daemon_uid) == ServeAction::Reject <==> event is Connected && event->uid
            != daemon_uid,
{
}

/// A broker starts only at its own path in a real directory, and never in another broker's place:
/// what it removes is a socket that nobody answers on, and nothing else.
pub proof fn running_brokers_keep_their_socket(
    path: Seq<char>,
    real_directory: bool,
    entry: SocketEntry,
)
    ensures
        socket_plan(path, real_directory, entry) is Ok <==> {
            &&& path == "/run/centrald/broker.sock"@
            &&& real_directory
            &&& entry is Absent || (entry is Socket && !entry->answered)
        },
        socket_plan(path, real_directory, entry) == Ok::<bool, SocketError>(true) ==> entry
            is Socket && !entry->answered,
        socket_plan(path, real_directory, entry) == Ok::<bool, SocketError>(false) ==> entry
            is Absent,
        entry is Socket && entry->answered && path == "/run/centrald/broker.sock"@
            && real_directory ==> socket_plan(path, real_directory, entry) == Err::<
            bool,
            SocketError,
        >(SocketError::InUse),
{
}

/// What is put in a frame comes out of it and nothing more, and a frame that is empty, cut short
/// or over the bound is refused.
pub proof fn frames_are_bounded(bytes: Seq<u8>, max_body: int)
    ensures
        unframed(bytes, max_body) matches Ok((body, total)) ==> {
            &&& 0 < body.len() <= max_body
            &&& total == 4 + body.len() <= bytes.len()
            &&& bytes.subrange(4, total) == body
            &&& be32_value(bytes) == body.len()
        },
        unframed(bytes, max_body) is Ok <==> bytes.len() >= 4 && 0 < be32_value(bytes) <= max_body
            && 4 + be32_value(bytes) <= bytes.len(),
{
}

/// An answer within 384 KiB is sent as it is, a longer one gives way to a refusal, and a request
/// over its bound is refused whatever came of it.
pub proof fn answers_are_sent_whole_or_refused(result: WireResult, other: WireResult)
    ensures
        encode_utf8(wire_document(result)).len() <= 393216 ==> reply(false, result) == encode_utf8(
            wire_document(result),
        ),
        encode_utf8(wire_document(result)).len() > 393216 ==> reply(false, result) == encode_utf8(
            error_document("broker response exceeded the wire bound"@),
        ),
        reply(true, result) == reply(true, other),
        reply(true, result) == encode_utf8(
            error_document("broker request exceeds the wire bound"@),
        ),
{
}

/// The account that is served is the one on the first line that names `centrald` with at least
/// four fields: its third field is the user's number, which is not root's, and its fourth the
/// group's.
pub proof fn daemon_account_is_its_own_line(content: Seq<u8>) -> (line: int)
    requires
        daemon_account(content) is Ok,
    ensures
        content.len() <= 1048576,
        valid_utf8(content),
        0 <= line < lines(decode_utf8(content)).len(),
        names_daemon(lines(decode_utf8(content))[line]),
        forall|i: int| 0 <= i < line ==> !names_daemon(#[trigger] lines(decode_utf8(content))[i]),
        split(lines(decode_utf8(content))[line], ':')[0] == "centrald"@,
        split(lines(decode_utf8(content))[line], ':').len() >= 4,
        unsigned(split(lines(decode_utf8(content))[line], ':')[2], u32::MAX as nat) == Some(
            daemon_account(content)->Ok_0.0 as nat,
        ),
        unsigned(split(lines(decode_utf8(content))[line], ':')[3], u32::MAX as nat) == Some(
            daemon_account(content)->Ok_0.1 as nat,
        ),
        daemon_account(content)->Ok_0.0 > 0,
{
    first_account_line(lines(decode_utf8(content)), 0)
}

proof fn first_account_line(all: Seq<Seq<char>>, from: int) -> (line: int)
    requires
        0 <= from,
        account_from(all, from) is Ok,
    ensures
        from <= line < all.len(),
        names_daemon(all[line]),
        forall|i: int| from <= i < line ==> !names_daemon(#[trigger] all[i]),
        account_from(all, from) == account_of(all[line]),
    decreases all.len() - from,
{
    if names_daemon(all[from]) {
        from
    } else {
        first_account_line(all, from + 1)
    }
}

/// An account with a number of its own is found wherever its line stands, if no earlier line
/// names it.
pub proof fn daemon_account_is_found(content: Seq<u8>, line: int, uid: u32, gid: u32)
    requires
        content.len() <= 1048576,
        valid_utf8(content),
        0 <= line < lines(decode_utf8(content)).len(),
        forall|i: int| 0 <= i < line ==> !names_daemon(#[trigger] lines(decode_utf8(content))[i]),
        split(lines(decode_utf8(content))[line], ':').len() >= 4,
        split(lines(decode_utf8(content))[line], ':')[0] == "centrald"@,
        unsigned(split(lines(decode_utf8(content))[line], ':')[2], u32::MAX as nat) == Some(
            uid as nat,
        ),
        unsigned(split(lines(decode_utf8(content))[line], ':')[3], u32::MAX as nat) == Some(
            gid as nat,
        ),
    ensures
        uid > 0 ==> daemon_account(content) == Ok::<(u32, u32), AccountError>((uid, gid)),
        uid == 0 ==> daemon_account(content) == Err::<(u32, u32), AccountError>(
            AccountError::RootUid,
        ),
{
    account_is_found_from(lines(decode_utf8(content)), 0, line);
}

proof fn account_is_found_from(all: Seq<Seq<char>>, from: int, line: int)
    requires
        0 <= from <= line < all.len(),
        names_daemon(all[line]),
        forall|i: int| from <= i < line ==> !names_daemon(#[trigger] all[i]),
    ensures
        account_from(all, from) == account_of(all[line]),
    decreases line - from,
{
    if from < line {
        account_is_found_from(all, from + 1, line);
    }
}

/// A job runs exactly if its grant is taken, covers its parameters and the ledger knows nothing of
/// the job; and what a finished job answered is given again exactly if the same holds and the
/// ledger has its answer.
pub proof fn jobs_run_when_granted_and_new(executor: BrokerExecutor, request: BrokerRequest, now: int)
    ensures
        executor.decision(request, now) is Run <==> {
            &&& executor.verifier_spec().outcome(request.signed_grant, now).1 is Ok
            &&& hex_text(sha256_digest(request.parameters_json@))
                == request.signed_grant.grant.parameters_sha256@
            &&& standing(
                executor.journal(),
                request.signed_grant.grant.job_or_session_id,
                now,
            ) == Ok::<Option<LookupModel>, LedgerError>(None)
        },
        executor.decision(request, now) matches Decision::Replay(response) ==> {
            &&& executor.verifier_spec().outcome(request.signed_grant, now).1 is Ok
            &&& hex_text(sha256_digest(request.parameters_json@))
                == request.signed_grant.grant.parameters_sha256@
            &&& standing(
                executor.journal(),
                request.signed_grant.grant.job_or_session_id,
                now,
            ) == Ok::<Option<LookupModel>, LedgerError>(Some(LookupModel::Completed(response)))
        },
        executor.decision(request, now) == Decision::Refused(ExecutionError::Interrupted)
            ==> standing(
            executor.journal(),
            request.signed_grant.grant.job_or_session_id,
            now,
        ) == Ok::<Option<LookupModel>, LedgerError>(
            Some((LookupModel::Executing { interrupted: true })),
        ),
        executor.decision(request, now) == Decision::Refused(ExecutionError::InProgress)
            ==> standing(
            executor.journal(),
            request.signed_grant.grant.job_or_session_id,
            now,
        ) == Ok::<Option<LookupModel>, LedgerError>(
            Some((LookupModel::Executing { interrupted: false })),
        ),
{
}

/// What an operation did is answered as it came: a success is answered and recorded exactly if the
/// operation gave one with at most 64 KiB of output; and a failure leaves the marker as the last
/// word on the job.
pub proof fn results_are_answered_and_recorded(
    marked: Seq<EnvelopeModel>,
    marker: RecordModel,
    outcome: Result<BrokerResponse, String>,
    now: Timestamp,
    journal: Seq<EnvelopeModel>,
    result: Result<BrokerResponse, ExecutionError>,
)
    requires
        executed(marked, marker, outcome, now, journal, result),
    ensures
        result is Ok <==> outcome is Ok && outcome->Ok_0.output@.len() <= 65536,
        result is Ok ==> {
            &&& result->Ok_0 == outcome->Ok_0
            &&& journal.len() == marked.len() + 1
            &&& journal.drop_last() == marked
            &&& journal.last().record.job_id == marker.job_id
            &&& journal.last().record.state == LedgerState::Completed
            &&& journal.last().record.response == Some(outcome->Ok_0@)
        },
        result is Err ==> journal == marked,
        outcome is Err ==> result->Err_0.message_spec() == outcome->Err_0@,
{
    if result is Ok {
        let completion = choose|completion: RecordModel| #[trigger]
            is_completion(completion, marker, outcome->Ok_0@, now) && journal == appended(
                marked,
                completion,
            );
        assert(appended(marked, completion).drop_last() =~= marked);
    }
}

/// A frame that opens a session does so however long it is, and any other is taken up to 16 KiB.
pub proof fn connections_are_told_apart(opens: bool, first_frame_bytes: int)
    ensures
        connection_kind(opens, first_frame_bytes) == ConnectionKind::Session <==> opens,
        connection_kind(opens, first_frame_bytes) == ConnectionKind::Request <==> !opens
            && first_frame_bytes <= 16384,
{
}

/// A job that was marked is completed exactly if its operation gave an answer within the bound; the
/// answer is recorded under the job, and nothing is recorded of a job that failed or was never
/// marked.
pub proof fn marked_jobs_are_completed(
    before: Seq<EnvelopeModel>,
    job_id: u128,
    outcome: Result<BrokerResponse, String>,
    now: Timestamp,
    after: Seq<EnvelopeModel>,
    result: Result<(BrokerResponse, Vec<u8>), ExecutionError>,
)
    requires
        completed(before, job_id, outcome, now, after, result),
    ensures
        result is Ok <==> outcome is Ok && outcome->Ok_0.output@.len() <= 65536 && is_recorded(
            standing(before, job_id, now@),
        ),
        result is Err ==> after == before,
        result is Ok ==> {
            &&& result->Ok_0.0 == outcome->Ok_0
            &&& after.len() == before.len() + 1
            &&& after.drop_last() == before
            &&& after.last().record.state == LedgerState::Completed
            &&& after.last().record.response == Some(outcome->Ok_0@)
            &&& result->Ok_0.1@ == line_of(after.last().record)
        },
        outcome matches Err(text) ==> (result matches Err(ExecutionError::Runner(told)) && told
            == text),
{
    if result is Ok {
        let completion = choose|completion: RecordModel| #[trigger]
            is_completion(
                completion,
                latest(committed(before, now@), job_id)->0,
                outcome->Ok_0@,
                now,
            ) && result->Ok_0.1@ == line_of(completion) && after == appended(before, completion);
        assert(appended(before, completion).drop_last() =~= before);
    }
}

} // verus!
