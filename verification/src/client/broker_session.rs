//! Broker-side PTY session transport.
//!
//! Shell sessions use a separate connection on the broker channel with
//! length-prefixed JSON frames. The first frame opens the session (signed
//! grant + parameters + OS account), then frames flow in both directions
//! until either side closes. The broker enforces per-frame bounds, byte
//! totals, idle and absolute timeouts, and a concurrent-session limit.

use vstd::prelude::*;
use vstd::utf8::{decode_utf8, decode_utf8_encode_utf8, encode_utf8, valid_utf8};

use crate::codec::{
    base64_bytes, base64_decode, base64_encode, base64_text, be32, be32_round_trip, be32_value,
    bool_literal, bool_text, hex_encode, hex_text, json_string, json_text, member, member_text,
    object, object_text, push_be32, quote, quoted, read_be32, signed_decimal, signed_text,
};
use crate::common::grant::{grant_document, SignedGrant};
use crate::crypto::{sha256, sha256_digest};
use crate::ident::{hyphenated, id_text};
use crate::instant::Timestamp;
use crate::platform::broker::{parameters_match, BrokerError, GrantVerifier};
use crate::text::{byte_length, characters, decimal, numeral, same_text, told, utf8_text, views};

use super::auth::{credential_gap, validate_account_credentials};
use super::ptys::{PtySessionSpec, SessionPrivilege};

verus! {

/// Upper bound for one session wire frame. The server permits data frames up
/// to 1 MiB; base64 encoding expands them by 4/3, so the bound must cover the
/// encoded frame plus JSON envelope overhead.
pub const MAX_SESSION_WIRE_FRAME_BYTES: usize = 1_500_000;

/// Maximum number of concurrent PTY sessions on one machine.
pub const MAX_CONCURRENT_SESSIONS: usize = 8;

/// Bounded totals per session; exceeding either closes the session.
pub const MAX_SESSION_INPUT_BYTES: u64 = 256 * 1024 * 1024;

pub const MAX_SESSION_OUTPUT_BYTES: u64 = 1024 * 1024 * 1024;

#[derive(Debug)]
pub enum SessionWireFrame {
    Open {
        grant: SignedGrant,
        parameters_base64: String,
        columns: u32,
        rows: u32,
        account_user: String,
        account_password_base64: String,
        save_credentials: bool,
    },
    Opened { session_id: u128, warning: String },
    Error { message: String },
    Data { data_base64: String },
    Resize { columns: u32, rows: u32 },
    Close { reason: String, exit_code: i32 },
}

/// The JSON document of a signed grant.
pub open spec fn signed_grant_document(signed: SignedGrant) -> Seq<char> {
    object(
        seq![
            member("grant"@, grant_document(signed.grant)),
            member("signature_base64"@, json_string(signed.signature_base64@)),
        ],
    )
}

/// The JSON document of a session frame.
pub open spec fn frame_document(frame: SessionWireFrame) -> Seq<char> {
    match frame {
        SessionWireFrame::Open {
            grant,
            parameters_base64,
            columns,
            rows,
            account_user,
            account_password_base64,
            save_credentials,
        } => object(
            seq![
                member("kind"@, quoted("open"@)),
                member("grant"@, signed_grant_document(grant)),
                member("parameters_base64"@, json_string(parameters_base64@)),
                member("columns"@, numeral(columns as nat, 10)),
                member("rows"@, numeral(rows as nat, 10)),
                member("account_user"@, json_string(account_user@)),
                member("account_password_base64"@, json_string(account_password_base64@)),
                member("save_credentials"@, bool_literal(save_credentials)),
            ],
        ),
        SessionWireFrame::Opened { session_id, warning } => object(
            seq![
                member("kind"@, quoted("opened"@)),
                member("session_id"@, quoted(hyphenated(session_id))),
                member("warning"@, json_string(warning@)),
            ],
        ),
        SessionWireFrame::Error { message } => object(
            seq![
                member("kind"@, quoted("error"@)),
                member("message"@, json_string(message@)),
            ],
        ),
        SessionWireFrame::Data { data_base64 } => object(
            seq![
                member("kind"@, quoted("data"@)),
                member("data_base64"@, json_string(data_base64@)),
            ],
        ),
        SessionWireFrame::Resize { columns, rows } => object(
            seq![
                member("kind"@, quoted("resize"@)),
                member("columns"@, numeral(columns as nat, 10)),
                member("rows"@, numeral(rows as nat, 10)),
            ],
        ),
        SessionWireFrame::Close { reason, exit_code } => object(
            seq![
                member("kind"@, quoted("close"@)),
                member("reason"@, json_string(reason@)),
                member("exit_code"@, signed_decimal(exit_code as int)),
            ],
        ),
    }
}

fn signed_grant_text(signed: &SignedGrant) -> (result: String)
    ensures
        result@ == signed_grant_document(*signed),
{
    let mut members: Vec<String> = Vec::new();
    members.push(member_text("grant", &crate::common::grant::grant_text(&signed.grant)));
    members.push(member_text("signature_base64", &json_text(&signed.signature_base64)));
    let result = object_text(&members);
    assert(views(members@) =~= seq![
        member("grant"@, grant_document(signed.grant)),
        member("signature_base64"@, json_string(signed.signature_base64@)),
    ]);
    result
}

/// Encodes a session frame.
pub fn encode_frame(frame: &SessionWireFrame) -> (bytes: Vec<u8>)
    ensures
        bytes@ == encode_utf8(frame_document(*frame)),
{
    let mut members: Vec<String> = Vec::new();
    match frame {
        SessionWireFrame::Open {
            grant,
            parameters_base64,
            columns,
            rows,
            account_user,
            account_password_base64,
            save_credentials,
        } => {
            members.push(member_text("kind", &quote("open")));
            members.push(member_text("grant", &signed_grant_text(grant)));
            members.push(member_text("parameters_base64", &json_text(parameters_base64)));
            members.push(member_text("columns", &decimal(*columns as u64)));
            members.push(member_text("rows", &decimal(*rows as u64)));
            members.push(member_text("account_user", &json_text(account_user)));
            members.push(
                member_text("account_password_base64", &json_text(account_password_base64)),
            );
            members.push(member_text("save_credentials", bool_text(*save_credentials)));
            assert(views(members@) =~= seq![
                member("kind"@, quoted("open"@)),
                member("grant"@, signed_grant_document(*grant)),
                member("parameters_base64"@, json_string(parameters_base64@)),
                member("columns"@, numeral(*columns as nat, 10)),
                member("rows"@, numeral(*rows as nat, 10)),
                member("account_user"@, json_string(account_user@)),
                member("account_password_base64"@, json_string(account_password_base64@)),
                member("save_credentials"@, bool_literal(*save_credentials)),
            ]);
        },
        SessionWireFrame::Opened { session_id, warning } => {
            members.push(member_text("kind", &quote("opened")));
            members.push(member_text("session_id", &quote(&id_text(*session_id))));
            members.push(member_text("warning", &json_text(warning)));
            assert(views(members@) =~= seq![
                member("kind"@, quoted("opened"@)),
                member("session_id"@, quoted(hyphenated(*session_id))),
                member("warning"@, json_string(warning@)),
            ]);
        },
        SessionWireFrame::Error { message } => {
            members.push(member_text("kind", &quote("error")));
            members.push(member_text("message", &json_text(message)));
            assert(views(members@) =~= seq![
                member("kind"@, quoted("error"@)),
                member("message"@, json_string(message@)),
            ]);
        },
        SessionWireFrame::Data { data_base64 } => {
            members.push(member_text("kind", &quote("data")));
            members.push(member_text("data_base64", &json_text(data_base64)));
            assert(views(members@) =~= seq![
                member("kind"@, quoted("data"@)),
                member("data_base64"@, json_string(data_base64@)),
            ]);
        },
        SessionWireFrame::Resize { columns, rows } => {
            members.push(member_text("kind", &quote("resize")));
            members.push(member_text("columns", &decimal(*columns as u64)));
            members.push(member_text("rows", &decimal(*rows as u64)));
            assert(views(members@) =~= seq![
                member("kind"@, quoted("resize"@)),
                member("columns"@, numeral(*columns as nat, 10)),
                member("rows"@, numeral(*rows as nat, 10)),
            ]);
        },
        SessionWireFrame::Close { reason, exit_code } => {
            members.push(member_text("kind", &quote("close")));
            members.push(member_text("reason", &json_text(reason)));
            members.push(member_text("exit_code", &signed_text(*exit_code)));
            assert(views(members@) =~= seq![
                member("kind"@, quoted("close"@)),
                member("reason"@, json_string(reason@)),
                member("exit_code"@, signed_decimal(*exit_code as int)),
            ]);
        },
    }
    object_text(&members).as_str().as_bytes_vec()
}

/// Parameters bound to the shell grant by the server.
#[derive(Debug)]
pub struct SessionParameters {
    pub privilege: String,
    pub user: String,
    pub shell: String,
    pub max_frame_bytes: u32,
    pub idle_timeout_seconds: u32,
    pub absolute_timeout_seconds: u32,
    pub credentials_sha256: String,
}

#[derive(Debug, Clone, Copy, PartialEq, Eq, Structural)]
pub enum SessionParameterError {
    Privilege,
    MaxFrameBytes,
    IdleTimeout,
    AbsoluteTimeout,
    CredentialsDigest,
    User,
    Shell,
}

impl SessionParameterError {
    pub open spec fn message_spec(self) -> Seq<char> {
        match self {
            SessionParameterError::Privilege =>
                "session privilege must be 'low' or 'elevated'"@,
            SessionParameterError::MaxFrameBytes =>
                "session max_frame_bytes must be between 1024 and 1048576"@,
            SessionParameterError::IdleTimeout =>
                "session idle timeout must be between 30 and 86400 seconds"@,
            SessionParameterError::AbsoluteTimeout =>
                "session absolute timeout must be between 300 and 86400 seconds"@,
            SessionParameterError::CredentialsDigest =>
                "session credentials_sha256 must be a SHA-256 hex digest or empty"@,
            SessionParameterError::User => "session user must be at most 128 characters"@,
            SessionParameterError::Shell => "session shell must be at most 256 characters"@,
        }
    }

    pub fn message(&self) -> (result: &'static str)
        ensures
            result@ == self.message_spec(),
    {
        match self {
            SessionParameterError::Privilege => "session privilege must be 'low' or 'elevated'",
            SessionParameterError::MaxFrameBytes =>
                "session max_frame_bytes must be between 1024 and 1048576",
            SessionParameterError::IdleTimeout =>
                "session idle timeout must be between 30 and 86400 seconds",
            SessionParameterError::AbsoluteTimeout =>
                "session absolute timeout must be between 300 and 86400 seconds",
            SessionParameterError::CredentialsDigest =>
                "session credentials_sha256 must be a SHA-256 hex digest or empty",
            SessionParameterError::User => "session user must be at most 128 characters",
            SessionParameterError::Shell => "session shell must be at most 256 characters",
        }
    }
}

pub open spec fn hex_digit(c: char) -> bool {
    '0' <= c <= '9' || 'a' <= c <= 'f' || 'A' <= c <= 'F'
}

/// A SHA-256 digest in hexadecimal digits of either case.
pub open spec fn sha256_hex(s: Seq<char>) -> bool {
    s.len() == 64 && forall|i: int| 0 <= i < s.len() ==> hex_digit(#[trigger] s[i])
}

/// Whether a text is a SHA-256 digest in hexadecimal digits of either case.
pub fn is_sha256_hex(value: &str) -> (result: bool)
    ensures
        result == sha256_hex(value@),
{
    let all = characters(value);
    if all.len() != 64 {
        return false;
    }
    let mut i: usize = 0;
    while i < all.len()
        invariant
            i <= all.len(),
            all@ == value@,
            all@.len() == 64,
            forall|j: int| 0 <= j < i ==> hex_digit(#[trigger] value@[j]),
        decreases all.len() - i,
    {
        let c = all[i];
        if !(('0' <= c && c <= '9') || ('a' <= c && c <= 'f') || ('A' <= c && c <= 'F')) {
            assert(!hex_digit(value@[i as int]));
            return false;
        }
        i += 1;
    }
    true
}

impl SessionParameters {
    /// The first bound that the parameters break.
    pub open spec fn violation(self) -> Option<SessionParameterError> {
        if self.privilege@ != "low"@ && self.privilege@ != "elevated"@ {
            Some(SessionParameterError::Privilege)
        } else if !(1024 <= self.max_frame_bytes <= 1_048_576) {
            Some(SessionParameterError::MaxFrameBytes)
        } else if !(30 <= self.idle_timeout_seconds <= 86_400) {
            Some(SessionParameterError::IdleTimeout)
        } else if !(300 <= self.absolute_timeout_seconds <= 86_400) {
            Some(SessionParameterError::AbsoluteTimeout)
        } else if self.credentials_sha256@.len() > 0 && !sha256_hex(self.credentials_sha256@) {
            Some(SessionParameterError::CredentialsDigest)
        } else if encode_utf8(self.user@).len() > 128 {
            Some(SessionParameterError::User)
        } else if encode_utf8(self.shell@).len() > 256 {
            Some(SessionParameterError::Shell)
        } else {
            None
        }
    }

    /// Validates every parameter against the broker's hard bounds.
    pub fn validate(&self) -> (result: Result<(), SessionParameterError>)
        ensures
            match result {
                Ok(_) => self.violation() is None,
                Err(error) => self.violation() == Some(error),
            },
    {
        if !same_text(&self.privilege, "low") && !same_text(&self.privilege, "elevated") {
            return Err(SessionParameterError::Privilege);
        }
        if self.max_frame_bytes < 1024 || self.max_frame_bytes > 1_048_576 {
            return Err(SessionParameterError::MaxFrameBytes);
        }
        if self.idle_timeout_seconds < 30 || self.idle_timeout_seconds > 86_400 {
            return Err(SessionParameterError::IdleTimeout);
        }
        if self.absolute_timeout_seconds < 300 || self.absolute_timeout_seconds > 86_400 {
            return Err(SessionParameterError::AbsoluteTimeout);
        }
        if !self.credentials_sha256.as_str().is_empty() && !is_sha256_hex(
            &self.credentials_sha256,
        ) {
            return Err(SessionParameterError::CredentialsDigest);
        }
        if byte_length(&self.user) > 128 {
            return Err(SessionParameterError::User);
        }
        if byte_length(&self.shell) > 256 {
            return Err(SessionParameterError::Shell);
        }
        Ok(())
    }
}

/// The running session registry, bounding concurrent PTY execution.
#[derive(Debug)]
pub struct SessionManager {
    sessions: Vec<u128>,
}

impl View for SessionManager {
    type V = Seq<u128>;

    closed spec fn view(&self) -> Seq<u128> {
        self.sessions@
    }
}

/// The session limit was reached.
#[derive(Debug, Clone, Copy, PartialEq, Eq, Structural)]
pub struct SessionLimit;

impl SessionLimit {
    pub fn message(&self) -> (result: &'static str)
        ensures
            result@ == "the machine session limit was reached; close another terminal first"@,
    {
        "the machine session limit was reached; close another terminal first"
    }
}

/// Being another session than `session_id`.
pub open spec fn other_than(session_id: u128) -> spec_fn(u128) -> bool {
    |existing: u128| existing != session_id
}

/// The sessions other than `session_id`.
pub open spec fn without_session(sessions: Seq<u128>, session_id: u128) -> Seq<u128> {
    sessions.filter(other_than(session_id))
}

impl SessionManager {
    /// There are never more sessions than the machine's limit.
    pub closed spec fn wf(self) -> bool {
        self.sessions@.len() <= MAX_CONCURRENT_SESSIONS
    }

    pub fn new() -> (result: SessionManager)
        ensures
            result.wf(),
            result@ == Seq::<u128>::empty(),
    {
        SessionManager { sessions: Vec::new() }
    }

    /// Takes a slot for a session.
    pub fn reserve(&mut self, session_id: u128) -> (result: Result<(), SessionLimit>)
        requires
            old(self).wf(),
        ensures
            final(self).wf(),
            match result {
                Ok(_) => old(self)@.len() < MAX_CONCURRENT_SESSIONS && final(self)@ == old(self)@.push(session_id),
                Err(_) => old(self)@.len() >= MAX_CONCURRENT_SESSIONS && final(self)@ == old(self)@,
            },
    {
        if self.sessions.len() >= MAX_CONCURRENT_SESSIONS {
            return Err(SessionLimit);
        }
        self.sessions.push(session_id);
        Ok(())
    }

    /// Gives a session's slots back.
    pub fn release(&mut self, session_id: u128)
        requires
            old(self).wf(),
        ensures
            final(self).wf(),
            final(self)@ == without_session(old(self)@, session_id),
    {
        let mut rest: Vec<u128> = Vec::new();
        let mut i: usize = 0;
        let ghost others = other_than(session_id);
        assert(self.sessions@.take(0).filter(others) =~= Seq::empty()) by {
            reveal(Seq::filter);
        }
        while i < self.sessions.len()
            invariant
                i <= self.sessions.len(),
                rest.len() <= i,
                self.sessions@ == old(self).sessions@,
                others == other_than(session_id),
                rest@ == self.sessions@.take(i as int).filter(others),
            decreases self.sessions.len() - i,
        {
            assert(self.sessions@.take(i + 1).drop_last() == self.sessions@.take(i as int));
            assert(rest@ == self.sessions@.take(i as int).filter(others));
            if self.sessions[i] != session_id {
                rest.push(self.sessions[i]);
            }
            assert(rest@ == self.sessions@.take(i + 1).filter(others)) by {
                reveal(Seq::filter);
            }
            i += 1;
        }
        assert(self.sessions@.take(self.sessions@.len() as int) == self.sessions@);
        self.sessions = rest;
    }

    pub fn active_count(&self) -> (result: usize)
        ensures
            result == self@.len(),
    {
        self.sessions.len()
    }
}

impl Default for SessionManager {
    fn default() -> (result: SessionManager)
        ensures
            result.wf(),
            result@ == Seq::<u128>::empty(),
    {
        SessionManager::new()
    }
}

/// Why the credentials of an open frame cannot be used.
#[derive(Debug, Clone, Copy, PartialEq, Eq, Structural)]
pub enum CredentialError {
    SavedUnavailable,
    PasswordEncoding,
    PasswordText,
    PasswordMismatch,
}

impl CredentialError {
    pub open spec fn message_spec(self) -> Seq<char> {
        match self {
            CredentialError::SavedUnavailable =>
                "saved terminal credentials are unavailable in this alpha release"@,
            CredentialError::PasswordEncoding => "decode account password"@,
            CredentialError::PasswordText => "account password is not valid text"@,
            CredentialError::PasswordMismatch =>
                "account password does not match the signed session parameters"@,
        }
    }

    pub fn message(&self) -> (result: &'static str)
        ensures
            result@ == self.message_spec(),
    {
        match self {
            CredentialError::SavedUnavailable =>
                "saved terminal credentials are unavailable in this alpha release",
            CredentialError::PasswordEncoding => "decode account password",
            CredentialError::PasswordText => "account password is not valid text",
            CredentialError::PasswordMismatch =>
                "account password does not match the signed session parameters",
        }
    }
}

/// An OS account and its password, which the machine has yet to accept.
pub struct Credentials {
    pub user: String,
    pub password: String,
}

/// The password that an open frame carries.
pub open spec fn password_of(encoded: Seq<char>) -> Result<Option<Seq<char>>, CredentialError> {
    if encoded.len() == 0 {
        Ok(None)
    } else {
        match base64_bytes(encoded) {
            None => Err(CredentialError::PasswordEncoding),
            Some(bytes) => if valid_utf8(bytes) {
                Ok(Some(decode_utf8(bytes)))
            } else {
                Err(CredentialError::PasswordText)
            },
        }
    }
}

/// The account that a session is for.
pub open spec fn account_user_of(account_user: Seq<char>, fallback: Seq<char>) -> Seq<char> {
    if account_user.len() == 0 {
        fallback
    } else {
        account_user
    }
}

/// The credentials that an open frame and the signed parameters lead to.
pub open spec fn credentials_of(
    params: SessionParameters,
    account_user: Seq<char>,
    account_password_base64: Seq<char>,
    save_credentials: bool,
) -> Result<Option<(Seq<char>, Seq<char>)>, CredentialError> {
    let user = account_user_of(account_user, params.user@);
    if save_credentials {
        Err(CredentialError::SavedUnavailable)
    } else if user.len() == 0 {
        Ok(None)
    } else {
        match password_of(account_password_base64) {
            Err(error) => Err(error),
            Ok(None) => Ok(None),
            Ok(Some(password)) => if params.credentials_sha256@.len() > 0 && hex_text(
                sha256_digest(encode_utf8(password)),
            ) != params.credentials_sha256@ {
                Err(CredentialError::PasswordMismatch)
            } else {
                Ok(Some((user, password)))
            },
        }
    }
}

fn decode_password(account_password_base64: &str) -> (result: Result<
    Option<String>,
    CredentialError,
>)
    ensures
        match result {
            Ok(Some(password)) => password_of(account_password_base64@) == Ok::<
                Option<Seq<char>>,
                CredentialError,
            >(Some(password@)),
            Ok(None) => password_of(account_password_base64@) == Ok::<
                Option<Seq<char>>,
                CredentialError,
            >(None),
            Err(error) => password_of(account_password_base64@) == Err::<
                Option<Seq<char>>,
                CredentialError,
            >(error),
        },
{
    if account_password_base64.is_empty() {
        return Ok(None);
    }
    let decoded = match base64_decode(account_password_base64) {
        Some(decoded) => decoded,
        None => return Err(CredentialError::PasswordEncoding),
    };
    match utf8_text(decoded) {
        Some(password) => {
            proof {
                vstd::utf8::encode_utf8_decode_utf8(password@);
            }
            Ok(Some(password))
        },
        None => Err(CredentialError::PasswordText),
    }
}

/// Resolves the credentials that the machine is asked to accept; `None` when
/// the frame carries no account or no password.
pub fn resolve_credentials(
    params: &SessionParameters,
    account_user: &str,
    account_password_base64: &str,
    save_credentials: bool,
) -> (result: Result<Option<Credentials>, CredentialError>)
    ensures
        match result {
            Ok(Some(credentials)) => credentials_of(
                *params,
                account_user@,
                account_password_base64@,
                save_credentials,
            ) == Ok::<Option<(Seq<char>, Seq<char>)>, CredentialError>(
                Some((credentials.user@, credentials.password@)),
            ),
            Ok(None) => credentials_of(
                *params,
                account_user@,
                account_password_base64@,
                save_credentials,
            ) == Ok::<Option<(Seq<char>, Seq<char>)>, CredentialError>(None),
            Err(error) => credentials_of(
                *params,
                account_user@,
                account_password_base64@,
                save_credentials,
            ) == Err::<Option<(Seq<char>, Seq<char>)>, CredentialError>(error),
        },
{
    if save_credentials {
        return Err(CredentialError::SavedUnavailable);
    }
    let user: String = if account_user.is_empty() {
        params.user.clone()
    } else {
        account_user.to_owned()
    };
    if user.as_str().is_empty() {
        return Ok(None);
    }
    let password = match decode_password(account_password_base64) {
        Ok(Some(password)) => password,
        Ok(None) => return Ok(None),
        Err(error) => return Err(error),
    };
    if !params.credentials_sha256.as_str().is_empty() {
        let actual = hex_encode(&sha256(password.as_str().as_bytes()));
        if !same_text(&actual, &params.credentials_sha256) {
            return Err(CredentialError::PasswordMismatch);
        }
    }
    Ok(Some(Credentials { user, password }))
}

/// Why a session connection is ended before the session starts.
#[derive(Debug)]
pub enum SessionError {
    ParameterEncoding,
    Parameters(SessionParameterError),
    ParametersMismatch,
    Grant(BrokerError),
    Limit,
}

impl SessionError {
    pub open spec fn message_spec(self) -> Seq<char> {
        match self {
            SessionError::ParameterEncoding => "decode session parameters"@,
            SessionError::Parameters(error) => error.message_spec(),
            SessionError::ParametersMismatch =>
                "session parameters do not match the signed grant"@,
            SessionError::Grant(error) => error.message_spec(),
            SessionError::Limit =>
                "the machine session limit was reached; close another terminal first"@,
        }
    }

    pub fn message(&self) -> (result: String)
        ensures
            result@ == self.message_spec(),
    {
        match self {
            SessionError::ParameterEncoding => "decode session parameters".to_owned(),
            SessionError::Parameters(error) => error.message().to_owned(),
            SessionError::ParametersMismatch =>
                "session parameters do not match the signed grant".to_owned(),
            SessionError::Grant(error) => error.message(),
            SessionError::Limit =>
                "the machine session limit was reached; close another terminal first".to_owned(),
        }
    }
}

/// Decodes the parameters that an open frame carries.
pub fn decode_parameters(parameters_base64: &str) -> (result: Result<Vec<u8>, SessionError>)
    ensures
        match result {
            Ok(bytes) => base64_bytes(parameters_base64@) == Some(bytes@),
            Err(error) => base64_bytes(parameters_base64@) is None && error
                == SessionError::ParameterEncoding,
        },
{
    match base64_decode(parameters_base64) {
        Some(bytes) => Ok(bytes),
        None => Err(SessionError::ParameterEncoding),
    }
}

/// What opening a session comes to, before credentials are looked at.
pub open spec fn opening(
    verifier: GrantVerifier,
    sessions: Seq<u128>,
    grant: SignedGrant,
    parameters_json: Seq<u8>,
    params: SessionParameters,
    now: int,
) -> Result<(), SessionError> {
    match params.violation() {
        Some(error) => Err(SessionError::Parameters(error)),
        None => if hex_text(sha256_digest(parameters_json)) != grant.grant.parameters_sha256@ {
            Err(SessionError::ParametersMismatch)
        } else {
            match verifier.outcome(grant, now).1 {
                Err(error) => Err(SessionError::Grant(error)),
                Ok(_) => if sessions.len() >= MAX_CONCURRENT_SESSIONS {
                    Err(SessionError::Limit)
                } else {
                    Ok(())
                },
            }
        },
    }
}

/// Admits a session: bounds its parameters, holds them against the signed
/// grant, consumes the grant and takes a slot. The grant is not touched unless
/// the parameters are the signed ones; it is consumed even when no slot is free.
pub fn open_session(
    verifier: &mut GrantVerifier,
    manager: &mut SessionManager,
    grant: &SignedGrant,
    parameters_json: &Vec<u8>,
    params: &SessionParameters,
    now: Timestamp,
) -> (result: Result<(), SessionError>)
    requires
        old(verifier).wf(),
        old(manager).wf(),
    ensures
        final(verifier).wf(),
        final(manager).wf(),
        final(verifier).device() == old(verifier).device(),
        final(verifier).key() == old(verifier).key(),
        result == opening(
            *old(verifier),
            old(manager)@,
            *grant,
            parameters_json@,
            *params,
            now@,
        ),
        final(manager)@ == if result is Ok {
            old(manager)@.push(grant.grant.job_or_session_id)
        } else {
            old(manager)@
        },
        final(verifier)@ == if params.violation() is Some || hex_text(
            sha256_digest(parameters_json@),
        ) != grant.grant.parameters_sha256@ {
            old(verifier)@
        } else {
            old(verifier).outcome(*grant, now@).0
        },
{
    match params.validate() {
        Ok(()) => {},
        Err(error) => return Err(SessionError::Parameters(error)),
    }
    if !parameters_match(parameters_json, &grant.grant.parameters_sha256) {
        return Err(SessionError::ParametersMismatch);
    }
    match verifier.verify_and_consume(grant, now) {
        Ok(()) => {},
        Err(error) => return Err(SessionError::Grant(error)),
    }
    match manager.reserve(grant.grant.job_or_session_id) {
        Ok(()) => Ok(()),
        Err(_) => Err(SessionError::Limit),
    }
}

/// Where an admitted session stands.
#[derive(Debug, Clone, Copy, PartialEq, Eq, Structural)]
pub enum SessionPhase {
    /// The slot is taken; credentials have not been looked at.
    Admitted,
    /// The machine is asked to accept credentials.
    Authenticating,
    /// The terminal is being opened.
    Starting,
    /// The terminal is open; the peer is being told.
    Announcing,
    /// Frames are relayed.
    Running,
    /// The slot is free again.
    Ended,
}

/// What the outside reports of a session.
pub enum SessionEvent {
    /// The open frame's credentials.
    Credentials(Result<Option<Credentials>, CredentialError>),
    /// The machine's word on credentials.
    Authenticated(Result<(), String>),
    /// Whether the terminal could be opened.
    Terminal(Result<(), String>),
    /// Whether the peer could be told that the session is open.
    Announced(Result<(), String>),
    /// The relay came to its end.
    Relayed(Result<(), String>),
}

/// What the outside is to do next for a session.
pub enum SessionAction {
    /// Put these credentials to the machine.
    Authenticate { user: String, password: String },
    /// Open a terminal.
    OpenTerminal,
    /// Tell the peer that the session is open.
    Announce,
    /// Relay frames until either side closes.
    Relay,
    /// Tell the peer why there is no session, and end the connection.
    Refuse { message: String },
    /// End the connection with an error.
    Fail { message: String },
    /// End the connection.
    Finish,
    /// The event does not belong to this phase.
    Ignore,
}

/// One step of an admitted session: the next phase and the next action.
pub open spec fn session_next(phase: SessionPhase, elevated: bool, event: SessionEvent) -> (
    SessionPhase,
    SessionAction,
    Option<Seq<char>>,
) {
    match (phase, event) {
        (SessionPhase::Admitted, SessionEvent::Credentials(Err(error))) => (
            SessionPhase::Ended,
            SessionAction::Ignore,
            Some(error.message_spec()),
        ),
        (SessionPhase::Admitted, SessionEvent::Credentials(Ok(None))) => if elevated {
            (
                SessionPhase::Ended,
                SessionAction::Ignore,
                Some("elevated shells require OS account credentials"@),
            )
        } else {
            (SessionPhase::Starting, SessionAction::OpenTerminal, None)
        },
        (SessionPhase::Admitted, SessionEvent::Credentials(Ok(Some(credentials)))) => match
            credential_gap(credentials.user@, credentials.password@) {
            Some(gap) => (SessionPhase::Ended, SessionAction::Ignore, Some(gap.message_spec())),
            None => (
                SessionPhase::Authenticating,
                SessionAction::Authenticate {
                    user: credentials.user,
                    password: credentials.password,
                },
                None,
            ),
        },
        (SessionPhase::Authenticating, SessionEvent::Authenticated(Ok(_))) => (
            SessionPhase::Starting,
            SessionAction::OpenTerminal,
            None,
        ),
        (SessionPhase::Authenticating, SessionEvent::Authenticated(Err(text))) => (
            SessionPhase::Ended,
            SessionAction::Ignore,
            Some(text@),
        ),
        (SessionPhase::Starting, SessionEvent::Terminal(Ok(_))) => (
            SessionPhase::Announcing,
            SessionAction::Announce,
            None,
        ),
        (SessionPhase::Starting, SessionEvent::Terminal(Err(text))) => (
            SessionPhase::Ended,
            SessionAction::Ignore,
            Some(text@),
        ),
        (SessionPhase::Announcing, SessionEvent::Announced(Ok(_))) => (
            SessionPhase::Running,
            SessionAction::Relay,
            None,
        ),
        (SessionPhase::Announcing, SessionEvent::Announced(Err(text))) => (
            SessionPhase::Ended,
            SessionAction::Fail { message: text },
            None,
        ),
        (SessionPhase::Running, SessionEvent::Relayed(Ok(_))) => (
            SessionPhase::Ended,
            SessionAction::Finish,
            None,
        ),
        (SessionPhase::Running, SessionEvent::Relayed(Err(text))) => (
            SessionPhase::Ended,
            SessionAction::Fail { message: text },
            None,
        ),
        _ => (phase, SessionAction::Ignore, None),
    }
}

/// Whether a named privilege is the elevated one.
pub open spec fn asks_elevation(privilege: Seq<char>) -> bool {
    privilege == "elevated"@
}

/// The privilege that a session's terminal is opened with.
pub open spec fn terminal_privilege(elevated: bool) -> SessionPrivilege {
    if elevated {
        SessionPrivilege::Elevated
    } else {
        SessionPrivilege::Low
    }
}

/// Which sessions hold a slot after a step of one of them.
pub open spec fn slots_after(
    sessions: Seq<u128>,
    session_id: u128,
    before: SessionPhase,
    after: SessionPhase,
) -> Seq<u128> {
    if after == SessionPhase::Ended && before != SessionPhase::Ended {
        without_session(sessions, session_id)
    } else {
        sessions
    }
}

/// A session that holds one of the machine's slots until it ends.
#[derive(Debug)]
pub struct ServedSession {
    session_id: u128,
    elevated: bool,
    phase: SessionPhase,
}

impl ServedSession {
    pub closed spec fn id(self) -> u128 {
        self.session_id
    }

    pub closed spec fn is_elevated(self) -> bool {
        self.elevated
    }

    pub closed spec fn phase_spec(self) -> SessionPhase {
        self.phase
    }

    /// The session that was admitted with a grant's slot.
    pub fn new(session_id: u128, params: &SessionParameters) -> (result: ServedSession)
        ensures
            result.id() == session_id,
            result.is_elevated() == asks_elevation(params.privilege@),
            result.phase_spec() == SessionPhase::Admitted,
    {
        ServedSession {
            session_id,
            elevated: same_text(&params.privilege, "elevated"),
            phase: SessionPhase::Admitted,
        }
    }

    /// The terminal that this session opens.
    pub fn terminal(&self, params: &SessionParameters, columns: u32, rows: u32) -> (result:
        PtySessionSpec)
        ensures
            result.privilege == terminal_privilege(self.is_elevated()),
            result.user@ == params.user@,
            result.shell@ == params.shell@,
            result.columns == columns,
            result.rows == rows,
    {
        let privilege = if self.elevated {
            SessionPrivilege::Elevated
        } else {
            SessionPrivilege::Low
        };
        PtySessionSpec {
            privilege,
            user: params.user.clone(),
            shell: params.shell.clone(),
            columns,
            rows,
        }
    }

    /// Takes one event. The slot is given back exactly when the session ends,
    /// and a refusal carries the reason to the peer.
    pub fn step(&mut self, event: SessionEvent, manager: &mut SessionManager) -> (action:
        SessionAction)
        requires
            old(manager).wf(),
        ensures
            final(manager).wf(),
            final(self).id() == old(self).id(),
            final(self).is_elevated() == old(self).is_elevated(),
            final(self).phase_spec() == session_next(
                old(self).phase_spec(),
                old(self).is_elevated(),
                event,
            ).0,
            match session_next(old(self).phase_spec(), old(self).is_elevated(), event).2 {
                Some(reason) => action matches SessionAction::Refuse { message } && message@
                    == reason,
                None => action == session_next(
                    old(self).phase_spec(),
                    old(self).is_elevated(),
                    event,
                ).1,
            },
            final(manager)@ == slots_after(
                old(manager)@,
                old(self).id(),
                old(self).phase_spec(),
                final(self).phase_spec(),
            ),
    {
        match self.phase {
            SessionPhase::Admitted => match event {
                SessionEvent::Credentials(Err(error)) => self.refuse(error.message(), manager),
                SessionEvent::Credentials(Ok(None)) => {
                    if self.elevated {
                        return self.refuse(
                            "elevated shells require OS account credentials",
                            manager,
                        );
                    }
                    self.phase = SessionPhase::Starting;
                    SessionAction::OpenTerminal
                },
                SessionEvent::Credentials(Ok(Some(credentials))) => {
                    match validate_account_credentials(&credentials.user, &credentials.password) {
                        Err(gap) => return self.refuse(gap.message(), manager),
                        Ok(()) => {},
                    }
                    self.phase = SessionPhase::Authenticating;
                    SessionAction::Authenticate {
                        user: credentials.user,
                        password: credentials.password,
                    }
                },
                _ => SessionAction::Ignore,
            },
            SessionPhase::Authenticating => match event {
                SessionEvent::Authenticated(Ok(())) => {
                    self.phase = SessionPhase::Starting;
                    SessionAction::OpenTerminal
                },
                SessionEvent::Authenticated(Err(text)) => self.refuse(text.as_str(), manager),
                _ => SessionAction::Ignore,
            },
            SessionPhase::Starting => match event {
                SessionEvent::Terminal(Ok(())) => {
                    self.phase = SessionPhase::Announcing;
                    SessionAction::Announce
                },
                SessionEvent::Terminal(Err(text)) => self.refuse(text.as_str(), manager),
                _ => SessionAction::Ignore,
            },
            SessionPhase::Announcing => match event {
                SessionEvent::Announced(Ok(())) => {
                    self.phase = SessionPhase::Running;
                    SessionAction::Relay
                },
                SessionEvent::Announced(Err(text)) => {
                    self.end(manager);
                    SessionAction::Fail { message: text }
                },
                _ => SessionAction::Ignore,
            },
            SessionPhase::Running => match event {
                SessionEvent::Relayed(Ok(())) => {
                    self.end(manager);
                    SessionAction::Finish
                },
                SessionEvent::Relayed(Err(text)) => {
                    self.end(manager);
                    SessionAction::Fail { message: text }
                },
                _ => SessionAction::Ignore,
            },
            SessionPhase::Ended => SessionAction::Ignore,
        }
    }

    fn end(&mut self, manager: &mut SessionManager)
        requires
            old(manager).wf(),
        ensures
            final(manager).wf(),
            final(self).id() == old(self).id(),
            final(self).is_elevated() == old(self).is_elevated(),
            final(self).phase_spec() == SessionPhase::Ended,
            final(manager)@ == without_session(old(manager)@, old(self).id()),
    {
        manager.release(self.session_id);
        self.phase = SessionPhase::Ended;
    }

    fn refuse(&mut self, reason: &str, manager: &mut SessionManager) -> (action: SessionAction)
        requires
            old(manager).wf(),
        ensures
            final(manager).wf(),
            final(self).id() == old(self).id(),
            final(self).is_elevated() == old(self).is_elevated(),
            final(self).phase_spec() == SessionPhase::Ended,
            final(manager)@ == without_session(old(manager)@, old(self).id()),
            action matches SessionAction::Refuse { message } && message@ == reason@,
    {
        self.end(manager);
        SessionAction::Refuse { message: reason.to_owned() }
    }
}

/// A session that has ended holds no slot.
pub proof fn ended_session_holds_no_slot(sessions: Seq<u128>, session_id: u128)
    ensures
        !without_session(sessions, session_id).contains(session_id),
        forall|other: u128|
            other != session_id && sessions.contains(other) ==> #[trigger] without_session(
                sessions,
                session_id,
            ).contains(other),
        without_session(sessions, session_id).len() <= sessions.len(),
    decreases sessions.len(),
{
    reveal(Seq::filter);
    if sessions.len() > 0 {
        let before = sessions.drop_last();
        ended_session_holds_no_slot(before, session_id);
        let kept = without_session(before, session_id);
        assert forall|other: u128|
            other != session_id && sessions.contains(other) implies #[trigger] without_session(
            sessions,
            session_id,
        ).contains(other) by {
            if sessions.last() == other {
                assert(without_session(sessions, session_id).last() == other);
            } else {
                let k = sessions.index_of(other);
                assert(before[k] == other);
                assert(kept.contains(other));
                let j = kept.index_of(other);
                assert(without_session(sessions, session_id)[j] == other);
            }
        }
    }
}

/// Whatever goes wrong in a session, it ends, so that no error keeps a slot.
pub proof fn failure_ends_the_session(phase: SessionPhase, elevated: bool, event: SessionEvent)
    requires
        match (phase, event) {
            (SessionPhase::Admitted, SessionEvent::Credentials(Err(_))) => true,
            (SessionPhase::Admitted, SessionEvent::Credentials(Ok(None))) => elevated,
            (SessionPhase::Authenticating, SessionEvent::Authenticated(Err(_))) => true,
            (SessionPhase::Starting, SessionEvent::Terminal(Err(_))) => true,
            (SessionPhase::Announcing, SessionEvent::Announced(Err(_))) => true,
            (SessionPhase::Running, SessionEvent::Relayed(_)) => true,
            _ => false,
        },
    ensures
        session_next(phase, elevated, event).0 == SessionPhase::Ended,
{
}

/// An elevated session reaches its terminal only after the machine has accepted
/// credentials.
pub proof fn elevated_session_is_authenticated(phase: SessionPhase, event: SessionEvent)
    requires
        session_next(phase, true, event).0 == SessionPhase::Starting,
        phase != SessionPhase::Starting,
    ensures
        phase == SessionPhase::Authenticating,
        event matches SessionEvent::Authenticated(Ok(_)),
{
}

/// Why a session frame is refused on the wire.
#[derive(Debug, Clone, Copy, PartialEq, Eq, Structural)]
pub enum SessionFrameError {
    MissingLength,
    OutOfBounds,
    ShortBody,
    TooLarge,
    TruncatedMessage,
    MalformedMessage,
}

impl SessionFrameError {
    pub open spec fn message_spec(self) -> Seq<char> {
        match self {
            SessionFrameError::MissingLength => "read frame length"@,
            SessionFrameError::OutOfBounds => "session frame exceeds the bound or is empty"@,
            SessionFrameError::ShortBody => "read frame body"@,
            SessionFrameError::TooLarge => "frame body is too large"@,
            SessionFrameError::TruncatedMessage => "broker message is truncated"@,
            SessionFrameError::MalformedMessage =>
                "broker message exceeds the bound or has trailing bytes"@,
        }
    }

    pub fn message(&self) -> (result: &'static str)
        ensures
            result@ == self.message_spec(),
    {
        match self {
            SessionFrameError::MissingLength => "read frame length",
            SessionFrameError::OutOfBounds => "session frame exceeds the bound or is empty",
            SessionFrameError::ShortBody => "read frame body",
            SessionFrameError::TooLarge => "frame body is too large",
            SessionFrameError::TruncatedMessage => "broker message is truncated",
            SessionFrameError::MalformedMessage =>
                "broker message exceeds the bound or has trailing bytes",
        }
    }
}

/// The size of the body that follows a length prefix.
pub fn frame_size(length: &[u8; 4], max_bytes: usize) -> (result: Result<usize, SessionFrameError>)
    ensures
        match result {
            Ok(size) => size == be32_value(length@) && 0 < size <= max_bytes,
            Err(error) => error == SessionFrameError::OutOfBounds && (be32_value(length@) == 0
                || be32_value(length@) > max_bytes),
        },
{
    let size: u32 = read_be32(length);
    if size == 0 || size as usize > max_bytes {
        return Err(SessionFrameError::OutOfBounds);
    }
    Ok(size as usize)
}

/// What reading one frame from the beginning of a stream gives.
pub open spec fn frame_read(stream: Seq<u8>, max_bytes: int) -> Result<
    Seq<u8>,
    SessionFrameError,
> {
    if stream.len() < 4 {
        Err(SessionFrameError::MissingLength)
    } else {
        let size = be32_value(stream) as int;
        if size == 0 || size > max_bytes {
            Err(SessionFrameError::OutOfBounds)
        } else if 4 + size > stream.len() {
            Err(SessionFrameError::ShortBody)
        } else {
            Ok(stream.subrange(4, 4 + size))
        }
    }
}

/// Reads one length-prefixed frame (4-byte big-endian length + JSON body) from
/// the beginning of a stream.
pub fn read_frame(stream: &[u8], max_bytes: usize) -> (result: Result<Vec<u8>, SessionFrameError>)
    ensures
        match result {
            Ok(body) => frame_read(stream@, max_bytes as int) == Ok::<
                Seq<u8>,
                SessionFrameError,
            >(body@),
            Err(error) => frame_read(stream@, max_bytes as int) == Err::<
                Seq<u8>,
                SessionFrameError,
            >(error),
        },
{
    if stream.len() < 4 {
        return Err(SessionFrameError::MissingLength);
    }
    let size: u32 = read_be32(stream);
    if size == 0 || size as usize > max_bytes {
        return Err(SessionFrameError::OutOfBounds);
    }
    if size as usize > stream.len() - 4 {
        return Err(SessionFrameError::ShortBody);
    }
    Ok(vstd::slice::slice_to_vec(vstd::slice::slice_subrange(stream, 4, 4 + size as usize)))
}

/// The bytes that one frame puts on the wire.
pub fn write_frame(body: &[u8]) -> (result: Result<Vec<u8>, SessionFrameError>)
    ensures
        match result {
            Ok(bytes) => body@.len() <= u32::MAX && bytes@ == be32(body@.len()) + body@,
            Err(error) => body@.len() > u32::MAX && error == SessionFrameError::TooLarge,
        },
{
    let length: usize = body.len();
    if length > 0xffff_ffff {
        return Err(SessionFrameError::TooLarge);
    }
    let mut bytes: Vec<u8> = Vec::new();
    push_be32(&mut bytes, length as u32);
    let mut copy = vstd::slice::slice_to_vec(body);
    bytes.append(&mut copy);
    assert(bytes@ =~= be32(body@.len()) + body@);
    Ok(bytes)
}

/// Strips the length prefix from a single complete wire message (used by the
/// message-mode Windows pipe transport, where each message holds one frame).
pub fn unframe_message(framed: &[u8], max_body: usize) -> (result: Result<
    Vec<u8>,
    SessionFrameError,
>)
    ensures
        match result {
            Ok(body) => framed@.len() >= 4 && 0 < be32_value(framed@) <= max_body && 4
                + be32_value(framed@) == framed@.len() && body@ == framed@.skip(4),
            Err(SessionFrameError::TruncatedMessage) => framed@.len() < 4,
            Err(SessionFrameError::MalformedMessage) => framed@.len() >= 4 && (be32_value(
                framed@,
            ) == 0 || be32_value(framed@) > max_body || 4 + be32_value(framed@) != framed@.len()),
            Err(_) => false,
        },
{
    if framed.len() < 4 {
        return Err(SessionFrameError::TruncatedMessage);
    }
    let size: u32 = read_be32(framed);
    if size == 0 || size as usize > max_body || size as usize != framed.len() - 4 {
        return Err(SessionFrameError::MalformedMessage);
    }
    let body = vstd::slice::slice_to_vec(vstd::slice::slice_subrange(framed, 4, framed.len()));
    assert(body@ =~= framed@.skip(4));
    Ok(body)
}

/// Reading gives back the frame that was written, whatever follows it.
pub proof fn session_frames_round_trip(body: Seq<u8>, rest: Seq<u8>, max_bytes: int)
    requires
        0 < body.len() <= max_bytes,
        body.len() <= u32::MAX,
    ensures
        frame_read(be32(body.len()) + body + rest, max_bytes) == Ok::<Seq<u8>, SessionFrameError>(
            body,
        ),
{
    be32_round_trip(body.len());
    let prefix = be32(body.len());
    let stream = prefix + body + rest;
    assert(stream[0] == prefix[0]);
    assert(stream[1] == prefix[1]);
    assert(stream[2] == prefix[2]);
    assert(stream[3] == prefix[3]);
    assert(stream.subrange(4, 4 + body.len() as int) =~= body);
}

/// The bytes that a session has moved in each direction.
#[derive(Debug, Clone, Copy, PartialEq, Eq, Structural)]
pub struct SessionTotals {
    pub input_bytes: u64,
    pub output_bytes: u64,
}

impl SessionTotals {
    /// A session goes on only while both totals are within their bounds.
    pub open spec fn within_bounds(self) -> bool {
        self.input_bytes <= MAX_SESSION_INPUT_BYTES && self.output_bytes
            <= MAX_SESSION_OUTPUT_BYTES
    }
}

#[derive(Debug, Clone, Copy, PartialEq, Eq, Structural)]
pub enum InputError {
    DataEncoding,
    FrameTooLarge,
    InputBound,
    UnexpectedFrame,
}

impl InputError {
    pub open spec fn message_spec(self) -> Seq<char> {
        match self {
            InputError::DataEncoding => "decode session data frame"@,
            InputError::FrameTooLarge => "session data frame exceeds the configured limit"@,
            InputError::InputBound => "session input bound reached"@,
            InputError::UnexpectedFrame => "unexpected session frame kind"@,
        }
    }

    pub fn message(&self) -> (result: &'static str)
        ensures
            result@ == self.message_spec(),
    {
        match self {
            InputError::DataEncoding => "decode session data frame",
            InputError::FrameTooLarge => "session data frame exceeds the configured limit",
            InputError::InputBound => "session input bound reached",
            InputError::UnexpectedFrame => "unexpected session frame kind",
        }
    }
}

/// What a frame from the peer asks of the terminal.
#[derive(Debug)]
pub enum InputAction {
    Write { data: Vec<u8> },
    Resize { columns: u32, rows: u32 },
    Stop,
}

/// What a frame from the peer asks of the terminal, as a value.
pub enum InputModel {
    Write { data: Seq<u8> },
    Resize { columns: u32, rows: u32 },
    Stop,
}

impl View for InputAction {
    type V = InputModel;

    open spec fn view(&self) -> InputModel {
        match self {
            InputAction::Write { data } => InputModel::Write { data: data@ },
            InputAction::Resize { columns, rows } => InputModel::Resize {
                columns: *columns,
                rows: *rows,
            },
            InputAction::Stop => InputModel::Stop,
        }
    }
}

/// What a frame from the peer leads to.
pub open spec fn input_of(frame: SessionWireFrame, max_frame_bytes: int, moved: int) -> Result<
    InputModel,
    InputError,
> {
    match frame {
        SessionWireFrame::Data { data_base64 } => match base64_bytes(data_base64@) {
            None => Err(InputError::DataEncoding),
            Some(data) => if data.len() > max_frame_bytes {
                Err(InputError::FrameTooLarge)
            } else if moved + data.len() > MAX_SESSION_INPUT_BYTES {
                Err(InputError::InputBound)
            } else {
                Ok(InputModel::Write { data })
            },
        },
        SessionWireFrame::Resize { columns, rows } => Ok(InputModel::Resize { columns, rows }),
        SessionWireFrame::Close { .. } => Ok(InputModel::Stop),
        SessionWireFrame::Error { .. } => Ok(InputModel::Stop),
        SessionWireFrame::Open { .. } => Err(InputError::UnexpectedFrame),
        SessionWireFrame::Opened { .. } => Err(InputError::UnexpectedFrame),
    }
}

/// Takes one frame from the peer. An error ends the session.
pub fn input_step(frame: &SessionWireFrame, max_frame_bytes: usize, totals: &mut SessionTotals) -> (
    result: Result<InputAction, InputError>)
    requires
        old(totals).within_bounds(),
    ensures
        match result {
            Ok(action) => input_of(*frame, max_frame_bytes as int, old(totals).input_bytes as int)
                == Ok::<InputModel, InputError>(action@) && final(totals).within_bounds() && final(totals).output_bytes == old(totals).output_bytes && final(totals).input_bytes == old(totals).input_bytes + match action@ {
                InputModel::Write { data } => data.len(),
                _ => 0,
            },
            Err(error) => input_of(*frame, max_frame_bytes as int, old(totals).input_bytes as int)
                == Err::<InputModel, InputError>(error) && *final(totals) == *old(totals),
        },
{
    match frame {
        SessionWireFrame::Data { data_base64 } => {
            let data = match base64_decode(data_base64) {
                Some(data) => data,
                None => return Err(InputError::DataEncoding),
            };
            if data.len() > max_frame_bytes {
                return Err(InputError::FrameTooLarge);
            }
            let added: u64 = data.len() as u64;
            if added > MAX_SESSION_INPUT_BYTES - totals.input_bytes {
                return Err(InputError::InputBound);
            }
            totals.input_bytes = totals.input_bytes + added;
            Ok(InputAction::Write { data })
        },
        SessionWireFrame::Resize { columns, rows } => Ok(
            InputAction::Resize { columns: *columns, rows: *rows },
        ),
        SessionWireFrame::Close { .. } => Ok(InputAction::Stop),
        SessionWireFrame::Error { .. } => Ok(InputAction::Stop),
        SessionWireFrame::Open { .. } => Err(InputError::UnexpectedFrame),
        SessionWireFrame::Opened { .. } => Err(InputError::UnexpectedFrame),
    }
}

/// What reading from the terminal gave.
#[derive(Debug)]
pub enum OutputEvent {
    Data { data: Vec<u8> },
    Exited,
    Retry,
    Failed,
}

/// What becomes of the terminal's output: the frame that is sent, if any, and
/// whether the session ends.
pub open spec fn output_of(event: OutputEvent, moved: int) -> (Option<Seq<char>>, bool) {
    match event {
        OutputEvent::Exited => (
            Some(
                object(
                    seq![
                        member("kind"@, quoted("close"@)),
                        member("reason"@, json_string("shell exited"@)),
                        member("exit_code"@, signed_decimal(0)),
                    ],
                ),
            ),
            true,
        ),
        OutputEvent::Retry => (None, false),
        OutputEvent::Failed => (None, true),
        OutputEvent::Data { data } => if moved + data@.len() > MAX_SESSION_OUTPUT_BYTES {
            (
                Some(
                    object(
                        seq![
                            member("kind"@, quoted("close"@)),
                            member("reason"@, json_string("session output bound reached"@)),
                            member("exit_code"@, signed_decimal(1)),
                        ],
                    ),
                ),
                true,
            )
        } else {
            (
                Some(
                    object(
                        seq![
                            member("kind"@, quoted("data"@)),
                            member("data_base64"@, json_string(base64_text(data@))),
                        ],
                    ),
                ),
                false,
            )
        },
    }
}

/// Takes what the terminal gave: the encoded frame to send, if any, and whether
/// the session ends.
pub fn output_step(event: OutputEvent, totals: &mut SessionTotals) -> (result: (
    Option<Vec<u8>>,
    bool,
))
    requires
        old(totals).within_bounds(),
    ensures
        result.1 == output_of(event, old(totals).output_bytes as int).1,
        match output_of(event, old(totals).output_bytes as int).0 {
            Some(document) => result.0 is Some && result.0->0@ == encode_utf8(document),
            None => result.0 is None,
        },
        final(totals).within_bounds(),
        final(totals).input_bytes == old(totals).input_bytes,
        final(totals).output_bytes == if event is Data && !result.1 {
            old(totals).output_bytes + event->data@.len()
        } else {
            old(totals).output_bytes as int
        },
{
    match event {
        OutputEvent::Exited => {
            let close = SessionWireFrame::Close { reason: "shell exited".to_owned(), exit_code: 0 };
            (Some(encode_frame(&close)), true)
        },
        OutputEvent::Retry => (None, false),
        OutputEvent::Failed => (None, true),
        OutputEvent::Data { data } => {
            let added: u64 = data.len() as u64;
            if added > MAX_SESSION_OUTPUT_BYTES - totals.output_bytes {
                let close = SessionWireFrame::Close {
                    reason: "session output bound reached".to_owned(),
                    exit_code: 1,
                };
                return (Some(encode_frame(&close)), true);
            }
            totals.output_bytes = totals.output_bytes + added;
            let frame = SessionWireFrame::Data { data_base64: base64_encode(&data) };
            (Some(encode_frame(&frame)), false)
        },
    }
}

pub const NANOS_PER_SECOND: u128 = 1_000_000_000;

/// Why a session's watchdog ends it.
#[derive(Debug, Clone, Copy, PartialEq, Eq, Structural)]
pub enum WatchdogVerdict {
    Continue,
    Stopped,
    AbsoluteTimeout,
    IdleTimeout,
}

impl WatchdogVerdict {
    pub fn reason(&self) -> (result: &'static str)
        ensures
            result@ == match self {
                WatchdogVerdict::AbsoluteTimeout => "session absolute timeout reached"@,
                WatchdogVerdict::IdleTimeout => "session idle timeout reached"@,
                _ => "session ended"@,
            },
    {
        match self {
            WatchdogVerdict::AbsoluteTimeout => "session absolute timeout reached",
            WatchdogVerdict::IdleTimeout => "session idle timeout reached",
            _ => "session ended",
        }
    }
}

/// What a session's limits say of it: whether it was stopped, has lasted too
/// long, has been still for too long, or goes on.
pub open spec fn watched(
    stopped: bool,
    elapsed_nanos: int,
    idle_nanos: int,
    absolute_seconds: int,
    idle_seconds: int,
) -> WatchdogVerdict {
    if stopped {
        WatchdogVerdict::Stopped
    } else if elapsed_nanos > absolute_seconds * NANOS_PER_SECOND {
        WatchdogVerdict::AbsoluteTimeout
    } else if idle_nanos > idle_seconds * NANOS_PER_SECOND {
        WatchdogVerdict::IdleTimeout
    } else {
        WatchdogVerdict::Continue
    }
}

/// Decides whether a session goes on, by the nanoseconds since it started and
/// since something last moved.
pub fn watchdog_step(
    stopped: bool,
    elapsed_nanos: u128,
    idle_nanos: u128,
    params: &SessionParameters,
) -> (result: WatchdogVerdict)
    ensures
        result == watched(
            stopped,
            elapsed_nanos as int,
            idle_nanos as int,
            params.absolute_timeout_seconds as int,
            params.idle_timeout_seconds as int,
        ),
{
    if stopped {
        return WatchdogVerdict::Stopped;
    }
    if elapsed_nanos > params.absolute_timeout_seconds as u128 * NANOS_PER_SECOND {
        return WatchdogVerdict::AbsoluteTimeout;
    }
    if idle_nanos > params.idle_timeout_seconds as u128 * NANOS_PER_SECOND {
        return WatchdogVerdict::IdleTimeout;
    }
    WatchdogVerdict::Continue
}

/// What went wrong while a session was relayed, if anything did.
pub open spec fn relay_fault(input_error: Option<Seq<char>>, output_error: Option<Seq<char>>) -> Option<
    Seq<char>,
> {
    match (output_error, input_error) {
        (Some(error), _) => Some("terminal output thread failed: "@ + error),
        (None, Some(error)) => Some("terminal input thread failed: "@ + error),
        (None, None) => None,
    }
}

/// What a session's threads came to: a failed output comes before a failed
/// input. Each argument is the thread's error, if it returned one.
pub fn session_outcome(input_error: Option<String>, output_error: Option<String>) -> (result:
    Result<(), String>)
    ensures
        told(
            result,
            relay_fault(
                crate::text::optional_view(input_error),
                crate::text::optional_view(output_error),
            ),
        ),
{
    match output_error {
        Some(error) => return Err(
            crate::text::concat("terminal output thread failed: ", &error),
        ),
        None => {},
    }
    match input_error {
        Some(error) => Err(crate::text::concat("terminal input thread failed: ", &error)),
        None => Ok(()),
    }
}

/// A session goes on exactly while nobody stopped it, its whole time is not used up and it has not
/// been still for too long; and the verdict that ends it names the limit that was passed.
pub proof fn sessions_last_as_long_as_allowed(
    stopped: bool,
    elapsed_nanos: int,
    idle_nanos: int,
    absolute_seconds: int,
    idle_seconds: int,
)
    ensures
        watched(stopped, elapsed_nanos, idle_nanos, absolute_seconds, idle_seconds)
            == WatchdogVerdict::Continue <==> {
            &&& !stopped
            &&& elapsed_nanos <= absolute_seconds * 1_000_000_000
            &&& idle_nanos <= idle_seconds * 1_000_000_000
        },
        watched(stopped, elapsed_nanos, idle_nanos, absolute_seconds, idle_seconds)
            == WatchdogVerdict::Stopped <==> stopped,
        watched(stopped, elapsed_nanos, idle_nanos, absolute_seconds, idle_seconds)
            == WatchdogVerdict::AbsoluteTimeout ==> elapsed_nanos > absolute_seconds
            * 1_000_000_000,
        watched(stopped, elapsed_nanos, idle_nanos, absolute_seconds, idle_seconds)
            == WatchdogVerdict::IdleTimeout ==> idle_nanos > idle_seconds * 1_000_000_000,
{
}

/// Parameters are accepted exactly within their bounds.
pub proof fn bounded_parameters_are_valid(params: SessionParameters)
    ensures
        params.violation() is None <==> {
            &&& params.privilege@ == "low"@ || params.privilege@ == "elevated"@
            &&& 1024 <= params.max_frame_bytes <= 1_048_576
            &&& 30 <= params.idle_timeout_seconds <= 86_400
            &&& 300 <= params.absolute_timeout_seconds <= 86_400
            &&& params.credentials_sha256@.len() == 0 || sha256_hex(params.credentials_sha256@)
            &&& encode_utf8(params.user@).len() <= 128
            &&& encode_utf8(params.shell@).len() <= 256
        },
        params.violation() == Some(SessionParameterError::MaxFrameBytes) ==> !(1024
            <= params.max_frame_bytes <= 1_048_576),
        params.violation() == Some(SessionParameterError::IdleTimeout) ==> !(30
            <= params.idle_timeout_seconds <= 86_400),
        params.violation() == Some(SessionParameterError::AbsoluteTimeout) ==> !(300
            <= params.absolute_timeout_seconds <= 86_400),
        params.violation() == Some(SessionParameterError::CredentialsDigest) ==> !sha256_hex(
            params.credentials_sha256@,
        ),
        params.violation() == Some(SessionParameterError::User) ==> encode_utf8(
            params.user@,
        ).len() > 128,
        params.violation() == Some(SessionParameterError::Shell) ==> encode_utf8(
            params.shell@,
        ).len() > 256,
{
}

/// A session is opened exactly if its parameters are valid and signed, its grant is taken and
/// fewer than eight sessions are open.
pub proof fn sessions_open_as_granted(
    verifier: GrantVerifier,
    sessions: Seq<u128>,
    grant: SignedGrant,
    parameters_json: Seq<u8>,
    params: SessionParameters,
    now: int,
)
    ensures
        opening(verifier, sessions, grant, parameters_json, params, now) is Ok <==> {
            &&& params.violation() is None
            &&& hex_text(sha256_digest(parameters_json)) == grant.grant.parameters_sha256@
            &&& verifier.outcome(grant, now).1 is Ok
            &&& sessions.len() < 8
        },
        opening(verifier, sessions, grant, parameters_json, params, now) == Err::<
            (),
            SessionError,
        >(SessionError::Limit) ==> sessions.len() >= 8,
{
}

/// Credentials that are given are the account that was named, or else the signed one, with the
/// password that was sent, and never with one that does not hash to what was signed. Without an
/// account or a password there are none.
pub proof fn credentials_are_those_signed(
    params: SessionParameters,
    account_user: Seq<char>,
    encoded: Seq<char>,
    save: bool,
)
    ensures
        credentials_of(params, account_user, encoded, save) matches Ok(Some((user, password))) ==> {
            &&& !save
            &&& user.len() > 0
            &&& user == account_user || account_user.len() == 0 && user == params.user@
            &&& base64_bytes(encoded) is Some
            &&& encode_utf8(password) == base64_bytes(encoded)->0
            &&& params.credentials_sha256@.len() == 0 || hex_text(
                sha256_digest(base64_bytes(encoded)->0),
            ) == params.credentials_sha256@
        },
        credentials_of(params, account_user, encoded, save) == Ok::<
            Option<(Seq<char>, Seq<char>)>,
            CredentialError,
        >(None) <==> !save && (encoded.len() == 0 || account_user.len() == 0 && params.user@.len()
            == 0),
        credentials_of(params, account_user, encoded, save) == Err::<
            Option<(Seq<char>, Seq<char>)>,
            CredentialError,
        >(CredentialError::SavedUnavailable) <==> save,
        credentials_of(params, account_user, encoded, save) == Err::<
            Option<(Seq<char>, Seq<char>)>,
            CredentialError,
        >(CredentialError::PasswordMismatch) ==> hex_text(
            sha256_digest(base64_bytes(encoded)->0),
        ) != params.credentials_sha256@,
{
    if base64_bytes(encoded) is Some && valid_utf8(base64_bytes(encoded)->0) {
        decode_utf8_encode_utf8(base64_bytes(encoded)->0);
    }
}

/// What a session does for a run of events, in order.
pub open spec fn session_actions(
    phase: SessionPhase,
    elevated: bool,
    events: Seq<SessionEvent>,
) -> Seq<SessionAction>
    decreases events.len(),
{
    if events.len() == 0 {
        Seq::empty()
    } else {
        seq![session_next(phase, elevated, events[0]).1] + session_actions(
            session_next(phase, elevated, events[0]).0,
            elevated,
            events.drop_first(),
        )
    }
}

/// A low session without an account opens its terminal at once, is announced, relays and finishes.
pub proof fn low_session_runs_to_its_end()
    ensures
        session_actions(
            SessionPhase::Admitted,
            false,
            seq![
                SessionEvent::Credentials(Ok(None)),
                SessionEvent::Terminal(Ok(())),
                SessionEvent::Announced(Ok(())),
                SessionEvent::Relayed(Ok(())),
            ],
        ) == seq![
            SessionAction::OpenTerminal,
            SessionAction::Announce,
            SessionAction::Relay,
            SessionAction::Finish,
        ],
{
    let events = seq![
        SessionEvent::Credentials(Ok(None)),
        SessionEvent::Terminal(Ok(())),
        SessionEvent::Announced(Ok(())),
        SessionEvent::Relayed(Ok(())),
    ];
    assert(events.drop_first().drop_first().drop_first().drop_first().len() == 0);
    reveal_with_fuel(session_actions, 5);
    assert(session_actions(SessionPhase::Admitted, false, events) =~= seq![
        SessionAction::OpenTerminal,
        SessionAction::Announce,
        SessionAction::Relay,
        SessionAction::Finish,
    ]);
}

/// A session with an account has that account and its password authenticated before its terminal
/// opens, whatever its privilege; then it is announced, relays and finishes.
pub proof fn account_session_runs_to_its_end(elevated: bool, credentials: Credentials)
    requires
        credential_gap(credentials.user@, credentials.password@) is None,
    ensures
        session_actions(
            SessionPhase::Admitted,
            elevated,
            seq![
                SessionEvent::Credentials(Ok(Some(credentials))),
                SessionEvent::Authenticated(Ok(())),
                SessionEvent::Terminal(Ok(())),
                SessionEvent::Announced(Ok(())),
                SessionEvent::Relayed(Ok(())),
            ],
        ) == seq![
            (SessionAction::Authenticate {
                user: credentials.user,
                password: credentials.password,
            }),
            SessionAction::OpenTerminal,
            SessionAction::Announce,
            SessionAction::Relay,
            SessionAction::Finish,
        ],
{
    let events = seq![
        SessionEvent::Credentials(Ok(Some(credentials))),
        SessionEvent::Authenticated(Ok(())),
        SessionEvent::Terminal(Ok(())),
        SessionEvent::Announced(Ok(())),
        SessionEvent::Relayed(Ok(())),
    ];
    assert(events.drop_first().drop_first().drop_first().drop_first().drop_first().len() == 0);
    reveal_with_fuel(session_actions, 6);
    assert(session_actions(SessionPhase::Admitted, elevated, events) =~= seq![
        (SessionAction::Authenticate {
            user: credentials.user,
            password: credentials.password,
        }),
        SessionAction::OpenTerminal,
        SessionAction::Announce,
        SessionAction::Relay,
        SessionAction::Finish,
    ]);
}

/// A terminal opens only after an account was authenticated or, for a low session, where none was
/// given; a session that has ended does nothing more; and what goes wrong is told in its own words.
pub proof fn terminals_open_after_authentication(
    phase: SessionPhase,
    elevated: bool,
    event: SessionEvent,
)
    ensures
        session_next(phase, elevated, event).1 is OpenTerminal <==> {
            ||| phase == SessionPhase::Authenticating && event is Authenticated
                && event->Authenticated_0 is Ok
            ||| phase == SessionPhase::Admitted && !elevated && event is Credentials
                && event->Credentials_0 is Ok && event->Credentials_0->Ok_0 is None
        },
        phase == SessionPhase::Ended ==> session_next(phase, elevated, event) == (
            SessionPhase::Ended,
            SessionAction::Ignore,
            None::<Seq<char>>,
        ),
        phase == SessionPhase::Authenticating && event is Authenticated && event->Authenticated_0
            is Err ==> session_next(phase, elevated, event).2 == Some(
            event->Authenticated_0->Err_0@,
        ),
        phase == SessionPhase::Starting && event is Terminal && event->Terminal_0 is Err
            ==> session_next(phase, elevated, event).2 == Some(event->Terminal_0->Err_0@),
        phase == SessionPhase::Running && event is Relayed && event->Relayed_0 is Err
            ==> session_next(phase, elevated, event).1 == (SessionAction::Fail {
            message: event->Relayed_0->Err_0,
        }),
        phase == SessionPhase::Announcing && event is Announced && event->Announced_0 is Err
            ==> session_next(phase, elevated, event).1 == (SessionAction::Fail {
            message: event->Announced_0->Err_0,
        }),
        phase == SessionPhase::Admitted && event is Credentials && event->Credentials_0 is Err
            ==> session_next(phase, elevated, event).2 == Some(
            event->Credentials_0->Err_0.message_spec(),
        ),
{
}

/// What is typed reaches the terminal as it was sent, in frames within the session's limit, and a
/// session takes at most 256 MiB of it; a window's new size is passed on, and a close or an error
/// ends the input.
pub proof fn input_reaches_the_terminal(
    frame: SessionWireFrame,
    max_frame_bytes: int,
    moved: int,
)
    ensures
        input_of(frame, max_frame_bytes, moved) matches Ok(InputModel::Write { data }) ==> {
            &&& frame is Data
            &&& base64_bytes(frame->data_base64@) == Some(data)
            &&& data.len() <= max_frame_bytes
            &&& moved + data.len() <= 268_435_456
        },
        frame is Data && base64_bytes(frame->data_base64@) is Some && base64_bytes(
            frame->data_base64@,
        )->0.len() <= max_frame_bytes && moved + base64_bytes(frame->data_base64@)->0.len()
            <= 268_435_456 ==> input_of(frame, max_frame_bytes, moved) is Ok,
        input_of(frame, max_frame_bytes, moved) == Err::<InputModel, InputError>(
            InputError::InputBound,
        ) ==> moved + base64_bytes(frame->data_base64@)->0.len() > 268_435_456,
        input_of(frame, max_frame_bytes, moved) == Err::<InputModel, InputError>(
            InputError::FrameTooLarge,
        ) ==> base64_bytes(frame->data_base64@)->0.len() > max_frame_bytes,
        frame matches SessionWireFrame::Resize { columns, rows } ==> input_of(
            frame,
            max_frame_bytes,
            moved,
        ) == Ok::<InputModel, InputError>((InputModel::Resize { columns, rows })),
        input_of(frame, max_frame_bytes, moved) == Ok::<InputModel, InputError>(InputModel::Stop)
            <==> frame is Close || frame is Error,
        frame is Open || frame is Opened ==> input_of(frame, max_frame_bytes, moved) == Err::<
            InputModel,
            InputError,
        >(InputError::UnexpectedFrame),
{
}

/// What the terminal writes is sent as a data frame that holds it, up to 1 GiB in all; the frame
/// after which nothing follows is a close, and a read that failed ends the output without one.
pub proof fn output_reaches_the_peer(event: OutputEvent, moved: int, frame: SessionWireFrame)
    ensures
        output_of(event, moved).1 <==> event is Exited || event is Failed || (event is Data && moved
            + event->data@.len() > 1_073_741_824),
        event is Data && moved + event->data@.len() <= 1_073_741_824 && frame is Data
            && frame->data_base64@ == base64_text(event->data@) ==> output_of(event, moved).0
            == Some(frame_document(frame)),
        event is Exited && frame is Close && frame->reason@ == "shell exited"@ && frame->exit_code
            == 0 ==> output_of(event, moved).0 == Some(frame_document(frame)),
        event is Data && moved + event->data@.len() > 1_073_741_824 && frame is Close
            && frame->reason@ == "session output bound reached"@ && frame->exit_code == 1
            ==> output_of(event, moved).0 == Some(frame_document(frame)),
        output_of(event, moved).0 is None <==> event is Retry || event is Failed,
{
}

/// A terminal is elevated exactly if the session was asked for as elevated.
pub proof fn terminals_have_the_privilege_asked_for(privilege: Seq<char>)
    ensures
        terminal_privilege(asks_elevation(privilege)) == SessionPrivilege::Elevated <==> privilege
            == "elevated"@,
        privilege == "low"@ ==> terminal_privilege(asks_elevation(privilege))
            == SessionPrivilege::Low,
{
    reveal_strlit("low");
    reveal_strlit("elevated");
    assert("low"@.len() == 3 && "elevated"@.len() == 8);
}

/// A relay went well exactly if neither side failed, and what is told ends in what a side said:
/// the output's before the input's.
pub proof fn relays_fail_with_either_side(
    input_error: Option<Seq<char>>,
    output_error: Option<Seq<char>>,
)
    ensures
        relay_fault(input_error, output_error) is None <==> input_error is None && output_error
            is None,
        output_error is Some ==> output_error->0.is_suffix_of(
            relay_fault(input_error, output_error)->0,
        ),
        output_error is None && input_error is Some ==> input_error->0.is_suffix_of(
            relay_fault(input_error, output_error)->0,
        ),
{
    if relay_fault(input_error, output_error) is Some {
        let text = relay_fault(input_error, output_error)->0;
        let said = if output_error is Some {
            output_error->0
        } else {
            input_error->0
        };
        assert(text.subrange(text.len() - said.len(), text.len() as int) =~= said);
    }
}

/// A session keeps its slot until it ends and gives it back then, and the others keep theirs.
pub proof fn slots_are_given_back(
    sessions: Seq<u128>,
    session_id: u128,
    before: SessionPhase,
    after: SessionPhase,
    other: u128,
)
    requires
        before != SessionPhase::Ended,
    ensures
        after == SessionPhase::Ended ==> !slots_after(sessions, session_id, before, after).contains(
            session_id,
        ),
        after != SessionPhase::Ended ==> slots_after(sessions, session_id, before, after)
            == sessions,
        other != session_id && sessions.contains(other) ==> slots_after(
            sessions,
            session_id,
            before,
            after,
        ).contains(other),
{
    ended_session_holds_no_slot(sessions, session_id);
    if after == SessionPhase::Ended && other != session_id && sessions.contains(other) {
        assert(without_session(sessions, session_id).contains(other));
    }
}

} // verus!
