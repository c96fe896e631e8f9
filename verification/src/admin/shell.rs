//! Admin shell sessions: elevation challenges, terminal streams, and session
//! input/resize/close.

use vstd::prelude::*;
use vstd::utf8::encode_utf8;

use crate::client::enrollment::WireTimestamp;
use crate::client::ptys::SessionPrivilege;
use crate::codec::{base64_bytes, base64_decode, base64_encode, base64_text};
use crate::crypto::{ed25519_secret_in, ed25519_signature, SigningKey};
use crate::text::{byte_length, same_text, tell, told};

use super::profiles::{moment_text, timestamp_text};

verus! {

pub const ELEVATION_DOMAIN: &'static str = "centrald-elevation-v1";

/// Upper bound on base64 input per keystroke-batch frame (64 KiB of payload).
pub const MAX_INPUT_BASE64_CHARS: usize = 98_304;

/// What is said while terminals are not served.
pub const TERMINAL_UNAVAILABLE: &'static str =
    "interactive terminal is unavailable in this alpha release";

#[derive(Debug)]
pub struct ElevationChallengeView {
    pub id: String,
    pub nonce: String,
    pub context_hash: String,
    pub expires_at: String,
    pub challenge_signature: String,
}

#[derive(Debug)]
pub struct ShellOpenView {
    pub handle: String,
}

/// Events forwarded to the frontend terminal component.
#[derive(Debug)]
pub enum ShellEvent {
    Data { session_id: String, data: String },
    Close { session_id: String, reason: String, exit_code: i32 },
    Error { message: String },
}

/// The bytes of a text in base64: none for an empty one.
pub open spec fn decoded(value: Seq<char>) -> Option<Seq<u8>> {
    if value.len() == 0 {
        Some(Seq::empty())
    } else {
        base64_bytes(value)
    }
}

fn decode_b64(value: &str) -> (result: Result<Vec<u8>, String>)
    ensures
        match decoded(value@) {
            Some(bytes) => result is Ok && result->Ok_0@ == bytes,
            None => told(result, Some("invalid base64 input"@)),
        },
{
    if value.is_empty() {
        let empty: Vec<u8> = Vec::new();
        assert(empty@ =~= Seq::empty());
        return Ok(empty);
    }
    match base64_decode(value) {
        Some(bytes) => Ok(bytes),
        None => tell("invalid base64 input"),
    }
}

/// A challenge of the server, which an Admin answers to open an elevated shell.
#[derive(Debug)]
pub struct ElevationChallenge {
    pub id: String,
    pub nonce: Vec<u8>,
    pub context_hash: Vec<u8>,
    pub expires_at: Option<WireTimestamp>,
}

/// What is signed of a challenge: a domain separator that ends in a zero byte,
/// the nonce and the context.
pub open spec fn elevation_payload(challenge: ElevationChallenge) -> Seq<u8> {
    encode_utf8(ELEVATION_DOMAIN@).push(0) + challenge.nonce@ + challenge.context_hash@
}

/// Signs a challenge with the elevation key of a profile, if it has one. The key
/// is in PEM form.
pub fn sign_elevation_challenge(challenge: &ElevationChallenge, key_pem: &Option<String>) -> (result:
    Result<Vec<u8>, String>)
    ensures
        match key_pem {
            None => told(
                result,
                Some(
                    "this Admin profile has no elevation key; re-enroll to enable elevated shells"@,
                ),
            ),
            Some(pem) => match ed25519_secret_in(pem@) {
                None => told(result, Some("parse the Admin elevation key"@)),
                Some(secret) => result is Ok && result->Ok_0@ == ed25519_signature(
                    secret,
                    elevation_payload(*challenge),
                ),
            },
        },
{
    let pem = match key_pem {
        Some(pem) => pem,
        None => return tell(
            "this Admin profile has no elevation key; re-enroll to enable elevated shells",
        ),
    };
    let key = match SigningKey::from_pem(pem) {
        Some(key) => key,
        None => return tell("parse the Admin elevation key"),
    };
    let mut payload: Vec<u8> = ELEVATION_DOMAIN.as_bytes_vec();
    payload.push(0);
    let mut nonce = challenge.nonce.clone();
    payload.append(&mut nonce);
    let mut context = challenge.context_hash.clone();
    payload.append(&mut context);
    Ok(key.sign(&payload))
}

/// Answers a challenge of the server; `enabled` says whether terminals are
/// served.
pub fn begin_elevation(
    enabled: bool,
    challenge: ElevationChallenge,
    key_pem: &Option<String>,
) -> (result: Result<ElevationChallengeView, String>)
    ensures
        if !enabled {
            told(result, Some(TERMINAL_UNAVAILABLE@))
        } else {
            match key_pem {
                None => told(
                    result,
                    Some(
                        "this Admin profile has no elevation key; re-enroll to enable elevated shells"@,
                    ),
                ),
                Some(pem) => match ed25519_secret_in(pem@) {
                    None => told(result, Some("parse the Admin elevation key"@)),
                    Some(secret) => {
                        &&& result is Ok
                        &&& result->Ok_0.id == challenge.id
                        &&& result->Ok_0.nonce@ == base64_text(challenge.nonce@)
                        &&& result->Ok_0.context_hash@ == base64_text(challenge.context_hash@)
                        &&& result->Ok_0.expires_at@ == moment_text(challenge.expires_at)
                        &&& result->Ok_0.challenge_signature@ == base64_text(
                            ed25519_signature(secret, elevation_payload(challenge)),
                        )
                    },
                },
            }
        },
{
    if !enabled {
        return tell(TERMINAL_UNAVAILABLE);
    }
    let signature = match sign_elevation_challenge(&challenge, key_pem) {
        Ok(signature) => signature,
        Err(error) => return Err(error),
    };
    Ok(
        ElevationChallengeView {
            id: challenge.id,
            nonce: base64_encode(&challenge.nonce),
            context_hash: base64_encode(&challenge.context_hash),
            expires_at: timestamp_text(challenge.expires_at),
            challenge_signature: base64_encode(&signature),
        },
    )
}

/// A terminal that an Admin asks for.
pub struct ShellRequest {
    pub target_id: String,
    pub privilege: String,
    pub columns: u32,
    pub rows: u32,
    pub reason: String,
    pub account_user: String,
    pub account_password: String,
    pub save_credentials: bool,
    pub challenge_id: String,
    pub challenge_signature: String,
}

/// A terminal's size that can be asked for.
pub open spec fn terminal_size(columns: u32, rows: u32) -> bool {
    2 <= columns <= 500 && 2 <= rows <= 500
}

/// The privilege that a terminal is asked for with.
pub open spec fn privilege_of(name: Seq<char>) -> Option<SessionPrivilege> {
    if name == "low"@ {
        Some(SessionPrivilege::Low)
    } else if name == "elevated"@ {
        Some(SessionPrivilege::Elevated)
    } else {
        None
    }
}

/// What is wrong with a terminal that is asked for, if anything.
pub open spec fn shell_request_fault(enabled: bool, request: ShellRequest) -> Option<Seq<char>> {
    if !enabled {
        Some(TERMINAL_UNAVAILABLE@)
    } else if privilege_of(request.privilege@) is None {
        Some("unsupported shell privilege"@)
    } else if !terminal_size(request.columns, request.rows) {
        Some("terminal size must be 2-500 columns and rows"@)
    } else {
        None
    }
}

/// Checks a terminal that is asked for, before the server is.
pub fn check_shell_request(enabled: bool, request: &ShellRequest) -> (result: Result<
    SessionPrivilege,
    String,
>)
    ensures
        told(result, shell_request_fault(enabled, *request)),
        result is Ok ==> privilege_of(request.privilege@) == Some(result->Ok_0),
{
    if !enabled {
        return tell(TERMINAL_UNAVAILABLE);
    }
    let privilege = if same_text(&request.privilege, "low") {
        SessionPrivilege::Low
    } else if same_text(&request.privilege, "elevated") {
        SessionPrivilege::Elevated
    } else {
        return tell("unsupported shell privilege");
    };
    if request.columns < 2 || request.columns > 500 || request.rows < 2 || request.rows > 500 {
        return tell("terminal size must be 2-500 columns and rows");
    }
    Ok(privilege)
}

/// The frame that opens a terminal.
pub struct ShellOpenFrame {
    pub target_id: String,
    pub privilege: SessionPrivilege,
    pub reason: String,
    pub challenge_id: String,
    pub challenge_signature: Vec<u8>,
    pub columns: u32,
    pub rows: u32,
    pub account_user: String,
    pub account_password: Vec<u8>,
    pub save_credentials: bool,
}

/// Whether a frame opens the terminal that was asked for.
pub open spec fn opens_terminal(
    frame: ShellOpenFrame,
    request: ShellRequest,
    granted: SessionPrivilege,
) -> bool {
    &&& frame.target_id == request.target_id
    &&& frame.privilege == granted
    &&& frame.reason == request.reason
    &&& frame.challenge_id == request.challenge_id
    &&& decoded(request.challenge_signature@) == Some(frame.challenge_signature@)
    &&& frame.columns == request.columns
    &&& frame.rows == request.rows
    &&& frame.account_user == request.account_user
    &&& frame.account_password@ == encode_utf8(request.account_password@)
    &&& frame.save_credentials == request.save_credentials
}

/// A terminal that is open or opens: its handle, and the session's number once
/// the server told it.
#[derive(Debug)]
pub struct ShellClient {
    pub handle: String,
    pub session_id: Option<String>,
}

/// The terminals of the console: for each handle the session's number, once it
/// is known. The last entry with a handle counts.
pub open spec fn session_map(entries: Seq<ShellClient>) -> Map<Seq<char>, Option<Seq<char>>>
    decreases entries.len(),
{
    if entries.len() == 0 {
        Map::empty()
    } else {
        session_map(entries.drop_last()).insert(
            entries.last().handle@,
            crate::text::optional_view(entries.last().session_id),
        )
    }
}

/// Registry of active shell sessions.
#[derive(Debug)]
pub struct ShellSessions {
    entries: Vec<ShellClient>,
}

impl View for ShellSessions {
    type V = Map<Seq<char>, Option<Seq<char>>>;

    closed spec fn view(&self) -> Map<Seq<char>, Option<Seq<char>>> {
        session_map(self.entries@)
    }
}

/// What a frame to the server holds.
#[derive(Debug)]
pub enum ShellFrame {
    Data { session_id: String, data: Vec<u8> },
    Resize { session_id: String, columns: u32, rows: u32 },
    Close { session_id: String, reason: String, exit_code: i32 },
}

/// The session that a handle is for, or why there is none.
pub open spec fn session_of(
    sessions: Map<Seq<char>, Option<Seq<char>>>,
    handle: Seq<char>,
) -> Result<Seq<char>, Seq<char>> {
    if !sessions.contains_key(handle) {
        Err("shell session does not exist"@)
    } else {
        match sessions[handle] {
            None => Err("shell session is not open yet"@),
            Some(id) => Ok(id),
        }
    }
}

impl ShellSessions {
    pub fn new() -> (result: ShellSessions)
        ensures
            result@ == Map::<Seq<char>, Option<Seq<char>>>::empty(),
    {
        ShellSessions { entries: Vec::new() }
    }

    fn find(&self, handle: &str) -> (result: Option<&ShellClient>)
        ensures
            match result {
                Some(client) => self@.contains_key(handle@) && self@[handle@]
                    == crate::text::optional_view(client.session_id),
                None => !self@.contains_key(handle@),
            },
    {
        let mut i: usize = self.entries.len();
        let ghost all = self.entries@;
        assert(all.take(i as int) =~= all);
        while i > 0
            invariant
                i <= self.entries.len(),
                all == self.entries@,
                session_map(all).contains_key(handle@) == session_map(
                    all.take(i as int),
                ).contains_key(handle@),
                session_map(all)[handle@] == session_map(all.take(i as int))[handle@],
            decreases i,
        {
            i -= 1;
            assert(all.take(i + 1).drop_last() =~= all.take(i as int));
            assert(all.take(i + 1).last() == all[i as int]);
            if same_text(&self.entries[i].handle, handle) {
                return Some(&self.entries[i]);
            }
        }
        assert(all.take(0) =~= Seq::empty());
        None
    }

    /// Forgets a terminal.
    pub fn remove(&mut self, handle: &str)
        ensures
            final(self)@ == old(self)@.remove(handle@),
    {
        let ghost all = self.entries@;
        let mut before: Vec<ShellClient> = Vec::new();
        core::mem::swap(&mut self.entries, &mut before);
        let mut rest: Vec<ShellClient> = Vec::new();
        let mut n: usize = 0;
        assert(session_map(rest@) =~= session_map(all.take(0)).remove(handle@)) by {
            assert(all.take(0) =~= Seq::empty());
            assert(rest@ =~= Seq::empty());
        }
        while n < before.len()
            invariant
                n <= before.len(),
                before@ == all,
                session_map(rest@) == session_map(all.take(n as int)).remove(handle@),
            decreases before.len() - n,
        {
            let ghost kept = rest@;
            let ghost taken = all.take(n + 1);
            assert(taken.drop_last() =~= all.take(n as int));
            assert(taken.last() == all[n as int]);
            if !same_text(&before[n].handle, handle) {
                rest.push(
                    ShellClient {
                        handle: before[n].handle.clone(),
                        session_id: match &before[n].session_id {
                            Some(id) => Some(id.clone()),
                            None => None,
                        },
                    },
                );
                assert(rest@.drop_last() =~= kept);
                assert(session_map(rest@) =~= session_map(taken).remove(handle@));
            } else {
                assert(session_map(rest@) =~= session_map(taken).remove(handle@));
            }
            n += 1;
        }
        assert(all.take(all.len() as int) =~= all);
        self.entries = rest;
    }

    fn put(&mut self, handle: &str, session_id: Option<String>)
        ensures
            final(self)@ == old(self)@.insert(
                handle@,
                crate::text::optional_view(session_id),
            ),
    {
        let ghost known = self@;
        self.remove(handle);
        let ghost rest = self.entries@;
        self.entries.push(ShellClient { handle: handle.to_owned(), session_id });
        assert(self.entries@.drop_last() =~= rest);
        assert(session_map(self.entries@) =~= known.insert(
            handle@,
            crate::text::optional_view(session_id),
        ));
    }

    /// Opens a terminal once the server's stream is there: it is registered under
    /// a handle, and this is the frame that opens it. A terminal that cannot be
    /// asked for is not registered.
    pub fn open_shell(
        &mut self,
        enabled: bool,
        request: ShellRequest,
        handle: &str,
    ) -> (result: Result<ShellOpenFrame, String>)
        ensures
            asked_for(old(self)@, enabled, request, handle@, final(self)@, result),
    {
        let privilege = match check_shell_request(enabled, &request) {
            Ok(privilege) => privilege,
            Err(error) => return Err(error),
        };
        let challenge_signature = match decode_b64(&request.challenge_signature) {
            Ok(bytes) => bytes,
            Err(error) => return Err(error),
        };
        self.put(handle, None);
        let account_password = request.account_password.as_str().as_bytes_vec();
        Ok(
            ShellOpenFrame {
                target_id: request.target_id,
                privilege,
                reason: request.reason,
                challenge_id: request.challenge_id,
                challenge_signature,
                columns: request.columns,
                rows: request.rows,
                account_user: request.account_user,
                account_password,
                save_credentials: request.save_credentials,
            },
        )
    }

    fn session_client(&self, handle: &str) -> (result: Result<String, String>)
        ensures
            match session_of(self@, handle@) {
                Ok(id) => result is Ok && result->Ok_0@ == id,
                Err(text) => told(result, Some(text)),
            },
    {
        match self.find(handle) {
            None => tell("shell session does not exist"),
            Some(client) => match &client.session_id {
                None => tell("shell session is not open yet"),
                Some(id) => Ok(id.clone()),
            },
        }
    }

    /// Sends what was typed in a terminal, in base64.
    pub fn shell_input(&self, enabled: bool, handle: &str, data_base64: &str) -> (result: Result<
        ShellFrame,
        String,
    >)
        ensures
            typed(self@, enabled, handle@, data_base64@, result),
    {
        if !enabled {
            return tell(TERMINAL_UNAVAILABLE);
        }
        if byte_length(data_base64) > MAX_INPUT_BASE64_CHARS {
            return tell("shell input exceeds the per-frame limit");
        }
        let data = match decode_b64(data_base64) {
            Ok(data) => data,
            Err(error) => return Err(error),
        };
        match self.session_client(handle) {
            Ok(session_id) => Ok(ShellFrame::Data { session_id, data }),
            Err(error) => Err(error),
        }
    }

    /// Sends the new size of a terminal.
    pub fn shell_resize(&self, enabled: bool, handle: &str, columns: u32, rows: u32) -> (result:
        Result<ShellFrame, String>)
        ensures
            sized(self@, enabled, handle@, columns, rows, result),
    {
        if !enabled {
            return tell(TERMINAL_UNAVAILABLE);
        }
        if columns < 2 || columns > 500 || rows < 2 || rows > 500 {
            return tell("terminal size must be 2-500 columns and rows");
        }
        match self.session_client(handle) {
            Ok(session_id) => Ok(ShellFrame::Resize { session_id, columns, rows }),
            Err(error) => Err(error),
        }
    }

    /// Closes a terminal: it is forgotten, and the server is told so where it
    /// told the session's number. Close is best-effort: a full stream still closes
    /// once the server-side deadline fires.
    pub fn shell_close(&mut self, enabled: bool, handle: &str) -> (result: Result<
        Option<ShellFrame>,
        String,
    >)
        ensures
            closed_by_operator(old(self)@, enabled, handle@, final(self)@, result),
    {
        if !enabled {
            return tell(TERMINAL_UNAVAILABLE);
        }
        let frame = match self.find(handle) {
            None => return tell("shell session does not exist"),
            Some(client) => match &client.session_id {
                None => None,
                Some(id) => Some(
                    ShellFrame::Close {
                        session_id: id.clone(),
                        reason: "operator closed the terminal".to_owned(),
                        exit_code: 0,
                    },
                ),
            },
        };
        self.remove(handle);
        Ok(frame)
    }

    /// Takes in what came from the server for a terminal, and tells what the
    /// terminal shows. Every exit path (close, stream end, or error) releases the
    /// registry entry so sessions cannot leak.
    pub fn receive(&mut self, handle: &str, event: StreamEvent) -> (action: StreamAction)
        ensures
            received(old(self)@, handle@, event, final(self)@, action),
    {
        match event {
            StreamEvent::Opened { session_id } => {
                if self.find(handle).is_some() {
                    self.put(handle, Some(session_id));
                }
                StreamAction::Continue
            },
            StreamEvent::Data { session_id, data } => StreamAction::Show(
                ShellEvent::Data { session_id, data: base64_encode(&data) },
            ),
            StreamEvent::Closed { session_id, reason, exit_code } => {
                self.remove(handle);
                StreamAction::ShowAndEnd(ShellEvent::Close { session_id, reason, exit_code })
            },
            StreamEvent::Other => StreamAction::Continue,
            StreamEvent::Ended => {
                self.remove(handle);
                StreamAction::End
            },
            StreamEvent::Failed { message } => {
                self.remove(handle);
                StreamAction::ShowAndEnd(ShellEvent::Error { message })
            },
        }
    }
}

/// What came from the server for a terminal.
#[derive(Debug)]
pub enum StreamEvent {
    Opened { session_id: String },
    Data { session_id: String, data: Vec<u8> },
    Closed { session_id: String, reason: String, exit_code: i32 },
    /// A frame that means nothing here.
    Other,
    Ended,
    Failed { message: String },
}

/// What is done with what came from the server.
#[derive(Debug)]
pub enum StreamAction {
    Continue,
    Show(ShellEvent),
    ShowAndEnd(ShellEvent),
    End,
}

/// What an event of a terminal's stream does to the open terminals, and what is shown of it.
pub open spec fn received(
    before: Map<Seq<char>, Option<Seq<char>>>,
    handle: Seq<char>,
    event: StreamEvent,
    after: Map<Seq<char>, Option<Seq<char>>>,
    action: StreamAction,
) -> bool {
    match event {
        StreamEvent::Opened { session_id } => {
            &&& action is Continue
            &&& after == if before.contains_key(handle) {
                before.insert(handle, Some(session_id@))
            } else {
                before
            }
        },
        StreamEvent::Data { session_id, data } => {
            &&& after == before
            &&& action matches StreamAction::Show(
                ShellEvent::Data { session_id: id, data: text },
            )
            &&& id == session_id
            &&& text@ == base64_text(data@)
        },
        StreamEvent::Closed { session_id, reason, exit_code } => {
            &&& after == before.remove(handle)
            &&& action == StreamAction::ShowAndEnd(
                ShellEvent::Close { session_id, reason, exit_code },
            )
        },
        StreamEvent::Other => after == before && action is Continue,
        StreamEvent::Ended => after == before.remove(handle) && action is End,
        StreamEvent::Failed { message } => {
            &&& after == before.remove(handle)
            &&& action == StreamAction::ShowAndEnd(ShellEvent::Error { message })
        },
    }
}

/// What becomes of what is typed into a terminal.
pub open spec fn typed(
    sessions: Map<Seq<char>, Option<Seq<char>>>,
    enabled: bool,
    handle: Seq<char>,
    data_base64: Seq<char>,
    result: Result<ShellFrame, String>,
) -> bool {
    if !enabled {
        told(result, Some(TERMINAL_UNAVAILABLE@))
    } else if encode_utf8(data_base64).len() > MAX_INPUT_BASE64_CHARS {
        told(result, Some("shell input exceeds the per-frame limit"@))
    } else {
        match decoded(data_base64) {
            None => told(result, Some("invalid base64 input"@)),
            Some(bytes) => match session_of(sessions, handle) {
                Err(text) => told(result, Some(text)),
                Ok(id) => {
                    &&& result matches Ok(ShellFrame::Data { session_id, data })
                    &&& session_id@ == id
                    &&& data@ == bytes
                },
            },
        }
    }
}

/// What becomes of a terminal's new size.
pub open spec fn sized(
    sessions: Map<Seq<char>, Option<Seq<char>>>,
    enabled: bool,
    handle: Seq<char>,
    columns: u32,
    rows: u32,
    result: Result<ShellFrame, String>,
) -> bool {
    if !enabled {
        told(result, Some(TERMINAL_UNAVAILABLE@))
    } else if !terminal_size(columns, rows) {
        told(result, Some("terminal size must be 2-500 columns and rows"@))
    } else {
        match session_of(sessions, handle) {
            Err(text) => told(result, Some(text)),
            Ok(id) => {
                &&& result matches Ok(
                    ShellFrame::Resize { session_id, columns: wide, rows: high },
                )
                &&& session_id@ == id
                &&& wide == columns
                &&& high == rows
            },
        }
    }
}

/// What closing a terminal does to the open ones, and what is sent of it.
pub open spec fn closed_by_operator(
    before: Map<Seq<char>, Option<Seq<char>>>,
    enabled: bool,
    handle: Seq<char>,
    after: Map<Seq<char>, Option<Seq<char>>>,
    result: Result<Option<ShellFrame>, String>,
) -> bool {
    if !enabled {
        told(result, Some(TERMINAL_UNAVAILABLE@)) && after == before
    } else if !before.contains_key(handle) {
        told(result, Some("shell session does not exist"@)) && after == before
    } else {
        &&& after == before.remove(handle)
        &&& result is Ok
        &&& match before[handle] {
            None => result->Ok_0 is None,
            Some(id) => {
                &&& result->Ok_0 matches Some(
                    ShellFrame::Close { session_id, reason, exit_code },
                )
                &&& session_id@ == id
                &&& reason@ == "operator closed the terminal"@
                &&& exit_code == 0
            },
        }
    }
}

/// What asking for a shell does to the open terminals, and what is sent of it.
pub open spec fn asked_for(
    before: Map<Seq<char>, Option<Seq<char>>>,
    enabled: bool,
    request: ShellRequest,
    handle: Seq<char>,
    after: Map<Seq<char>, Option<Seq<char>>>,
    result: Result<ShellOpenFrame, String>,
) -> bool {
    match shell_request_fault(enabled, request) {
        Some(text) => told(result, Some(text)) && after == before,
        None => if decoded(request.challenge_signature@) is None {
            told(result, Some("invalid base64 input"@)) && after == before
        } else {
            &&& result is Ok
            &&& opens_terminal(
                result->Ok_0,
                request,
                privilege_of(request.privilege@)->0,
            )
            &&& after == before.insert(handle, None)
        },
    }
}

/// A terminal that was closed no longer takes input, and neither does one whose
/// stream ended: its handle is unknown.
pub proof fn closed_terminals_take_no_input(
    sessions: Map<Seq<char>, Option<Seq<char>>>,
    handle: Seq<char>,
)
    ensures
        session_of(sessions.remove(handle), handle) == Err::<Seq<char>, Seq<char>>(
            "shell session does not exist"@,
        ),
{
}

/// A shell is asked for exactly where terminals are enabled, under a known privilege and for a
/// window of 2 to 500 columns and rows.
pub proof fn sound_shell_requests_are_sent(enabled: bool, request: ShellRequest)
    ensures
        shell_request_fault(enabled, request) is None <==> {
            &&& enabled
            &&& request.privilege@ == "low"@ || request.privilege@ == "elevated"@
            &&& 2 <= request.columns <= 500
            &&& 2 <= request.rows <= 500
        },
{
}

/// The privilege that is asked for is the one that was named.
pub proof fn privileges_are_as_named(name: Seq<char>)
    ensures
        privilege_of(name) == Some(SessionPrivilege::Low) <==> name == "low"@,
        privilege_of(name) == Some(SessionPrivilege::Elevated) <==> name == "elevated"@,
{
    reveal_strlit("low");
    reveal_strlit("elevated");
    assert("low"@.len() == 3 && "elevated"@.len() == 8);
}

/// A terminal that was opened is reached under its session from then on; an event of one terminal
/// leaves the others as they are.
pub proof fn opened_terminals_are_reached(
    before: Map<Seq<char>, Option<Seq<char>>>,
    handle: Seq<char>,
    event: StreamEvent,
    after: Map<Seq<char>, Option<Seq<char>>>,
    action: StreamAction,
    other: Seq<char>,
)
    requires
        received(before, handle, event, after, action),
    ensures
        event matches StreamEvent::Opened { session_id } ==> (before.contains_key(handle)
            ==> session_of(after, handle) == Ok::<Seq<char>, Seq<char>>(session_id@)),
        !before.contains_key(handle) ==> !after.contains_key(handle),
        other != handle ==> session_of(after, other) == session_of(before, other),
{
}

/// A terminal is forgotten exactly when its stream ends, and only then; until then what it writes
/// is shown, and how it ended is shown where that is known.
pub proof fn ended_terminals_are_forgotten(
    before: Map<Seq<char>, Option<Seq<char>>>,
    handle: Seq<char>,
    event: StreamEvent,
    after: Map<Seq<char>, Option<Seq<char>>>,
    action: StreamAction,
)
    requires
        received(before, handle, event, after, action),
        before.contains_key(handle),
    ensures
        after.contains_key(handle) <==> action is Continue || action is Show,
        event is Closed || event is Ended || event is Failed <==> !after.contains_key(handle),
        event is Data <==> action is Show,
        event is Closed || event is Failed <==> action is ShowAndEnd,
        event matches StreamEvent::Data { session_id, data } ==> (
        action matches StreamAction::Show(ShellEvent::Data { session_id: id, data: text }) && id
            == session_id && text@ == base64_text(data@)),
        event matches StreamEvent::Closed { session_id, reason, exit_code } ==> action
            == StreamAction::ShowAndEnd((ShellEvent::Close { session_id, reason, exit_code })),
        event matches StreamEvent::Failed { message } ==> action == StreamAction::ShowAndEnd(
            (ShellEvent::Error { message }),
        ),
{
}

/// A terminal takes input exactly once it is open.
pub proof fn terminals_take_input_once_open(
    sessions: Map<Seq<char>, Option<Seq<char>>>,
    handle: Seq<char>,
)
    ensures
        session_of(sessions, handle) is Ok <==> sessions.contains_key(handle) && sessions[handle]
            is Some,
        session_of(sessions, handle) is Ok ==> session_of(sessions, handle)->Ok_0
            == sessions[handle]->0,
{
}

/// What is signed for an elevation holds the challenge's nonce and its context, after a mark that
/// nothing else carries, so two challenges of one shape that differ are signed differently.
pub proof fn elevations_are_signed_apart(left: ElevationChallenge, right: ElevationChallenge)
    requires
        left.nonce@.len() == right.nonce@.len(),
        elevation_payload(left) == elevation_payload(right),
    ensures
        left.nonce@ == right.nonce@,
        left.context_hash@ == right.context_hash@,
{
    let mark = encode_utf8(ELEVATION_DOMAIN@).push(0);
    let first = (mark.len() + left.nonce@.len()) as int;
    assert(left.nonce@ =~= elevation_payload(left).subrange(mark.len() as int, first));
    assert(right.nonce@ =~= elevation_payload(right).subrange(mark.len() as int, first));
    assert(left.context_hash@ =~= elevation_payload(left).skip(first));
    assert(right.context_hash@ =~= elevation_payload(right).skip(first));
}

/// What is typed is sent, as it was typed, exactly to the open session of its terminal, where
/// terminals are enabled and within 96 KiB of its encoded form.
pub proof fn typing_reaches_its_session(
    sessions: Map<Seq<char>, Option<Seq<char>>>,
    enabled: bool,
    handle: Seq<char>,
    data_base64: Seq<char>,
    result: Result<ShellFrame, String>,
)
    requires
        typed(sessions, enabled, handle, data_base64, result),
    ensures
        result is Ok <==> {
            &&& enabled
            &&& encode_utf8(data_base64).len() <= 98_304
            &&& data_base64.len() == 0 || base64_bytes(data_base64) is Some
            &&& sessions.contains_key(handle) && sessions[handle] is Some
        },
        result matches Ok(frame) ==> {
            &&& frame is Data
            &&& frame->Data_session_id@ == sessions[handle]->0
            &&& data_base64.len() > 0 ==> base64_bytes(data_base64) == Some(frame->data@)
            &&& data_base64.len() == 0 ==> frame->data@.len() == 0
        },
{
}

/// A terminal's new size is sent exactly to its open session, from 2 to 500 columns and rows.
pub proof fn sizes_reach_their_session(
    sessions: Map<Seq<char>, Option<Seq<char>>>,
    enabled: bool,
    handle: Seq<char>,
    columns: u32,
    rows: u32,
    result: Result<ShellFrame, String>,
)
    requires
        sized(sessions, enabled, handle, columns, rows, result),
    ensures
        result is Ok <==> {
            &&& enabled
            &&& 2 <= columns <= 500
            &&& 2 <= rows <= 500
            &&& sessions.contains_key(handle) && sessions[handle] is Some
        },
        result matches Ok(frame) ==> {
            &&& frame is Resize
            &&& frame->Resize_session_id@ == sessions[handle]->0
            &&& frame->columns == columns
            &&& frame->rows == rows
        },
{
}

/// A terminal that is closed is forgotten, and its session, if it has one, is told so; the other
/// terminals stay as they are.
pub proof fn closed_terminals_are_forgotten(
    before: Map<Seq<char>, Option<Seq<char>>>,
    enabled: bool,
    handle: Seq<char>,
    after: Map<Seq<char>, Option<Seq<char>>>,
    result: Result<Option<ShellFrame>, String>,
    other: Seq<char>,
)
    requires
        closed_by_operator(before, enabled, handle, after, result),
    ensures
        result is Ok <==> enabled && before.contains_key(handle),
        enabled ==> !after.contains_key(handle),
        !enabled ==> after == before,
        other != handle ==> session_of(after, other) == session_of(before, other),
        result matches Ok(sent) ==> {
            &&& sent is Some <==> before[handle] is Some
            &&& sent is Some ==> sent->0 is Close && sent->0->Close_session_id@ == before[handle]->0
        },
{
}

/// A shell that is asked for well is sent for as it was asked for, and its terminal waits to be
/// opened; a refused request leaves everything as it is.
pub proof fn shells_are_asked_for_as_requested(
    before: Map<Seq<char>, Option<Seq<char>>>,
    enabled: bool,
    request: ShellRequest,
    handle: Seq<char>,
    after: Map<Seq<char>, Option<Seq<char>>>,
    result: Result<ShellOpenFrame, String>,
)
    requires
        asked_for(before, enabled, request, handle, after, result),
    ensures
        result is Ok <==> shell_request_fault(enabled, request) is None && decoded(
            request.challenge_signature@,
        ) is Some,
        result is Err ==> after == before,
        result is Ok ==> {
            &&& after.contains_key(handle) && after[handle] is None
            &&& result->Ok_0.target_id == request.target_id
            &&& result->Ok_0.privilege == SessionPrivilege::Elevated <==> request.privilege@
                == "elevated"@
            &&& result->Ok_0.reason == request.reason
            &&& result->Ok_0.account_user == request.account_user
            &&& result->Ok_0.columns == request.columns && result->Ok_0.rows == request.rows
            &&& result->Ok_0.save_credentials == request.save_credentials
            &&& result->Ok_0.challenge_id == request.challenge_id
        },
{
    if result is Ok {
        privileges_are_as_named(request.privilege@);
    }
}

} // verus!
