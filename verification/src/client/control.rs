//! The control stream: what the daemon does with each frame that the server
//! sends over it, and with time going by.

use vstd::prelude::*;

use crate::common::grant::SignedGrant;
use crate::common::{PROTOCOL_MAJOR, PROTOCOL_MINOR};
use crate::crypto::{ed25519_public_in, VerifyingKey};
use crate::ident::{hyphenated, id_text};
use crate::instant::Timestamp;
use crate::text::{tell, told, views};

use super::relay::{
    accept_job, grant_handled, job_handled, shell_close_handled, shell_data_handled,
    shell_open_handled, shell_resize_handled, AcceptedJob, JobDelivery, PendingGrants,
    ShellDecision, ShellOpen, ShellRelays,
};

verus! {

/// How long before its expiry a certificate is renewed.
pub const CERTIFICATE_RENEWAL_WINDOW_DAYS: u64 = 30;

/// A day, in seconds.
pub const DAY_SECONDS: u64 = 86_400;

/// The interval of the first heartbeats.
pub const FIRST_HEARTBEAT_SECONDS: u32 = 30;

/// What the client says of itself and its machine when it connects.
#[derive(Debug)]
pub struct ClientHello {
    pub identity_id: String,
    pub hostname: String,
    pub os: String,
    pub os_version: String,
    pub architecture: String,
    pub client_version: String,
    pub protocol_major: u32,
    pub protocol_minor: u32,
    pub capabilities: Vec<String>,
    pub boot_id: String,
}

/// Says who the client is and on what machine it runs.
pub fn client_hello(
    identity_id: u128,
    hostname: Option<String>,
    os: String,
    os_version: String,
    architecture: String,
    client_version: String,
    boot_id: String,
) -> (result: ClientHello)
    ensures
        result.identity_id@ == hyphenated(identity_id),
        result.hostname@ == match hostname {
            Some(name) => name@,
            None => "unknown"@,
        },
        result.os == os,
        result.os_version == os_version,
        result.architecture == architecture,
        result.client_version == client_version,
        result.protocol_major == PROTOCOL_MAJOR,
        result.protocol_minor == PROTOCOL_MINOR,
        views(result.capabilities@) == seq!["heartbeat"@],
        result.boot_id == boot_id,
{
    let mut capabilities: Vec<String> = Vec::new();
    capabilities.push("heartbeat".to_owned());
    assert(views(capabilities@) =~= seq!["heartbeat"@]);
    ClientHello {
        identity_id: id_text(identity_id),
        hostname: match hostname {
            Some(name) => name,
            None => "unknown".to_owned(),
        },
        os,
        os_version,
        architecture,
        client_version,
        protocol_major: PROTOCOL_MAJOR,
        protocol_minor: PROTOCOL_MINOR,
        capabilities,
        boot_id,
    }
}

/// The nanoseconds in a second.
pub const NANOS: u32 = 1_000_000_000;

/// The nanoseconds until a certificate that expires at some moment is to be renewed;
/// not positive where that is due. A leap second of the expiry counts as the second
/// after it. One that is now counts as a second of its own if the renewal is at a
/// later time of day.
pub open spec fn renewal_distance(expires: Timestamp, now: Timestamp) -> int {
    let due = expires.seconds_spec() + expires.nanos_spec() / NANOS - (
    CERTIFICATE_RENEWAL_WINDOW_DAYS * DAY_SECONDS);
    let leap: int = if now.nanos_spec() >= NANOS && due % DAY_SECONDS as int > now.seconds_spec()
        as int % DAY_SECONDS as int {
        1
    } else {
        0
    };
    (due - now.seconds_spec() + leap) * NANOS + expires.nanos_spec() % NANOS
        - now.nanos_spec()
}

/// Tells how long it is until a certificate is to be renewed, in seconds and
/// nanoseconds: no time if that is due.
pub fn renewal_delay(expires: Timestamp, now: Timestamp) -> (result: (u64, u32))
    ensures
        result.1 < NANOS,
        result.0 * NANOS + result.1 == if renewal_distance(expires, now) > 0 {
            renewal_distance(expires, now)
        } else {
            0
        },
{
    expires.check();
    now.check();
    let window: i64 = (CERTIFICATE_RENEWAL_WINDOW_DAYS * DAY_SECONDS) as i64;
    let carried: i64 = if expires.nanos() >= 1_000_000_000 {
        1
    } else {
        0
    };
    let rest: i64 = (expires.nanos() % 1_000_000_000) as i64;
    let due: i64 = expires.seconds() + carried - window;
    let mut distance: i64 = due - now.seconds();
    if now.nanos() >= 1_000_000_000 && second_of_day(due) > second_of_day(now.seconds()) {
        distance += 1;
    }
    let mut fraction: i64 = rest - now.nanos() as i64;
    let ghost total = distance * NANOS + fraction;
    assert(total == renewal_distance(expires, now));
    if fraction < -1_000_000_000 {
        fraction += 1_000_000_000;
        distance -= 1;
    }
    if fraction < 0 {
        fraction += 1_000_000_000;
        distance -= 1;
    }
    assert(total == distance * NANOS + fraction);
    if distance < 0 {
        (0, 0)
    } else {
        (distance as u64, fraction as u32)
    }
}

/// The second of its day that a second since the Unix epoch is.
fn second_of_day(second: i64) -> (result: i64)
    ensures
        result == second as int % DAY_SECONDS as int,
{
    let rest: i64 = second % 86_400;
    if rest < 0 {
        rest + 86_400
    } else {
        rest
    }
}

/// Reads the key by which the server's grants are verified.
pub fn grant_verification_key(pem: &str) -> (result: Result<VerifyingKey, String>)
    ensures
        match ed25519_public_in(pem@) {
            Some(key) => result is Ok && result->Ok_0@ == key,
            None => told(result, Some("parse server grant verification key"@)),
        },
{
    match VerifyingKey::from_pem(pem) {
        Some(key) => Ok(key),
        None => tell("parse server grant verification key"),
    }
}

/// A shell frame that the server sent.
#[derive(Debug)]
pub enum ServerShellFrame {
    Empty,
    Open(ShellOpen),
    Data { session_id: String, data: Vec<u8> },
    Resize { session_id: String, columns: u32, rows: u32 },
    Close { session_id: String, reason: String, exit_code: i32 },
}

/// A frame that the server sent; a signed grant is none where its bytes do not
/// read as one.
#[derive(Debug)]
pub enum ServerFrame {
    Empty,
    HeartbeatAck { next_interval_seconds: u32 },
    SignedGrant(Option<SignedGrant>),
    Job(JobDelivery),
    Shell(ServerShellFrame),
}

/// What happens to the control stream.
#[derive(Debug)]
pub enum ControlEvent {
    /// The time for renewal has come.
    RenewalDue,
    /// The shutdown signal changed to this.
    Shutdown(bool),
    /// A heartbeat is due.
    Tick,
    /// The server sent a frame, or closed the stream.
    Received(Option<ServerFrame>),
    /// Receiving failed.
    ReceiveFailed,
}

/// What the daemon does next with the control stream.
#[derive(Debug)]
pub enum ControlAction {
    /// Waits for what happens next.
    Wait,
    SendHeartbeat,
    /// Sends heartbeats at another interval, in seconds.
    ResetInterval(u32),
    /// Acknowledges a job, tells that it runs, hands it to the broker and tells
    /// how it ended.
    RunJob(AcceptedJob),
    Shell(ShellDecision),
    /// Ends the stream without an error.
    End,
    Fail(String),
}

/// The control stream of a connected client.
pub struct ControlStream {
    identity_id: u128,
    key: VerifyingKey,
    heartbeat_seconds: u32,
    healthy: bool,
    grants: PendingGrants,
    shells: ShellRelays,
}

/// What a control stream is.
pub struct ControlModel {
    pub identity_id: u128,
    pub key: Seq<u8>,
    pub heartbeat_seconds: u32,
    pub healthy: bool,
    pub grants: Seq<SignedGrant>,
    pub shells: Seq<u128>,
}

impl View for ControlStream {
    type V = ControlModel;

    closed spec fn view(&self) -> ControlModel {
        ControlModel {
            identity_id: self.identity_id,
            key: self.key@,
            heartbeat_seconds: self.heartbeat_seconds,
            healthy: self.healthy,
            grants: self.grants@,
            shells: self.shells@,
        }
    }
}

/// What an action makes of an operation that can fail: an error ends the stream.
pub open spec fn shell_result(action: ControlAction) -> Option<Result<ShellDecision, String>> {
    match action {
        ControlAction::Shell(decision) => Some(Ok(decision)),
        ControlAction::Fail(text) => Some(Err(text)),
        _ => None,
    }
}

pub open spec fn job_result(action: ControlAction) -> Option<Result<AcceptedJob, String>> {
    match action {
        ControlAction::RunJob(job) => Some(Ok(job)),
        ControlAction::Fail(text) => Some(Err(text)),
        _ => None,
    }
}

pub open spec fn grant_result(action: ControlAction) -> Option<Result<(), String>> {
    match action {
        ControlAction::Wait => Some(Ok(())),
        ControlAction::Fail(text) => Some(Err(text)),
        _ => None,
    }
}

pub open spec fn fails(action: ControlAction, text: Seq<char>) -> bool {
    action matches ControlAction::Fail(error) && error@ == text
}

/// Whether an action and a changed stream are what a shell frame calls for.
pub open spec fn shell_step(
    before: ControlModel,
    frame: ServerShellFrame,
    ended: Seq<u128>,
    after: ControlModel,
    action: ControlAction,
) -> bool {
    let result = shell_result(action);
    match frame {
        ServerShellFrame::Empty => after == before && fails(
            action,
            "server sent an empty shell frame"@,
        ),
        ServerShellFrame::Open(open) => {
            &&& after == (ControlModel { grants: after.grants, shells: after.shells, ..before })
            &&& result is Some
            &&& shell_open_handled(
                open,
                ended,
                before.shells,
                after.shells,
                before.grants,
                after.grants,
                result->0,
            )
        },
        ServerShellFrame::Data { session_id, data } => after == before && result is Some
            && shell_data_handled(before.shells, session_id@, data@, result->0),
        ServerShellFrame::Resize { session_id, columns, rows } => after == before
            && result is Some && shell_resize_handled(
            before.shells,
            session_id@,
            columns,
            rows,
            result->0,
        ),
        ServerShellFrame::Close { session_id, reason, exit_code } => {
            &&& after == (ControlModel { shells: after.shells, ..before })
            &&& result is Some
            &&& shell_close_handled(
                before.shells,
                after.shells,
                session_id@,
                reason@,
                exit_code,
                result->0,
            )
        },
    }
}

/// Whether an action and a changed stream are what a frame calls for.
pub open spec fn frame_step(
    before: ControlModel,
    frame: ServerFrame,
    now: int,
    ended: Seq<u128>,
    after: ControlModel,
    action: ControlAction,
) -> bool {
    match frame {
        ServerFrame::Empty => after == before && fails(
            action,
            "server sent an empty control frame"@,
        ),
        ServerFrame::HeartbeatAck { next_interval_seconds } => if !(5 <= next_interval_seconds
            <= 3600) {
            after == before && fails(action, "server returned an invalid heartbeat interval"@)
        } else {
            &&& after == (ControlModel {
                healthy: true,
                heartbeat_seconds: next_interval_seconds,
                ..before
            })
            &&& action == if next_interval_seconds != before.heartbeat_seconds {
                ControlAction::ResetInterval(next_interval_seconds)
            } else {
                ControlAction::Wait
            }
        },
        ServerFrame::SignedGrant(decoded) => {
            &&& after == (ControlModel { grants: after.grants, ..before })
            &&& grant_result(action) is Some
            &&& grant_handled(
                decoded,
                before.key,
                before.identity_id,
                now,
                before.grants,
                after.grants,
                grant_result(action)->0,
            )
        },
        ServerFrame::Job(job) => {
            &&& after == (ControlModel { grants: after.grants, ..before })
            &&& job_result(action) is Some
            &&& job_handled(job, before.grants, after.grants, job_result(action)->0)
        },
        ServerFrame::Shell(frame) => shell_step(before, frame, ended, after, action),
    }
}

/// Whether an action and a changed stream are what an event calls for.
pub open spec fn control_step(
    before: ControlModel,
    event: ControlEvent,
    now: int,
    ended: Seq<u128>,
    after: ControlModel,
    action: ControlAction,
) -> bool {
    match event {
        ControlEvent::RenewalDue => after == before && action is End,
        ControlEvent::Shutdown(stop) => after == before && action == if stop {
            ControlAction::End
        } else {
            ControlAction::Wait
        },
        ControlEvent::Tick => after == before && action is SendHeartbeat,
        ControlEvent::ReceiveFailed => after == before && fails(action, "receive server frame"@),
        ControlEvent::Received(None) => after == before && fails(
            action,
            "server closed control stream"@,
        ),
        ControlEvent::Received(Some(frame)) => frame_step(before, frame, now, ended, after, action),
    }
}

/// A job is only run under a grant that was pending for it and that says the same
/// operation, delivery and parameters.
pub proof fn jobs_run_only_when_granted(
    before: ControlModel,
    event: ControlEvent,
    now: int,
    ended: Seq<u128>,
    after: ControlModel,
    action: ControlAction,
)
    requires
        control_step(before, event, now, ended, after, action),
        action is RunJob,
    ensures
        ({
            let request = action->RunJob_0.request;
            &&& event matches ControlEvent::Received(Some(ServerFrame::Job(job)))
            &&& job.kind is Some
            &&& super::relay::operation_of(job.kind->0) == Some(request.signed_grant.grant.operation)
            &&& request.signed_grant.grant.nonce@ == job.delivery_id@
            &&& request.signed_grant.grant.parameters_sha256@ == crate::codec::hex_text(
                crate::crypto::sha256_digest(request.parameters_json@),
            )
            &&& Some(request.signed_grant.grant.job_or_session_id) == crate::ident::uuid_value(
                job.id@,
            )
        }),
{
}

/// A stream is only called healthy once the server acknowledged a heartbeat.
pub proof fn only_heartbeats_make_healthy(
    before: ControlModel,
    event: ControlEvent,
    now: int,
    ended: Seq<u128>,
    after: ControlModel,
    action: ControlAction,
)
    requires
        control_step(before, event, now, ended, after, action),
        after.healthy,
    ensures
        before.healthy || event matches ControlEvent::Received(
            Some(ServerFrame::HeartbeatAck { .. }),
        ),
{
}

impl ControlStream {
    /// The pending grants and the relayed sessions keep to their limits.
    pub closed spec fn wf(self) -> bool {
        self.grants.wf() && self.shells.wf()
    }

    /// The stream of a client that has just connected.
    pub fn new(identity_id: u128, key: VerifyingKey) -> (result: ControlStream)
        ensures
            result.wf(),
            result@ == (ControlModel {
                identity_id,
                key: key@,
                heartbeat_seconds: FIRST_HEARTBEAT_SECONDS,
                healthy: false,
                grants: Seq::empty(),
                shells: Seq::empty(),
            }),
    {
        ControlStream {
            identity_id,
            key,
            heartbeat_seconds: FIRST_HEARTBEAT_SECONDS,
            healthy: false,
            grants: PendingGrants::new(),
            shells: ShellRelays::new(),
        }
    }

    /// Whether the server acknowledged a heartbeat.
    pub fn is_healthy(&self) -> (result: bool)
        ensures
            result == self@.healthy,
    {
        self.healthy
    }

    /// Forgets a session that the broker did not take, and tells the server so.
    pub fn connection_failed(&mut self, session_id: u128, error: &str) -> (result:
        super::relay::ShellClose)
        requires
            old(self).wf(),
        ensures
            final(self).wf(),
            final(self)@ == (ControlModel {
                shells: super::broker_session::without_session(old(self)@.shells, session_id),
                ..old(self)@
            }),
            super::relay::closes(result, session_id, "broker session failed: "@ + error@),
    {
        self.shells.connection_failed(session_id, error)
    }

    fn shell_frame(&mut self, frame: ServerShellFrame, ended: &Vec<u128>) -> (action: ControlAction)
        requires
            old(self).wf(),
        ensures
            final(self).wf(),
            shell_step(old(self)@, frame, ended@, final(self)@, action),
    {
        let result = match frame {
            ServerShellFrame::Empty => tell("server sent an empty shell frame"),
            ServerShellFrame::Open(open) => self.shells.open_shell_session(
                open,
                &mut self.grants,
                ended,
            ),
            ServerShellFrame::Data { session_id, data } => self.shells.relay_shell_data(
                &session_id,
                &data,
            ),
            ServerShellFrame::Resize { session_id, columns, rows } =>
                self.shells.relay_shell_resize(&session_id, columns, rows),
            ServerShellFrame::Close { session_id, reason, exit_code } =>
                self.shells.relay_shell_close(&session_id, reason, exit_code),
        };
        match result {
            Ok(decision) => ControlAction::Shell(decision),
            Err(text) => ControlAction::Fail(text),
        }
    }

    /// Does what an event calls for. `now` is the time, and `ended` are the
    /// sessions whose connection to the broker already ended.
    pub fn step(&mut self, event: ControlEvent, now: Timestamp, ended: &Vec<u128>) -> (action:
        ControlAction)
        requires
            old(self).wf(),
        ensures
            final(self).wf(),
            control_step(old(self)@, event, now@, ended@, final(self)@, action),
    {
        let frame = match event {
            ControlEvent::RenewalDue => return ControlAction::End,
            ControlEvent::Shutdown(stop) => {
                return if stop {
                    ControlAction::End
                } else {
                    ControlAction::Wait
                };
            },
            ControlEvent::Tick => return ControlAction::SendHeartbeat,
            ControlEvent::ReceiveFailed => {
                return ControlAction::Fail("receive server frame".to_owned());
            },
            ControlEvent::Received(None) => {
                return ControlAction::Fail("server closed control stream".to_owned());
            },
            ControlEvent::Received(Some(frame)) => frame,
        };
        match frame {
            ServerFrame::Empty => ControlAction::Fail(
                "server sent an empty control frame".to_owned(),
            ),
            ServerFrame::HeartbeatAck { next_interval_seconds } => {
                if next_interval_seconds < 5 || next_interval_seconds > 3600 {
                    return ControlAction::Fail(
                        "server returned an invalid heartbeat interval".to_owned(),
                    );
                }
                self.healthy = true;
                if next_interval_seconds != self.heartbeat_seconds {
                    self.heartbeat_seconds = next_interval_seconds;
                    ControlAction::ResetInterval(next_interval_seconds)
                } else {
                    ControlAction::Wait
                }
            },
            ServerFrame::SignedGrant(decoded) => {
                match self.grants.accept(decoded, &self.key, self.identity_id, now) {
                    Ok(()) => ControlAction::Wait,
                    Err(text) => ControlAction::Fail(text),
                }
            },
            ServerFrame::Job(job) => {
                match accept_job(job, &mut self.grants) {
                    Ok(accepted) => ControlAction::RunJob(accepted),
                    Err(text) => ControlAction::Fail(text),
                }
            },
            ServerFrame::Shell(frame) => self.shell_frame(frame, ended),
        }
    }
}

/// The stream ends without an error exactly when the client shuts down or must renew
/// its certificate, and a heartbeat is sent exactly when one is due.
pub proof fn stream_ends_for_shutdown_or_renewal(
    before: ControlModel,
    event: ControlEvent,
    now: int,
    ended: Seq<u128>,
    after: ControlModel,
    action: ControlAction,
)
    requires
        control_step(before, event, now, ended, after, action),
    ensures
        action is End <==> event is RenewalDue || event == ControlEvent::Shutdown(true),
        action is SendHeartbeat <==> event is Tick,
        event is ReceiveFailed ==> action is Fail,
        event matches ControlEvent::Received(None) ==> action is Fail,
        event == ControlEvent::Shutdown(false) ==> action is Wait,
{
}

/// Whatever the server sends, the stream stays that of the same client and of the same
/// key, and nothing but a grant, a job or a shell touches what is pending.
pub proof fn stream_keeps_its_identity(
    before: ControlModel,
    event: ControlEvent,
    now: int,
    ended: Seq<u128>,
    after: ControlModel,
    action: ControlAction,
)
    requires
        control_step(before, event, now, ended, after, action),
    ensures
        after.identity_id == before.identity_id,
        after.key == before.key,
        before.healthy ==> after.healthy,
        !(event matches ControlEvent::Received(Some(_))) ==> after == before,
        event matches ControlEvent::Received(Some(ServerFrame::HeartbeatAck { .. }))
            ==> after.grants == before.grants && after.shells == before.shells,
        event matches ControlEvent::Received(Some(ServerFrame::Job(_))) ==> after.shells
            == before.shells,
{
}

/// An acknowledged heartbeat makes the stream healthy and sets the interval that the
/// server asks for, if that is between five seconds and an hour; another interval ends
/// the stream and changes nothing.
pub proof fn acknowledged_heartbeats_set_the_interval(
    before: ControlModel,
    seconds: u32,
    now: int,
    ended: Seq<u128>,
    after: ControlModel,
    action: ControlAction,
)
    requires
        control_step(
            before,
            ControlEvent::Received(
                Some(ServerFrame::HeartbeatAck { next_interval_seconds: seconds }),
            ),
            now,
            ended,
            after,
            action,
        ),
    ensures
        5 <= seconds <= 3600 ==> {
            &&& after.healthy
            &&& after.heartbeat_seconds == seconds
            &&& action is ResetInterval || before.heartbeat_seconds == seconds
            &&& action is ResetInterval || action is Wait
            &&& action matches ControlAction::ResetInterval(interval) ==> interval == seconds
        },
        !(5 <= seconds <= 3600) ==> action is Fail && after == before,
{
}

/// A verified grant is waited with and not refused while there is room for it, and one
/// that does not verify ends the stream.
pub proof fn grants_are_verified_before_they_count(
    before: ControlModel,
    grant: SignedGrant,
    now: int,
    ended: Seq<u128>,
    after: ControlModel,
    action: ControlAction,
)
    requires
        control_step(
            before,
            ControlEvent::Received(Some(ServerFrame::SignedGrant(Some(grant)))),
            now,
            ended,
            after,
            action,
        ),
        before.grants.len() < 128,
        super::relay::distinct(before.grants),
    ensures
        grant.verdict(before.key, before.identity_id, now) is Ok ==> action is Wait
            && after.grants.len() > 0 && after.grants.last() == grant,
        grant.verdict(before.key, before.identity_id, now) is Err ==> action is Fail
            && after.grants == before.grants,
{
    super::relay::verified_grants_become_pending(before.grants, grant, now);
}

/// The renewal is waited for exactly as long as it is not due, and a certificate that
/// expires later is renewed later by as much.
pub proof fn renewal_is_waited_for_until_it_is_due(
    expires: Timestamp,
    later: Timestamp,
    now: Timestamp,
)
    requires
        expires.nanos_spec() < NANOS,
        later.nanos_spec() < NANOS,
        now.nanos_spec() < NANOS,
    ensures
        renewal_distance(expires, now) > 0 <==> super::daemon::later_by_days(expires, now, 30),
        renewal_distance(later, now) - renewal_distance(expires, now) == (later.seconds_spec()
            - expires.seconds_spec()) * 1_000_000_000 + later.nanos_spec() - expires.nanos_spec(),
        renewal_distance(expires, expires) == -(30 * 86_400 * 1_000_000_000),
{
}

} // verus!
