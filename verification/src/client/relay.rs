//! What the daemon does with the jobs and shell frames that the server sends:
//! it checks them against the signed grants and relays them to the privileged
//! broker.

use vstd::prelude::*;

use crate::codec::{base64_bytes, base64_decode, base64_encode, base64_text, hex_encode, hex_text};
use crate::common::grant::{GrantOperation, SignedGrant};
use crate::crypto::{sha256, sha256_digest, VerifyingKey};
use crate::ident::{hyphenated, id_text, parse_id, uuid_value};
use crate::instant::Timestamp;
use crate::platform::broker::BrokerRequest;
use crate::text::{concat, same_text, tell, told};

use super::broker::WireResult;
use super::broker_session::{
    other_than, without_session, SessionWireFrame, MAX_SESSION_WIRE_FRAME_BYTES,
};
use super::ptys::SessionPrivilege;

verus! {

/// The most grants that wait for their job or session.
pub const MAX_PENDING_GRANTS: usize = 128;

/// Maximum concurrent shell sessions relayed by one daemon connection.
pub const MAX_SHELL_SESSIONS: usize = 8;

/// Being valid after a moment.
pub open spec fn live_at(now: int) -> spec_fn(SignedGrant) -> bool {
    |grant: SignedGrant| grant.grant.expires_at@ > now
}

/// Where the first grant for a job or session stands, from `i` on.
pub open spec fn place_from(grants: Seq<SignedGrant>, id: u128, i: int) -> Option<int>
    decreases grants.len() - i,
{
    if i < 0 || i >= grants.len() {
        None
    } else if grants[i].grant.job_or_session_id == id {
        Some(i)
    } else {
        place_from(grants, id, i + 1)
    }
}

/// Where the grant for a job or session stands.
pub open spec fn place(grants: Seq<SignedGrant>, id: u128) -> Option<int> {
    place_from(grants, id, 0)
}

/// The grants without the one for a job or session.
pub open spec fn without_grant(grants: Seq<SignedGrant>, id: u128) -> Seq<SignedGrant> {
    match place(grants, id) {
        Some(at) => grants.remove(at),
        None => grants,
    }
}

/// Whether no two grants are for the same job or session.
pub open spec fn distinct(grants: Seq<SignedGrant>) -> bool {
    forall|i: int, j: int|
        0 <= i < j < grants.len() ==> (#[trigger] grants[i]).grant.job_or_session_id != (
        #[trigger] grants[j]).grant.job_or_session_id
}

proof fn place_is_found(grants: Seq<SignedGrant>, id: u128, i: int)
    requires
        0 <= i <= grants.len(),
    ensures
        match place_from(grants, id, i) {
            Some(at) => i <= at < grants.len() && grants[at].grant.job_or_session_id == id,
            None => forall|j: int|
                i <= j < grants.len() ==> (#[trigger] grants[j]).grant.job_or_session_id != id,
        },
    decreases grants.len() - i,
{
    if i < grants.len() {
        place_is_found(grants, id, i + 1);
    }
}

/// A grant that was taken is gone: no other one is pending for the same job or
/// session.
pub proof fn taken_grant_is_gone(grants: Seq<SignedGrant>, id: u128)
    requires
        distinct(grants),
    ensures
        place(without_grant(grants, id), id) is None,
        distinct(without_grant(grants, id)),
{
    place_is_found(grants, id, 0);
    let rest = without_grant(grants, id);
    place_is_found(rest, id, 0);
    if place(grants, id) is Some {
        let at = place(grants, id)->0;
        assert forall|i: int, j: int| 0 <= i < j < rest.len() implies (
        #[trigger] rest[i]).grant.job_or_session_id != (
        #[trigger] rest[j]).grant.job_or_session_id by {
            let x = if i < at {
                i
            } else {
                i + 1
            };
            let y = if j < at {
                j
            } else {
                j + 1
            };
            assert(rest[i] == grants[x] && rest[j] == grants[y]);
        }
        if place(rest, id) is Some {
            let k = place(rest, id)->0;
            let x = if k < at {
                k
            } else {
                k + 1
            };
            assert(rest[k] == grants[x]);
        }
    }
}

/// What becomes of the pending grants when the server sends one: those that
/// expired go, and the new one takes the place of one for the same job or
/// session. There are never more than the limit.
pub open spec fn grants_after(grants: Seq<SignedGrant>, grant: SignedGrant, now: int) -> (
    Seq<SignedGrant>,
    bool,
) {
    let live = grants.filter(live_at(now));
    let id = grant.grant.job_or_session_id;
    if place(live, id) is None && live.len() >= MAX_PENDING_GRANTS {
        (live, false)
    } else {
        (without_grant(live, id).push(grant), true)
    }
}

proof fn filter_keeps_distinct(grants: Seq<SignedGrant>, keep: spec_fn(SignedGrant) -> bool)
    requires
        distinct(grants),
    ensures
        distinct(grants.filter(keep)),
        grants.filter(keep).len() <= grants.len(),
        forall|k: int|
            0 <= k < grants.filter(keep).len() ==> exists|i: int|
                0 <= i < grants.len() && (#[trigger] grants.filter(keep)[k]) == #[trigger] grants[i],
    decreases grants.len(),
{
    reveal(Seq::filter);
    if grants.len() > 0 {
        let init = grants.drop_last();
        filter_keeps_distinct(init, keep);
        let kept = init.filter(keep);
        let all = grants.filter(keep);
        assert forall|k: int| 0 <= k < all.len() implies exists|i: int|
            0 <= i < grants.len() && (#[trigger] all[k]) == #[trigger] grants[i] by {
            if k < kept.len() {
                assert(all[k] == kept[k]);
                let i = choose|i: int| 0 <= i < init.len() && kept[k] == init[i];
                assert(all[k] == grants[i]);
            } else {
                assert(all[k] == grants[grants.len() - 1]);
            }
        }
        assert forall|i: int, j: int| 0 <= i < j < all.len() implies (
        #[trigger] all[i]).grant.job_or_session_id != (
        #[trigger] all[j]).grant.job_or_session_id by {
            assert(all[i] == kept[i]);
            if j < kept.len() {
                assert(all[j] == kept[j]);
            } else {
                let x = choose|x: int| 0 <= x < init.len() && kept[i] == init[x];
                assert(grants[x] == init[x]);
                assert(all[j] == grants[grants.len() - 1]);
            }
        }
    }
}

/// Whether a grant that the server sent was taken in as it should be: it must be
/// one for this device that is valid now.
pub open spec fn grant_handled(
    decoded: Option<SignedGrant>,
    key: Seq<u8>,
    device: u128,
    now: int,
    before: Seq<SignedGrant>,
    after: Seq<SignedGrant>,
    result: Result<(), String>,
) -> bool {
    match decoded {
        None => after == before && told(result, Some("server sent malformed signed grant"@)),
        Some(grant) => match grant.verdict(key, device, now) {
            Err(_) => after == before && told(
                result,
                Some("server sent an invalid signed grant"@),
            ),
            Ok(_) => {
                let (grants, accepted) = grants_after(before, grant, now);
                &&& after == grants
                &&& told(
                    result,
                    if accepted {
                        None
                    } else {
                        Some("server exceeded the bounded pending signed-grant set"@)
                    },
                )
            },
        },
    }
}

/// The signed grants that wait for their job or session.
#[derive(Debug)]
pub struct PendingGrants {
    grants: Vec<SignedGrant>,
}

impl View for PendingGrants {
    type V = Seq<SignedGrant>;

    closed spec fn view(&self) -> Seq<SignedGrant> {
        self.grants@
    }
}

impl PendingGrants {
    /// The grants are for different jobs and sessions, and never more than the
    /// limit.
    pub open spec fn wf(self) -> bool {
        distinct(self@) && self@.len() <= MAX_PENDING_GRANTS
    }

    pub fn new() -> (result: PendingGrants)
        ensures
            result.wf(),
            result@ == Seq::<SignedGrant>::empty(),
    {
        PendingGrants { grants: Vec::new() }
    }

    /// Drops the grants that expired.
    fn prune(&mut self, now: Timestamp)
        ensures
            final(self)@ == old(self)@.filter(live_at(now@)),
    {
        let ghost all = self.grants@;
        let ghost live = live_at(now@);
        let mut i: usize = 0;
        let ghost mut seen: int = 0;
        assert(all.take(0).filter(live) =~= Seq::empty()) by {
            reveal(Seq::filter);
        }
        assert(all.skip(0) =~= all);
        assert(self.grants@.take(0) =~= Seq::empty());
        while i < self.grants.len()
            invariant
                i <= self.grants.len(),
                0 <= seen <= all.len(),
                live == live_at(now@),
                self.grants@.take(i as int) == all.take(seen).filter(live),
                self.grants@.skip(i as int) == all.skip(seen),
            decreases all.len() - seen,
        {
            let ghost before = self.grants@;
            assert(before.skip(i as int).len() == all.skip(seen).len());
            assert(before.skip(i as int)[0] == before[i as int]);
            assert(all.skip(seen)[0] == all[seen]);
            assert(all.take(seen + 1).drop_last() =~= all.take(seen));
            if now.before(&self.grants[i].grant.expires_at) {
                assert(all.take(seen + 1).filter(live) =~= all.take(seen).filter(live).push(
                    all[seen],
                )) by {
                    reveal(Seq::filter);
                }
                assert(before.take(i + 1) =~= before.take(i as int).push(before[i as int]));
                assert(before.skip(i + 1) =~= before.skip(i as int).drop_first());
                assert(all.skip(seen + 1) =~= all.skip(seen).drop_first());
                i += 1;
            } else {
                let _gone = self.grants.remove(i);
                assert(all.take(seen + 1).filter(live) =~= all.take(seen).filter(live)) by {
                    reveal(Seq::filter);
                }
                assert(self.grants@.take(i as int) =~= before.take(i as int));
                assert(self.grants@.skip(i as int) =~= before.skip(i as int).drop_first());
                assert(all.skip(seen + 1) =~= all.skip(seen).drop_first());
            }
            proof {
                seen = seen + 1;
            }
        }
        proof {
            assert(all.skip(seen).len() == 0);
            assert(seen == all.len());
            assert(all.take(seen) =~= all);
            assert(self.grants@.take(i as int) =~= self.grants@);
        }
    }

    /// Takes the grant for a job or session.
    pub fn take(&mut self, id: u128) -> (result: Option<SignedGrant>)
        requires
            old(self).wf(),
        ensures
            final(self).wf(),
            final(self)@ == without_grant(old(self)@, id),
            match place(old(self)@, id) {
                Some(at) => result == Some(old(self)@[at]),
                None => result is None,
            },
    {
        proof {
            taken_grant_is_gone(self@, id);
            place_is_found(self@, id, 0);
        }
        let mut i: usize = 0;
        while i < self.grants.len()
            invariant
                i <= self.grants.len(),
                self@ == old(self)@,
                self@ == self.grants@,
                place(self@, id) == place_from(self@, id, i as int),
                self@.len() <= MAX_PENDING_GRANTS,
                distinct(self@),
                place(self@, id) is Some ==> distinct(without_grant(self@, id)),
            decreases self.grants.len() - i,
        {
            if self.grants[i].grant.job_or_session_id == id {
                return Some(self.grants.remove(i));
            }
            i += 1;
        }
        None
    }

    /// Takes in a grant that the server sent, which must be one for this device
    /// that is valid now. `decoded` is what the server's bytes read as.
    pub fn accept(
        &mut self,
        decoded: Option<SignedGrant>,
        key: &VerifyingKey,
        device: u128,
        now: Timestamp,
    ) -> (result: Result<(), String>)
        requires
            old(self).wf(),
        ensures
            final(self).wf(),
            grant_handled(decoded, key@, device, now@, old(self)@, final(self)@, result),
    {
        let grant = match decoded {
            Some(grant) => grant,
            None => return tell("server sent malformed signed grant"),
        };
        match grant.verify(key, device, now) {
            Ok(()) => {},
            Err(_) => return tell("server sent an invalid signed grant"),
        }
        let id = grant.grant.job_or_session_id;
        proof {
            filter_keeps_distinct(self@, live_at(now@));
        }
        self.prune(now);
        let ghost live = self@;
        proof {
            taken_grant_is_gone(live, id);
            place_is_found(live, id, 0);
        }
        match self.take(id) {
            Some(_) => {},
            None => {
                assert(self@ == live);
                if self.grants.len() >= MAX_PENDING_GRANTS {
                    return tell("server exceeded the bounded pending signed-grant set");
                }
            },
        }
        let ghost rest = self@;
        proof {
            place_is_found(rest, id, 0);
        }
        self.grants.push(grant);
        Ok(())
    }
}

/// A grant that has not expired stays pending when another one is accepted for
/// something else.
pub proof fn other_grants_stay_pending(
    grants: Seq<SignedGrant>,
    grant: SignedGrant,
    now: int,
    i: int,
)
    requires
        distinct(grants),
        0 <= i < grants.len(),
        grants[i].grant.expires_at@ > now,
        grants[i].grant.job_or_session_id != grant.grant.job_or_session_id,
    ensures
        grants_after(grants, grant, now).0.contains(grants[i]),
{
    let live = grants.filter(live_at(now));
    grants.lemma_filter_contains(live_at(now), i);
    let k = choose|k: int| 0 <= k < live.len() && live[k] == grants[i];
    let id = grant.grant.job_or_session_id;
    place_is_found(live, id, 0);
    let rest = without_grant(live, id);
    assert(rest.contains(grants[i])) by {
        match place(live, id) {
            Some(at) => {
                if k < at {
                    assert(rest[k] == live[k]);
                } else {
                    assert(rest[k - 1] == live[k]);
                }
            },
            None => {},
        }
    }
    let j = choose|j: int| 0 <= j < rest.len() && rest[j] == grants[i];
    assert(rest.push(grant)[j] == grants[i]);
}

/// What kind of job the server sent.
#[derive(Debug, Clone, Copy, PartialEq, Eq, Structural)]
pub enum JobKind {
    Unspecified,
    RestartClientService,
    RestartMachine,
    CheckOsUpdates,
    ApplyOsUpdates,
    UpdateClient,
}

/// The operation that a job of some kind must be granted.
pub open spec fn operation_of(kind: JobKind) -> Option<GrantOperation> {
    match kind {
        JobKind::Unspecified => None,
        JobKind::RestartClientService => Some(GrantOperation::RestartClientService),
        JobKind::RestartMachine => Some(GrantOperation::RestartMachine),
        JobKind::CheckOsUpdates => Some(GrantOperation::CheckOsUpdates),
        JobKind::ApplyOsUpdates => Some(GrantOperation::ApplyOsUpdates),
        JobKind::UpdateClient => Some(GrantOperation::UpdateClient),
    }
}

fn job_operation(kind: JobKind) -> (result: Option<GrantOperation>)
    ensures
        result == operation_of(kind),
{
    match kind {
        JobKind::Unspecified => None,
        JobKind::RestartClientService => Some(GrantOperation::RestartClientService),
        JobKind::RestartMachine => Some(GrantOperation::RestartMachine),
        JobKind::CheckOsUpdates => Some(GrantOperation::CheckOsUpdates),
        JobKind::ApplyOsUpdates => Some(GrantOperation::ApplyOsUpdates),
        JobKind::UpdateClient => Some(GrantOperation::UpdateClient),
    }
}

/// A job that the server delivered; `kind` is none where its number has no
/// meaning.
#[derive(Debug)]
pub struct JobDelivery {
    pub id: String,
    pub delivery_id: String,
    pub kind: Option<JobKind>,
    pub parameters_json: Vec<u8>,
}

#[derive(Debug, Clone, Copy, PartialEq, Eq, Structural)]
pub enum JobState {
    Running,
    Succeeded,
    Failed,
}

/// What the server is told of a job.
#[derive(Debug)]
pub struct JobEvent {
    pub job_id: String,
    pub sequence: u64,
    pub state: JobState,
    pub output: Vec<u8>,
    pub stderr: bool,
    pub exit_code: i32,
    pub terminal: bool,
}

/// Whether an event tells this of a job.
pub open spec fn tells(
    event: JobEvent,
    job_id: Seq<char>,
    sequence: u64,
    state: JobState,
    output: Seq<u8>,
    terminal: bool,
) -> bool {
    &&& event.job_id@ == job_id
    &&& event.sequence == sequence
    &&& event.state == state
    &&& event.output@ == output
    &&& event.stderr == (state == JobState::Failed)
    &&& event.exit_code == if terminal && state == JobState::Failed {
        1int
    } else {
        0
    }
    &&& event.terminal == terminal
}

fn job_event(job_id: &String, sequence: u64, state: JobState, output: Vec<u8>, terminal: bool) -> (
    result: JobEvent)
    ensures
        tells(result, job_id@, sequence, state, output@, terminal),
{
    JobEvent {
        job_id: job_id.clone(),
        sequence,
        state,
        output,
        stderr: state == JobState::Failed,
        exit_code: if terminal && state == JobState::Failed {
            1
        } else {
            0
        },
        terminal,
    }
}

/// Whether a grant is for a job as it was delivered.
pub open spec fn grant_matches_job(
    grant: SignedGrant,
    job_id: u128,
    operation: GrantOperation,
    job: JobDelivery,
) -> bool {
    &&& grant.grant.job_or_session_id == job_id
    &&& grant.grant.operation == operation
    &&& grant.grant.nonce@ == job.delivery_id@
    &&& grant.grant.parameters_sha256@ == hex_text(sha256_digest(job.parameters_json@))
}

/// What is wrong with a delivered job, if anything, given what its identifier
/// reads as.
pub open spec fn job_fault(id: Option<u128>, job: JobDelivery, grants: Seq<SignedGrant>) -> Option<
    Seq<char>,
> {
    if id is None {
        Some("server sent an invalid job ID"@)
    } else if job.delivery_id@.len() == 0 {
        Some("server sent a job without a delivery lease"@)
    } else if place(grants, id->0) is None {
        Some("server did not provide a verified privileged-operation grant"@)
    } else if job.kind is None {
        Some("server sent an invalid job kind"@)
    } else if operation_of(job.kind->0) is None {
        Some("server sent an unspecified job kind"@)
    } else if !grant_matches_job(
        grants[place(grants, id->0)->0],
        id->0,
        operation_of(job.kind->0)->0,
        job,
    ) {
        Some("signed grant does not match the delivered job"@)
    } else {
        None
    }
}

/// A job that was accepted: what the server is told of its delivery and of its
/// start, and the request that goes to the broker.
#[derive(Debug)]
pub struct AcceptedJob {
    pub job_id: String,
    pub delivery_id: String,
    pub started: JobEvent,
    pub request: BrokerRequest,
}

/// Whether a delivered job was handled as it should be: its grant is taken, and
/// it is accepted if nothing is wrong with it.
pub open spec fn job_handled(
    job: JobDelivery,
    before: Seq<SignedGrant>,
    after: Seq<SignedGrant>,
    result: Result<AcceptedJob, String>,
) -> bool {
    let id = uuid_value(job.id@);
    &&& told(result, job_fault(id, job, before))
    &&& after == if id is Some && job.delivery_id@.len() > 0 {
        without_grant(before, id->0)
    } else {
        before
    }
    &&& result is Ok ==> {
        let accepted = result->Ok_0;
        &&& accepted.job_id == job.id
        &&& accepted.delivery_id == job.delivery_id
        &&& tells(
            accepted.started,
            job.id@,
            1,
            JobState::Running,
            vstd::utf8::encode_utf8("executing via the privileged broker"@),
            false,
        )
        &&& accepted.request.signed_grant == before[place(before, id->0)->0]
        &&& accepted.request.parameters_json == job.parameters_json
    }
}

/// Accepts a delivered job for which a grant is pending. The grant is taken.
///
/// The first event must arrive before the server's execution-start lease expires,
/// so it is reported that execution is starting before the (possibly long) broker
/// round trip. Sequence zero is the server-created dispatch marker.
/// Client-originated execution events start at one so the first running/terminal
/// result satisfies the server's strictly increasing event contract.
pub fn accept_job(job: JobDelivery, grants: &mut PendingGrants) -> (result: Result<
    AcceptedJob,
    String,
>)
    requires
        old(grants).wf(),
    ensures
        final(grants).wf(),
        job_handled(job, old(grants)@, final(grants)@, result),
{
    let id = match parse_id(&job.id) {
        Some(id) => id,
        None => return tell("server sent an invalid job ID"),
    };
    if job.delivery_id.as_str().is_empty() {
        return tell("server sent a job without a delivery lease");
    }
    let grant = match grants.take(id) {
        Some(grant) => grant,
        None => return tell("server did not provide a verified privileged-operation grant"),
    };
    let kind = match job.kind {
        Some(kind) => kind,
        None => return tell("server sent an invalid job kind"),
    };
    let operation = match job_operation(kind) {
        Some(operation) => operation,
        None => return tell("server sent an unspecified job kind"),
    };
    if grant.grant.job_or_session_id != id || grant.grant.operation != operation || !same_text(
        &grant.grant.nonce,
        &job.delivery_id,
    ) || !same_text(&grant.grant.parameters_sha256, &hex_encode(&sha256(&job.parameters_json))) {
        return tell("signed grant does not match the delivered job");
    }
    let started = job_event(
        &job.id,
        1,
        JobState::Running,
        "executing via the privileged broker".as_bytes_vec(),
        false,
    );
    Ok(
        AcceptedJob {
            job_id: job.id,
            delivery_id: job.delivery_id,
            started,
            request: BrokerRequest { signed_grant: grant, parameters_json: job.parameters_json },
        },
    )
}

/// What the broker said of a request, or why it said nothing.
#[derive(Debug)]
pub enum BrokerReply {
    Result(WireResult),
    Failed(String),
}

/// The state and the output that end a job, by what the broker said.
pub open spec fn conclusion(reply: BrokerReply) -> (JobState, Seq<u8>) {
    match reply {
        BrokerReply::Result(WireResult::Success { response }) => (
            if response.success {
                JobState::Succeeded
            } else {
                JobState::Failed
            },
            response.output@,
        ),
        BrokerReply::Result(WireResult::Error { message }) => (
            JobState::Failed,
            vstd::utf8::encode_utf8(message@),
        ),
        BrokerReply::Failed(error) => (JobState::Failed, vstd::utf8::encode_utf8(error@)),
    }
}

/// Tells the server how a job ended.
pub fn finish_job(job_id: &String, reply: BrokerReply) -> (result: JobEvent)
    ensures
        tells(result, job_id@, 2, conclusion(reply).0, conclusion(reply).1, true),
{
    match reply {
        BrokerReply::Result(WireResult::Success { response }) => {
            let state = if response.success {
                JobState::Succeeded
            } else {
                JobState::Failed
            };
            job_event(job_id, 2, state, response.output, true)
        },
        BrokerReply::Result(WireResult::Error { message }) => job_event(
            job_id,
            2,
            JobState::Failed,
            message.as_str().as_bytes_vec(),
            true,
        ),
        BrokerReply::Failed(error) => job_event(
            job_id,
            2,
            JobState::Failed,
            error.as_str().as_bytes_vec(),
            true,
        ),
    }
}

/// A shell that the server asks for; `privilege` is none where its number has no
/// meaning.
#[derive(Debug)]
pub struct ShellOpen {
    pub session_id: String,
    pub columns: u32,
    pub rows: u32,
    pub privilege: Option<SessionPrivilege>,
    pub parameters_json: Vec<u8>,
    pub account_user: String,
    pub account_password: Vec<u8>,
    pub save_credentials: bool,
}

/// What the server is told of a shell that ended.
#[derive(Debug)]
pub struct ShellClose {
    pub session_id: String,
    pub reason: String,
    pub exit_code: i32,
}

/// Whether a close frame ends a session for a reason.
pub open spec fn closes(close: ShellClose, session_id: u128, reason: Seq<char>) -> bool {
    close.session_id@ == hyphenated(session_id) && close.reason@ == reason && close.exit_code == 1
}

/// Ends a session for a reason.
pub fn shell_close(session_id: u128, reason: &str) -> (result: ShellClose)
    ensures
        closes(result, session_id, reason@),
{
    ShellClose { session_id: id_text(session_id), reason: reason.to_owned(), exit_code: 1 }
}

/// What the daemon does with a shell frame.
#[derive(Debug)]
pub enum ShellDecision {
    /// Nothing: the session is unknown.
    Ignore,
    /// The server is told that the session ended.
    Refuse(ShellClose),
    /// A session begins with the broker, with this first frame.
    Connect { session_id: u128, frame: SessionWireFrame },
    /// A frame goes to the broker. The relay must take it, unless it is a close.
    Relay { session_id: u128, frame: SessionWireFrame },
}

/// A terminal's size that can be served.
pub open spec fn usable_size(columns: u32, rows: u32) -> bool {
    1 <= columns <= 500 && 1 <= rows <= 500
}

/// The operation that a shell must be granted.
pub open spec fn shell_operation(privilege: SessionPrivilege) -> GrantOperation {
    match privilege {
        SessionPrivilege::Low => GrantOperation::OpenLowShell,
        SessionPrivilege::Elevated => GrantOperation::OpenElevatedShell,
    }
}

/// Whether a grant is for a session.
pub open spec fn grant_matches_shell(
    grant: SignedGrant,
    session_id: u128,
    privilege: SessionPrivilege,
) -> bool {
    &&& grant.grant.job_or_session_id == session_id
    &&& grant.grant.operation == shell_operation(privilege)
    &&& grant.grant.nonce@ == hyphenated(session_id)
}

/// Being none of some sessions.
pub open spec fn none_of(ended: Seq<u128>) -> spec_fn(u128) -> bool {
    |session: u128| !ended.contains(session)
}

/// The sessions that are relayed when room is made for another one: those that
/// ended go, but only where there would be too many.
pub open spec fn room_for(sessions: Seq<u128>, session_id: u128, ended: Seq<u128>) -> Seq<u128> {
    if !sessions.contains(session_id) && sessions.len() >= MAX_SHELL_SESSIONS {
        sessions.filter(none_of(ended))
    } else {
        sessions
    }
}

/// Why a shell may not be opened, if it may not, once its grant was looked for.
pub open spec fn shell_denial(open: ShellOpen, session_id: u128, grants: Seq<SignedGrant>) -> Option<
    Seq<char>,
> {
    if place(grants, session_id) is None {
        Some("server did not provide a shell-operation grant"@)
    } else if open.privilege is None {
        Some("server requested an invalid shell privilege"@)
    } else if !grant_matches_shell(
        grants[place(grants, session_id)->0],
        session_id,
        open.privilege->0,
    ) {
        Some("shell grant does not match the requested session"@)
    } else {
        None
    }
}

/// Whether a frame opens the session that the server asked for.
pub open spec fn opens(frame: SessionWireFrame, open: ShellOpen, signed: SignedGrant) -> bool {
    match frame {
        SessionWireFrame::Open {
            grant,
            parameters_base64,
            columns,
            rows,
            account_user,
            account_password_base64,
            save_credentials,
        } => {
            &&& grant == signed
            &&& parameters_base64@ == base64_text(open.parameters_json@)
            &&& columns == open.columns
            &&& rows == open.rows
            &&& account_user == open.account_user
            &&& account_password_base64@ == base64_text(open.account_password@)
            &&& save_credentials == open.save_credentials
        },
        _ => false,
    }
}

/// Whether a shell that the server asked for was opened or refused as it should
/// be.
pub open spec fn shell_open_handled(
    open: ShellOpen,
    ended: Seq<u128>,
    before: Seq<u128>,
    after: Seq<u128>,
    grants_before: Seq<SignedGrant>,
    grants_after: Seq<SignedGrant>,
    result: Result<ShellDecision, String>,
) -> bool {
    match uuid_value(open.session_id@) {
        None => after == before && grants_after == grants_before && told(
            result,
            Some("server sent an invalid shell session ID"@),
        ),
        Some(id) => if !usable_size(open.columns, open.rows) {
            after == before && grants_after == grants_before && told(
                result,
                Some("server sent an invalid shell size"@),
            )
        } else {
            let room = room_for(before, id, ended);
            &&& grants_after == without_grant(grants_before, id)
            &&& result is Ok
            &&& match shell_denial(open, id, grants_before) {
                Some(reason) => {
                    &&& result->Ok_0 matches ShellDecision::Refuse(close)
                    &&& closes(close, id, reason)
                    &&& after == before
                },
                None => if !before.contains(id) && room.len() >= MAX_SHELL_SESSIONS {
                    &&& result->Ok_0 matches ShellDecision::Refuse(close)
                    &&& closes(close, id, "the client shell-session limit was reached"@)
                    &&& after == room
                } else {
                    &&& result->Ok_0 matches ShellDecision::Connect { session_id, frame }
                    &&& session_id == id
                    &&& opens(frame, open, grants_before[place(grants_before, id)->0])
                    &&& after == without_session(room, id).push(id)
                },
            }
        },
    }
}

/// Whether bytes that the operator typed are relayed as they should be.
pub open spec fn shell_data_handled(
    sessions: Seq<u128>,
    session: Seq<char>,
    data: Seq<u8>,
    result: Result<ShellDecision, String>,
) -> bool {
    match uuid_value(session) {
        None => told(result, Some("server sent an invalid shell session ID"@)),
        Some(id) => if !sessions.contains(id) {
            result == Ok::<ShellDecision, String>(ShellDecision::Ignore)
        } else if data.len() > MAX_SESSION_WIRE_FRAME_BYTES {
            told(result, Some("server sent an oversized shell data frame"@))
        } else {
            &&& result is Ok
            &&& result->Ok_0 matches ShellDecision::Relay { session_id, frame }
            &&& session_id == id
            &&& frame matches SessionWireFrame::Data { data_base64 }
            &&& data_base64@ == base64_text(data)
        },
    }
}

/// Whether a new size of the operator's terminal is relayed as it should be.
pub open spec fn shell_resize_handled(
    sessions: Seq<u128>,
    session: Seq<char>,
    columns: u32,
    rows: u32,
    result: Result<ShellDecision, String>,
) -> bool {
    match uuid_value(session) {
        None => told(result, Some("server sent an invalid shell session ID"@)),
        Some(id) => if !usable_size(columns, rows) {
            told(result, Some("server sent an invalid shell size"@))
        } else if !sessions.contains(id) {
            result == Ok::<ShellDecision, String>(ShellDecision::Ignore)
        } else {
            result == Ok::<ShellDecision, String>(
                ShellDecision::Relay {
                    session_id: id,
                    frame: SessionWireFrame::Resize { columns, rows },
                },
            )
        },
    }
}

/// Whether the end of the operator's terminal is relayed as it should be.
pub open spec fn shell_close_handled(
    before: Seq<u128>,
    after: Seq<u128>,
    session: Seq<char>,
    reason: Seq<char>,
    exit_code: i32,
    result: Result<ShellDecision, String>,
) -> bool {
    match uuid_value(session) {
        None => after == before && told(
            result,
            Some("server sent an invalid shell session ID"@),
        ),
        Some(id) => {
            &&& after == without_session(before, id)
            &&& if !before.contains(id) {
                result == Ok::<ShellDecision, String>(ShellDecision::Ignore)
            } else {
                &&& result is Ok
                &&& result->Ok_0 matches ShellDecision::Relay {
                    session_id: to,
                    frame: SessionWireFrame::Close { reason: told_reason, exit_code: code },
                }
                &&& to == id
                &&& code == exit_code
                &&& told_reason@ == if reason.len() == 0 {
                    "operator closed the terminal"@
                } else {
                    reason
                }
            }
        },
    }
}

/// The sessions that the daemon relays to the broker.
#[derive(Debug)]
pub struct ShellRelays {
    sessions: Vec<u128>,
}

impl View for ShellRelays {
    type V = Seq<u128>;

    closed spec fn view(&self) -> Seq<u128> {
        self.sessions@
    }
}

impl ShellRelays {
    /// There are never more sessions than the limit.
    pub open spec fn wf(self) -> bool {
        self@.len() <= MAX_SHELL_SESSIONS
    }

    pub fn new() -> (result: ShellRelays)
        ensures
            result.wf(),
            result@ == Seq::<u128>::empty(),
    {
        ShellRelays { sessions: Vec::new() }
    }

    fn contains(&self, session_id: u128) -> (result: bool)
        ensures
            result == self@.contains(session_id),
    {
        let mut i: usize = 0;
        while i < self.sessions.len()
            invariant
                i <= self.sessions.len(),
                forall|j: int| 0 <= j < i ==> self.sessions@[j] != session_id,
            decreases self.sessions.len() - i,
        {
            if self.sessions[i] == session_id {
                assert(self@[i as int] == session_id);
                return true;
            }
            i += 1;
        }
        false
    }

    /// Forgets a session.
    pub fn remove(&mut self, session_id: u128)
        ensures
            final(self)@ == without_session(old(self)@, session_id),
            final(self)@.len() <= old(self)@.len(),
    {
        let mut rest: Vec<u128> = Vec::new();
        let mut i: usize = 0;
        let ghost others = other_than(session_id);
        assert(self.sessions@.take(0).filter(others) =~= Seq::empty()) by {
            reveal(Seq::filter);
        }
        while i < self.sessions.len()
            invariant
                i <= self.sessions.len(),
                rest.len() <= i,
                self.sessions@ == old(self).sessions@,
                others == other_than(session_id),
                rest@ == self.sessions@.take(i as int).filter(others),
            decreases self.sessions.len() - i,
        {
            assert(self.sessions@.take(i + 1).drop_last() == self.sessions@.take(i as int));
            if self.sessions[i] != session_id {
                rest.push(self.sessions[i]);
            }
            assert(rest@ == self.sessions@.take(i + 1).filter(others)) by {
                reveal(Seq::filter);
            }
            i += 1;
        }
        assert(self.sessions@.take(self.sessions@.len() as int) == self.sessions@);
        self.sessions = rest;
    }

    fn drop_ended(&mut self, ended: &Vec<u128>)
        ensures
            final(self)@ == old(self)@.filter(none_of(ended@)),
            final(self)@.len() <= old(self)@.len(),
    {
        let mut rest: Vec<u128> = Vec::new();
        let mut i: usize = 0;
        let ghost running = none_of(ended@);
        assert(self.sessions@.take(0).filter(running) =~= Seq::empty()) by {
            reveal(Seq::filter);
        }
        while i < self.sessions.len()
            invariant
                i <= self.sessions.len(),
                rest.len() <= i,
                self.sessions@ == old(self).sessions@,
                running == none_of(ended@),
                rest@ == self.sessions@.take(i as int).filter(running),
            decreases self.sessions.len() - i,
        {
            assert(self.sessions@.take(i + 1).drop_last() == self.sessions@.take(i as int));
            let session = self.sessions[i];
            let mut over = false;
            let mut j: usize = 0;
            while j < ended.len()
                invariant
                    j <= ended.len(),
                    over == exists|k: int| 0 <= k < j && ended@[k] == session,
                decreases ended.len() - j,
            {
                if ended[j] == session {
                    over = true;
                }
                j += 1;
            }
            assert(over == ended@.contains(session));
            if !over {
                rest.push(session);
            }
            assert(rest@ == self.sessions@.take(i + 1).filter(running)) by {
                reveal(Seq::filter);
            }
            i += 1;
        }
        assert(self.sessions@.take(self.sessions@.len() as int) == self.sessions@);
        self.sessions = rest;
    }

    /// Opens a session that the server asked for, or refuses it. Only a frame
    /// that breaks the protocol is an error, which ends the control stream.
    /// `ended` are the sessions whose connection to the broker already ended:
    /// they do not count against the limit.
    pub fn open_shell_session(
        &mut self,
        open: ShellOpen,
        grants: &mut PendingGrants,
        ended: &Vec<u128>,
    ) -> (result: Result<ShellDecision, String>)
        requires
            old(self).wf(),
            old(grants).wf(),
        ensures
            final(self).wf(),
            final(grants).wf(),
            shell_open_handled(
                open,
                ended@,
                old(self)@,
                final(self)@,
                old(grants)@,
                final(grants)@,
                result,
            ),
    {
        let id = match parse_id(&open.session_id) {
            Some(id) => id,
            None => return tell("server sent an invalid shell session ID"),
        };
        if open.columns == 0 || open.rows == 0 || open.columns > 500 || open.rows > 500 {
            return tell("server sent an invalid shell size");
        }
        let grant = match grants.take(id) {
            Some(grant) => grant,
            None => return Ok(
                ShellDecision::Refuse(
                    shell_close(id, "server did not provide a shell-operation grant"),
                ),
            ),
        };
        let operation = match open.privilege {
            Some(SessionPrivilege::Low) => GrantOperation::OpenLowShell,
            Some(SessionPrivilege::Elevated) => GrantOperation::OpenElevatedShell,
            None => return Ok(
                ShellDecision::Refuse(
                    shell_close(id, "server requested an invalid shell privilege"),
                ),
            ),
        };
        if grant.grant.job_or_session_id != id || grant.grant.operation != operation || !same_text(
            &grant.grant.nonce,
            &id_text(id),
        ) {
            return Ok(
                ShellDecision::Refuse(
                    shell_close(id, "shell grant does not match the requested session"),
                ),
            );
        }
        let known = self.contains(id);
        if !known && self.sessions.len() >= MAX_SHELL_SESSIONS {
            self.drop_ended(ended);
            if self.sessions.len() >= MAX_SHELL_SESSIONS {
                return Ok(
                    ShellDecision::Refuse(
                        shell_close(id, "the client shell-session limit was reached"),
                    ),
                );
            }
        }
        let ghost room = self@;
        self.remove(id);
        proof {
            if known {
                removing_shortens(room, id);
            }
        }
        self.sessions.push(id);
        let frame = SessionWireFrame::Open {
            grant,
            parameters_base64: base64_encode(&open.parameters_json),
            columns: open.columns,
            rows: open.rows,
            account_user: open.account_user,
            account_password_base64: base64_encode(&open.account_password),
            save_credentials: open.save_credentials,
        };
        Ok(ShellDecision::Connect { session_id: id, frame })
    }

    /// Forgets a session that the broker did not take, and tells the server so.
    pub fn connection_failed(&mut self, session_id: u128, error: &str) -> (result: ShellClose)
        requires
            old(self).wf(),
        ensures
            final(self).wf(),
            final(self)@ == without_session(old(self)@, session_id),
            closes(result, session_id, "broker session failed: "@ + error@),
    {
        self.remove(session_id);
        shell_close(session_id, &concat("broker session failed: ", error))
    }

    /// Relays bytes that the operator typed. A frame for a session the client
    /// already closed races with the server's relay; dropping it must not kill
    /// the control stream.
    pub fn relay_shell_data(&self, session_id: &str, data: &Vec<u8>) -> (result: Result<
        ShellDecision,
        String,
    >)
        ensures
            shell_data_handled(self@, session_id@, data@, result),
    {
        let id = match parse_id(session_id) {
            Some(id) => id,
            None => return tell("server sent an invalid shell session ID"),
        };
        if !self.contains(id) {
            return Ok(ShellDecision::Ignore);
        }
        if data.len() > MAX_SESSION_WIRE_FRAME_BYTES {
            return tell("server sent an oversized shell data frame");
        }
        Ok(
            ShellDecision::Relay {
                session_id: id,
                frame: SessionWireFrame::Data { data_base64: base64_encode(data) },
            },
        )
    }

    /// Relays a new size of the operator's terminal.
    pub fn relay_shell_resize(&self, session_id: &str, columns: u32, rows: u32) -> (result: Result<
        ShellDecision,
        String,
    >)
        ensures
            shell_resize_handled(self@, session_id@, columns, rows, result),
    {
        let id = match parse_id(session_id) {
            Some(id) => id,
            None => return tell("server sent an invalid shell session ID"),
        };
        if columns == 0 || rows == 0 || columns > 500 || rows > 500 {
            return tell("server sent an invalid shell size");
        }
        if !self.contains(id) {
            return Ok(ShellDecision::Ignore);
        }
        Ok(
            ShellDecision::Relay {
                session_id: id,
                frame: SessionWireFrame::Resize { columns, rows },
            },
        )
    }

    /// Relays that the operator closed the terminal, and forgets the session.
    pub fn relay_shell_close(&mut self, session_id: &str, reason: String, exit_code: i32) -> (result:
        Result<ShellDecision, String>)
        requires
            old(self).wf(),
        ensures
            final(self).wf(),
            shell_close_handled(
                old(self)@,
                final(self)@,
                session_id@,
                reason@,
                exit_code,
                result,
            ),
    {
        let id = match parse_id(session_id) {
            Some(id) => id,
            None => return tell("server sent an invalid shell session ID"),
        };
        let known = self.contains(id);
        self.remove(id);
        if !known {
            return Ok(ShellDecision::Ignore);
        }
        let reason = if reason.as_str().is_empty() {
            "operator closed the terminal".to_owned()
        } else {
            reason
        };
        Ok(
            ShellDecision::Relay {
                session_id: id,
                frame: SessionWireFrame::Close { reason, exit_code },
            },
        )
    }
}

proof fn removing_shortens(sessions: Seq<u128>, session_id: u128)
    requires
        sessions.contains(session_id),
    ensures
        without_session(sessions, session_id).len() < sessions.len(),
    decreases sessions.len(),
{
    reveal(Seq::filter);
    let init = sessions.drop_last();
    let at = choose|i: int| 0 <= i < sessions.len() && sessions[i] == session_id;
    filter_shortens(init, other_than(session_id));
    if sessions.last() != session_id {
        assert(init[at] == session_id);
        removing_shortens(init, session_id);
    }
}

proof fn filter_shortens(sessions: Seq<u128>, keep: spec_fn(u128) -> bool)
    ensures
        sessions.filter(keep).len() <= sessions.len(),
    decreases sessions.len(),
{
    reveal(Seq::filter);
    if sessions.len() > 0 {
        filter_shortens(sessions.drop_last(), keep);
    }
}

/// What comes from the broker in a session.
#[derive(Debug)]
pub enum RelayEvent {
    /// No further frame could be read.
    ReadFailed(String),
    /// A frame does not read as one.
    Malformed(String),
    Frame(SessionWireFrame),
    /// What was forwarded could not be sent to the server.
    SendFailed,
}

/// What a session's relay does next.
#[derive(Debug)]
pub enum RelayAction {
    /// Reads the next frame.
    Continue,
    /// Sends the server data with sequence zero, and reads the next frame.
    Forward { session_id: String, data: Vec<u8> },
    /// Tells the server that the session ended, and ends.
    Close(ShellClose),
    End,
}

/// Whether an action is what an event at the broker's end of a session calls for.
pub open spec fn relayed(session_id: u128, event: RelayEvent, action: RelayAction) -> bool {
    match relay_end(event) {
        Some(reason) => action matches RelayAction::Close(close) && closes(
            close,
            session_id,
            reason,
        ),
        None => match event {
            RelayEvent::SendFailed => action is End,
            RelayEvent::Frame(SessionWireFrame::Data { data_base64 }) => {
                &&& action matches RelayAction::Forward { session_id: to, data }
                &&& to@ == hyphenated(session_id)
                &&& base64_bytes(data_base64@) == Some(data@)
            },
            _ => action is Continue,
        },
    }
}

/// Why a session's relay ends with a close frame, if it does.
pub open spec fn relay_end(event: RelayEvent) -> Option<Seq<char>> {
    match event {
        RelayEvent::ReadFailed(error) => Some("broker session ended: "@ + error@),
        RelayEvent::Malformed(error) => Some("broker sent a malformed frame: "@ + error@),
        RelayEvent::Frame(SessionWireFrame::Data { data_base64 }) => if base64_bytes(
            data_base64@,
        ) is None {
            Some("broker sent invalid session data"@)
        } else {
            None
        },
        RelayEvent::Frame(SessionWireFrame::Close { reason, .. }) => Some(reason@),
        RelayEvent::Frame(SessionWireFrame::Error { message }) => Some(message@),
        _ => None,
    }
}

/// Relays what comes from the broker in a session to the server.
pub fn relay_step(session_id: u128, event: RelayEvent) -> (action: RelayAction)
    ensures
        relayed(session_id, event, action),
{
    match event {
        RelayEvent::ReadFailed(error) => RelayAction::Close(
            shell_close(session_id, &concat("broker session ended: ", &error)),
        ),
        RelayEvent::Malformed(error) => RelayAction::Close(
            shell_close(session_id, &concat("broker sent a malformed frame: ", &error)),
        ),
        RelayEvent::SendFailed => RelayAction::End,
        RelayEvent::Frame(frame) => match frame {
            SessionWireFrame::Data { data_base64 } => match base64_decode(&data_base64) {
                Some(data) => RelayAction::Forward { session_id: id_text(session_id), data },
                None => RelayAction::Close(
                    shell_close(session_id, "broker sent invalid session data"),
                ),
            },
            SessionWireFrame::Close { reason, .. } => RelayAction::Close(
                shell_close(session_id, &reason),
            ),
            SessionWireFrame::Error { message } => RelayAction::Close(
                shell_close(session_id, &message),
            ),
            _ => RelayAction::Continue,
        },
    }
}

/// A job ends as succeeded exactly if the broker answered with a response that says
/// so. In every other case, whether the operation failed, the broker refused it or
/// nothing came back, the server is told that it failed, with a code that is not zero.
/// What was said goes to the server unchanged.
pub proof fn job_succeeds_exactly_if_the_broker_says_so(
    event: JobEvent,
    job_id: Seq<char>,
    reply: BrokerReply,
)
    requires
        tells(event, job_id, 2, conclusion(reply).0, conclusion(reply).1, true),
    ensures
        event.terminal,
        event.job_id@ == job_id,
        event.sequence == 2,
        event.state == JobState::Succeeded <==> (reply matches BrokerReply::Result(
            WireResult::Success { response },
        ) && response.success),
        event.state != JobState::Succeeded ==> event.state == JobState::Failed && event.exit_code
            != 0 && event.stderr,
        event.state == JobState::Succeeded ==> event.exit_code == 0 && !event.stderr,
        match reply {
            BrokerReply::Result(WireResult::Success { response }) => event.output@
                == response.output@,
            BrokerReply::Result(WireResult::Error { message }) => event.output@
                == vstd::utf8::encode_utf8(message@),
            BrokerReply::Failed(error) => event.output@ == vstd::utf8::encode_utf8(error@),
        },
{
}

/// Each kind of job asks for the one operation of its name, and a job without a kind
/// for none.
pub proof fn job_kinds_have_their_own_operations(first: JobKind, second: JobKind)
    ensures
        operation_of(first) is None <==> first == JobKind::Unspecified,
        operation_of(first) == operation_of(second) ==> first == second,
        first == JobKind::RestartClientService ==> operation_of(first) == Some(
            GrantOperation::RestartClientService,
        ),
        first == JobKind::RestartMachine ==> operation_of(first) == Some(
            GrantOperation::RestartMachine,
        ),
        first == JobKind::CheckOsUpdates ==> operation_of(first) == Some(
            GrantOperation::CheckOsUpdates,
        ),
        first == JobKind::ApplyOsUpdates ==> operation_of(first) == Some(
            GrantOperation::ApplyOsUpdates,
        ),
        first == JobKind::UpdateClient ==> operation_of(first) == Some(
            GrantOperation::UpdateClient,
        ),
{
}

/// A job is accepted exactly if a grant is pending for it and that grant is for this
/// job, its operation, its delivery and its parameters. It then goes to the broker with
/// that grant and those parameters, the server is told that it runs and not how it
/// ends, and the grant is no longer pending.
pub proof fn granted_jobs_are_accepted(
    job: JobDelivery,
    before: Seq<SignedGrant>,
    after: Seq<SignedGrant>,
    result: Result<AcceptedJob, String>,
    i: int,
)
    requires
        job_handled(job, before, after, result),
        distinct(before),
        0 <= i < before.len(),
        uuid_value(job.id@) == Some(before[i].grant.job_or_session_id),
    ensures
        result is Ok <==> {
            &&& job.delivery_id@.len() > 0
            &&& job.kind is Some
            &&& operation_of(job.kind->0) == Some(before[i].grant.operation)
            &&& before[i].grant.nonce@ == job.delivery_id@
            &&& before[i].grant.parameters_sha256@ == hex_text(
                sha256_digest(job.parameters_json@),
            )
        },
        result matches Ok(accepted) ==> {
            &&& accepted.request.signed_grant == before[i]
            &&& accepted.request.parameters_json == job.parameters_json
            &&& accepted.job_id == job.id
            &&& accepted.delivery_id == job.delivery_id
            &&& accepted.started.job_id@ == job.id@
            &&& accepted.started.state == JobState::Running
            &&& accepted.started.sequence == 1
            &&& !accepted.started.terminal
            &&& !accepted.started.stderr
            &&& accepted.started.exit_code == 0
            &&& place(after, before[i].grant.job_or_session_id) is None
        },
{
    let id = before[i].grant.job_or_session_id;
    place_is_found(before, id, 0);
    let at = place(before, id)->0;
    if at != i {
        assert(before[at].grant.job_or_session_id != before[i].grant.job_or_session_id);
    }
    taken_grant_is_gone(before, id);
}

/// A job without a grant of its own is refused, and takes nothing from other jobs.
pub proof fn ungranted_jobs_are_refused(
    job: JobDelivery,
    before: Seq<SignedGrant>,
    after: Seq<SignedGrant>,
    result: Result<AcceptedJob, String>,
)
    requires
        job_handled(job, before, after, result),
        forall|i: int|
            0 <= i < before.len() ==> uuid_value(job.id@) != Some(
                (#[trigger] before[i]).grant.job_or_session_id,
            ),
    ensures
        result is Err,
        after == before,
{
    if uuid_value(job.id@) is Some {
        place_is_found(before, uuid_value(job.id@)->0, 0);
    }
}

/// A verified grant that is taken is the one that is pending for its job, in place of
/// an earlier one for it; grants that expired are gone; and there are never more than
/// so many.
pub proof fn verified_grants_become_pending(grants: Seq<SignedGrant>, grant: SignedGrant, now: int)
    requires
        distinct(grants),
        grants.len() <= 128,
    ensures
        ({
            let (after, taken) = grants_after(grants, grant, now);
            &&& after.len() <= 128
            &&& taken ==> after.len() > 0 && after.last() == grant
            &&& !taken ==> !after.contains(grant) || grants.contains(grant)
            &&& grants.len() < 128 ==> taken
            &&& forall|i: int|
                0 <= i < after.len() ==> (#[trigger] after[i]) == grant || (
                after[i].grant.expires_at@ > now && grants.contains(after[i]))
            &&& taken ==> forall|i: int|
                0 <= i < after.len() - 1 ==> (#[trigger] after[i]).grant.job_or_session_id
                    != grant.grant.job_or_session_id
        }),
{
    let live = grants.filter(live_at(now));
    let id = grant.grant.job_or_session_id;
    filter_keeps_distinct(grants, live_at(now));
    live_is_unexpired(grants, now);
    taken_grant_is_gone(live, id);
    place_is_found(live, id, 0);
    place_is_found(without_grant(live, id), id, 0);
    let (after, taken) = grants_after(grants, grant, now);
    assert forall|i: int| 0 <= i < after.len() implies (#[trigger] after[i]) == grant || (
    after[i].grant.expires_at@ > now && grants.contains(after[i])) by {
        if taken && i < after.len() - 1 {
            let rest = without_grant(live, id);
            assert(after[i] == rest[i]);
            assert(live.contains(rest[i]));
            let k = choose|k: int| 0 <= k < live.len() && live[k] == rest[i];
            assert(live[k] == after[i]);
        } else if !taken {
            assert(after[i] == live[i]);
        }
    }
}

proof fn live_is_unexpired(grants: Seq<SignedGrant>, now: int)
    ensures
        forall|k: int|
            0 <= k < grants.filter(live_at(now)).len() ==> (#[trigger] grants.filter(
                live_at(now),
            )[k]).grant.expires_at@ > now && grants.contains(grants.filter(live_at(now))[k]),
    decreases grants.len(),
{
    reveal(Seq::filter);
    if grants.len() > 0 {
        live_is_unexpired(grants.drop_last(), now);
        let before = grants.drop_last().filter(live_at(now));
        let after = grants.filter(live_at(now));
        assert forall|k: int| 0 <= k < after.len() implies (
        #[trigger] after[k]).grant.expires_at@ > now && grants.contains(after[k]) by {
            if k < before.len() {
                assert(after[k] == before[k]);
                let j = choose|j: int|
                    0 <= j < grants.drop_last().len() && grants.drop_last()[j] == before[k];
                assert(grants[j] == after[k]);
            } else {
                assert(grants[grants.len() - 1] == after[k]);
            }
        }
    }
}

/// A shell is connected only with the pending grant of its session, and only if that
/// grant is for the privilege that was asked for: a low grant never opens an elevated
/// shell. What goes to the broker is what the server asked for.
pub proof fn shells_open_only_as_granted(
    open: ShellOpen,
    ended: Seq<u128>,
    before: Seq<u128>,
    after: Seq<u128>,
    grants_before: Seq<SignedGrant>,
    grants_left: Seq<SignedGrant>,
    result: Result<ShellDecision, String>,
)
    requires
        shell_open_handled(open, ended, before, after, grants_before, grants_left, result),
        result matches Ok(ShellDecision::Connect { .. }),
    ensures
        ({
            let frame = result->Ok_0->Connect_frame;
            let id = result->Ok_0->Connect_session_id;
            &&& uuid_value(open.session_id@) == Some(id)
            &&& frame is Open
            &&& grants_before.contains(frame->grant)
            &&& frame->grant.grant.job_or_session_id == id
            &&& open.privilege == Some(SessionPrivilege::Low) <==> frame->grant.grant.operation
                == GrantOperation::OpenLowShell
            &&& open.privilege == Some(SessionPrivilege::Elevated)
                <==> frame->grant.grant.operation == GrantOperation::OpenElevatedShell
            &&& frame->Open_columns == open.columns && 1 <= open.columns <= 500
            &&& frame->Open_rows == open.rows && 1 <= open.rows <= 500
            &&& frame->account_user == open.account_user
            &&& frame->save_credentials == open.save_credentials
            &&& after.contains(id)
        }),
{
    let id = uuid_value(open.session_id@)->0;
    place_is_found(grants_before, id, 0);
    assert(after.last() == id);
}

/// A shell with a grant of its own, a usable size and a free place is connected.
pub proof fn granted_shells_are_opened(
    open: ShellOpen,
    ended: Seq<u128>,
    before: Seq<u128>,
    after: Seq<u128>,
    grants_before: Seq<SignedGrant>,
    grants_left: Seq<SignedGrant>,
    result: Result<ShellDecision, String>,
    i: int,
)
    requires
        shell_open_handled(open, ended, before, after, grants_before, grants_left, result),
        distinct(grants_before),
        0 <= i < grants_before.len(),
        uuid_value(open.session_id@) == Some(grants_before[i].grant.job_or_session_id),
        1 <= open.columns <= 500 && 1 <= open.rows <= 500,
        open.privilege is Some,
        grants_before[i].grant.operation == if open.privilege->0 == SessionPrivilege::Low {
            GrantOperation::OpenLowShell
        } else {
            GrantOperation::OpenElevatedShell
        },
        grants_before[i].grant.nonce@ == hyphenated(grants_before[i].grant.job_or_session_id),
        before.len() < 8,
    ensures
        result matches Ok(ShellDecision::Connect { .. }),
{
    let id = grants_before[i].grant.job_or_session_id;
    place_is_found(grants_before, id, 0);
    let at = place(grants_before, id)->0;
    if at != i {
        assert(grants_before[at].grant.job_or_session_id
            != grants_before[i].grant.job_or_session_id);
    }
}

/// What the server sends to a known session reaches that session of the broker, and
/// nothing reaches an unknown one: data as it is, a size as it is if it can be had, and
/// a close with its code, after which the session is known no longer.
pub proof fn known_sessions_are_relayed_to(
    sessions: Seq<u128>,
    after: Seq<u128>,
    session: Seq<char>,
    data: Seq<u8>,
    columns: u32,
    rows: u32,
    reason: Seq<char>,
    exit_code: i32,
    sent: Result<ShellDecision, String>,
    resized: Result<ShellDecision, String>,
    closed: Result<ShellDecision, String>,
)
    requires
        shell_data_handled(sessions, session, data, sent),
        shell_resize_handled(sessions, session, columns, rows, resized),
        shell_close_handled(sessions, after, session, reason, exit_code, closed),
        uuid_value(session) is Some,
        data.len() <= MAX_SESSION_WIRE_FRAME_BYTES,
        1 <= columns <= 500 && 1 <= rows <= 500,
    ensures
        ({
            let id = uuid_value(session)->0;
            if sessions.contains(id) {
                &&& sent matches Ok(ShellDecision::Relay {
                    session_id,
                    frame: SessionWireFrame::Data { data_base64 },
                }) && session_id == id && data_base64@ == base64_text(data)
                &&& resized matches Ok(ShellDecision::Relay {
                    session_id,
                    frame: SessionWireFrame::Resize { columns: c, rows: r },
                }) && session_id == id && c == columns && r == rows
                &&& closed matches Ok(ShellDecision::Relay {
                    session_id,
                    frame: SessionWireFrame::Close { reason: told, exit_code: code },
                }) && session_id == id && code == exit_code && (reason.len() > 0 ==> told@
                    == reason)
            } else {
                &&& sent matches Ok(ShellDecision::Ignore)
                &&& resized matches Ok(ShellDecision::Ignore)
                &&& closed matches Ok(ShellDecision::Ignore)
            }
        }),
        !after.contains(uuid_value(session)->0),
{
    super::broker_session::ended_session_holds_no_slot(sessions, uuid_value(session)->0);
}

/// A size that no terminal has is refused wherever it comes from, and so are data that
/// are too large for a known session.
pub proof fn unusable_frames_are_refused(
    sessions: Seq<u128>,
    session: Seq<char>,
    data: Seq<u8>,
    columns: u32,
    rows: u32,
    sent: Result<ShellDecision, String>,
    resized: Result<ShellDecision, String>,
)
    requires
        shell_data_handled(sessions, session, data, sent),
        shell_resize_handled(sessions, session, columns, rows, resized),
    ensures
        columns == 0 || rows == 0 || columns > 500 || rows > 500 ==> resized is Err,
        uuid_value(session) is None ==> sent is Err && resized is Err,
        uuid_value(session) is Some && sessions.contains(uuid_value(session)->0) && data.len()
            > MAX_SESSION_WIRE_FRAME_BYTES ==> sent is Err,
{
}

/// What the broker sends for a session reaches the server under that session, and the
/// session is closed, with a code that is not zero, exactly when the broker ends it or
/// can no longer be understood.
pub proof fn broker_frames_reach_their_session(
    session_id: u128,
    event: RelayEvent,
    action: RelayAction,
)
    requires
        relayed(session_id, event, action),
    ensures
        action matches RelayAction::Forward { session_id: to, data } ==> {
            &&& to@ == hyphenated(session_id)
            &&& event matches RelayEvent::Frame(SessionWireFrame::Data { data_base64 })
            &&& base64_bytes(data_base64@) == Some(data@)
        },
        action matches RelayAction::Close(close) ==> close.session_id@ == hyphenated(session_id)
            && close.exit_code != 0,
        (event matches RelayEvent::Frame(SessionWireFrame::Data { data_base64 }) && base64_bytes(
            data_base64@,
        ) is Some) ==> action is Forward,
        event is ReadFailed || event is Malformed ==> action is Close,
        event matches RelayEvent::Frame(SessionWireFrame::Close { reason, .. }) ==> (action matches
            RelayAction::Close(close) && close.reason@ == reason@),
        event matches RelayEvent::Frame(SessionWireFrame::Error { message }) ==> (action matches
            RelayAction::Close(close) && close.reason@ == message@),
        action is End <==> event is SendFailed,
{
}

} // verus!
