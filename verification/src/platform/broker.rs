//! The broker's gate: a signed grant opens it once.

use std::collections::{HashSet, VecDeque};

use vstd::prelude::*;

use crate::codec::{hex_encode, hex_text};
use crate::common::grant::{GrantError, GrantOperation, SignedGrant};
use crate::crypto::{sha256, sha256_digest, VerifyingKey};
use crate::instant::Timestamp;
use crate::text::same_text;

verus! {

broadcast use vstd::std_specs::hash::group_hash_axioms;

/// The most grants that are remembered at once.
pub const MAX_REPLAY_ENTRIES: usize = 4096;

pub const MAX_PARAMETERS_BYTES: usize = 64 * 1024;

pub const MAX_OUTPUT_BYTES: usize = 256 * 1024;

/// Hard bound for a single broker-wire request (the signed grant plus exact
/// parameter bytes).
pub const MAX_WIRE_REQUEST_BYTES: usize = 16 * 1024;

/// Hard bound for a single broker-wire response. Operation output is capped at
/// 64 KiB but JSON encoding of raw bytes expands roughly 4x, so the encoded
/// response bound is sized to fit the maximum legal encoded output.
pub const MAX_WIRE_RESPONSE_BYTES: usize = 384 * 1024;

#[derive(Debug)]
pub struct BrokerRequest {
    pub signed_grant: SignedGrant,
    pub parameters_json: Vec<u8>,
}

#[derive(Debug)]
pub struct BrokerResponse {
    pub success: bool,
    pub output: Vec<u8>,
    pub exit_code: i32,
}

/// What a response says.
pub struct ResponseModel {
    pub success: bool,
    pub output: Seq<u8>,
    pub exit_code: i32,
}

impl View for BrokerResponse {
    type V = ResponseModel;

    open spec fn view(&self) -> ResponseModel {
        ResponseModel { success: self.success, output: self.output@, exit_code: self.exit_code }
    }
}

impl Clone for BrokerResponse {
    fn clone(&self) -> (result: BrokerResponse)
        ensures
            result@ == self@,
    {
        let output = self.output.clone();
        assert(output@ =~= self.output@);
        BrokerResponse { success: self.success, output, exit_code: self.exit_code }
    }
}

/// Executes one allowlisted typed operation; on failure it gives the text of a
/// bounded operation error.
pub trait OperationRunner: Sized {
    /// Whether a run of an operation with parameter bytes may take the runner
    /// from `before` to `after` with an outcome. It is a name for what the
    /// runner did, so that contracts can say what it was handed; nothing is
    /// known of it.
    open spec fn ran(
        before: Self,
        operation: GrantOperation,
        parameters: Seq<u8>,
        after: Self,
        outcome: Result<BrokerResponse, String>,
    ) -> bool {
        true
    }

    fn run(&mut self, operation: &GrantOperation, parameters_json: &[u8]) -> (outcome: Result<
        BrokerResponse,
        String,
    >)
        ensures
            Self::ran(*old(self), *operation, parameters_json@, *final(self), outcome),
    ;
}

#[derive(Debug)]
pub enum BrokerError {
    InvalidGrant(GrantError),
    Replay,
    ParametersTooLarge,
    ParametersMismatch,
    Operation(String),
    OutputTooLarge,
    ReplaySetFull,
}

impl BrokerError {
    pub open spec fn message_spec(self) -> Seq<char> {
        match self {
            BrokerError::InvalidGrant(error) => error.message_spec(),
            BrokerError::Replay => "grant was already consumed"@,
            BrokerError::ParametersTooLarge => "operation parameters exceed the broker limit"@,
            BrokerError::ParametersMismatch =>
                "operation parameters do not match the signed grant"@,
            BrokerError::Operation(text) => "privileged operation failed: "@ + text@,
            BrokerError::OutputTooLarge =>
                "privileged operation output exceeded the broker limit"@,
            BrokerError::ReplaySetFull => "grant replay set is full of still-valid grants"@,
        }
    }

    pub fn message(&self) -> (result: String)
        ensures
            result@ == self.message_spec(),
    {
        match self {
            BrokerError::InvalidGrant(error) => error.message().to_owned(),
            BrokerError::Replay => "grant was already consumed".to_owned(),
            BrokerError::ParametersTooLarge =>
                "operation parameters exceed the broker limit".to_owned(),
            BrokerError::ParametersMismatch =>
                "operation parameters do not match the signed grant".to_owned(),
            BrokerError::Operation(text) => {
                let mut result: String = "privileged operation failed: ".to_owned();
                result.append(text);
                result
            },
            BrokerError::OutputTooLarge =>
                "privileged operation output exceeded the broker limit".to_owned(),
            BrokerError::ReplaySetFull =>
                "grant replay set is full of still-valid grants".to_owned(),
        }
    }
}

/// The consumed grants, in the order of their consumption, each with the time
/// at which it expires.
pub type Consumed = Seq<(u128, Timestamp)>;

/// Whether a grant is remembered as consumed.
pub open spec fn remembers(order: Consumed, id: u128) -> bool {
    exists|i: int| 0 <= i < order.len() && (#[trigger] order[i]).0 == id
}

/// `order` without the expired grants at its front. A grant is valid to the instant
/// at which it expires, so it is remembered to that instant too.
pub open spec fn pruned(order: Consumed, now: int) -> Consumed
    decreases order.len(),
{
    if order.len() > 0 && order[0].1@ < now {
        pruned(order.drop_first(), now)
    } else {
        order
    }
}

/// What consuming a valid grant answers and leaves behind.
pub open spec fn consumption(order: Consumed, id: u128, expires_at: Timestamp, now: int) -> (
    Consumed,
    Result<(), BrokerError>,
) {
    let live = pruned(order, now);
    if remembers(live, id) {
        (live, Err(BrokerError::Replay))
    } else if live.len() >= MAX_REPLAY_ENTRIES {
        (live, Err(BrokerError::ReplaySetFull))
    } else {
        (live.push((id, expires_at)), Ok(()))
    }
}

/// What is remembered once a grant that was consumed earlier is remembered again.
pub open spec fn restored(order: Consumed, id: u128, expires_at: Timestamp, now: int) -> Consumed {
    if expires_at@ < now || remembers(order, id) {
        order
    } else {
        order.push((id, expires_at))
    }
}

/// Verifies grants for one device and remembers the ones that it has seen.
#[derive(Debug)]
pub struct GrantVerifier {
    device_id: u128,
    signing_key: VerifyingKey,
    consumed: HashSet<u128>,
    order: VecDeque<(u128, Timestamp)>,
}

/// Whether no grant is listed twice.
pub open spec fn listed_once(order: Consumed) -> bool {
    forall|i: int, j: int| 0 <= i < j < order.len() ==> (#[trigger] order[i]).0 != (#[trigger] order[j]).0
}

impl View for GrantVerifier {
    type V = Consumed;

    closed spec fn view(&self) -> Consumed {
        self.order@
    }
}

impl GrantVerifier {
    /// The set holds exactly the listed grants, and each is listed once.
    pub closed spec fn wf(self) -> bool {
        &&& listed_once(self.order@)
        &&& forall|id: u128| #[trigger] self.consumed@.contains(id) <==> remembers(self.order@, id)
    }

    pub closed spec fn device(self) -> u128 {
        self.device_id
    }

    pub closed spec fn key(self) -> Seq<u8> {
        self.signing_key@
    }

    pub fn new(device_id: u128, signing_key: VerifyingKey) -> (result: GrantVerifier)
        ensures
            result.wf(),
            result@ == Seq::<(u128, Timestamp)>::empty(),
            result.device() == device_id,
            result.key() == signing_key@,
    {
        GrantVerifier { device_id, signing_key, consumed: HashSet::new(), order: VecDeque::new() }
    }

    /// Restores a previously persisted consumed grant into the in-memory set.
    pub fn restore(&mut self, grant_id: u128, expires_at: Timestamp, now: Timestamp)
        requires
            old(self).wf(),
        ensures
            final(self).wf(),
            final(self).device() == old(self).device(),
            final(self).key() == old(self).key(),
            final(self)@ == restored(old(self)@, grant_id, expires_at, now@),
    {
        if expires_at.before(&now) {
            return;
        }
        if self.consumed.insert(grant_id) {
            self.order.push_back((grant_id, expires_at));
            proof {
                remembers_push(old(self).order@, grant_id, expires_at);
            }
        }
    }

    fn prune_expired(&mut self, now: Timestamp)
        requires
            old(self).wf(),
        ensures
            final(self).wf(),
            final(self).device() == old(self).device(),
            final(self).key() == old(self).key(),
            final(self)@ == pruned(old(self)@, now@),
    {
        while self.order.len() > 0
            invariant_except_break
                pruned(self.order@, now@) == pruned(old(self)@, now@),
            invariant
                self.wf(),
                self.device() == old(self).device(),
                self.key() == old(self).key(),
            ensures
                self.order@ == pruned(old(self)@, now@),
            decreases self.order@.len(),
        {
            let front = self.order[0];
            if now.at_or_before(&front.1) {
                break;
            }
            let ghost before = self.order@;
            let _ = self.order.pop_front();
            self.consumed.remove(&front.0);
            proof {
                assert(self.order@ =~= before.drop_first());
                remembers_drop_first(before);
            }
        }
    }

    /// What verifying and consuming a grant answers and leaves behind.
    pub open spec fn outcome(self, grant: SignedGrant, now: int) -> (
        Consumed,
        Result<(), BrokerError>,
    ) {
        match grant.verdict(self.key(), self.device(), now) {
            Err(error) => (self@, Err(BrokerError::InvalidGrant(error))),
            Ok(_) => consumption(self@, grant.grant.id, grant.grant.expires_at, now),
        }
    }

    /// Verifies a broker grant and records its identifier against replay.
    pub fn verify_and_consume(&mut self, grant: &SignedGrant, now: Timestamp) -> (result: Result<
        (),
        BrokerError,
    >)
        requires
            old(self).wf(),
        ensures
            final(self).wf(),
            final(self).device() == old(self).device(),
            final(self).key() == old(self).key(),
            (final(self)@, result) == old(self).outcome(*grant, now@),
    {
        match grant.verify(&self.signing_key, self.device_id, now) {
            Ok(()) => {},
            Err(error) => return Err(BrokerError::InvalidGrant(error)),
        }
        self.prune_expired(now);
        let ghost live = self.order@;
        if !self.consumed.insert(grant.grant.id) {
            return Err(BrokerError::Replay);
        }
        if self.order.len() >= MAX_REPLAY_ENTRIES {
            self.consumed.remove(&grant.grant.id);
            return Err(BrokerError::ReplaySetFull);
        }
        self.order.push_back((grant.grant.id, grant.grant.expires_at));
        proof {
            remembers_push(live, grant.grant.id, grant.grant.expires_at);
        }
        Ok(())
    }

    /// What the grant and the parameter bytes together have to say.
    pub open spec fn authorization(self, request: BrokerRequest, now: int) -> Result<
        (),
        BrokerError,
    > {
        match self.outcome(request.signed_grant, now).1 {
            Err(error) => Err(error),
            Ok(_) => if request.parameters_json@.len() > MAX_PARAMETERS_BYTES {
                Err(BrokerError::ParametersTooLarge)
            } else if hex_text(sha256_digest(request.parameters_json@))
                != request.signed_grant.grant.parameters_sha256@ {
                Err(BrokerError::ParametersMismatch)
            } else {
                Ok(())
            },
        }
    }

    /// Verifies and consumes a grant and validates its exact parameter bytes.
    /// The grant is consumed even when the parameters are refused.
    pub fn authorize(&mut self, request: &BrokerRequest, now: Timestamp) -> (result: Result<
        (),
        BrokerError,
    >)
        requires
            old(self).wf(),
        ensures
            final(self).wf(),
            final(self).device() == old(self).device(),
            final(self).key() == old(self).key(),
            final(self)@ == old(self).outcome(request.signed_grant, now@).0,
            result == old(self).authorization(*request, now@),
    {
        match self.verify_and_consume(&request.signed_grant, now) {
            Ok(()) => {},
            Err(error) => return Err(error),
        }
        if request.parameters_json.len() > MAX_PARAMETERS_BYTES {
            return Err(BrokerError::ParametersTooLarge);
        }
        if !parameters_match(
            &request.parameters_json,
            &request.signed_grant.grant.parameters_sha256,
        ) {
            return Err(BrokerError::ParametersMismatch);
        }
        Ok(())
    }

    /// Verifies and consumes a grant, validates its exact parameter bytes, and
    /// dispatches only the typed operation carried by the signed grant. A
    /// refused request never reaches the runner.
    pub fn execute<R: OperationRunner>(
        &mut self,
        request: &BrokerRequest,
        now: Timestamp,
        runner: &mut R,
    ) -> (result: Result<BrokerResponse, BrokerError>)
        requires
            old(self).wf(),
        ensures
            final(self).wf(),
            final(self).device() == old(self).device(),
            final(self).key() == old(self).key(),
            final(self)@ == old(self).outcome(request.signed_grant, now@).0,
            match old(self).authorization(*request, now@) {
                Err(error) => result == Err::<BrokerResponse, BrokerError>(error) && *final(runner)
                    == *old(runner),
                Ok(_) => exists|outcome: Result<BrokerResponse, String>| #[trigger]
                    R::ran(
                        *old(runner),
                        request.signed_grant.grant.operation,
                        request.parameters_json@,
                        *final(runner),
                        outcome,
                    ) && result == settlement(outcome),
            },
    {
        match self.authorize(request, now) {
            Ok(()) => {},
            Err(error) => return Err(error),
        }
        let outcome = runner.run(&request.signed_grant.grant.operation, &request.parameters_json);
        settle(outcome)
    }
}

/// Whether parameter bytes have the digest that a grant names.
pub fn parameters_match(parameters_json: &Vec<u8>, parameters_sha256: &str) -> (result: bool)
    ensures
        result == (hex_text(sha256_digest(parameters_json@)) == parameters_sha256@),
{
    same_text(&hex_encode(&sha256(parameters_json)), parameters_sha256)
}

/// What becomes of a runner's outcome.
pub open spec fn settlement(outcome: Result<BrokerResponse, String>) -> Result<
    BrokerResponse,
    BrokerError,
> {
    match outcome {
        Err(text) => Err(BrokerError::Operation(text)),
        Ok(response) => if response.output@.len() > MAX_OUTPUT_BYTES {
            Err(BrokerError::OutputTooLarge)
        } else {
            Ok(response)
        },
    }
}

/// Bounds a runner's output and names its failure.
pub fn settle(outcome: Result<BrokerResponse, String>) -> (result: Result<
    BrokerResponse,
    BrokerError,
>)
    ensures
        result == settlement(outcome),
{
    match outcome {
        Err(text) => Err(BrokerError::Operation(text)),
        Ok(response) => if response.output.len() > MAX_OUTPUT_BYTES {
            Err(BrokerError::OutputTooLarge)
        } else {
            Ok(response)
        },
    }
}

proof fn remembers_push(order: Consumed, id: u128, expires_at: Timestamp)
    ensures
        forall|other: u128| #[trigger]
            remembers(order.push((id, expires_at)), other) <==> remembers(order, other) || other
                == id,
        listed_once(order) && !remembers(order, id) ==> listed_once(order.push((id, expires_at))),
{
    let longer = order.push((id, expires_at));
    assert(longer[order.len() as int].0 == id);
    assert forall|other: u128| #[trigger] remembers(longer, other) <==> remembers(order, other)
        || other == id by {
        if remembers(order, other) {
            let i = choose|i: int| 0 <= i < order.len() && (#[trigger] order[i]).0 == other;
            assert(longer[i].0 == other);
        }
        if remembers(longer, other) && other != id {
            let i = choose|i: int| 0 <= i < longer.len() && (#[trigger] longer[i]).0 == other;
            assert(order[i].0 == other);
        }
    }
}

proof fn remembers_drop_first(order: Consumed)
    requires
        order.len() > 0,
        listed_once(order),
    ensures
        listed_once(order.drop_first()),
        forall|other: u128| #[trigger]
            remembers(order.drop_first(), other) <==> remembers(order, other) && other
                != order[0].0,
{
    let rest = order.drop_first();
    assert forall|other: u128| #[trigger] remembers(rest, other) <==> remembers(order, other)
        && other != order[0].0 by {
        if remembers(order, other) && other != order[0].0 {
            let i = choose|i: int| 0 <= i < order.len() && (#[trigger] order[i]).0 == other;
            assert(rest[i - 1].0 == other);
        }
        if remembers(rest, other) {
            let i = choose|i: int| 0 <= i < rest.len() && (#[trigger] rest[i]).0 == other;
            assert(order[i + 1].0 == other);
        }
    }
}

/// Pruning never forgets a grant that has not expired.
pub proof fn pruning_keeps_unexpired(order: Consumed, now: int, i: int)
    requires
        0 <= i < order.len(),
        order[i].1@ >= now,
    ensures
        pruned(order, now).contains(order[i]),
    decreases order.len(),
{
    if order[0].1@ < now {
        assert(order.drop_first()[i - 1] == order[i]);
        pruning_keeps_unexpired(order.drop_first(), now, i - 1);
    }
}

/// A consumed grant that has not expired is refused as a replay.
pub proof fn unexpired_grant_is_not_consumed_twice(
    verifier: GrantVerifier,
    grant: SignedGrant,
    now: int,
    i: int,
)
    requires
        0 <= i < verifier@.len(),
        verifier@[i].0 == grant.grant.id,
        verifier@[i].1@ >= now,
    ensures
        verifier.outcome(grant, now).1 is Err,
        grant.verdict(verifier.key(), verifier.device(), now) is Ok ==> verifier.outcome(
            grant,
            now,
        ).1 == Err::<(), BrokerError>(BrokerError::Replay),
{
    pruning_keeps_unexpired(verifier@, now, i);
    let live = pruned(verifier@, now);
    let k = live.index_of(verifier@[i]);
    assert(live[k].0 == grant.grant.id);
}

/// The grants that are remembered after a series of attempts, each with a valid
/// grant's identifier, its expiry and the time of the attempt.
pub open spec fn after_attempts(order: Consumed, attempts: Seq<(u128, Timestamp, int)>) -> Consumed
    decreases attempts.len(),
{
    if attempts.len() == 0 {
        order
    } else {
        let last = attempts.last();
        consumption(after_attempts(order, attempts.drop_last()), last.0, last.1, last.2).0
    }
}

/// Whatever is attempted until a consumed grant expires, that instant included, it
/// stays consumed.
pub proof fn consumed_until_expiry(
    order: Consumed,
    entry: (u128, Timestamp),
    attempts: Seq<(u128, Timestamp, int)>,
)
    requires
        order.contains(entry),
        forall|i: int| 0 <= i < attempts.len() ==> (#[trigger] attempts[i]).2 <= entry.1@,
    ensures
        after_attempts(order, attempts).contains(entry),
    decreases attempts.len(),
{
    if attempts.len() > 0 {
        let before = attempts.drop_last();
        assert forall|i: int| 0 <= i < before.len() implies (#[trigger] before[i]).2
            <= entry.1@ by {
            assert(attempts[i] == before[i]);
        }
        consumed_until_expiry(order, entry, before);
        let earlier = after_attempts(order, before);
        let last = attempts.last();
        assert(attempts[attempts.len() - 1] == last);
        let i = earlier.index_of(entry);
        pruning_keeps_unexpired(earlier, last.2, i);
        let live = pruned(earlier, last.2);
        let k = live.index_of(entry);
        assert(live.push((last.0, last.1))[k] == entry);
    }
}

/// A grant is accepted at most once. Once it was consumed it is refused at every
/// later time, whatever was attempted in between.
pub proof fn grant_is_accepted_once(
    first: GrantVerifier,
    later: GrantVerifier,
    attempts: Seq<(u128, Timestamp, int)>,
    grant: SignedGrant,
    now: int,
)
    requires
        first@.contains((grant.grant.id, grant.grant.expires_at)),
        later@ == after_attempts(first@, attempts),
        forall|i: int| 0 <= i < attempts.len() ==> (#[trigger] attempts[i]).2 <= now,
    ensures
        later.outcome(grant, now).1 is Err,
{
    if grant.verdict(later.key(), later.device(), now) is Ok {
        let entry = (grant.grant.id, grant.grant.expires_at);
        consumed_until_expiry(first@, entry, attempts);
        let i = later@.index_of(entry);
        unexpired_grant_is_not_consumed_twice(later, grant, now, i);
    }
}

/// What pruning leaves is the end of what was remembered: what it drops expired before `now`, and
/// the first that stays has not.
pub proof fn pruning_drops_only_expired(order: Consumed, now: int) -> (dropped: int)
    ensures
        0 <= dropped <= order.len(),
        pruned(order, now) == order.subrange(dropped, order.len() as int),
        forall|i: int| 0 <= i < dropped ==> (#[trigger] order[i]).1@ < now,
        dropped < order.len() ==> order[dropped].1@ >= now,
    decreases order.len(),
{
    if order.len() > 0 && order[0].1@ < now {
        let rest = pruning_drops_only_expired(order.drop_first(), now);
        assert(pruned(order, now) =~= order.subrange(rest + 1, order.len() as int));
        assert forall|i: int| 0 <= i < rest + 1 implies (#[trigger] order[i]).1@ < now by {
            if i > 0 {
                assert(order.drop_first()[i - 1] == order[i]);
            }
        }
        if rest + 1 < order.len() {
            assert(order.drop_first()[rest] == order[rest + 1]);
        }
        rest + 1
    } else {
        assert(order.subrange(0, order.len() as int) =~= order);
        0
    }
}

/// A valid grant that is not remembered is taken as long as fewer than 4096 are remembered, and it
/// is remembered from then on until its own expiry.
pub proof fn fresh_grants_are_consumed(verifier: GrantVerifier, grant: SignedGrant, now: int)
    ensures
        verifier.outcome(grant, now).1 is Ok <==> {
            &&& grant.verdict(verifier.key(), verifier.device(), now) is Ok
            &&& !remembers(pruned(verifier@, now), grant.grant.id)
            &&& pruned(verifier@, now).len() < 4096
        },
        verifier.outcome(grant, now).1 is Ok ==> {
            &&& remembers(verifier.outcome(grant, now).0, grant.grant.id)
            &&& verifier.outcome(grant, now).0.last() == (grant.grant.id, grant.grant.expires_at)
            &&& verifier.outcome(grant, now).0.drop_last() == pruned(verifier@, now)
        },
{
    if verifier.outcome(grant, now).1 is Ok {
        let after = verifier.outcome(grant, now).0;
        assert(after[after.len() - 1].0 == grant.grant.id);
        assert(after.drop_last() =~= pruned(verifier@, now));
    }
}

/// A grant that does not verify leaves the memory as it was, and one that is refused for another
/// reason adds nothing to it.
pub proof fn refused_grants_are_not_remembered(
    verifier: GrantVerifier,
    grant: SignedGrant,
    now: int,
)
    requires
        verifier.outcome(grant, now).1 is Err,
    ensures
        grant.verdict(verifier.key(), verifier.device(), now) is Err ==> verifier.outcome(
            grant,
            now,
        ) == (
            verifier@,
            Err::<(), BrokerError>(
                BrokerError::InvalidGrant(
                    grant.verdict(verifier.key(), verifier.device(), now)->Err_0,
                ),
            ),
        ),
        grant.verdict(verifier.key(), verifier.device(), now) is Ok ==> verifier.outcome(
            grant,
            now,
        ).0 == pruned(verifier@, now),
        verifier.outcome(grant, now).1 == Err::<(), BrokerError>(BrokerError::Replay) ==> remembers(
            verifier@,
            grant.grant.id,
        ),
        verifier.outcome(grant, now).1 == Err::<(), BrokerError>(BrokerError::ReplaySetFull)
            ==> verifier@.len() >= 4096,
{
    let dropped = pruning_drops_only_expired(verifier@, now);
    let live = pruned(verifier@, now);
    if remembers(live, grant.grant.id) {
        let i = choose|i: int| 0 <= i < live.len() && (#[trigger] live[i]).0 == grant.grant.id;
        assert(verifier@[dropped + i] == live[i]);
    }
}

/// An operation is let through exactly if its grant is taken and covers its parameters: they hash
/// to what was signed, and hold at most 64 KiB.
pub proof fn operations_run_as_signed(verifier: GrantVerifier, request: BrokerRequest, now: int)
    ensures
        verifier.authorization(request, now) is Ok <==> {
            &&& verifier.outcome(request.signed_grant, now).1 is Ok
            &&& request.parameters_json@.len() <= 65536
            &&& hex_text(sha256_digest(request.parameters_json@))
                == request.signed_grant.grant.parameters_sha256@
        },
        verifier.authorization(request, now) == Err::<(), BrokerError>(
            BrokerError::ParametersTooLarge,
        ) ==> request.parameters_json@.len() > 65536,
        verifier.authorization(request, now) == Err::<(), BrokerError>(
            BrokerError::ParametersMismatch,
        ) ==> hex_text(sha256_digest(request.parameters_json@))
            != request.signed_grant.grant.parameters_sha256@,
{
}

/// What an operation answered is handed on as it came if it holds at most 256 KiB of output; what
/// went wrong is told.
pub proof fn answers_are_handed_on(outcome: Result<BrokerResponse, String>)
    ensures
        settlement(outcome) is Ok <==> outcome is Ok && outcome->Ok_0.output@.len() <= 262144,
        settlement(outcome) is Ok ==> settlement(outcome)->Ok_0 == outcome->Ok_0,
        settlement(outcome) == Err::<BrokerResponse, BrokerError>(BrokerError::OutputTooLarge)
            <==> outcome is Ok && outcome->Ok_0.output@.len() > 262144,
        outcome is Err ==> settlement(outcome)->Err_0 == BrokerError::Operation(outcome->Err_0),
{
}

/// A grant that was consumed before a restart is remembered after it until it expires, and nothing
/// else that was remembered is lost.
pub proof fn restored_grants_are_remembered(
    order: Consumed,
    id: u128,
    expires_at: Timestamp,
    now: int,
    other: u128,
)
    ensures
        expires_at@ >= now ==> remembers(restored(order, id, expires_at, now), id),
        remembers(order, other) ==> remembers(restored(order, id, expires_at, now), other),
        remembers(restored(order, id, expires_at, now), other) ==> remembers(order, other) || other
            == id,
        expires_at@ < now ==> restored(order, id, expires_at, now) == order,
{
    remembers_push(order, id, expires_at);
}

} // verus!
