//! The one-paste enrollment wizard, step by step: from the access key to an
//! identity that the server activated.
//!
//! The invitation itself supplies the server TLS name, ports, and root CA. A
//! server address override changes only where the TCP connection is made; TLS
//! still verifies the name embedded in the invitation.

use vstd::prelude::*;

use crate::common::enrollment::{
    opened, parse_enrollment_invitation, EnrollmentInvitationClaims,
};
use crate::instant::Timestamp;
use crate::text::optional_view;

use super::daemon::{generation_fault, GenerationPlan};
use super::enrollment::{
    accept_invitation, access_key, asks_for_server, choose_server, chosen_server,
    enrollment_basis, enrollment_basis_of, hostname_of, invitation_fault, local_hostname,
    normalize_access_key, normalized_architecture, normalized_os, plan_enrollment,
    plans_enrollment, response_fault, service_endpoint, service_origin, ActiveIdentity,
    EnrollmentResponse,
};
use super::publication::{
    known_cause, outcome_view, publication_next, CredentialPublication, PublicationAction, PublicationPhase,
    Purpose,
};

verus! {

/// Where the enrollment and the client service of a server are.
#[derive(Debug)]
pub struct Endpoints {
    pub enrollment: String,
    pub client: String,
}

/// How far an enrollment is.
#[derive(Debug)]
pub enum EnrollmentStage {
    /// The access key is read.
    Key,
    /// Its payload is decoded.
    Claims { token: String },
    /// The server is asked for.
    Server { token: String, claims: EnrollmentInvitationClaims },
    /// The client's state is prepared.
    State { token: String, claims: EnrollmentInvitationClaims, endpoints: Endpoints },
    /// The server is connected to.
    Connection {
        token: String,
        claims: EnrollmentInvitationClaims,
        client_endpoint: String,
        hostname: String,
        previous: Option<u128>,
    },
    /// The server is asked for an identity.
    Response {
        claims: EnrollmentInvitationClaims,
        client_endpoint: String,
        previous: Option<u128>,
    },
    /// The identity is persisted, published and activated.
    Publishing { plan: GenerationPlan, publication: CredentialPublication },
    Ended,
}

/// What happens in an enrollment.
#[derive(Debug)]
pub enum EnrollmentEvent {
    /// What was typed or read as the access key, or why there is nothing.
    KeyRead(Result<String, String>),
    /// What the payload reads as, at a moment.
    Decoded { claims: Option<EnrollmentInvitationClaims>, now: Timestamp },
    /// What was typed as the server.
    ServerTyped(String),
    /// The state lock is held and the state prepared: what the machine is called,
    /// whether a publication is pending, and what is active.
    Prepared { hostname: Option<String>, pending: bool, active: ActiveIdentity },
    /// The server is connected to: what the machine runs on.
    Connected { os: String, architecture: String },
    /// The server's answer, with the number of the new generation.
    Answered { response: EnrollmentResponse, generation_id: u128 },
    /// What came of a step of the publication.
    Outcome(Result<(), String>),
    /// Something else failed.
    Failed(String),
}

/// What an enrollment does next.
#[derive(Debug)]
pub enum EnrollmentAction {
    /// Decodes the claims in a payload.
    Decode(Vec<u8>),
    /// Asks for the server, with a default.
    AskServer(String),
    /// Takes the state lock and prepares the client's state.
    Prepare,
    /// Makes a key and a request for an identity of some name, and connects to the
    /// server. The connection trusts the invitation's root for the invitation's
    /// name.
    Connect { endpoint: String, server_name: String, root_ca_pem: String, common_name: String },
    /// Asks the server for an identity, over that connection.
    Enroll {
        token: String,
        hostname: String,
        os: &'static str,
        architecture: &'static str,
    },
    /// Persists the planned generation.
    Persist,
    /// Takes a step of the publication.
    Publication(PublicationAction),
    /// Ends: the configuration is at this path, or this is what failed.
    Done(Result<String, String>),
}

pub open spec fn ends(stage: EnrollmentStage, action: EnrollmentAction, text: Seq<char>) -> bool {
    &&& stage is Ended
    &&& action matches EnrollmentAction::Done(Err(error))
    &&& error@ == text
}

/// Whether an enrollment goes on to prepare the client's state with a server, or
/// ends because of it.
pub open spec fn goes_to(
    token: String,
    claims: EnrollmentInvitationClaims,
    server: Result<Seq<char>, Seq<char>>,
    stage: EnrollmentStage,
    action: EnrollmentAction,
) -> bool {
    match server {
        Err(text) => ends(stage, action, text),
        Ok(name) => match service_origin(name, claims.enrollment_port) {
            Err(text) => ends(stage, action, text),
            Ok(enrollment) => match service_origin(name, claims.client_port) {
                Err(text) => ends(stage, action, text),
                Ok(client) => {
                    &&& stage matches EnrollmentStage::State {
                        token: kept,
                        claims: same,
                        endpoints,
                    }
                    &&& kept == token
                    &&& same == claims
                    &&& endpoints.enrollment@ == enrollment
                    &&& endpoints.client@ == client
                    &&& action is Prepare
                },
            },
        },
    }
}

/// Whether the server is connected to as it should be.
pub open spec fn connects(
    claims: EnrollmentInvitationClaims,
    endpoints: Endpoints,
    action: EnrollmentAction,
) -> bool {
    &&& action matches EnrollmentAction::Connect {
        endpoint,
        server_name,
        root_ca_pem,
        common_name,
    }
    &&& endpoint == endpoints.enrollment
    &&& server_name == claims.server_name
    &&& root_ca_pem == claims.root_ca_pem
    &&& common_name == claims.name
}

/// Whether an enrollment goes on to connect to the server.
pub open spec fn awaits_connection(
    token: String,
    claims: EnrollmentInvitationClaims,
    endpoints: Endpoints,
    name: Seq<char>,
    basis: Option<u128>,
    stage: EnrollmentStage,
) -> bool {
    &&& stage matches EnrollmentStage::Connection {
        token: kept,
        claims: same,
        client_endpoint,
        hostname,
        previous,
    }
    &&& kept == token
    &&& same == claims
    &&& client_endpoint == endpoints.client
    &&& hostname@ == name
    &&& previous == basis
}

/// Whether the server is asked for an identity as it should be.
pub open spec fn asks(
    token: String,
    name: String,
    system: Seq<char>,
    machine: Seq<char>,
    action: EnrollmentAction,
) -> bool {
    &&& action matches EnrollmentAction::Enroll { token: key, hostname, os, architecture }
    &&& key == token
    &&& hostname == name
    &&& os@ == system
    &&& architecture@ == machine
}

/// Whether the server's answer leads to a generation that is persisted, or to an
/// end because of what is wrong with it.
pub open spec fn answer_handled(
    claims: EnrollmentInvitationClaims,
    client_endpoint: String,
    previous: Option<u128>,
    response: EnrollmentResponse,
    generation_id: u128,
    stage: EnrollmentStage,
    action: EnrollmentAction,
) -> bool {
    match response_fault(response) {
        Some(text) => ends(stage, action, text),
        None => exists|plan: GenerationPlan|
            #[trigger] plans_enrollment(
                plan,
                claims,
                client_endpoint@,
                response,
                generation_id,
            ) && plan_handled(plan, previous, stage, action),
    }
}

/// Whether a planned generation is persisted, or refused because of what is
/// wrong with it.
pub open spec fn plan_handled(
    plan: GenerationPlan,
    previous: Option<u128>,
    stage: EnrollmentStage,
    action: EnrollmentAction,
) -> bool {
    match generation_fault(plan) {
        Some(text) => ends(stage, action, text),
        None => {
            &&& action is Persist
            &&& stage matches EnrollmentStage::Publishing { plan: planned, publication }
            &&& planned == plan
            &&& publication@ == (
                Purpose::Enrollment { identity_id: plan.config.identity_id, previous },
                PublicationPhase::Persisting,
                Seq::<char>::empty(),
            )
        },
    }
}

pub open spec fn supported_os(os: Seq<char>) -> bool {
    os == "linux"@ || os == "windows"@
}

pub open spec fn supported_architecture(architecture: Seq<char>) -> bool {
    architecture == "x86_64"@ || architecture == "aarch64"@
}

/// Whether a stage and an action are what an event in a stage of an enrollment
/// calls for.
pub open spec fn enrollment_step(
    run: EnrollmentRun,
    before: EnrollmentStage,
    event: EnrollmentEvent,
    after: EnrollmentStage,
    action: EnrollmentAction,
) -> bool {
    match (before, event) {
        (_, EnrollmentEvent::Failed(text)) => ends(after, action, text@),
        (EnrollmentStage::Key, EnrollmentEvent::KeyRead(Err(text))) => ends(after, action, text@),
        (EnrollmentStage::Key, EnrollmentEvent::KeyRead(Ok(value))) => match access_key(
            value@,
            "Access key"@,
        ) {
            Err(text) => ends(after, action, text),
            Ok(key) => match opened(key) {
                Err(_) => ends(after, action, "invalid CentralD access key"@),
                Ok(payload) => {
                    &&& after matches EnrollmentStage::Claims { token }
                    &&& token@ == key
                    &&& action matches EnrollmentAction::Decode(bytes)
                    &&& bytes@ == payload
                },
            },
        },
        (EnrollmentStage::Claims { token }, EnrollmentEvent::Decoded { claims, now }) => {
            match invitation_fault(claims, now) {
                Some(text) => ends(after, action, text),
                None => if run.server is None && !run.automated {
                    &&& after == (EnrollmentStage::Server { token, claims: claims->0 })
                    &&& action matches EnrollmentAction::AskServer(default)
                    &&& default@ == claims->0.server_name@
                } else {
                    goes_to(
                        token,
                        claims->0,
                        chosen_server(
                            run.automated,
                            optional_view(run.server),
                            ""@,
                            claims->0.server_name@,
                        ),
                        after,
                        action,
                    )
                },
            }
        },
        (EnrollmentStage::Server { token, claims }, EnrollmentEvent::ServerTyped(typed)) => goes_to(
            token,
            claims,
            chosen_server(
                run.automated,
                optional_view(run.server),
                typed@,
                claims.server_name@,
            ),
            after,
            action,
        ),
        (
            EnrollmentStage::State { token, claims, endpoints },
            EnrollmentEvent::Prepared { hostname, pending, active },
        ) => match hostname_of(optional_view(hostname)) {
            Err(text) => ends(after, action, text),
            Ok(name) => match enrollment_basis_of(run.reenroll, pending, active) {
                Err(text) => ends(after, action, text),
                Ok(basis) => {
                    &&& awaits_connection(token, claims, endpoints, name, basis, after)
                    &&& connects(claims, endpoints, action)
                },
            },
        },
        (
            EnrollmentStage::Connection { token, claims, client_endpoint, hostname, previous },
            EnrollmentEvent::Connected { os, architecture },
        ) => if !supported_os(os@) {
            ends(after, action, "unsupported client operating system: "@ + os@)
        } else if !supported_architecture(architecture@) {
            ends(after, action, "unsupported client architecture: "@ + architecture@)
        } else {
            &&& after == (EnrollmentStage::Response { claims, client_endpoint, previous })
            &&& asks(token, hostname, os@, architecture@, action)
        },
        (
            EnrollmentStage::Response { claims, client_endpoint, previous },
            EnrollmentEvent::Answered { response, generation_id },
        ) => answer_handled(
            claims,
            client_endpoint,
            previous,
            response,
            generation_id,
            after,
            action,
        ),
        (
            EnrollmentStage::Publishing { plan, publication },
            EnrollmentEvent::Outcome(outcome),
        ) => {
            let (phase, next) = publication_next(
                publication.purpose,
                publication.phase,
                publication.cause@,
                outcome_view(outcome),
            );
            if next is Succeed {
                &&& after is Ended
                &&& action matches EnrollmentAction::Done(Ok(path))
                &&& path == plan.config_path
            } else {
                &&& after matches EnrollmentStage::Publishing { plan: kept, publication: later }
                &&& kept == plan
                &&& later@ == (
                    publication.purpose,
                    phase,
                    known_cause(publication.phase, publication.cause@, outcome_view(outcome)),
                )
                &&& action matches EnrollmentAction::Publication(step)
                &&& step@ == next
            }
        },
        _ => ends(after, action, "enrollment event is out of order"@),
    }
}

/// An enrollment of the client.
#[derive(Debug)]
pub struct EnrollmentRun {
    pub reenroll: bool,
    /// Whether the access key comes from a file or from standard input.
    pub automated: bool,
    pub server: Option<String>,
    pub stage: EnrollmentStage,
}

fn finish(text: String) -> (result: (EnrollmentStage, EnrollmentAction))
    ensures
        ends(result.0, result.1, text@),
{
    (EnrollmentStage::Ended, EnrollmentAction::Done(Err(text)))
}

fn go_to(token: String, claims: EnrollmentInvitationClaims, server: Result<String, String>) -> (
    result: (EnrollmentStage, EnrollmentAction))
    ensures
        goes_to(
            token,
            claims,
            match server {
                Ok(name) => Ok(name@),
                Err(text) => Err(text@),
            },
            result.0,
            result.1,
        ),
{
    let name = match server {
        Ok(name) => name,
        Err(text) => return finish(text),
    };
    let enrollment = match service_endpoint(&name, claims.enrollment_port) {
        Ok(endpoint) => endpoint,
        Err(text) => return finish(text),
    };
    let client = match service_endpoint(&name, claims.client_port) {
        Ok(endpoint) => endpoint,
        Err(text) => return finish(text),
    };
    (
        EnrollmentStage::State { token, claims, endpoints: Endpoints { enrollment, client } },
        EnrollmentAction::Prepare,
    )
}

impl EnrollmentRun {
    pub fn new(reenroll: bool, automated: bool, server: Option<String>) -> (result: EnrollmentRun)
        ensures
            result.reenroll == reenroll,
            result.automated == automated,
            result.server == server,
            result.stage is Key,
    {
        EnrollmentRun { reenroll, automated, server, stage: EnrollmentStage::Key }
    }

    fn key_read(&self, value: String) -> (result: (EnrollmentStage, EnrollmentAction))
        ensures
            enrollment_step(
                *self,
                EnrollmentStage::Key,
                EnrollmentEvent::KeyRead(Ok(value)),
                result.0,
                result.1,
            ),
    {
        let token = match normalize_access_key(&value, "Access key") {
            Ok(token) => token,
            Err(text) => return finish(text),
        };
        match parse_enrollment_invitation(&token) {
            Ok(payload) => (EnrollmentStage::Claims { token }, EnrollmentAction::Decode(payload)),
            Err(_) => finish("invalid CentralD access key".to_owned()),
        }
    }

    fn decoded(&self, token: String, claims: Option<EnrollmentInvitationClaims>, now: Timestamp) -> (
        result: (EnrollmentStage, EnrollmentAction))
        ensures
            enrollment_step(
                *self,
                EnrollmentStage::Claims { token },
                EnrollmentEvent::Decoded { claims, now },
                result.0,
                result.1,
            ),
    {
        let claims = match accept_invitation(claims, &now) {
            Ok(claims) => claims,
            Err(text) => return finish(text),
        };
        if asks_for_server(self.automated, &self.server) {
            let default = claims.server_name.clone();
            return (
                EnrollmentStage::Server { token, claims },
                EnrollmentAction::AskServer(default),
            );
        }
        let server = choose_server(self.automated, &self.server, "", &claims.server_name);
        go_to(token, claims, server)
    }

    fn prepared(
        &self,
        token: String,
        claims: EnrollmentInvitationClaims,
        endpoints: Endpoints,
        hostname: Option<String>,
        pending: bool,
        active: ActiveIdentity,
    ) -> (result: (EnrollmentStage, EnrollmentAction))
        ensures
            enrollment_step(
                *self,
                EnrollmentStage::State { token, claims, endpoints },
                EnrollmentEvent::Prepared { hostname, pending, active },
                result.0,
                result.1,
            ),
    {
        let name = match local_hostname(&hostname) {
            Ok(name) => name,
            Err(text) => return finish(text),
        };
        let previous = match enrollment_basis(self.reenroll, pending, active) {
            Ok(previous) => previous,
            Err(text) => return finish(text),
        };
        let action = EnrollmentAction::Connect {
            endpoint: endpoints.enrollment,
            server_name: claims.server_name.clone(),
            root_ca_pem: claims.root_ca_pem.clone(),
            common_name: claims.name.clone(),
        };
        (
            EnrollmentStage::Connection {
                token,
                claims,
                client_endpoint: endpoints.client,
                hostname: name,
                previous,
            },
            action,
        )
    }

    fn connected(
        &self,
        token: String,
        claims: EnrollmentInvitationClaims,
        client_endpoint: String,
        hostname: String,
        previous: Option<u128>,
        os: String,
        architecture: String,
    ) -> (result: (EnrollmentStage, EnrollmentAction))
        ensures
            enrollment_step(
                *self,
                EnrollmentStage::Connection { token, claims, client_endpoint, hostname, previous },
                EnrollmentEvent::Connected { os, architecture },
                result.0,
                result.1,
            ),
    {
        let system = match normalized_os(&os) {
            Ok(system) => system,
            Err(text) => return finish(text),
        };
        let machine = match normalized_architecture(&architecture) {
            Ok(machine) => machine,
            Err(text) => return finish(text),
        };
        (
            EnrollmentStage::Response { claims, client_endpoint, previous },
            EnrollmentAction::Enroll { token, hostname, os: system, architecture: machine },
        )
    }

    fn answered(
        &self,
        claims: EnrollmentInvitationClaims,
        client_endpoint: String,
        previous: Option<u128>,
        response: EnrollmentResponse,
        generation_id: u128,
    ) -> (result: (EnrollmentStage, EnrollmentAction))
        ensures
            answer_handled(
                claims,
                client_endpoint,
                previous,
                response,
                generation_id,
                result.0,
                result.1,
            ),
    {
        match plan_enrollment(&claims, &client_endpoint, &response, generation_id) {
            Ok(plan) => {
                let publication = CredentialPublication::new(
                    Purpose::Enrollment { identity_id: plan.config.identity_id, previous },
                );
                (EnrollmentStage::Publishing { plan, publication }, EnrollmentAction::Persist)
            },
            Err(text) => finish(text),
        }
    }

    fn publish(&self, plan: GenerationPlan, publication: CredentialPublication, outcome: Result<
        (),
        String,
    >) -> (result: (EnrollmentStage, EnrollmentAction))
        ensures
            enrollment_step(
                *self,
                EnrollmentStage::Publishing { plan, publication },
                EnrollmentEvent::Outcome(outcome),
                result.0,
                result.1,
            ),
    {
        let mut publication = publication;
        let step = publication.step(outcome);
        if matches!(step, PublicationAction::Succeed) {
            return (EnrollmentStage::Ended, EnrollmentAction::Done(Ok(plan.config_path)));
        }
        (
            EnrollmentStage::Publishing { plan, publication },
            EnrollmentAction::Publication(step),
        )
    }

    /// Takes the next step of an enrollment.
    pub fn step(&mut self, event: EnrollmentEvent) -> (action: EnrollmentAction)
        ensures
            final(self).reenroll == old(self).reenroll,
            final(self).automated == old(self).automated,
            final(self).server == old(self).server,
            enrollment_step(*old(self), old(self).stage, event, final(self).stage, action),
    {
        let mut stage = EnrollmentStage::Ended;
        core::mem::swap(&mut self.stage, &mut stage);
        let (next, action) = match event {
            EnrollmentEvent::Failed(text) => finish(text),
            EnrollmentEvent::KeyRead(read) => match stage {
                EnrollmentStage::Key => match read {
                    Ok(value) => self.key_read(value),
                    Err(text) => finish(text),
                },
                _ => finish("enrollment event is out of order".to_owned()),
            },
            EnrollmentEvent::Decoded { claims, now } => match stage {
                EnrollmentStage::Claims { token } => self.decoded(token, claims, now),
                _ => finish("enrollment event is out of order".to_owned()),
            },
            EnrollmentEvent::ServerTyped(typed) => match stage {
                EnrollmentStage::Server { token, claims } => {
                    let server = choose_server(
                        self.automated,
                        &self.server,
                        &typed,
                        &claims.server_name,
                    );
                    go_to(token, claims, server)
                },
                _ => finish("enrollment event is out of order".to_owned()),
            },
            EnrollmentEvent::Prepared { hostname, pending, active } => match stage {
                EnrollmentStage::State { token, claims, endpoints } => self.prepared(
                    token,
                    claims,
                    endpoints,
                    hostname,
                    pending,
                    active,
                ),
                _ => finish("enrollment event is out of order".to_owned()),
            },
            EnrollmentEvent::Connected { os, architecture } => match stage {
                EnrollmentStage::Connection {
                    token,
                    claims,
                    client_endpoint,
                    hostname,
                    previous,
                } => self.connected(
                    token,
                    claims,
                    client_endpoint,
                    hostname,
                    previous,
                    os,
                    architecture,
                ),
                _ => finish("enrollment event is out of order".to_owned()),
            },
            EnrollmentEvent::Answered { response, generation_id } => match stage {
                EnrollmentStage::Response { claims, client_endpoint, previous } => self.answered(
                    claims,
                    client_endpoint,
                    previous,
                    response,
                    generation_id,
                ),
                _ => finish("enrollment event is out of order".to_owned()),
            },
            EnrollmentEvent::Outcome(outcome) => match stage {
                EnrollmentStage::Publishing { plan, publication } => self.publish(
                    plan,
                    publication,
                    outcome,
                ),
                _ => finish("enrollment event is out of order".to_owned()),
            },
        };
        self.stage = next;
        action
    }
}

/// The one-time invitation is only spent over a connection, and that is only made
/// once the client's state is prepared, no publication is pending and an enrollment
/// is allowed.
pub proof fn invitation_is_spent_only_when_ready(
    run: EnrollmentRun,
    before: EnrollmentStage,
    event: EnrollmentEvent,
    after: EnrollmentStage,
    action: EnrollmentAction,
)
    requires
        enrollment_step(run, before, event, after, action),
    ensures
        action is Enroll ==> before is Connection && event is Connected,
        action is Connect || after is Connection ==> {
            &&& before is State
            &&& event matches EnrollmentEvent::Prepared { pending, active, .. }
            &&& !pending
            &&& enrollment_basis_of(run.reenroll, pending, active) is Ok
        },
{
}

/// A server override changes only where the connection is made: whatever server
/// was chosen, the name that TLS verifies and the root that it trusts are those
/// of the invitation.
pub proof fn override_changes_only_the_destination(
    run: EnrollmentRun,
    before: EnrollmentStage,
    event: EnrollmentEvent,
    after: EnrollmentStage,
    action: EnrollmentAction,
)
    requires
        enrollment_step(run, before, event, after, action),
        action is Connect,
    ensures
        before matches EnrollmentStage::State { claims, .. } && action->server_name
            == claims.server_name && action->root_ca_pem == claims.root_ca_pem
            && action->common_name == claims.name,
{
}

/// An unattended enrollment never stops to ask for the server.
pub proof fn unattended_enrollment_asks_nothing(
    run: EnrollmentRun,
    before: EnrollmentStage,
    event: EnrollmentEvent,
    after: EnrollmentStage,
    action: EnrollmentAction,
)
    requires
        enrollment_step(run, before, event, after, action),
        run.automated,
    ensures
        !(action is AskServer),
{
}

/// An enrollment with an override connects there: the services that it goes on with
/// are those of the override's host, at the ports of the invitation, whoever attends
/// it.
pub proof fn override_is_connected_to(
    run: EnrollmentRun,
    token: String,
    claims: EnrollmentInvitationClaims,
    now: Timestamp,
    after: EnrollmentStage,
    action: EnrollmentAction,
)
    requires
        run.server is Some,
        crate::text::trim(run.server->0@).len() > 0,
        crate::common::host::canonical(crate::text::trim(run.server->0@)) is Some,
        claims.valid(),
        claims.role == crate::common::enrollment::EnrollmentRole::Client,
        now@ < claims.expires_at@,
        enrollment_step(
            run,
            EnrollmentStage::Claims { token },
            EnrollmentEvent::Decoded { claims: Some(claims), now },
            after,
            action,
        ),
    ensures
        ({
            let host = crate::common::host::canonical(crate::text::trim(run.server->0@))->0;
            &&& action is Prepare
            &&& after matches EnrollmentStage::State { token: kept, claims: same, endpoints }
            &&& kept == token
            &&& same == claims
            &&& endpoints.enrollment@ == crate::common::host::origin(host, claims.enrollment_port)
            &&& endpoints.client@ == crate::common::host::origin(host, claims.client_port)
        }),
{
}

/// An enrollment without an override asks for the server if it is attended, with the
/// invitation's own as the default, and goes there unasked if it is not.
pub proof fn invitation_names_the_destination(
    run: EnrollmentRun,
    token: String,
    claims: EnrollmentInvitationClaims,
    now: Timestamp,
    after: EnrollmentStage,
    action: EnrollmentAction,
)
    requires
        run.server is None,
        crate::common::host::canonical(claims.server_name@) is Some,
        claims.valid(),
        claims.role == crate::common::enrollment::EnrollmentRole::Client,
        now@ < claims.expires_at@,
        enrollment_step(
            run,
            EnrollmentStage::Claims { token },
            EnrollmentEvent::Decoded { claims: Some(claims), now },
            after,
            action,
        ),
    ensures
        !run.automated ==> (action matches EnrollmentAction::AskServer(default) && default@
            == claims.server_name@),
        run.automated ==> (after matches EnrollmentStage::State { endpoints, .. }
            && endpoints.enrollment@ == crate::common::host::origin(
            crate::common::host::canonical(claims.server_name@)->0,
            claims.enrollment_port,
        )),
{
}

/// The key that is spent is the one that was given: from the key that is read on, the
/// same token is kept, and it is that token that goes to the server, once, with the
/// name of the machine and what it runs on as they were told.
pub proof fn the_given_key_is_spent(
    run: EnrollmentRun,
    before: EnrollmentStage,
    event: EnrollmentEvent,
    after: EnrollmentStage,
    action: EnrollmentAction,
)
    requires
        enrollment_step(run, before, event, after, action),
    ensures
        action matches EnrollmentAction::Enroll { token, hostname, os, architecture } ==> {
            &&& before matches EnrollmentStage::Connection { token: kept, hostname: name, .. }
            &&& kept == token
            &&& name == hostname
            &&& event matches EnrollmentEvent::Connected { os: system, architecture: machine }
            &&& system@ == os@
            &&& machine@ == architecture@
        },
        after matches EnrollmentStage::Claims { token } ==> {
            &&& event matches EnrollmentEvent::KeyRead(Ok(value))
            &&& token@ == crate::text::trim(value@)
        },
        after matches EnrollmentStage::Connection { token, .. } ==> {
            &&& before matches EnrollmentStage::State { token: kept, .. }
            &&& kept == token
        },
        action is Done ==> after is Ended,
        action matches EnrollmentAction::Done(Ok(path)) ==> {
            &&& before matches EnrollmentStage::Publishing { plan, publication }
            &&& path == plan.config_path
            &&& event matches EnrollmentEvent::Outcome(Ok(_))
        },
{
}

/// A supported machine that is connected asks for its identity, and nothing else is
/// asked of the server.
pub proof fn supported_machines_are_enrolled(
    run: EnrollmentRun,
    before: EnrollmentStage,
    os: String,
    architecture: String,
    after: EnrollmentStage,
    action: EnrollmentAction,
)
    requires
        before is Connection,
        enrollment_step(
            run,
            before,
            EnrollmentEvent::Connected { os, architecture },
            after,
            action,
        ),
    ensures
        (os@ == "linux"@ || os@ == "windows"@) && (architecture@ == "x86_64"@ || architecture@
            == "aarch64"@) <==> action is Enroll,
        action is Enroll ==> after is Response && after->Response_previous
            == before->Connection_previous && after->Response_client_endpoint
            == before->Connection_client_endpoint && after->Response_claims
            == before->Connection_claims,
{
}

} // verus!
