//! How a new generation of the client's credentials becomes the active one: it is
//! persisted, published, proved to the server, and only then finalized. Whatever
//! fails before that is undone.

use vstd::prelude::*;

use crate::ident::{hyphenated, id_text};
use crate::text::{caused, concat, with_cause};

verus! {

/// What a generation is for.
#[derive(Debug, Clone, Copy, PartialEq, Eq, Structural)]
pub enum Purpose {
    /// A first or another enrollment, which may replace another identity.
    Enrollment { identity_id: u128, previous: Option<u128> },
    /// A renewed certificate of the same identity.
    Renewal,
}

/// How far the publication of a generation is.
#[derive(Debug, Clone, Copy, PartialEq, Eq, Structural)]
pub enum PublicationPhase {
    Persisting,
    Publishing,
    Activating,
    RollingBack,
    Replacing,
    Committing,
    Securing,
    Ended,
}

/// What is done next.
#[derive(Debug)]
pub enum PublicationAction {
    /// Points at the generation.
    Publish,
    /// Proves possession of its key to the server.
    Activate,
    /// Points at what was active before.
    RollBack,
    /// Has the server revoke the previous identity.
    Replace(u128),
    /// Forgets what was active before.
    Commit,
    /// Secures the pointer's files.
    Secure,
    Succeed,
    /// Fails, and removes the generation first where it says so.
    Fail { clean_up: bool, message: String },
}

/// What is done next, with its message as a sequence of characters.
pub enum PublicationModel {
    Publish,
    Activate,
    RollBack,
    Replace(u128),
    Commit,
    Secure,
    Succeed,
    Fail { clean_up: bool, message: Seq<char> },
}

impl View for PublicationAction {
    type V = PublicationModel;

    open spec fn view(&self) -> PublicationModel {
        match self {
            PublicationAction::Publish => PublicationModel::Publish,
            PublicationAction::Activate => PublicationModel::Activate,
            PublicationAction::RollBack => PublicationModel::RollBack,
            PublicationAction::Replace(id) => PublicationModel::Replace(*id),
            PublicationAction::Commit => PublicationModel::Commit,
            PublicationAction::Secure => PublicationModel::Secure,
            PublicationAction::Succeed => PublicationModel::Succeed,
            PublicationAction::Fail { clean_up, message } => PublicationModel::Fail {
                clean_up: *clean_up,
                message: message@,
            },
        }
    }
}

pub open spec fn fail(clean_up: bool, message: Seq<char>) -> (PublicationPhase, PublicationModel) {
    (PublicationPhase::Ended, PublicationModel::Fail { clean_up, message })
}

/// What is said where an identity that is active could not replace the previous
/// one.
pub open spec fn not_revoked(identity_id: u128, previous: u128) -> Seq<char> {
    "new client identity "@ + hyphenated(identity_id) + " is active, but previous identity "@
        + hyphenated(previous)
        + " could not be revoked; the client service will retry before finalizing the credential pointer"@
}

/// What comes after a phase of a publication that went well. `cause` is why the
/// generation was not activated, where that failed.
pub open spec fn proceed(purpose: Purpose, phase: PublicationPhase, cause: Seq<char>) -> (
    PublicationPhase,
    PublicationModel,
) {
    let commit = (PublicationPhase::Committing, PublicationModel::Commit);
    match phase {
        PublicationPhase::Persisting => (
            PublicationPhase::Publishing,
            PublicationModel::Publish,
        ),
        PublicationPhase::Publishing => (
            PublicationPhase::Activating,
            PublicationModel::Activate,
        ),
        PublicationPhase::Activating => match purpose {
            Purpose::Enrollment { identity_id, previous: Some(other) } => if other
                != identity_id {
                (PublicationPhase::Replacing, PublicationModel::Replace(other))
            } else {
                commit
            },
            _ => commit,
        },
        PublicationPhase::RollingBack => match purpose {
            Purpose::Enrollment { .. } => fail(
                true,
                caused(
                    "durable client identity was not activated; local publication was rolled back and the pending server identity will expire"@,
                    cause,
                ),
            ),
            Purpose::Renewal => fail(
                true,
                caused("activate renewed client certificate after durable publication"@, cause),
            ),
        },
        PublicationPhase::Replacing => commit,
        PublicationPhase::Committing => match purpose {
            Purpose::Enrollment { .. } => (
                PublicationPhase::Securing,
                PublicationModel::Secure,
            ),
            Purpose::Renewal => (PublicationPhase::Ended, PublicationModel::Succeed),
        },
        PublicationPhase::Securing => (PublicationPhase::Ended, PublicationModel::Succeed),
        PublicationPhase::Ended => (PublicationPhase::Ended, PublicationModel::Succeed),
    }
}

/// What comes after a phase of a publication that failed with an error.
pub open spec fn recover(
    purpose: Purpose,
    phase: PublicationPhase,
    cause: Seq<char>,
    error: Seq<char>,
) -> (PublicationPhase, PublicationModel) {
    match phase {
        PublicationPhase::Persisting => match purpose {
            Purpose::Enrollment { .. } => fail(
                true,
                caused(
                    "server accepted a pending enrollment, but local identity persistence failed; the pending identity will expire automatically"@,
                    error,
                ),
            ),
            Purpose::Renewal => fail(
                true,
                caused("persist renewed client identity generation"@, error),
            ),
        },
        PublicationPhase::Publishing => match purpose {
            Purpose::Enrollment { .. } => fail(
                true,
                caused("publish the enrolled client credential generation"@, error),
            ),
            Purpose::Renewal => fail(
                true,
                caused("publish renewed client credential generation"@, error),
            ),
        },
        PublicationPhase::Activating => (
            PublicationPhase::RollingBack,
            PublicationModel::RollBack,
        ),
        PublicationPhase::RollingBack => match purpose {
            Purpose::Enrollment { .. } => fail(
                false,
                caused(
                    "client identity activation failed and pointer rollback also failed; the published generation was retained for recovery: "@
                        + error,
                    cause,
                ),
            ),
            Purpose::Renewal => fail(
                false,
                caused(
                    "renewed certificate activation failed and pointer rollback also failed; the published generation was retained for recovery: "@
                        + error,
                    cause,
                ),
            ),
        },
        PublicationPhase::Replacing => match purpose {
            Purpose::Enrollment { identity_id, previous: Some(other) } => fail(
                false,
                caused(not_revoked(identity_id, other), error),
            ),
            _ => fail(false, error),
        },
        PublicationPhase::Committing => match purpose {
            Purpose::Enrollment { .. } => fail(
                false,
                caused("finalize the active client credential pointer"@, error),
            ),
            Purpose::Renewal => fail(
                false,
                caused("finalize renewed client credential pointer"@, error),
            ),
        },
        PublicationPhase::Securing => fail(false, error),
        PublicationPhase::Ended => fail(false, error),
    }
}

/// What comes after a phase of a publication.
pub open spec fn publication_next(
    purpose: Purpose,
    phase: PublicationPhase,
    cause: Seq<char>,
    outcome: Result<(), Seq<char>>,
) -> (PublicationPhase, PublicationModel) {
    match outcome {
        Ok(_) => proceed(purpose, phase, cause),
        Err(error) => recover(purpose, phase, cause, error),
    }
}

/// What is known, after a phase, of why the generation was not activated.
pub open spec fn known_cause(
    phase: PublicationPhase,
    cause: Seq<char>,
    outcome: Result<(), Seq<char>>,
) -> Seq<char> {
    match (phase, outcome) {
        (PublicationPhase::Activating, Err(error)) => error,
        _ => cause,
    }
}

/// What was active before is only forgotten, and the previous identity is only
/// revoked, after the new generation was activated.
pub proof fn nothing_is_final_before_activation(
    purpose: Purpose,
    phase: PublicationPhase,
    cause: Seq<char>,
    outcome: Result<(), Seq<char>>,
)
    requires
        ({
            let (next, action) = publication_next(purpose, phase, cause, outcome);
            action is Commit || action is Replace || next == PublicationPhase::Replacing
        }),
    ensures
        outcome is Ok,
        phase == PublicationPhase::Activating || phase == PublicationPhase::Replacing,
{
}

/// A generation is only removed while nothing points at it: before it was
/// published, or after it was rolled back.
pub proof fn published_generation_is_kept(
    purpose: Purpose,
    phase: PublicationPhase,
    cause: Seq<char>,
    outcome: Result<(), Seq<char>>,
)
    requires
        publication_next(purpose, phase, cause, outcome).1 matches PublicationModel::Fail {
            clean_up: true,
            ..
        },
    ensures
        match phase {
            PublicationPhase::Persisting => true,
            PublicationPhase::Publishing => outcome is Err,
            PublicationPhase::RollingBack => outcome is Ok,
            _ => false,
        },
{
}

/// The phase that a publication is in after some outcomes, one after the other, and
/// what is known then of why the generation was not activated.
pub open spec fn state_after(purpose: Purpose, outcomes: Seq<Result<(), Seq<char>>>) -> (
    PublicationPhase,
    Seq<char>,
)
    decreases outcomes.len(),
{
    if outcomes.len() == 0 {
        (PublicationPhase::Persisting, Seq::empty())
    } else {
        let (phase, cause) = state_after(purpose, outcomes.drop_last());
        (
            publication_next(purpose, phase, cause, outcomes.last()).0,
            known_cause(phase, cause, outcomes.last()),
        )
    }
}

/// The phase that a publication is in after some outcomes.
pub open spec fn phase_after(purpose: Purpose, outcomes: Seq<Result<(), Seq<char>>>) ->
    PublicationPhase {
    state_after(purpose, outcomes).0
}

/// A publication that succeeds was persisted, published and activated, in that
/// order and without a failure.
pub proof fn success_means_active(purpose: Purpose, outcomes: Seq<Result<(), Seq<char>>>)
    requires
        phase_after(purpose, outcomes) == PublicationPhase::Committing,
    ensures
        outcomes.len() >= 3,
        outcomes[0] is Ok && outcomes[1] is Ok && outcomes[2] is Ok,
    decreases outcomes.len(),
{
    reached(purpose, outcomes);
}

/// What a phase tells of the outcomes before it.
proof fn reached(purpose: Purpose, outcomes: Seq<Result<(), Seq<char>>>)
    ensures
        match phase_after(purpose, outcomes) {
            PublicationPhase::Persisting => outcomes.len() == 0,
            PublicationPhase::Publishing => outcomes.len() == 1 && outcomes[0] is Ok,
            PublicationPhase::Activating => outcomes.len() == 2 && outcomes[0] is Ok
                && outcomes[1] is Ok,
            PublicationPhase::Replacing => outcomes.len() >= 3 && outcomes[0] is Ok
                && outcomes[1] is Ok && outcomes[2] is Ok,
            PublicationPhase::Committing => outcomes.len() >= 3 && outcomes[0] is Ok
                && outcomes[1] is Ok && outcomes[2] is Ok,
            _ => true,
        },
    decreases outcomes.len(),
{
    if outcomes.len() > 0 {
        let before = outcomes.drop_last();
        reached(purpose, before);
        assert(forall|i: int| 0 <= i < before.len() ==> before[i] == outcomes[i]);
    }
}

/// The outcome of an action, as a value.
pub open spec fn outcome_view(outcome: Result<(), String>) -> Result<(), Seq<char>> {
    match outcome {
        Ok(_) => Ok(()),
        Err(text) => Err(text@),
    }
}

/// The publication of a generation. It begins with persisting it.
#[derive(Debug)]
pub struct CredentialPublication {
    pub purpose: Purpose,
    pub phase: PublicationPhase,
    /// Why the generation was not activated, where that failed.
    pub cause: String,
}

impl View for CredentialPublication {
    type V = (Purpose, PublicationPhase, Seq<char>);

    open spec fn view(&self) -> (Purpose, PublicationPhase, Seq<char>) {
        (self.purpose, self.phase, self.cause@)
    }
}

impl CredentialPublication {
    pub fn new(purpose: Purpose) -> (result: CredentialPublication)
        ensures
            result@ == (purpose, PublicationPhase::Persisting, Seq::<char>::empty()),
    {
        CredentialPublication { purpose, phase: PublicationPhase::Persisting, cause: String::new() }
    }

    fn failed(&mut self, clean_up: bool, message: String) -> (action: PublicationAction)
        ensures
            final(self).purpose == old(self).purpose,
            final(self).cause@ == old(self).cause@,
            (final(self).phase, action@) == fail(clean_up, message@),
    {
        self.phase = PublicationPhase::Ended;
        PublicationAction::Fail { clean_up, message }
    }

    fn succeeded(&mut self) -> (action: PublicationAction)
        ensures
            final(self).purpose == old(self).purpose,
            final(self).cause@ == old(self).cause@,
            (final(self).phase, action@) == proceed(
                old(self).purpose,
                old(self).phase,
                old(self).cause@,
            ),
    {
        match self.phase {
            PublicationPhase::Persisting => {
                self.phase = PublicationPhase::Publishing;
                PublicationAction::Publish
            },
            PublicationPhase::Publishing => {
                self.phase = PublicationPhase::Activating;
                PublicationAction::Activate
            },
            PublicationPhase::Activating => {
                match self.purpose {
                    Purpose::Enrollment { identity_id, previous: Some(other) } => {
                        if other != identity_id {
                            self.phase = PublicationPhase::Replacing;
                            return PublicationAction::Replace(other);
                        }
                    },
                    _ => {},
                }
                self.phase = PublicationPhase::Committing;
                PublicationAction::Commit
            },
            PublicationPhase::RollingBack => {
                let message = match self.purpose {
                    Purpose::Enrollment { .. } => with_cause(
                        "durable client identity was not activated; local publication was rolled back and the pending server identity will expire",
                        &self.cause,
                    ),
                    Purpose::Renewal => with_cause(
                        "activate renewed client certificate after durable publication",
                        &self.cause,
                    ),
                };
                self.failed(true, message)
            },
            PublicationPhase::Replacing => {
                self.phase = PublicationPhase::Committing;
                PublicationAction::Commit
            },
            PublicationPhase::Committing => {
                match self.purpose {
                    Purpose::Enrollment { .. } => {
                        self.phase = PublicationPhase::Securing;
                        PublicationAction::Secure
                    },
                    Purpose::Renewal => {
                        self.phase = PublicationPhase::Ended;
                        PublicationAction::Succeed
                    },
                }
            },
            PublicationPhase::Securing => {
                self.phase = PublicationPhase::Ended;
                PublicationAction::Succeed
            },
            PublicationPhase::Ended => PublicationAction::Succeed,
        }
    }

    fn went_wrong(&mut self, error: String) -> (action: PublicationAction)
        ensures
            final(self).purpose == old(self).purpose,
            final(self).cause@ == known_cause(
                old(self).phase,
                old(self).cause@,
                Err::<(), Seq<char>>(error@),
            ),
            (final(self).phase, action@) == recover(
                old(self).purpose,
                old(self).phase,
                old(self).cause@,
                error@,
            ),
    {
        let enrollment = matches!(self.purpose, Purpose::Enrollment { .. });
        match self.phase {
            PublicationPhase::Persisting => {
                let message = if enrollment {
                    with_cause(
                        "server accepted a pending enrollment, but local identity persistence failed; the pending identity will expire automatically",
                        &error,
                    )
                } else {
                    with_cause("persist renewed client identity generation", &error)
                };
                self.failed(true, message)
            },
            PublicationPhase::Publishing => {
                let message = if enrollment {
                    with_cause("publish the enrolled client credential generation", &error)
                } else {
                    with_cause("publish renewed client credential generation", &error)
                };
                self.failed(true, message)
            },
            PublicationPhase::Activating => {
                self.phase = PublicationPhase::RollingBack;
                self.cause = error;
                PublicationAction::RollBack
            },
            PublicationPhase::RollingBack => {
                let failure = if enrollment {
                    concat(
                        "client identity activation failed and pointer rollback also failed; the published generation was retained for recovery: ",
                        &error,
                    )
                } else {
                    concat(
                        "renewed certificate activation failed and pointer rollback also failed; the published generation was retained for recovery: ",
                        &error,
                    )
                };
                let message = with_cause(&failure, &self.cause);
                self.failed(false, message)
            },
            PublicationPhase::Replacing => {
                match self.purpose {
                    Purpose::Enrollment { identity_id, previous: Some(other) } => {
                        let mut message = concat("new client identity ", &id_text(identity_id));
                        message.append(" is active, but previous identity ");
                        message.append(&id_text(other));
                        message.append(
                            " could not be revoked; the client service will retry before finalizing the credential pointer",
                        );
                        self.failed(false, with_cause(&message, &error))
                    },
                    _ => self.failed(false, error),
                }
            },
            PublicationPhase::Committing => {
                let message = if enrollment {
                    with_cause("finalize the active client credential pointer", &error)
                } else {
                    with_cause("finalize renewed client credential pointer", &error)
                };
                self.failed(false, message)
            },
            PublicationPhase::Securing => self.failed(false, error),
            PublicationPhase::Ended => self.failed(false, error),
        }
    }

    /// Tells what is done next, after what came of the phase that it is in.
    pub fn step(&mut self, outcome: Result<(), String>) -> (action: PublicationAction)
        ensures
            final(self).purpose == old(self).purpose,
            final(self).cause@ == known_cause(
                old(self).phase,
                old(self).cause@,
                outcome_view(outcome),
            ),
            (final(self).phase, action@) == publication_next(
                old(self).purpose,
                old(self).phase,
                old(self).cause@,
                outcome_view(outcome),
            ),
    {
        match outcome {
            Ok(()) => self.succeeded(),
            Err(error) => self.went_wrong(error),
        }
    }
}

/// What is done in turn, as outcomes come one after the other.
pub open spec fn publication_actions(purpose: Purpose, outcomes: Seq<Result<(), Seq<char>>>) -> Seq<
    PublicationModel,
>
    decreases outcomes.len(),
{
    if outcomes.len() == 0 {
        Seq::empty()
    } else {
        let (phase, cause) = state_after(purpose, outcomes.drop_last());
        publication_actions(purpose, outcomes.drop_last()).push(
            publication_next(purpose, phase, cause, outcomes.last()).1,
        )
    }
}

/// So many good outcomes.
pub open spec fn all_went_well(n: nat) -> Seq<Result<(), Seq<char>>> {
    Seq::new(n, |i: int| Ok::<(), Seq<char>>(()))
}

proof fn one_more_went_well(n: nat)
    ensures
        all_went_well(n + 1).drop_last() == all_went_well(n),
        all_went_well(n + 1).last() == Ok::<(), Seq<char>>(()),
{
    assert(all_went_well(n + 1).drop_last() =~= all_went_well(n));
}

/// A renewal in which nothing fails publishes the new generation, proves it to the
/// server, forgets the old one and succeeds.
pub proof fn renewal_runs_to_its_end()
    ensures
        publication_actions(Purpose::Renewal, all_went_well(4)) == seq![
            PublicationModel::Publish,
            PublicationModel::Activate,
            PublicationModel::Commit,
            PublicationModel::Succeed,
        ],
{
    one_more_went_well(0);
    one_more_went_well(1);
    one_more_went_well(2);
    one_more_went_well(3);
    reveal_with_fuel(publication_actions, 6);
    reveal_with_fuel(state_after, 6);
    assert(publication_actions(Purpose::Renewal, all_went_well(4)) =~= seq![
        PublicationModel::Publish,
        PublicationModel::Activate,
        PublicationModel::Commit,
        PublicationModel::Succeed,
    ]);
}

/// An enrollment in which nothing fails publishes the identity and proves it to the
/// server; has the server revoke the one that it replaces, if that is another; and only
/// then forgets what was active before, secures the pointer and succeeds.
pub proof fn enrollment_runs_to_its_end(identity_id: u128, previous: Option<u128>)
    ensures
        ({
            let purpose = Purpose::Enrollment { identity_id, previous };
            if previous is Some && previous->0 != identity_id {
                publication_actions(purpose, all_went_well(6)) == seq![
                    PublicationModel::Publish,
                    PublicationModel::Activate,
                    PublicationModel::Replace(previous->0),
                    PublicationModel::Commit,
                    PublicationModel::Secure,
                    PublicationModel::Succeed,
                ]
            } else {
                publication_actions(purpose, all_went_well(5)) == seq![
                    PublicationModel::Publish,
                    PublicationModel::Activate,
                    PublicationModel::Commit,
                    PublicationModel::Secure,
                    PublicationModel::Succeed,
                ]
            }
        }),
{
    let purpose = Purpose::Enrollment { identity_id, previous };
    one_more_went_well(0);
    one_more_went_well(1);
    one_more_went_well(2);
    one_more_went_well(3);
    one_more_went_well(4);
    one_more_went_well(5);
    reveal_with_fuel(publication_actions, 8);
    reveal_with_fuel(state_after, 8);
    if previous is Some && previous->0 != identity_id {
        assert(publication_actions(purpose, all_went_well(6)) =~= seq![
            PublicationModel::Publish,
            PublicationModel::Activate,
            PublicationModel::Replace(previous->0),
            PublicationModel::Commit,
            PublicationModel::Secure,
            PublicationModel::Succeed,
        ]);
    } else {
        assert(publication_actions(purpose, all_went_well(5)) =~= seq![
            PublicationModel::Publish,
            PublicationModel::Activate,
            PublicationModel::Commit,
            PublicationModel::Secure,
            PublicationModel::Succeed,
        ]);
    }
}

/// A generation that the server does not activate is rolled back, and then removed if
/// the rollback worked; what failed first is told last. Nothing that failed is ever told
/// as a success.
pub proof fn failed_publications_are_undone(
    purpose: Purpose,
    phase: PublicationPhase,
    cause: Seq<char>,
    error: Seq<char>,
)
    ensures
        publication_next(
            purpose,
            PublicationPhase::Activating,
            cause,
            Err::<(), Seq<char>>(error),
        ).1 == PublicationModel::RollBack,
        known_cause(PublicationPhase::Activating, cause, Err::<(), Seq<char>>(error)) == error,
        publication_next(purpose, PublicationPhase::RollingBack, cause, Ok::<(), Seq<char>>(())).1
            matches PublicationModel::Fail { clean_up, message } && clean_up && cause.is_suffix_of(
            message,
        ),
        publication_next(
            purpose,
            PublicationPhase::RollingBack,
            cause,
            Err::<(), Seq<char>>(error),
        ).1 matches PublicationModel::Fail { clean_up, message } && !clean_up
            && cause.is_suffix_of(message),
        phase != PublicationPhase::Activating && phase != PublicationPhase::RollingBack ==> (
        publication_next(purpose, phase, cause, Err::<(), Seq<char>>(error)).1 matches
            PublicationModel::Fail { clean_up, message } && error.is_suffix_of(message) && clean_up
            == (phase == PublicationPhase::Persisting || phase == PublicationPhase::Publishing)),
        !(publication_next(purpose, phase, cause, Err::<(), Seq<char>>(error)).1 is Succeed),
{
    caused_ends_with_its_cause(cause);
    caused_ends_with_its_cause(error);
    assert(error.subrange(0, error.len() as int) =~= error);
}

proof fn caused_ends_with_its_cause(cause: Seq<char>)
    ensures
        forall|message: Seq<char>| cause.is_suffix_of(#[trigger] caused(message, cause)),
{
    assert forall|message: Seq<char>| cause.is_suffix_of(#[trigger] caused(message, cause)) by {
        let whole = caused(message, cause);
        assert(whole.subrange(whole.len() - cause.len(), whole.len() as int) =~= cause);
    }
}

} // verus!
