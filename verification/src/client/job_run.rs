//! The course of an accepted job: the server is told that the job was delivered and
//! that it runs, the broker is asked, and the server is told how the job ended.

use vstd::prelude::*;

use crate::platform::broker::BrokerRequest;
use crate::text::{caused, with_cause};

use super::relay::{conclusion, finish_job, tells, AcceptedJob, BrokerReply, JobEvent};

verus! {

/// How far an accepted job is.
#[derive(Debug)]
pub enum JobPhase {
    /// Its delivery is acknowledged.
    Acknowledging(AcceptedJob),
    /// The server is told that it runs.
    Starting { job_id: String, request: BrokerRequest },
    /// The broker is asked.
    Submitting { job_id: String },
    /// The server is told how it ended.
    Concluding,
    Ended,
}

/// What happens with an accepted job.
#[derive(Debug)]
pub enum JobProgress {
    /// What came of sending a frame to the server.
    Sent(Result<(), String>),
    /// What the broker said, or why it said nothing.
    Replied(BrokerReply),
}

/// What is done next with an accepted job.
#[derive(Debug)]
pub enum JobAction {
    Acknowledge { job_id: String, delivery_id: String },
    Report(JobEvent),
    Submit(BrokerRequest),
    Done(Result<(), String>),
}

pub open spec fn job_ends(phase: JobPhase, action: JobAction, text: Seq<char>) -> bool {
    &&& phase is Ended
    &&& action matches JobAction::Done(Err(error))
    &&& error@ == text
}

/// Whether a phase and an action are what progress in a phase of a job calls for.
pub open spec fn job_step(
    before: JobPhase,
    progress: JobProgress,
    after: JobPhase,
    action: JobAction,
) -> bool {
    match (before, progress) {
        (JobPhase::Acknowledging(job), JobProgress::Sent(Ok(_))) => {
            &&& after == (JobPhase::Starting { job_id: job.job_id, request: job.request })
            &&& action == JobAction::Report(job.started)
        },
        (JobPhase::Acknowledging(_), JobProgress::Sent(Err(text))) => job_ends(
            after,
            action,
            caused("acknowledge verified job delivery"@, text@),
        ),
        (JobPhase::Starting { job_id, request }, JobProgress::Sent(Ok(_))) => {
            &&& after == (JobPhase::Submitting { job_id })
            &&& action == JobAction::Submit(request)
        },
        (JobPhase::Submitting { job_id }, JobProgress::Replied(reply)) => {
            &&& after is Concluding
            &&& action matches JobAction::Report(event)
            &&& tells(event, job_id@, 2, conclusion(reply).0, conclusion(reply).1, true)
        },
        (JobPhase::Concluding, JobProgress::Sent(Ok(_))) => {
            &&& after is Ended
            &&& action == JobAction::Done(Ok(()))
        },
        (JobPhase::Starting { .. }, JobProgress::Sent(Err(text))) => job_ends(
            after,
            action,
            caused("send job event"@, text@),
        ),
        (JobPhase::Concluding, JobProgress::Sent(Err(text))) => job_ends(
            after,
            action,
            caused("send job event"@, text@),
        ),
        _ => job_ends(after, action, "job progress is out of order"@),
    }
}

fn finish(text: String) -> (result: (JobPhase, JobAction))
    ensures
        job_ends(result.0, result.1, text@),
{
    (JobPhase::Ended, JobAction::Done(Err(text)))
}

/// An accepted job that is carried out.
#[derive(Debug)]
pub struct JobRun {
    pub phase: JobPhase,
}

impl JobRun {
    /// Begins with the acknowledgement of the job's delivery.
    pub fn begin(job: AcceptedJob) -> (result: (JobRun, JobAction))
        ensures
            result.0.phase == JobPhase::Acknowledging(job),
            result.1 matches JobAction::Acknowledge { job_id, delivery_id } && job_id == job.job_id
                && delivery_id == job.delivery_id,
    {
        let action = JobAction::Acknowledge {
            job_id: job.job_id.clone(),
            delivery_id: job.delivery_id.clone(),
        };
        (JobRun { phase: JobPhase::Acknowledging(job) }, action)
    }

    /// Takes the next step of a job.
    pub fn step(&mut self, progress: JobProgress) -> (action: JobAction)
        ensures
            job_step(old(self).phase, progress, final(self).phase, action),
    {
        let mut phase = JobPhase::Ended;
        core::mem::swap(&mut self.phase, &mut phase);
        let (next, action) = match (phase, progress) {
            (JobPhase::Acknowledging(job), JobProgress::Sent(sent)) => match sent {
                Ok(()) => (
                    JobPhase::Starting { job_id: job.job_id, request: job.request },
                    JobAction::Report(job.started),
                ),
                Err(text) => finish(with_cause("acknowledge verified job delivery", &text)),
            },
            (JobPhase::Starting { job_id, request }, JobProgress::Sent(sent)) => match sent {
                Ok(()) => (JobPhase::Submitting { job_id }, JobAction::Submit(request)),
                Err(text) => finish(with_cause("send job event", &text)),
            },
            (JobPhase::Submitting { job_id }, JobProgress::Replied(reply)) => (
                JobPhase::Concluding,
                JobAction::Report(finish_job(&job_id, reply)),
            ),
            (JobPhase::Concluding, JobProgress::Sent(sent)) => match sent {
                Ok(()) => (JobPhase::Ended, JobAction::Done(Ok(()))),
                Err(text) => finish(with_cause("send job event", &text)),
            },
            _ => finish("job progress is out of order".to_owned()),
        };
        self.phase = next;
        action
    }
}

/// The broker is asked only once the server took the acknowledgement and the event
/// that the job runs, and the server is told how a job ended only after the broker
/// was asked.
pub proof fn broker_is_asked_after_the_start(
    before: JobPhase,
    progress: JobProgress,
    after: JobPhase,
    action: JobAction,
)
    requires
        job_step(before, progress, after, action),
    ensures
        action is Submit ==> before is Starting && progress matches JobProgress::Sent(Ok(_)),
        after is Submitting ==> action is Submit,
        after is Starting ==> before is Acknowledging && progress matches JobProgress::Sent(Ok(_)),
        after is Concluding ==> before is Submitting && progress is Replied,
        action == JobAction::Done(Ok(())) ==> before is Concluding,
{
}

/// A job that is sent well is acknowledged, said to run, put to the broker, and told of as the
/// broker answered, in this order and as one job.
pub proof fn jobs_run_to_their_end(
    job: AcceptedJob,
    reply: BrokerReply,
    phases: Seq<JobPhase>,
    actions: Seq<JobAction>,
)
    requires
        phases.len() == 5,
        actions.len() == 4,
        phases[0] == JobPhase::Acknowledging(job),
        job_step(phases[0], JobProgress::Sent(Ok(())), phases[1], actions[0]),
        job_step(phases[1], JobProgress::Sent(Ok(())), phases[2], actions[1]),
        job_step(phases[2], JobProgress::Replied(reply), phases[3], actions[2]),
        job_step(phases[3], JobProgress::Sent(Ok(())), phases[4], actions[3]),
    ensures
        actions[0] == JobAction::Report(job.started),
        actions[1] == JobAction::Submit(job.request),
        actions[2] matches JobAction::Report(event) && tells(
            event,
            job.job_id@,
            2,
            conclusion(reply).0,
            conclusion(reply).1,
            true,
        ),
        actions[3] == JobAction::Done(Ok(())),
        phases[4] is Ended,
{
}

/// What cannot be sent ends a job with the reason, and a job succeeds only after its end was told.
pub proof fn unsent_jobs_end(
    before: JobPhase,
    progress: JobProgress,
    after: JobPhase,
    action: JobAction,
)
    requires
        job_step(before, progress, after, action),
    ensures
        progress matches JobProgress::Sent(Err(_)) ==> action is Done && action->Done_0 is Err
            && after is Ended,
        action is Submit ==> before is Starting,
        action is Done && action->Done_0 is Ok <==> before is Concluding && (
        progress matches JobProgress::Sent(Ok(_))),
{
}

} // verus!
