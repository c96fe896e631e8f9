//! The course of a rescue: what is done, in which order, and what it ends in.
//!
//! The configuration is loaded first. A repair or a restart needs the privilege for
//! it. A repair stops the service, reapplies the permissions, and restores a service
//! that was running even if the repair failed. Then the service is restarted if that
//! is asked for, and the checks are made and reported.

use vstd::prelude::*;

use crate::common::config::ClientConfig;
use crate::text::{caused, with_cause};

use super::publication::outcome_view;
use super::rescue::{
    all_checks, check_views, detail_of, not_passed, privilege_fault, repair_outcome,
    repair_outcome_of, require_repair_privilege, rescue_checks, rescue_verdict, run_checked,
    stop_outcome, unusable_configuration, CheckModel, CommandOutput, Findings, RescueCheck,
};

verus! {

/// How far a rescue is.
#[derive(Debug)]
pub enum RescuePhase {
    /// The configuration is loaded.
    Loading,
    /// The kernel's file on this process is read.
    Privilege,
    /// The service is asked whether it is running.
    Querying,
    Stopping { was_running: bool },
    Repairing { was_running: bool },
    /// The service, which was running, is started after a repair that came to this.
    Restoring { repair: Result<(), String> },
    /// The service is restarted, after a repair if one was made.
    Restarting { repaired: Option<bool> },
    Inspecting { repaired: Option<bool> },
    /// The checks are reported; the rescue ends in this.
    Reporting { verdict: Result<(), String> },
    Ended,
}

/// What happens in a rescue.
#[derive(Debug)]
pub enum RescueEvent {
    Loaded(Result<(), String>),
    /// The text of the kernel's file on this process, or why there is none.
    StatusRead(Result<String, String>),
    /// Whether the service is running.
    Queried(bool),
    /// What the command that stops the service left, or why it did not run.
    Stopped(Result<CommandOutput, String>),
    Repaired(Result<(), String>),
    /// What the command that starts the service left, or why it did not run.
    Started(Result<CommandOutput, String>),
    Restarted(Result<(), String>),
    /// What was found. What it says of a repair and of a restart is not heeded.
    Inspected { config: ClientConfig, findings: Findings },
    Reported(Result<(), String>),
}

/// What a rescue does next.
#[derive(Debug)]
pub enum RescueAction {
    ReadStatus,
    Query,
    Stop,
    Repair,
    Start,
    Restart,
    Inspect,
    Report { checks: Vec<RescueCheck>, repaired: bool },
    Done(Result<(), String>),
}

/// A rescue of the client.
#[derive(Debug)]
pub struct RescueRun {
    pub repair: bool,
    pub restart: bool,
    /// Whether this is a Windows machine.
    pub windows: bool,
    pub phase: RescuePhase,
}

pub open spec fn rescue_ends(phase: RescuePhase, action: RescueAction, text: Seq<char>) -> bool {
    &&& phase is Ended
    &&& action matches RescueAction::Done(Err(error))
    &&& error@ == text
}

/// Whether a rescue goes on after a repair, or without one.
pub open spec fn goes_on(
    restart: bool,
    repaired: Option<bool>,
    after: RescuePhase,
    action: RescueAction,
) -> bool {
    if restart {
        after == (RescuePhase::Restarting { repaired }) && action is Restart
    } else {
        after == (RescuePhase::Inspecting { repaired }) && action is Inspect
    }
}

/// Whether a rescue goes on once it has its privilege.
pub open spec fn privileged(run: RescueRun, after: RescuePhase, action: RescueAction) -> bool {
    if !run.repair {
        goes_on(run.restart, None, after, action)
    } else if run.windows {
        rescue_ends(
            after,
            action,
            "Windows client ACL repair is installer-owned; rerun the signed CentralD installer as Administrator instead of rescue --repair"@,
        )
    } else {
        after is Querying && action is Query
    }
}

/// Why the service was not stopped, if it was not.
pub open spec fn stop_fault(stopped: Result<CommandOutput, String>) -> Option<Seq<char>> {
    match stopped {
        Err(text) => Some(text@),
        Ok(output) => if output.success {
            None
        } else {
            Some("could not stop centrald-client.service: "@ + detail_of(output))
        },
    }
}

/// What came of restoring the service.
pub open spec fn restored(started: Result<CommandOutput, String>) -> Result<(), Seq<char>> {
    let failed = "restore previously running CentralD client service"@;
    match started {
        Err(text) => Err(caused(failed, text@)),
        Ok(output) => if output.success {
            Ok(())
        } else {
            Err(caused(failed, "service manager failed: "@ + detail_of(output)))
        },
    }
}

/// What came of a repair, as it is told.
pub open spec fn repaired_as(repair: Result<(), Seq<char>>) -> Result<(), Seq<char>> {
    match repair {
        Ok(_) => Ok(()),
        Err(text) => Err(caused("repair client state ownership and permissions"@, text)),
    }
}

/// Whether a rescue goes on after a repair and what came of restoring the service,
/// or ends because one of them failed.
pub open spec fn repair_judged(
    restart: bool,
    repair: Result<(), Seq<char>>,
    restore: Result<(), Seq<char>>,
    was_running: bool,
    after: RescuePhase,
    action: RescueAction,
) -> bool {
    match repair_outcome_of(repaired_as(repair), restore, was_running) {
        Ok(_) => goes_on(restart, Some(was_running), after, action),
        Err(text) => rescue_ends(after, action, text),
    }
}

/// Whether checks are reported.
pub open spec fn reports(
    checks: Seq<CheckModel>,
    repaired: bool,
    verdict: Result<(), Seq<char>>,
    after: RescuePhase,
    action: RescueAction,
) -> bool {
    &&& action matches RescueAction::Report { checks: made, repaired: said }
    &&& check_views(made@) == checks
    &&& said == repaired
    &&& after matches RescuePhase::Reporting { verdict: kept }
    &&& outcome_view(kept) == verdict
}

/// What checks come to.
pub open spec fn verdict_of(checks: Seq<CheckModel>) -> Result<(), Seq<char>> {
    if forall|i: int| 0 <= i < checks.len() ==> (#[trigger] checks[i]).ok {
        Ok(())
    } else {
        Err("one or more CentralD client rescue checks failed"@)
    }
}

/// Whether a phase and an action are what an event in a phase of a rescue calls for.
pub open spec fn rescue_step(
    run: RescueRun,
    before: RescuePhase,
    event: RescueEvent,
    after: RescuePhase,
    action: RescueAction,
) -> bool {
    match (before, event) {
        (RescuePhase::Loading, RescueEvent::Loaded(Err(text))) => reports(
            seq![not_passed("configuration"@, text@)],
            false,
            Err(caused("no usable CentralD client configuration"@, text@)),
            after,
            action,
        ),
        (RescuePhase::Loading, RescueEvent::Loaded(Ok(_))) => if !run.repair && !run.restart {
            goes_on(false, None, after, action)
        } else if run.windows {
            privileged(run, after, action)
        } else {
            after is Privilege && action is ReadStatus
        },
        (RescuePhase::Privilege, RescueEvent::StatusRead(Err(text))) => rescue_ends(
            after,
            action,
            caused("read process identity"@, text@),
        ),
        (RescuePhase::Privilege, RescueEvent::StatusRead(Ok(status))) => match privilege_fault(
            status@,
        ) {
            Some(text) => rescue_ends(after, action, text),
            None => privileged(run, after, action),
        },
        (RescuePhase::Querying, RescueEvent::Queried(was_running)) => after == (
        RescuePhase::Stopping { was_running }) && action is Stop,
        (RescuePhase::Stopping { was_running }, RescueEvent::Stopped(stopped)) => match stop_fault(
            stopped,
        ) {
            Some(text) => rescue_ends(
                after,
                action,
                caused("stop CentralD client service before permission repair"@, text),
            ),
            None => after == (RescuePhase::Repairing { was_running }) && action is Repair,
        },
        (RescuePhase::Repairing { was_running: true }, RescueEvent::Repaired(repair)) => {
            after == (RescuePhase::Restoring { repair }) && action is Start
        },
        (RescuePhase::Repairing { was_running: false }, RescueEvent::Repaired(repair)) => {
            repair_judged(run.restart, outcome_view(repair), Ok(()), false, after, action)
        },
        (RescuePhase::Restoring { repair }, RescueEvent::Started(started)) => repair_judged(
            run.restart,
            outcome_view(repair),
            restored(started),
            true,
            after,
            action,
        ),
        (RescuePhase::Restarting { repaired }, RescueEvent::Restarted(restarted)) => {
            match restarted {
                Ok(_) => goes_on(false, repaired, after, action),
                Err(text) => rescue_ends(
                    after,
                    action,
                    caused("restart CentralD client service"@, text@),
                ),
            }
        },
        (RescuePhase::Inspecting { repaired }, RescueEvent::Inspected { config, findings }) => {
            let checks = all_checks(
                config,
                (Findings { repaired, restarted: run.restart, ..findings }),
                !run.windows,
            );
            reports(checks, repaired is Some, verdict_of(checks), after, action)
        },
        (RescuePhase::Reporting { verdict }, RescueEvent::Reported(reported)) => match reported {
            Ok(_) => after is Ended && action == RescueAction::Done(verdict),
            Err(text) => rescue_ends(after, action, text@),
        },
        _ => rescue_ends(after, action, "rescue event is out of order"@),
    }
}

fn finish(text: String) -> (result: (RescuePhase, RescueAction))
    ensures
        rescue_ends(result.0, result.1, text@),
{
    (RescuePhase::Ended, RescueAction::Done(Err(text)))
}

fn go_on(restart: bool, repaired: Option<bool>) -> (result: (RescuePhase, RescueAction))
    ensures
        goes_on(restart, repaired, result.0, result.1),
{
    if restart {
        (RescuePhase::Restarting { repaired }, RescueAction::Restart)
    } else {
        (RescuePhase::Inspecting { repaired }, RescueAction::Inspect)
    }
}

fn judge_repair(
    restart: bool,
    repair: Result<(), String>,
    restore: Result<(), String>,
    was_running: bool,
) -> (result: (RescuePhase, RescueAction))
    ensures
        repair_judged(
            restart,
            outcome_view(repair),
            outcome_view(restore),
            was_running,
            result.0,
            result.1,
        ),
{
    let repair = match repair {
        Ok(()) => Ok(()),
        Err(text) => Err(with_cause("repair client state ownership and permissions", &text)),
    };
    match repair_outcome(repair, restore, was_running) {
        Ok(_) => go_on(restart, Some(was_running)),
        Err(text) => finish(text),
    }
}

fn restore_outcome(started: Result<CommandOutput, String>) -> (result: Result<(), String>)
    ensures
        outcome_view(result) == restored(started),
{
    let failure = match started {
        Err(text) => text,
        Ok(output) => match run_checked(&output) {
            Ok(()) => return Ok(()),
            Err(text) => text,
        },
    };
    Err(with_cause("restore previously running CentralD client service", &failure))
}

impl RescueRun {
    pub fn new(repair: bool, restart: bool, windows: bool) -> (result: RescueRun)
        ensures
            result == (RescueRun { repair, restart, windows, phase: RescuePhase::Loading }),
    {
        RescueRun { repair, restart, windows, phase: RescuePhase::Loading }
    }

    fn with_privilege(&self) -> (result: (RescuePhase, RescueAction))
        ensures
            privileged(*self, result.0, result.1),
    {
        if !self.repair {
            go_on(self.restart, None)
        } else if self.windows {
            finish(
                "Windows client ACL repair is installer-owned; rerun the signed CentralD installer as Administrator instead of rescue --repair".to_owned(),
            )
        } else {
            (RescuePhase::Querying, RescueAction::Query)
        }
    }

    fn loaded(&self, outcome: Result<(), String>) -> (result: (RescuePhase, RescueAction))
        ensures
            rescue_step(
                *self,
                RescuePhase::Loading,
                RescueEvent::Loaded(outcome),
                result.0,
                result.1,
            ),
    {
        match outcome {
            Err(text) => {
                let mut checks: Vec<RescueCheck> = Vec::new();
                checks.push(unusable_configuration(&text));
                assert(check_views(checks@) =~= seq![not_passed("configuration"@, text@)]);
                let verdict = Err(with_cause("no usable CentralD client configuration", &text));
                (
                    RescuePhase::Reporting { verdict },
                    RescueAction::Report { checks, repaired: false },
                )
            },
            Ok(()) => {
                if !self.repair && !self.restart {
                    go_on(false, None)
                } else if self.windows {
                    self.with_privilege()
                } else {
                    (RescuePhase::Privilege, RescueAction::ReadStatus)
                }
            },
        }
    }

    fn status_read(&self, status: Result<String, String>) -> (result: (RescuePhase, RescueAction))
        ensures
            rescue_step(
                *self,
                RescuePhase::Privilege,
                RescueEvent::StatusRead(status),
                result.0,
                result.1,
            ),
    {
        match status {
            Err(text) => finish(with_cause("read process identity", &text)),
            Ok(status) => match require_repair_privilege(&status) {
                Err(text) => finish(text),
                Ok(()) => self.with_privilege(),
            },
        }
    }

    fn stopped(&self, was_running: bool, stopped: Result<CommandOutput, String>) -> (result: (
        RescuePhase,
        RescueAction,
    ))
        ensures
            rescue_step(
                *self,
                RescuePhase::Stopping { was_running },
                RescueEvent::Stopped(stopped),
                result.0,
                result.1,
            ),
    {
        let failure = match stopped {
            Err(text) => text,
            Ok(output) => match stop_outcome(&output) {
                Ok(()) => return (
                    RescuePhase::Repairing { was_running },
                    RescueAction::Repair,
                ),
                Err(text) => text,
            },
        };
        finish(with_cause("stop CentralD client service before permission repair", &failure))
    }

    fn inspected(&self, repaired: Option<bool>, config: ClientConfig, findings: Findings) -> (
        result: (RescuePhase, RescueAction))
        ensures
            rescue_step(
                *self,
                RescuePhase::Inspecting { repaired },
                RescueEvent::Inspected { config, findings },
                result.0,
                result.1,
            ),
    {
        let found = Findings { repaired, restarted: self.restart, ..findings };
        let ghost models = all_checks(config, found, !self.windows);
        let checks = rescue_checks(&config, found, !self.windows);
        let verdict = rescue_verdict(&checks);
        proof {
            assert(forall|i: int|
                0 <= i < checks@.len() ==> (#[trigger] checks@[i]).ok == models[i].ok);
            assert(checks@.len() == models.len());
            assert(outcome_view(verdict) == verdict_of(models));
        }
        (
            RescuePhase::Reporting { verdict },
            RescueAction::Report { checks, repaired: repaired.is_some() },
        )
    }

    /// Takes the next step of a rescue.
    pub fn step(&mut self, event: RescueEvent) -> (action: RescueAction)
        ensures
            final(self).repair == old(self).repair,
            final(self).restart == old(self).restart,
            final(self).windows == old(self).windows,
            rescue_step(*old(self), old(self).phase, event, final(self).phase, action),
    {
        let mut phase = RescuePhase::Ended;
        core::mem::swap(&mut self.phase, &mut phase);
        let (next, action) = match (phase, event) {
            (RescuePhase::Loading, RescueEvent::Loaded(outcome)) => self.loaded(outcome),
            (RescuePhase::Privilege, RescueEvent::StatusRead(status)) => self.status_read(status),
            (RescuePhase::Querying, RescueEvent::Queried(was_running)) => (
                RescuePhase::Stopping { was_running },
                RescueAction::Stop,
            ),
            (RescuePhase::Stopping { was_running }, RescueEvent::Stopped(stopped)) => {
                self.stopped(was_running, stopped)
            },
            (RescuePhase::Repairing { was_running }, RescueEvent::Repaired(repair)) => {
                if was_running {
                    (RescuePhase::Restoring { repair }, RescueAction::Start)
                } else {
                    judge_repair(self.restart, repair, Ok(()), false)
                }
            },
            (RescuePhase::Restoring { repair }, RescueEvent::Started(started)) => {
                let restore = restore_outcome(started);
                judge_repair(self.restart, repair, restore, true)
            },
            (RescuePhase::Restarting { repaired }, RescueEvent::Restarted(outcome)) => {
                match outcome {
                    Ok(()) => go_on(false, repaired),
                    Err(text) => finish(with_cause("restart CentralD client service", &text)),
                }
            },
            (
                RescuePhase::Inspecting { repaired },
                RescueEvent::Inspected { config, findings },
            ) => self.inspected(repaired, config, findings),
            (RescuePhase::Reporting { verdict }, RescueEvent::Reported(outcome)) => {
                match outcome {
                    Ok(()) => (RescuePhase::Ended, RescueAction::Done(verdict)),
                    Err(text) => finish(text),
                }
            },
            _ => finish("rescue event is out of order".to_owned()),
        };
        self.phase = next;
        action
    }
}

/// The service is stopped, repaired, started or restarted only where that was asked
/// for, and on a machine that is not Windows only once the process was found to be
/// root's.
pub proof fn nothing_is_changed_without_privilege(
    run: RescueRun,
    before: RescuePhase,
    event: RescueEvent,
    after: RescuePhase,
    action: RescueAction,
)
    requires
        rescue_step(run, before, event, after, action),
    ensures
        before is Loading ==> !(action is Query || action is Stop || action is Repair
            || action is Start) && (action is Restart ==> run.windows && run.restart),
        after is Querying || after is Restarting && before is Privilege ==> {
            &&& event matches RescueEvent::StatusRead(Ok(status))
            &&& privilege_fault(status@) is None
        },
        after is Querying ==> run.repair && !run.windows,
        after is Restarting ==> run.restart,
        after is Stopping ==> before is Querying,
        after is Repairing ==> before is Stopping,
        after is Restoring ==> before is Repairing,
{
}

/// A service that was running is started again after a repair, whatever came of the
/// repair.
pub proof fn running_service_is_restored(
    run: RescueRun,
    repair: Result<(), String>,
    after: RescuePhase,
    action: RescueAction,
)
    requires
        rescue_step(
            run,
            RescuePhase::Repairing { was_running: true },
            RescueEvent::Repaired(repair),
            after,
            action,
        ),
    ensures
        action is Start,
{
}

/// A rescue that neither repairs nor restarts inspects at once; one that repairs a machine with
/// the privilege for it queries, stops, repairs and restores in turn; and what was asked to be
/// restarted is restarted before the inspection.
pub proof fn rescues_do_what_was_asked(
    run: RescueRun,
    before: RescuePhase,
    event: RescueEvent,
    after: RescuePhase,
    action: RescueAction,
)
    requires
        rescue_step(run, before, event, after, action),
    ensures
        before is Loading && event is Loaded && event->Loaded_0 is Ok && !run.repair && !run.restart
            ==> action is Inspect,
        before is Loading && event is Loaded && event->Loaded_0 is Ok && (run.repair || run.restart)
            && !run.windows ==> action is ReadStatus,
        before is Privilege && event is StatusRead && event->StatusRead_0 is Ok && privilege_fault(
            event->StatusRead_0->Ok_0@,
        ) is None && run.repair && !run.windows ==> action is Query,
        before is Privilege && event is StatusRead && event->StatusRead_0 is Ok && privilege_fault(
            event->StatusRead_0->Ok_0@,
        ) is None && !run.repair && run.restart ==> action is Restart,
        before is Querying && event is Queried ==> action is Stop,
        before is Stopping && event is Stopped && event->Stopped_0 is Ok
            && event->Stopped_0->Ok_0.success ==> action is Repair,
        before is Stopping && event is Stopped && event->Stopped_0 is Ok
            && !event->Stopped_0->Ok_0.success ==> (action matches RescueAction::Done(Err(_))),
        before is Repairing && event is Repaired && before->Repairing_was_running ==> action
            is Start,
        before is Repairing && event is Repaired && !before->Repairing_was_running
            && event->Repaired_0 is Err ==> (action matches RescueAction::Done(Err(_))),
        before is Repairing && event is Repaired && !before->Repairing_was_running
            && event->Repaired_0 is Ok ==> (action is Restart <==> run.restart) && (action
            is Inspect <==> !run.restart),
        before is Restoring && event is Started ==> {
            let well = before->repair is Ok && event->Started_0 is Ok
                && event->Started_0->Ok_0.success;
            &&& action is Restart <==> well && run.restart
            &&& action is Inspect <==> well && !run.restart
            &&& action is Done <==> !well
        },
        before is Restarting && event is Restarted ==> (action is Inspect
            <==> event->Restarted_0 is Ok),
        before is Inspecting && event is Inspected ==> action is Report,
        before is Ended ==> (action matches RescueAction::Done(Err(_))),
{
}

/// A rescue succeeds exactly if its report was made and every check in it passed; a configuration
/// that cannot be used is reported and never succeeds.
pub proof fn rescues_succeed_when_all_checks_pass(
    run: RescueRun,
    before: RescuePhase,
    event: RescueEvent,
    after: RescuePhase,
    action: RescueAction,
)
    requires
        rescue_step(run, before, event, after, action),
    ensures
        action is Done && action->Done_0 is Ok <==> {
            &&& before is Reporting && before->verdict is Ok
            &&& event is Reported && event->Reported_0 is Ok
        },
        action matches RescueAction::Report { checks, repaired } ==> {
            &&& after is Reporting
            &&& after->verdict is Ok ==> forall|i: int|
                0 <= i < checks@.len() ==> (#[trigger] checks@[i]).ok
            &&& repaired ==> before is Inspecting && before->Inspecting_repaired is Some
        },
        before is Inspecting && event is Inspected ==> {
            &&& action is Report
            &&& after is Reporting
            &&& (forall|i: int|
                0 <= i < action->checks@.len() ==> (#[trigger] action->checks@[i]).ok)
                ==> after->verdict is Ok
            &&& action->Report_repaired == (before->Inspecting_repaired is Some)
        },
        before is Loading && event is Loaded && event->Loaded_0 is Err ==> action is Report && after
            is Reporting && after->verdict is Err,
{
    if action is Report {
        let made = action->checks@;
        assert(forall|i: int|
            0 <= i < made.len() ==> (#[trigger] made[i]).ok == check_views(made)[i].ok);
        if before is Loading {
            assert(!check_views(made)[0].ok);
        }
        if after->verdict is Ok {
            assert forall|i: int| 0 <= i < made.len() implies (#[trigger] made[i]).ok by {
                assert(check_views(made)[i].ok);
            }
        }
    }
}

} // verus!
