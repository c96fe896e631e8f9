//! The managed client daemon under the Windows Service Control Manager: what it
//! reports, when, and what a control request does.

use vstd::prelude::*;

use crate::instant::{rfc3339_with_offset, Timestamp};
use crate::text::concat;

verus! {

pub const SERVICE_NAME: &'static str = "CentralDClient";

/// How long the failure log may get before it is rotated.
pub const MAX_FAILURE_LOG_BYTES: u64 = 1_048_576;

#[derive(Debug, Clone, Copy, PartialEq, Eq, Structural)]
pub enum ServiceState {
    StartPending,
    Running,
    StopPending,
    Stopped,
}

/// How a service ended: with a code of Windows, or with one of its own.
#[derive(Debug, Clone, Copy, PartialEq, Eq, Structural)]
pub enum ServiceExit {
    Win32(u32),
    ServiceSpecific(u32),
}

/// What is reported of the service.
#[derive(Debug, Clone, Copy, PartialEq, Eq, Structural)]
pub struct ServiceReport {
    pub state: ServiceState,
    /// Whether requests to stop and to shut down are accepted.
    pub accepts_stop: bool,
    pub checkpoint: u32,
    pub wait_hint_seconds: u64,
    pub exit: ServiceExit,
}

pub open spec fn report_of(
    state: ServiceState,
    accepts_stop: bool,
    checkpoint: u32,
    wait_hint_seconds: u64,
    exit: ServiceExit,
) -> ServiceReport {
    ServiceReport { state, accepts_stop, checkpoint, wait_hint_seconds, exit }
}

/// Makes a report of the service.
pub fn service_status(
    state: ServiceState,
    accepts_stop: bool,
    checkpoint: u32,
    wait_hint_seconds: u64,
    exit: ServiceExit,
) -> (result: ServiceReport)
    ensures
        result == report_of(state, accepts_stop, checkpoint, wait_hint_seconds, exit),
{
    ServiceReport { state, accepts_stop, checkpoint, wait_hint_seconds, exit }
}

/// What the service is asked to do.
#[derive(Debug, Clone, Copy, PartialEq, Eq, Structural)]
pub enum ControlRequest {
    Stop,
    Shutdown,
    Interrogate,
    Other,
}

/// What a request does: what is reported, whether the daemon is shut down, and
/// whether the request is one that is served.
#[derive(Debug, Clone, Copy, PartialEq, Eq, Structural)]
pub struct ControlAnswer {
    pub report: Option<ServiceReport>,
    pub shutdown: bool,
    pub implemented: bool,
}

/// What a control request is answered.
pub open spec fn control_answer(request: ControlRequest) -> ControlAnswer {
    match request {
        ControlRequest::Stop | ControlRequest::Shutdown => ControlAnswer {
            report: Some(
                report_of(ServiceState::StopPending, false, 1, 20, ServiceExit::Win32(0)),
            ),
            shutdown: true,
            implemented: true,
        },
        ControlRequest::Interrogate => ControlAnswer {
            report: None,
            shutdown: false,
            implemented: true,
        },
        ControlRequest::Other => ControlAnswer {
            report: None,
            shutdown: false,
            implemented: false,
        },
    }
}

/// Answers a request.
pub fn handle_control(request: ControlRequest) -> (result: ControlAnswer)
    ensures
        result == control_answer(request),
{
    match request {
        ControlRequest::Stop | ControlRequest::Shutdown => ControlAnswer {
            report: Some(
                service_status(ServiceState::StopPending, false, 1, 20, ServiceExit::Win32(0)),
            ),
            shutdown: true,
            implemented: true,
        },
        ControlRequest::Interrogate => ControlAnswer {
            report: None,
            shutdown: false,
            implemented: true,
        },
        ControlRequest::Other => ControlAnswer {
            report: None,
            shutdown: false,
            implemented: false,
        },
    }
}

/// How far the service is.
#[derive(Debug)]
pub enum ServicePhase {
    Registering,
    ReportingStart,
    Validating,
    /// Reporting that it stopped before it ran: because of a failure, or because
    /// it was asked to.
    ReportingFailure { error: String },
    ReportingEarlyStop,
    ReportingCheckpoint,
    ReportingRunning,
    Running,
    /// Reporting that it stopped after it ran, with this result.
    ReportingStopped { result: Result<(), String> },
    Ended,
}

/// What the service does next.
#[derive(Debug)]
pub enum ServiceAction {
    Report(ServiceReport),
    /// Validates the client's state before it runs.
    Validate,
    /// Runs the daemon until it is shut down.
    RunDaemon,
    Done(Result<(), String>),
}

pub open spec fn service_ends(
    phase: ServicePhase,
    action: ServiceAction,
    result: Result<(), String>,
) -> bool {
    phase is Ended && action == ServiceAction::Done(result)
}

pub open spec fn service_fails(phase: ServicePhase, action: ServiceAction, text: Seq<char>) -> bool {
    &&& phase is Ended
    &&& action matches ServiceAction::Done(Err(error))
    &&& error@ == text
}

/// The exit code of a daemon that ended.
pub open spec fn exit_of(result: Result<(), String>) -> ServiceExit {
    match result {
        Ok(_) => ServiceExit::Win32(0),
        Err(_) => ServiceExit::ServiceSpecific(1),
    }
}

/// Whether a phase and an action are what the outcome of another phase calls for.
/// `shutdown` says whether the service was already asked to stop.
pub open spec fn service_step(
    before: ServicePhase,
    outcome: Result<(), String>,
    shutdown: bool,
    after: ServicePhase,
    action: ServiceAction,
) -> bool {
    match before {
        ServicePhase::Registering => match outcome {
            Err(_) => service_fails(
                after,
                action,
                "register CentralD Windows service control handler"@,
            ),
            Ok(_) => after is ReportingStart && action == ServiceAction::Report(
                report_of(ServiceState::StartPending, false, 1, 20, ServiceExit::Win32(0)),
            ),
        },
        ServicePhase::ReportingStart => match outcome {
            Err(_) => service_fails(
                after,
                action,
                "report CentralD Windows service initialization"@,
            ),
            Ok(_) => after is Validating && action is Validate,
        },
        ServicePhase::Validating => match outcome {
            Err(text) => {
                &&& after == (ServicePhase::ReportingFailure { error: text })
                &&& action == ServiceAction::Report(
                    report_of(
                        ServiceState::Stopped,
                        false,
                        0,
                        0,
                        ServiceExit::ServiceSpecific(1),
                    ),
                )
            },
            Ok(_) => if shutdown {
                after is ReportingEarlyStop && action == ServiceAction::Report(
                    report_of(ServiceState::Stopped, false, 0, 0, ServiceExit::Win32(0)),
                )
            } else {
                after is ReportingCheckpoint && action == ServiceAction::Report(
                    report_of(ServiceState::StartPending, false, 2, 10, ServiceExit::Win32(0)),
                )
            },
        },
        ServicePhase::ReportingFailure { error } => service_ends(after, action, Err(error)),
        ServicePhase::ReportingEarlyStop => match outcome {
            Err(_) => service_fails(
                after,
                action,
                "report CentralD Windows service stopped during initialization"@,
            ),
            Ok(_) => service_ends(after, action, Ok(())),
        },
        ServicePhase::ReportingCheckpoint => match outcome {
            Err(_) => service_fails(
                after,
                action,
                "report CentralD Windows service startup checkpoint"@,
            ),
            Ok(_) => after is ReportingRunning && action == ServiceAction::Report(
                report_of(ServiceState::Running, true, 0, 0, ServiceExit::Win32(0)),
            ),
        },
        ServicePhase::ReportingRunning => match outcome {
            Err(_) => service_fails(
                after,
                action,
                "report CentralD Windows service as running"@,
            ),
            Ok(_) => after is Running && action is RunDaemon,
        },
        ServicePhase::Running => {
            &&& after == (ServicePhase::ReportingStopped { result: outcome })
            &&& action == ServiceAction::Report(
                report_of(ServiceState::Stopped, false, 0, 0, exit_of(outcome)),
            )
        },
        ServicePhase::ReportingStopped { result } => match outcome {
            Err(_) => service_fails(
                after,
                action,
                "report CentralD Windows service as stopped"@,
            ),
            Ok(_) => service_ends(after, action, result),
        },
        ServicePhase::Ended => service_ends(after, action, outcome),
    }
}

/// The service is only reported as running, and only runs, after the client's
/// state was found valid.
pub proof fn runs_only_when_valid(
    before: ServicePhase,
    outcome: Result<(), String>,
    shutdown: bool,
    after: ServicePhase,
    action: ServiceAction,
)
    requires
        service_step(before, outcome, shutdown, after, action),
        after is ReportingCheckpoint || after is ReportingRunning || after is Running,
    ensures
        outcome is Ok,
        before is Validating || before is ReportingCheckpoint || before is ReportingRunning,
{
}

/// The client's Windows service.
#[derive(Debug)]
pub struct WindowsService {
    pub phase: ServicePhase,
}

impl WindowsService {
    pub fn new() -> (result: WindowsService)
        ensures
            result.phase is Registering,
    {
        WindowsService { phase: ServicePhase::Registering }
    }

    fn go(phase: ServicePhase, report: ServiceReport) -> (result: (ServicePhase, ServiceAction))
        ensures
            result.0 == phase,
            result.1 == ServiceAction::Report(report),
    {
        (phase, ServiceAction::Report(report))
    }

    fn fail(text: &str) -> (result: (ServicePhase, ServiceAction))
        ensures
            service_fails(result.0, result.1, text@),
    {
        (ServicePhase::Ended, ServiceAction::Done(Err(text.to_owned())))
    }

    fn end(result: Result<(), String>) -> (next: (ServicePhase, ServiceAction))
        ensures
            service_ends(next.0, next.1, result),
    {
        (ServicePhase::Ended, ServiceAction::Done(result))
    }

    /// Takes the next step after what came of the last one.
    pub fn step(&mut self, outcome: Result<(), String>, shutdown: bool) -> (action: ServiceAction)
        ensures
            service_step(old(self).phase, outcome, shutdown, final(self).phase, action),
    {
        let mut phase = ServicePhase::Ended;
        core::mem::swap(&mut self.phase, &mut phase);
        let succeeded = outcome.is_ok();
        let fine = ServiceExit::Win32(0);
        let (next, action) = match phase {
            ServicePhase::Registering => {
                if succeeded {
                    WindowsService::go(
                        ServicePhase::ReportingStart,
                        service_status(ServiceState::StartPending, false, 1, 20, fine),
                    )
                } else {
                    WindowsService::fail("register CentralD Windows service control handler")
                }
            },
            ServicePhase::ReportingStart => {
                if succeeded {
                    (ServicePhase::Validating, ServiceAction::Validate)
                } else {
                    WindowsService::fail("report CentralD Windows service initialization")
                }
            },
            ServicePhase::Validating => match outcome {
                Err(error) => WindowsService::go(
                    ServicePhase::ReportingFailure { error },
                    service_status(
                        ServiceState::Stopped,
                        false,
                        0,
                        0,
                        ServiceExit::ServiceSpecific(1),
                    ),
                ),
                Ok(()) => {
                    if shutdown {
                        WindowsService::go(
                            ServicePhase::ReportingEarlyStop,
                            service_status(ServiceState::Stopped, false, 0, 0, fine),
                        )
                    } else {
                        WindowsService::go(
                            ServicePhase::ReportingCheckpoint,
                            service_status(ServiceState::StartPending, false, 2, 10, fine),
                        )
                    }
                },
            },
            ServicePhase::ReportingFailure { error } => WindowsService::end(Err(error)),
            ServicePhase::ReportingEarlyStop => {
                if succeeded {
                    WindowsService::end(Ok(()))
                } else {
                    WindowsService::fail(
                        "report CentralD Windows service stopped during initialization",
                    )
                }
            },
            ServicePhase::ReportingCheckpoint => {
                if succeeded {
                    WindowsService::go(
                        ServicePhase::ReportingRunning,
                        service_status(ServiceState::Running, true, 0, 0, fine),
                    )
                } else {
                    WindowsService::fail("report CentralD Windows service startup checkpoint")
                }
            },
            ServicePhase::ReportingRunning => {
                if succeeded {
                    (ServicePhase::Running, ServiceAction::RunDaemon)
                } else {
                    WindowsService::fail("report CentralD Windows service as running")
                }
            },
            ServicePhase::Running => {
                let exit = if succeeded {
                    fine
                } else {
                    ServiceExit::ServiceSpecific(1)
                };
                WindowsService::go(
                    ServicePhase::ReportingStopped { result: outcome },
                    service_status(ServiceState::Stopped, false, 0, 0, exit),
                )
            },
            ServicePhase::ReportingStopped { result } => {
                if succeeded {
                    WindowsService::end(result)
                } else {
                    WindowsService::fail("report CentralD Windows service as stopped")
                }
            },
            ServicePhase::Ended => WindowsService::end(outcome),
        };
        self.phase = next;
        action
    }
}

/// Whether the failure log is rotated before it is written.
pub fn rotates_failure_log(length: Option<u64>) -> (result: bool)
    ensures
        result == (length is Some && length->0 > MAX_FAILURE_LOG_BYTES),
{
    match length {
        Some(length) => length > MAX_FAILURE_LOG_BYTES,
        None => false,
    }
}

/// The line that a failure has in the log.
pub fn failure_line(now: &Timestamp, error: &str) -> (result: String)
    ensures
        result@ == rfc3339_with_offset(now.seconds_spec(), now.nanos_spec())
            + " CentralDClient startup/runtime failure: "@ + error@ + "\n"@,
{
    let mut line = concat(&now.text_with_offset(), " CentralDClient startup/runtime failure: ");
    line.append(error);
    line.append("\n");
    line
}

/// A service shuts down exactly when it is told to stop or the machine shuts down, and says at once
/// that it is stopping; it implements every request that it knows.
pub proof fn services_stop_when_told(request: ControlRequest)
    ensures
        control_answer(request).shutdown <==> request is Stop || request is Shutdown,
        control_answer(request).shutdown <==> control_answer(request).report is Some,
        control_answer(request).report is Some ==> control_answer(request).report->0.state
            == ServiceState::StopPending && !control_answer(request).report->0.accepts_stop,
        control_answer(request).implemented <==> !(request is Other),
{
}

/// A service that starts well says that it starts, checks its state, says that it goes on starting
/// and then that it runs, and then runs the daemon; when that ends it says that it stopped.
pub proof fn services_start_in_order(
    before: ServicePhase,
    outcome: Result<(), String>,
    shutdown: bool,
    after: ServicePhase,
    action: ServiceAction,
)
    requires
        service_step(before, outcome, shutdown, after, action),
    ensures
        before is Registering && outcome is Ok ==> after is ReportingStart && action is Report
            && action->Report_0.state == ServiceState::StartPending,
        before is ReportingStart && outcome is Ok ==> action is Validate,
        before is Validating && outcome is Ok && !shutdown ==> after is ReportingCheckpoint
            && action is Report && action->Report_0.state == ServiceState::StartPending,
        before is Validating && outcome is Ok && shutdown ==> action is Report
            && action->Report_0.state == ServiceState::Stopped && action->Report_0.exit
            == ServiceExit::Win32(0),
        before is Validating && outcome is Err ==> action is Report && action->Report_0.state
            == ServiceState::Stopped && action->Report_0.exit == ServiceExit::ServiceSpecific(1),
        before is ReportingCheckpoint && outcome is Ok ==> after is ReportingRunning && action
            is Report && action->Report_0.state == ServiceState::Running
            && action->Report_0.accepts_stop,
        action is RunDaemon <==> before is ReportingRunning && outcome is Ok,
        before is Running ==> after is ReportingStopped && action is Report
            && action->Report_0.state == ServiceState::Stopped && (action->Report_0.exit
            == ServiceExit::Win32(0) <==> outcome is Ok),
        action is Report && action->Report_0.accepts_stop ==> action->Report_0.state
            == ServiceState::Running,
{
}

/// A service ends well exactly if what it did ended well and that could be reported.
pub proof fn services_end_as_they_ran(
    before: ServicePhase,
    outcome: Result<(), String>,
    shutdown: bool,
    after: ServicePhase,
    action: ServiceAction,
)
    requires
        service_step(before, outcome, shutdown, after, action),
        !(before is Ended),
    ensures
        action is Done <==> after is Ended,
        before is ReportingStopped && outcome is Ok ==> action == ServiceAction::Done(
            before->result,
        ),
        before is ReportingEarlyStop && outcome is Ok ==> action == ServiceAction::Done(Ok(())),
        before is ReportingFailure ==> action == ServiceAction::Done(Err(before->error)),
        outcome is Err && !(before is Validating) && !(before is Running) ==> action is Done
            && action->Done_0 is Err,
        action is Done && action->Done_0 is Ok ==> before is ReportingStopped || before
            is ReportingEarlyStop,
{
}

} // verus!
