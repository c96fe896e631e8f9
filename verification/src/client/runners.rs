//! The privileged operations that the broker runs.
//!
//! Every operation uses fixed executable paths and fixed argument lists; no shell
//! is ever spawned. Output is merged from stdout/stderr and truncated at the
//! job-event bound so a single result always fits one bounded job event.

use vstd::prelude::*;
use vstd::utf8::encode_utf8;

use crate::codec::{is_json_object, json_object};
use crate::common::grant::GrantOperation;
use crate::platform::broker::{BrokerResponse, ResponseModel};
use crate::text::views;

verus! {

/// Maximum operation output forwarded into one job event.
pub const MAX_OPERATION_OUTPUT_BYTES: usize = 65_536;

/// How long a command may run, in nanoseconds.
pub const COMMAND_TIMEOUT_NANOS: u128 = 900_000_000_000;

/// How long a command may take to end once it is asked to, in nanoseconds.
pub const GRACEFUL_TERMINATION_NANOS: u128 = 10_000_000_000;

/// Runs privileged operations of the machine.
#[derive(Debug)]
pub struct SystemOperationRunner {
    pub host: HostSystem,
}

#[derive(Debug)]
pub struct SystemRunnerError(pub String);

impl SystemRunnerError {
    pub fn message(&self) -> (result: &String)
        ensures
            *result == self.0,
    {
        &self.0
    }
}

/// The kind of machine that the broker runs on.
#[derive(Debug, Clone, Copy, PartialEq, Eq, Structural)]
pub enum HostSystem {
    Linux,
    Windows,
    Other,
}

/// How an operation is run.
#[derive(Debug)]
pub enum OperationPlan {
    /// A program with its arguments, with or without a terminal to ask on.
    Command { words: Vec<String>, noninteractive: bool },
    /// The service manager of Windows restarts the client.
    WindowsServiceRestart,
    /// Windows restarts.
    WindowsReboot,
    /// The client is updated by the job's parameters.
    UpdateClient,
}

/// How an operation is run, with its words as sequences of characters.
pub enum PlanModel {
    Command { words: Seq<Seq<char>>, noninteractive: bool },
    WindowsServiceRestart,
    WindowsReboot,
    UpdateClient,
}

impl View for OperationPlan {
    type V = PlanModel;

    open spec fn view(&self) -> PlanModel {
        match self {
            OperationPlan::Command { words, noninteractive } => PlanModel::Command {
                words: views(words@),
                noninteractive: *noninteractive,
            },
            OperationPlan::WindowsServiceRestart => PlanModel::WindowsServiceRestart,
            OperationPlan::WindowsReboot => PlanModel::WindowsReboot,
            OperationPlan::UpdateClient => PlanModel::UpdateClient,
        }
    }
}

/// How an operation is run on a machine, or why it is not.
pub open spec fn plan_of(host: HostSystem, operation: GrantOperation) -> Result<
    PlanModel,
    Seq<char>,
> {
    match operation {
        GrantOperation::RestartClientService => match host {
            HostSystem::Linux => Ok(
                PlanModel::Command {
                    words: seq!["/usr/bin/systemctl"@, "restart"@, "centrald-client.service"@],
                    noninteractive: false,
                },
            ),
            HostSystem::Windows => Ok(PlanModel::WindowsServiceRestart),
            HostSystem::Other => Err(
                "client service control is unsupported on this operating system"@,
            ),
        },
        GrantOperation::RestartMachine => match host {
            HostSystem::Linux => Ok(
                PlanModel::Command {
                    words: seq!["/usr/bin/systemctl"@, "reboot"@],
                    noninteractive: false,
                },
            ),
            HostSystem::Windows => Ok(PlanModel::WindowsReboot),
            HostSystem::Other => Err("machine restart is unsupported on this operating system"@),
        },
        GrantOperation::CheckOsUpdates => match host {
            HostSystem::Linux => Ok(
                PlanModel::Command {
                    words: seq!["/usr/bin/apt-get"@, "-s"@, "upgrade"@],
                    noninteractive: true,
                },
            ),
            _ => Err(
                "OS update checks are supported only on Debian/Ubuntu hosts in this build"@,
            ),
        },
        GrantOperation::ApplyOsUpdates => match host {
            HostSystem::Linux => Ok(
                PlanModel::Command {
                    words: seq!["/usr/bin/apt-get"@, "-y"@, "upgrade"@],
                    noninteractive: true,
                },
            ),
            _ => Err(
                "OS update execution is supported only on Debian/Ubuntu hosts in this build"@,
            ),
        },
        GrantOperation::UpdateClient => Ok(PlanModel::UpdateClient),
        GrantOperation::OpenLowShell => Err(
            "shell sessions are handled by the broker session channel, not the job runner"@,
        ),
        GrantOperation::OpenElevatedShell => Err(
            "shell sessions are handled by the broker session channel, not the job runner"@,
        ),
    }
}

/// How an operation with parameters is run, or why it is not. `object` says
/// whether the parameters are a JSON object.
pub open spec fn planned(host: HostSystem, operation: GrantOperation, object: bool) -> Result<
    PlanModel,
    Seq<char>,
> {
    if !object {
        Err("job parameters must be a JSON object"@)
    } else {
        plan_of(host, operation)
    }
}

fn words_of(program: &str, first: &str, second: Option<&str>) -> (result: Vec<String>)
    ensures
        views(result@) == match second {
            Some(word) => seq![program@, first@, word@],
            None => seq![program@, first@],
        },
{
    let mut words: Vec<String> = Vec::new();
    words.push(program.to_owned());
    words.push(first.to_owned());
    match second {
        Some(word) => {
            words.push(word.to_owned());
            assert(views(words@) =~= seq![program@, first@, word@]);
        },
        None => {
            assert(views(words@) =~= seq![program@, first@]);
        },
    }
    words
}

fn refuse<T>(message: &str) -> (result: Result<T, SystemRunnerError>)
    ensures
        result is Err,
        result->Err_0.0@ == message@,
{
    Err(SystemRunnerError(message.to_owned()))
}

/// What an operation that is only requested says.
pub open spec fn requested(operation: GrantOperation) -> Option<Seq<char>> {
    match operation {
        GrantOperation::RestartClientService => Some("client service restart requested"@),
        GrantOperation::RestartMachine => Some("machine restart requested"@),
        _ => None,
    }
}

/// What a command left: whether it succeeded, its exit code, and its output.
#[derive(Debug)]
pub struct BoundedOutput {
    pub success: bool,
    pub exit_code: i32,
    pub output: Vec<u8>,
}

/// The response to an operation that ran: what was requested, or the output up to
/// its bound.
pub open spec fn response_of(operation: GrantOperation, output: BoundedOutput) -> ResponseModel {
    match requested(operation) {
        Some(text) => ResponseModel { success: true, output: encode_utf8(text), exit_code: 0 },
        None => ResponseModel {
            success: output.success,
            output: if output.output@.len() > MAX_OPERATION_OUTPUT_BYTES {
                output.output@.take(MAX_OPERATION_OUTPUT_BYTES as int)
            } else {
                output.output@
            },
            exit_code: output.exit_code,
        },
    }
}

impl SystemOperationRunner {
    /// Tells how an operation is run, once its parameters were found to be a JSON
    /// object.
    pub fn plan(&self, operation: &GrantOperation, parameters_json: &[u8]) -> (result: Result<
        OperationPlan,
        SystemRunnerError,
    >)
        ensures
            match planned(
                self.host,
                *operation,
                parameters_json@.len() > 0 && json_object(parameters_json@),
            ) {
                Ok(plan) => result is Ok && result->Ok_0@ == plan,
                Err(text) => result is Err && result->Err_0.0@ == text,
            },
    {
        let object = parameters_json.len() > 0 && is_json_object(parameters_json);
        self.plan_for(operation, object)
    }

    /// Tells how an operation is run, given whether its parameters are a JSON
    /// object.
    pub fn plan_for(&self, operation: &GrantOperation, object: bool) -> (result: Result<
        OperationPlan,
        SystemRunnerError,
    >)
        ensures
            match planned(self.host, *operation, object) {
                Ok(plan) => result is Ok && result->Ok_0@ == plan,
                Err(text) => result is Err && result->Err_0.0@ == text,
            },
    {
        if !object {
            return refuse("job parameters must be a JSON object");
        }
        match operation {
            GrantOperation::RestartClientService => match self.host {
                HostSystem::Linux => Ok(
                    OperationPlan::Command {
                        words: words_of(
                            "/usr/bin/systemctl",
                            "restart",
                            Some("centrald-client.service"),
                        ),
                        noninteractive: false,
                    },
                ),
                HostSystem::Windows => Ok(OperationPlan::WindowsServiceRestart),
                HostSystem::Other => refuse(
                    "client service control is unsupported on this operating system",
                ),
            },
            GrantOperation::RestartMachine => match self.host {
                HostSystem::Linux => Ok(
                    OperationPlan::Command {
                        words: words_of("/usr/bin/systemctl", "reboot", None),
                        noninteractive: false,
                    },
                ),
                HostSystem::Windows => Ok(OperationPlan::WindowsReboot),
                HostSystem::Other => refuse(
                    "machine restart is unsupported on this operating system",
                ),
            },
            GrantOperation::CheckOsUpdates => match self.host {
                HostSystem::Linux => Ok(
                    OperationPlan::Command {
                        words: words_of("/usr/bin/apt-get", "-s", Some("upgrade")),
                        noninteractive: true,
                    },
                ),
                _ => refuse(
                    "OS update checks are supported only on Debian/Ubuntu hosts in this build",
                ),
            },
            GrantOperation::ApplyOsUpdates => match self.host {
                HostSystem::Linux => Ok(
                    OperationPlan::Command {
                        words: words_of("/usr/bin/apt-get", "-y", Some("upgrade")),
                        noninteractive: true,
                    },
                ),
                _ => refuse(
                    "OS update execution is supported only on Debian/Ubuntu hosts in this build",
                ),
            },
            GrantOperation::UpdateClient => Ok(OperationPlan::UpdateClient),
            _ => refuse(
                "shell sessions are handled by the broker session channel, not the job runner",
            ),
        }
    }

    /// Makes a response of what running an operation left, or an error of why it
    /// failed.
    pub fn conclude(&self, operation: &GrantOperation, outcome: Result<BoundedOutput, String>) -> (
        result: Result<BrokerResponse, SystemRunnerError>)
        ensures
            match outcome {
                Ok(output) => result is Ok && result->Ok_0@ == response_of(*operation, output),
                Err(text) => result is Err && result->Err_0.0 == text,
            },
    {
        let output = match outcome {
            Ok(output) => output,
            Err(text) => return Err(SystemRunnerError(text)),
        };
        match operation {
            GrantOperation::RestartClientService => Ok(
                BrokerResponse {
                    success: true,
                    output: "client service restart requested".as_bytes_vec(),
                    exit_code: 0,
                },
            ),
            GrantOperation::RestartMachine => Ok(
                BrokerResponse {
                    success: true,
                    output: "machine restart requested".as_bytes_vec(),
                    exit_code: 0,
                },
            ),
            _ => {
                let mut body = output.output;
                if body.len() > MAX_OPERATION_OUTPUT_BYTES {
                    body.truncate(MAX_OPERATION_OUTPUT_BYTES);
                }
                Ok(
                    BrokerResponse {
                        success: output.success,
                        output: body,
                        exit_code: output.exit_code,
                    },
                )
            },
        }
    }
}

/// A response never holds more output than fits a job event.
pub proof fn responses_fit_a_job_event(operation: GrantOperation, output: BoundedOutput)
    ensures
        response_of(operation, output).output.len() <= MAX_OPERATION_OUTPUT_BYTES,
{
    match requested(operation) {
        Some(text) => {
            reveal_strlit("client service restart requested");
            reveal_strlit("machine restart requested");
            utf8_bound(text);
        },
        None => {},
    }
}

/// No character takes more than four bytes.
proof fn utf8_bound(text: Seq<char>)
    ensures
        encode_utf8(text).len() <= 4 * text.len(),
    decreases text.len(),
{
    if text.len() > 0 {
        utf8_bound(text.drop_first());
    }
    reveal_with_fuel(encode_utf8, 2);
}

/// The output of a command while it is read: both streams, each up to its bound,
/// until together they reach the bound of one.
#[derive(Debug)]
pub struct OutputMerger {
    merged: Vec<u8>,
    stdout_remaining: usize,
    stderr_remaining: usize,
    capped: bool,
}

/// What was read of a command's output.
pub struct MergerModel {
    pub merged: Seq<u8>,
    pub stdout_remaining: nat,
    pub stderr_remaining: nat,
    pub capped: bool,
}

impl View for OutputMerger {
    type V = MergerModel;

    closed spec fn view(&self) -> MergerModel {
        MergerModel {
            merged: self.merged@,
            stdout_remaining: self.stdout_remaining as nat,
            stderr_remaining: self.stderr_remaining as nat,
            capped: self.capped,
        }
    }
}

/// How much of a chunk is kept.
pub open spec fn kept(capped: bool, length: nat, remaining: nat) -> nat {
    if capped {
        0
    } else if length < remaining {
        length
    } else {
        remaining
    }
}

/// What was read after another chunk of each stream.
pub open spec fn merged_after(before: MergerModel, stdout: Seq<u8>, stderr: Seq<u8>) ->
    MergerModel {
    let first = kept(before.capped, stdout.len(), before.stdout_remaining);
    let second = kept(before.capped, stderr.len(), before.stderr_remaining);
    let merged = before.merged + stdout.take(first as int) + stderr.take(second as int);
    MergerModel {
        merged,
        stdout_remaining: (before.stdout_remaining - first) as nat,
        stderr_remaining: (before.stderr_remaining - second) as nat,
        capped: before.capped || merged.len() >= MAX_OPERATION_OUTPUT_BYTES,
    }
}

fn keep_chunk(merged: &mut Vec<u8>, chunk: &[u8], count: usize)
    requires
        count <= chunk.len(),
    ensures
        final(merged)@ == old(merged)@ + chunk@.take(count as int),
{
    let ghost before = merged@;
    let mut i: usize = 0;
    assert(before + chunk@.take(0) =~= before);
    while i < count
        invariant
            i <= count <= chunk.len(),
            merged@ == before + chunk@.take(i as int),
        decreases count - i,
    {
        merged.push(chunk[i]);
        assert(merged@ =~= before + chunk@.take(i + 1));
        i += 1;
    }
}

impl OutputMerger {
    pub fn new() -> (result: OutputMerger)
        ensures
            result@ == (MergerModel {
                merged: Seq::empty(),
                stdout_remaining: MAX_OPERATION_OUTPUT_BYTES as nat,
                stderr_remaining: MAX_OPERATION_OUTPUT_BYTES as nat,
                capped: false,
            }),
            result.wf(),
    {
        OutputMerger {
            merged: Vec::new(),
            stdout_remaining: MAX_OPERATION_OUTPUT_BYTES,
            stderr_remaining: MAX_OPERATION_OUTPUT_BYTES,
            capped: false,
        }
    }

    /// What was kept of both streams, and what may still be kept of them, is
    /// twice the bound of one.
    pub open spec fn wf(self) -> bool {
        self@.merged.len() + self@.stdout_remaining + self@.stderr_remaining == 2
            * MAX_OPERATION_OUTPUT_BYTES
    }

    /// Takes another chunk of each stream, and tells whether both ended. After
    /// the cap the streams are still drained, so the child can exit instead of
    /// blocking on a full pipe.
    pub fn accept(&mut self, stdout: &[u8], stderr: &[u8]) -> (ended: bool)
        requires
            old(self).wf(),
        ensures
            final(self).wf(),
            final(self)@ == merged_after(old(self)@, stdout@, stderr@),
            ended == (stdout@.len() == 0 && stderr@.len() == 0),
    {
        let first: usize = if self.capped {
            0
        } else if stdout.len() < self.stdout_remaining {
            stdout.len()
        } else {
            self.stdout_remaining
        };
        keep_chunk(&mut self.merged, stdout, first);
        self.stdout_remaining = self.stdout_remaining - first;
        let second: usize = if self.capped {
            0
        } else if stderr.len() < self.stderr_remaining {
            stderr.len()
        } else {
            self.stderr_remaining
        };
        keep_chunk(&mut self.merged, stderr, second);
        self.stderr_remaining = self.stderr_remaining - second;
        if self.merged.len() >= MAX_OPERATION_OUTPUT_BYTES {
            self.capped = true;
        }
        stdout.len() == 0 && stderr.len() == 0
    }

    /// What was kept of the output.
    pub fn finish(self) -> (result: Vec<u8>)
        requires
            self.wf(),
        ensures
            result@ == self@.merged,
            result@.len() <= 2 * MAX_OPERATION_OUTPUT_BYTES,
    {
        self.merged
    }
}

/// How far the wait for a command is.
#[derive(Debug, Clone, Copy, PartialEq, Eq, Structural)]
pub enum WaitPhase {
    Running,
    /// It was asked to end, by a deadline.
    Terminating { deadline: u128 },
    /// The deadline passed: it is looked at once more.
    LastLook,
}

/// What was seen of a command: it ended with a status, it runs, or it could not
/// be looked at.
#[derive(Debug, Clone, Copy, PartialEq, Eq, Structural)]
pub enum WaitEvent {
    Exited { success: bool, code: Option<i32> },
    Running,
    Failed,
}

/// What is done next: to wait for a tenth of a second, to ask the whole process
/// tree to end and look again, to look again, to give the status, to kill the
/// process tree and fail, and to fail.
#[derive(Debug, Clone, Copy, PartialEq, Eq, Structural)]
pub enum WaitAction {
    Sleep,
    Terminate,
    LookAgain,
    Finish { success: bool, exit_code: i32 },
    KillThenTimeOut,
    TimeOut,
    PollFailed,
    GracefulPollFailed,
}

impl WaitAction {
    /// What the command's failure is told as.
    pub open spec fn failure_spec(self) -> Option<Seq<char>> {
        match self {
            WaitAction::KillThenTimeOut => Some(
                "privileged operation command exceeded the 900s timeout"@,
            ),
            WaitAction::TimeOut => Some("privileged operation command exceeded the 900s timeout"@),
            WaitAction::PollFailed => Some("poll privileged operation command"@),
            WaitAction::GracefulPollFailed => Some(
                "poll graceful privileged operation termination"@,
            ),
            _ => None,
        }
    }

    pub fn failure(&self) -> (result: Option<&'static str>)
        ensures
            match result {
                Some(text) => self.failure_spec() == Some(text@),
                None => self.failure_spec() is None,
            },
    {
        match self {
            WaitAction::KillThenTimeOut => Some(
                "privileged operation command exceeded the 900s timeout",
            ),
            WaitAction::TimeOut => Some("privileged operation command exceeded the 900s timeout"),
            WaitAction::PollFailed => Some("poll privileged operation command"),
            WaitAction::GracefulPollFailed => Some(
                "poll graceful privileged operation termination",
            ),
            _ => None,
        }
    }
}

/// What comes next in the wait for a command, so many nanoseconds after it
/// began.
///
/// Graceful first: dpkg/apt-get must not be killed while holding its package
/// database. The whole tree is asked to end, and anything still alive is killed a
/// while later.
pub open spec fn wait_next(phase: WaitPhase, event: WaitEvent, elapsed: u128) -> (
    WaitPhase,
    WaitAction,
) {
    match (phase, event) {
        (WaitPhase::Running, WaitEvent::Exited { success, code }) => (
            phase,
            WaitAction::Finish {
                success,
                exit_code: match code {
                    Some(code) => code,
                    None => 1,
                },
            },
        ),
        (WaitPhase::Running, WaitEvent::Failed) => (phase, WaitAction::PollFailed),
        (WaitPhase::Running, WaitEvent::Running) => if elapsed > COMMAND_TIMEOUT_NANOS {
            (
                WaitPhase::Terminating {
                    deadline: if elapsed > u128::MAX - GRACEFUL_TERMINATION_NANOS {
                        u128::MAX
                    } else {
                        (elapsed + GRACEFUL_TERMINATION_NANOS) as u128
                    },
                },
                WaitAction::Terminate,
            )
        } else {
            (phase, WaitAction::Sleep)
        },
        (WaitPhase::Terminating { .. }, WaitEvent::Exited { .. }) => (phase, WaitAction::TimeOut),
        (WaitPhase::Terminating { .. }, WaitEvent::Failed) => (
            phase,
            WaitAction::GracefulPollFailed,
        ),
        (WaitPhase::Terminating { deadline }, WaitEvent::Running) => if elapsed >= deadline {
            (WaitPhase::LastLook, WaitAction::LookAgain)
        } else {
            (phase, WaitAction::Sleep)
        },
        (WaitPhase::LastLook, WaitEvent::Exited { .. }) => (phase, WaitAction::TimeOut),
        (WaitPhase::LastLook, WaitEvent::Failed) => (phase, WaitAction::PollFailed),
        (WaitPhase::LastLook, WaitEvent::Running) => (phase, WaitAction::KillThenTimeOut),
    }
}

/// A command is only killed after it was asked to end and its grace went by.
pub proof fn killing_comes_last(phase: WaitPhase, event: WaitEvent, elapsed: u128)
    requires
        wait_next(phase, event, elapsed).1 == WaitAction::KillThenTimeOut,
    ensures
        phase == WaitPhase::LastLook,
        forall|before: WaitPhase, seen: WaitEvent, at: u128|
            (#[trigger] wait_next(before, seen, at)).0 == WaitPhase::LastLook ==> before
                == WaitPhase::LastLook || (before matches WaitPhase::Terminating { deadline }
                && at >= deadline),
{
}

/// A command that is waited for.
#[derive(Debug)]
pub struct CommandWait {
    pub phase: WaitPhase,
}

impl CommandWait {
    pub fn new() -> (result: CommandWait)
        ensures
            result.phase == WaitPhase::Running,
    {
        CommandWait { phase: WaitPhase::Running }
    }

    /// Tells what is done next.
    pub fn step(&mut self, event: WaitEvent, elapsed: u128) -> (action: WaitAction)
        ensures
            (final(self).phase, action) == wait_next(old(self).phase, event, elapsed),
    {
        match (self.phase, event) {
            (WaitPhase::Running, WaitEvent::Exited { success, code }) => WaitAction::Finish {
                success,
                exit_code: match code {
                    Some(code) => code,
                    None => 1,
                },
            },
            (WaitPhase::Running, WaitEvent::Failed) => WaitAction::PollFailed,
            (WaitPhase::Running, WaitEvent::Running) => {
                if elapsed > COMMAND_TIMEOUT_NANOS {
                    let deadline: u128 = if elapsed > u128::MAX - GRACEFUL_TERMINATION_NANOS {
                        u128::MAX
                    } else {
                        elapsed + GRACEFUL_TERMINATION_NANOS
                    };
                    self.phase = WaitPhase::Terminating { deadline };
                    WaitAction::Terminate
                } else {
                    WaitAction::Sleep
                }
            },
            (WaitPhase::Terminating { .. }, WaitEvent::Exited { .. }) => WaitAction::TimeOut,
            (WaitPhase::Terminating { .. }, WaitEvent::Failed) => WaitAction::GracefulPollFailed,
            (WaitPhase::Terminating { deadline }, WaitEvent::Running) => {
                if elapsed >= deadline {
                    self.phase = WaitPhase::LastLook;
                    WaitAction::LookAgain
                } else {
                    WaitAction::Sleep
                }
            },
            (WaitPhase::LastLook, WaitEvent::Exited { .. }) => WaitAction::TimeOut,
            (WaitPhase::LastLook, WaitEvent::Failed) => WaitAction::PollFailed,
            (WaitPhase::LastLook, WaitEvent::Running) => WaitAction::KillThenTimeOut,
        }
    }
}

/// The plan that an operation with usable parameters has on a host.
pub open spec fn usable_plan(host: HostSystem, operation: GrantOperation) -> Option<PlanModel> {
    match planned(host, operation, true) {
        Ok(plan) => Some(plan),
        Err(_) => None,
    }
}

/// Looking for updates never changes the machine: the command that looks simulates,
/// never answers yes for the operator, and is not the one that installs.
pub proof fn checking_updates_changes_nothing(host: HostSystem, object: bool)
    ensures
        match planned(host, GrantOperation::CheckOsUpdates, object) {
            Ok(PlanModel::Command { words, noninteractive }) => {
                &&& object
                &&& host == HostSystem::Linux
                &&& noninteractive
                &&& words.len() == 3
                &&& words[0] == "/usr/bin/apt-get"@
                &&& words[1] == "-s"@
                &&& words[2] == "upgrade"@
                &&& !words.contains("-y"@)
                &&& planned(host, GrantOperation::ApplyOsUpdates, object) != planned(
                    host,
                    GrantOperation::CheckOsUpdates,
                    object,
                )
            },
            Ok(_) => false,
            Err(_) => !object || host != HostSystem::Linux,
        },
{
    reveal_strlit("-s");
    reveal_strlit("-y");
    reveal_strlit("upgrade");
    reveal_strlit("/usr/bin/apt-get");
    assert("-s"@[1] != "-y"@[1]);
    if object && host == HostSystem::Linux {
        let looking = planned(host, GrantOperation::CheckOsUpdates, object)->Ok_0->words;
        let installing = planned(host, GrantOperation::ApplyOsUpdates, object)->Ok_0->words;
        assert(looking[1] != installing[1]);
        assert(!looking.contains("-y"@)) by {
            assert("-y"@.len() == 2 && "upgrade"@.len() == 7 && "/usr/bin/apt-get"@.len() == 16);
        }
    }
}

/// Installing updates upgrades without asking, and nothing else: the same program as
/// looking for them, which does not simulate.
pub proof fn applying_updates_upgrades(host: HostSystem, object: bool)
    ensures
        match planned(host, GrantOperation::ApplyOsUpdates, object) {
            Ok(PlanModel::Command { words, noninteractive }) => {
                &&& object
                &&& host == HostSystem::Linux
                &&& noninteractive
                &&& words.len() == 3
                &&& words[0] == "/usr/bin/apt-get"@
                &&& words[1] == "-y"@
                &&& words[2] == "upgrade"@
                &&& !words.contains("-s"@)
            },
            Ok(_) => false,
            Err(_) => !object || host != HostSystem::Linux,
        },
{
    reveal_strlit("-s");
    reveal_strlit("-y");
    reveal_strlit("upgrade");
    reveal_strlit("/usr/bin/apt-get");
    assert("-s"@[1] != "-y"@[1]);
}

/// A restart of the service restarts the client's own service and not the machine,
/// and a restart of the machine is no restart of the service.
pub proof fn restarts_restart_what_was_granted(host: HostSystem, object: bool)
    ensures
        match planned(host, GrantOperation::RestartClientService, object) {
            Ok(PlanModel::Command { words, .. }) => {
                &&& object
                &&& host == HostSystem::Linux
                &&& words.len() == 3
                &&& words[0] == "/usr/bin/systemctl"@
                &&& words[1] == "restart"@
                &&& words[2] == "centrald-client.service"@
            },
            Ok(PlanModel::WindowsServiceRestart) => object && host == HostSystem::Windows,
            Ok(_) => false,
            Err(_) => !object || host == HostSystem::Other,
        },
        match planned(host, GrantOperation::RestartMachine, object) {
            Ok(PlanModel::Command { words, .. }) => {
                &&& object
                &&& host == HostSystem::Linux
                &&& words.len() == 2
                &&& words[0] == "/usr/bin/systemctl"@
                &&& words[1] == "reboot"@
            },
            Ok(PlanModel::WindowsReboot) => object && host == HostSystem::Windows,
            Ok(_) => false,
            Err(_) => !object || host == HostSystem::Other,
        },
{
}

/// Two operations never have the same plan: what is run tells which operation was
/// granted.
pub proof fn plans_tell_operations_apart(
    host: HostSystem,
    first: GrantOperation,
    second: GrantOperation,
)
    requires
        usable_plan(host, first) is Some,
        usable_plan(host, first) == usable_plan(host, second),
    ensures
        first == second,
{
    reveal_strlit("/usr/bin/systemctl");
    reveal_strlit("/usr/bin/apt-get");
    reveal_strlit("-s");
    reveal_strlit("-y");
    let a = usable_plan(host, first)->0;
    let b = usable_plan(host, second)->0;
    assert("-s"@[1] != "-y"@[1]);
    assert("/usr/bin/systemctl"@.len() != "/usr/bin/apt-get"@.len());
    if a is Command && b is Command {
        assert(a->words.len() == b->words.len());
        assert(a->words[0] == b->words[0]);
        assert(a->words[1] == b->words[1]);
    }
}

/// A job needs parameters that are a JSON object whatever its operation is, a shell is
/// never a job, and the client updates itself on every host.
pub proof fn only_jobs_are_planned(host: HostSystem, operation: GrantOperation)
    ensures
        planned(host, operation, false) is Err,
        operation == GrantOperation::OpenLowShell || operation == GrantOperation::OpenElevatedShell
            ==> planned(host, operation, true) is Err,
        (operation == GrantOperation::UpdateClient) == (usable_plan(host, operation) == Some(
            PlanModel::UpdateClient,
        )),
        host == HostSystem::Other && operation != GrantOperation::UpdateClient
            ==> planned(host, operation, true) is Err,
{
}

/// What is told of a command is what came of it: its own verdict, its own code and
/// the beginning of its own output. Only a restart, which may end the broker before
/// its command ends, is told as requested.
pub proof fn answers_tell_what_the_command_did(operation: GrantOperation, output: BoundedOutput)
    ensures
        ({
            let told = response_of(operation, output);
            if operation == GrantOperation::RestartClientService || operation
                == GrantOperation::RestartMachine {
                told.success && told.exit_code == 0
            } else {
                &&& told.success == output.success
                &&& told.exit_code == output.exit_code
                &&& told.output.is_prefix_of(output.output@)
                &&& output.output@.len() <= 65_536 ==> told.output == output.output@
                &&& output.output@.len() > 65_536 ==> told.output.len() == 65_536
            }
        }),
{
}

/// Output is merged in the order in which it came, standard output first; nothing
/// that was kept is lost, and while there is room nothing new is.
pub proof fn merged_output_is_kept(before: MergerModel, stdout: Seq<u8>, stderr: Seq<u8>)
    ensures
        ({
            let after = merged_after(before, stdout, stderr);
            &&& before.merged.is_prefix_of(after.merged)
            &&& before.capped ==> after.merged == before.merged && after.capped
            &&& !before.capped && stdout.len() <= before.stdout_remaining && stderr.len()
                <= before.stderr_remaining ==> after.merged == before.merged + stdout + stderr
            &&& after.merged.len() >= 65_536 ==> after.capped
            &&& !before.capped && after.capped ==> after.merged.len() >= 65_536
        }),
{
    let after = merged_after(before, stdout, stderr);
    if !before.capped && stdout.len() <= before.stdout_remaining && stderr.len()
        <= before.stderr_remaining {
        assert(stdout.take(stdout.len() as int) =~= stdout);
        assert(stderr.take(stderr.len() as int) =~= stderr);
    }
    if before.capped {
        assert(after.merged =~= before.merged);
    }
}

/// A command that ends by itself is told with its own verdict, however late it is
/// looked at; one that runs is left alone for fifteen minutes and asked to end after
/// that; and one that was asked to end is never told as having finished.
pub proof fn commands_are_waited_for(phase: WaitPhase, event: WaitEvent, elapsed: u128)
    ensures
        ({
            let (next, action) = wait_next(phase, event, elapsed);
            &&& phase == WaitPhase::Running ==> match event {
                WaitEvent::Exited { success, code } => action == (WaitAction::Finish {
                    success,
                    exit_code: if code is Some {
                        code->0
                    } else {
                        1
                    },
                }),
                WaitEvent::Running => if elapsed <= 900_000_000_000 {
                    next == phase && action == WaitAction::Sleep
                } else {
                    &&& action == WaitAction::Terminate
                    &&& next matches WaitPhase::Terminating { deadline }
                    &&& deadline <= elapsed + 10_000_000_000
                    &&& deadline == elapsed + 10_000_000_000 || deadline == u128::MAX
                },
                WaitEvent::Failed => action.failure_spec() is Some,
            }
            &&& phase != WaitPhase::Running ==> !(action is Finish) && next != WaitPhase::Running
            &&& (phase matches WaitPhase::Terminating { deadline } && event == WaitEvent::Running
                && elapsed < deadline) ==> action == WaitAction::Sleep && next == phase
            &&& action is Finish ==> action.failure_spec() is None
            &&& action == WaitAction::Terminate ==> phase == WaitPhase::Running && event
                == WaitEvent::Running
            &&& event is Exited && phase != WaitPhase::Running ==> action.failure_spec() is Some
        }),
{
}

} // verus!
