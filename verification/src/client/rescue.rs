//! Bounded, redacted client diagnostics and the control of the client's service.

use vstd::prelude::*;

use crate::common::config::{client_fault, ClientConfig};
use crate::common::secure_fs::EntryKind;
use crate::ident::{hyphenated, id_text};
use crate::instant::{rfc3339_with_offset, Timestamp};
use crate::text::{
    caused, concat, contains_text, has_text, lines, lower_ascii, parse_unsigned, split_words,
    starts_with, tell, text_lines, told, trim, trimmed, unsigned, views, with_cause, words,
};

verus! {

/// One check of the client.
#[derive(Debug)]
pub struct RescueCheck {
    pub name: &'static str,
    pub ok: bool,
    pub detail: String,
}

/// A check, with its texts as sequences of characters.
pub struct CheckModel {
    pub name: Seq<char>,
    pub ok: bool,
    pub detail: Seq<char>,
}

impl View for RescueCheck {
    type V = CheckModel;

    open spec fn view(&self) -> CheckModel {
        CheckModel { name: self.name@, ok: self.ok, detail: self.detail@ }
    }
}

/// The views of checks.
pub open spec fn check_views(checks: Seq<RescueCheck>) -> Seq<CheckModel> {
    checks.map_values(|check: RescueCheck| check@)
}

pub open spec fn passed(name: Seq<char>, detail: Seq<char>) -> CheckModel {
    CheckModel { name, ok: true, detail }
}

pub open spec fn not_passed(name: Seq<char>, detail: Seq<char>) -> CheckModel {
    CheckModel { name, ok: false, detail }
}

fn ok(name: &'static str, detail: String) -> (result: RescueCheck)
    ensures
        result@ == passed(name@, detail@),
{
    RescueCheck { name, ok: true, detail }
}

fn failed(name: &'static str, detail: String) -> (result: RescueCheck)
    ensures
        result@ == not_passed(name@, detail@),
{
    RescueCheck { name, ok: false, detail }
}

/// What a report says of the client.
#[derive(Debug)]
pub struct IdentitySummary {
    pub config_path: String,
    pub identity_id: String,
    pub server_name: String,
    pub endpoint: String,
    pub certificate_expires_at: String,
}

/// Says whose configuration it is. No credential is in it.
pub fn identity_summary(path: &str, config: &ClientConfig) -> (result: IdentitySummary)
    ensures
        result.config_path@ == path@,
        result.identity_id@ == hyphenated(config.identity_id),
        result.server_name == config.server_name,
        result.endpoint == config.endpoint,
        result.certificate_expires_at@ == rfc3339_with_offset(
            config.certificate_expires_at.seconds_spec(),
            config.certificate_expires_at.nanos_spec(),
        ),
{
    IdentitySummary {
        config_path: path.to_owned(),
        identity_id: id_text(config.identity_id),
        server_name: config.server_name.clone(),
        endpoint: config.endpoint.clone(),
        certificate_expires_at: config.certificate_expires_at.text_with_offset(),
    }
}

/// A file that is checked: what stands at its path with what permissions, or why
/// looking failed.
#[derive(Debug)]
pub struct CheckedFile {
    pub path: String,
    pub found: Result<(EntryKind, u32), String>,
}

/// The check of a file, which must be a regular one and, where it is private on a
/// Unix machine, accessible to nobody but its owner.
pub open spec fn file_check(name: Seq<char>, file: CheckedFile, private: bool, unix: bool) ->
    CheckModel {
    match file.found {
        Err(error) => not_passed(name, file.path@ + ": "@ + error@),
        Ok((kind, mode)) => if !(kind is Regular) {
            not_passed(name, file.path@ + " is not a regular file"@)
        } else if unix && private && mode & 0o077 != 0 {
            not_passed(name, file.path@ + " is accessible outside its owner"@)
        } else {
            passed(name, file.path@)
        },
    }
}

/// Checks a file.
pub fn check_file(name: &'static str, file: &CheckedFile, private: bool, unix: bool) -> (result:
    RescueCheck)
    ensures
        result@ == file_check(name@, *file, private, unix),
{
    match &file.found {
        Err(error) => {
            let mut detail = concat(&file.path, ": ");
            detail.append(error);
            failed(name, detail)
        },
        Ok((kind, mode)) => {
            if *kind != EntryKind::Regular {
                return failed(name, concat(&file.path, " is not a regular file"));
            }
            if unix && private && *mode & 0o077 != 0 {
                return failed(name, concat(&file.path, " is accessible outside its owner"));
            }
            ok(name, file.path.clone())
        },
    }
}

/// What a command of a service manager left, as text.
#[derive(Debug)]
pub struct CommandOutput {
    pub success: bool,
    pub stdout: String,
    pub stderr: String,
    /// How it ended, in words.
    pub status: String,
}

/// What a failed command says.
pub open spec fn detail_of(output: CommandOutput) -> Seq<char> {
    if trim(output.stderr@).len() > 0 {
        trim(output.stderr@)
    } else if trim(output.stdout@).len() > 0 {
        trim(output.stdout@)
    } else {
        "exit status "@ + output.status@
    }
}

/// Tells what a failed command says.
pub fn command_detail(output: &CommandOutput) -> (result: String)
    ensures
        result@ == detail_of(*output),
{
    let stderr = trimmed(&output.stderr);
    let stdout = trimmed(&output.stdout);
    if !stderr.as_str().is_empty() {
        stderr
    } else if !stdout.as_str().is_empty() {
        stdout
    } else {
        concat("exit status ", &output.status)
    }
}

/// What the service manager said that failed, if it did.
pub open spec fn manager_fault(output: CommandOutput) -> Option<Seq<char>> {
    if output.success {
        None
    } else {
        Some("service manager failed: "@ + detail_of(output))
    }
}

/// Judges what a command of a service manager left.
pub fn run_checked(output: &CommandOutput) -> (result: Result<(), String>)
    ensures
        told(
            result,
            manager_fault(*output),
        ),
{
    if output.success {
        Ok(())
    } else {
        tell(&concat("service manager failed: ", &command_detail(output)))
    }
}

/// The effective user that the kernel's file on a process names, in the lines
/// from `i` on: the first line about users counts.
pub open spec fn effective_uid(lines: Seq<Seq<char>>, i: int) -> Option<nat>
    decreases lines.len() - i,
{
    if i < 0 || i >= lines.len() {
        None
    } else if "Uid:"@.is_prefix_of(lines[i]) {
        let fields = words(lines[i]);
        if fields.len() > 2 {
            unsigned(fields[2], u32::MAX as nat)
        } else {
            None
        }
    } else {
        effective_uid(lines, i + 1)
    }
}

fn read_effective_uid(status: &str) -> (result: Option<u64>)
    ensures
        match result {
            Some(uid) => effective_uid(lines(status@), 0) == Some(uid as nat),
            None => effective_uid(lines(status@), 0) is None,
        },
{
    let all = text_lines(status);
    let ghost texts = lines(status@);
    let mut i: usize = 0;
    while i < all.len()
        invariant
            i <= all.len(),
            texts == views(all@),
            texts == lines(status@),
            effective_uid(texts, 0) == effective_uid(texts, i as int),
        decreases all.len() - i,
    {
        assert(texts[i as int] == all@[i as int]@);
        if starts_with(&all[i], "Uid:") {
            let fields = split_words(&all[i]);
            assert(words(texts[i as int]).len() == fields.len());
            if fields.len() > 2 {
                assert(words(texts[i as int])[2] == fields@[2]@);
                return parse_unsigned(&fields[2], 0xffff_ffff);
            }
            return None;
        }
        i += 1;
    }
    None
}

/// What forbids a repair, if anything, by the kernel's file on this process.
pub open spec fn privilege_fault(status: Seq<char>) -> Option<Seq<char>> {
    match effective_uid(lines(status), 0) {
        None => Some("determine effective UID"@),
        Some(uid) => if uid != 0 {
            Some("centrald-client rescue --repair must run as root"@)
        } else {
            None
        },
    }
}

/// Checks that a repair is run as root, by the kernel's file on this process.
pub fn require_repair_privilege(status: &str) -> (result: Result<(), String>)
    ensures
        told(result, privilege_fault(status@)),
{
    match read_effective_uid(status) {
        None => tell("determine effective UID"),
        Some(uid) => {
            if uid != 0 {
                return tell("centrald-client rescue --repair must run as root");
            }
            Ok(())
        },
    }
}

/// The check of the client's service by the service manager of Linux.
pub open spec fn linux_status(query: Result<CommandOutput, String>) -> CheckModel {
    match query {
        Ok(output) => if output.success {
            passed("client service"@, "active"@)
        } else {
            not_passed("client service"@, detail_of(output))
        },
        Err(error) => not_passed("client service"@, error@),
    }
}

/// Checks the client's service by what the service manager of Linux says.
pub fn linux_service_status(query: &Result<CommandOutput, String>) -> (result: RescueCheck)
    ensures
        result@ == linux_status(*query),
{
    match query {
        Ok(output) => {
            if output.success {
                ok("client service", "active".to_owned())
            } else {
                failed("client service", command_detail(output))
            }
        },
        Err(error) => failed("client service", error.clone()),
    }
}

/// Whether a text names the client's account, in letters of either case.
pub open spec fn names_account(text: Seq<char>) -> bool {
    contains_text(
        text.map_values(|c: char| lower_ascii(c)),
        "nt service\\centraldclient"@,
    )
}

/// The check of the client's service by the service manager of Windows: what it
/// says of the service, and of the account that the service has.
pub open spec fn windows_status(
    manager: bool,
    query: Result<CommandOutput, String>,
    account: Result<CommandOutput, String>,
) -> CheckModel {
    if !manager {
        not_passed("client service"@, "Windows system directory is unavailable"@)
    } else {
        match query {
            Err(error) => not_passed("client service"@, error@),
            Ok(service) => if !service.success {
                not_passed("client service"@, detail_of(service))
            } else {
                match account {
                    Err(error) => not_passed("client service identity"@, error@),
                    Ok(configured) => if !configured.success {
                        not_passed("client service identity"@, detail_of(configured))
                    } else if !names_account(configured.stdout@) {
                        not_passed(
                            "client service identity"@,
                            "service is not configured for NT SERVICE\\CentralDClient"@,
                        )
                    } else if contains_text(service.stdout@, "RUNNING"@) {
                        passed(
                            "client service"@,
                            "running under NT SERVICE\\CentralDClient"@,
                        )
                    } else {
                        not_passed(
                            "client service"@,
                            "installed with the correct identity but not running"@,
                        )
                    },
                }
            },
        }
    }
}

/// Checks the client's service by what the service manager of Windows says.
pub fn windows_service_status(
    manager: bool,
    query: &Result<CommandOutput, String>,
    account: &Result<CommandOutput, String>,
) -> (result: RescueCheck)
    ensures
        result@ == windows_status(manager, *query, *account),
{
    if !manager {
        return failed("client service", "Windows system directory is unavailable".to_owned());
    }
    let service = match query {
        Ok(output) => output,
        Err(error) => return failed("client service", error.clone()),
    };
    if !service.success {
        return failed("client service", command_detail(service));
    }
    let configured = match account {
        Ok(output) => output,
        Err(error) => return failed("client service identity", error.clone()),
    };
    if !configured.success {
        return failed("client service identity", command_detail(configured));
    }
    let lowered = crate::text::lower_case(&configured.stdout);
    if !has_text(&lowered, "nt service\\centraldclient") {
        return failed(
            "client service identity",
            "service is not configured for NT SERVICE\\CentralDClient".to_owned(),
        );
    }
    if has_text(&service.stdout, "RUNNING") {
        ok("client service", "running under NT SERVICE\\CentralDClient".to_owned())
    } else {
        failed("client service", "installed with the correct identity but not running".to_owned())
    }
}

/// How far the restart of the client's Windows service is.
#[derive(Debug, Clone, Copy, PartialEq, Eq, Structural)]
pub enum RestartPhase {
    Querying,
    Stopping,
    /// It was looked at so many times whether it stopped.
    Waiting { looks: u32 },
    Starting,
}

/// What the restart of the client's Windows service does next.
#[derive(Debug)]
pub enum RestartAction {
    Stop,
    /// Waits a quarter of a second, and looks again.
    WaitAndQuery,
    Start,
    Done(Result<(), String>),
}

pub open spec fn restart_ends(action: RestartAction, text: Seq<char>) -> bool {
    action matches RestartAction::Done(Err(error)) && error@ == text
}

/// How many times the service is looked at until it stopped.
pub const STOP_LOOKS: u32 = 120;

/// Whether an action and a phase are what a command of the service manager calls
/// for. `start` says whether the service is started again.
pub open spec fn restart_step(
    start: bool,
    before: RestartPhase,
    output: CommandOutput,
    after: RestartPhase,
    action: RestartAction,
) -> bool {
    let stopped = if start {
        after == RestartPhase::Starting && action is Start
    } else {
        after == before && action == RestartAction::Done(Ok(()))
    };
    match before {
        RestartPhase::Querying => if !output.success {
            after == before && restart_ends(action, "CentralDClient service is not installed"@)
        } else if contains_text(output.stdout@, "RUNNING"@) {
            after == RestartPhase::Stopping && action is Stop
        } else {
            stopped
        },
        RestartPhase::Stopping => if output.success {
            after == (RestartPhase::Waiting { looks: 0 }) && action is WaitAndQuery
        } else {
            after == before && restart_ends(
                action,
                "service manager failed: "@ + detail_of(output),
            )
        },
        RestartPhase::Waiting { looks } => if contains_text(output.stdout@, "STOPPED"@) {
            stopped
        } else if looks + 1 >= STOP_LOOKS {
            after == before && restart_ends(
                action,
                "timed out waiting for CentralDClient to stop"@,
            )
        } else {
            after == (RestartPhase::Waiting { looks: (looks + 1) as u32 })
                && action is WaitAndQuery
        },
        RestartPhase::Starting => {
            &&& after == before
            &&& action matches RestartAction::Done(done)
            &&& told(
                done,
                if output.success {
                    None
                } else {
                    Some("service manager failed: "@ + detail_of(output))
                },
            )
        },
    }
}

/// The restart, or the stop, of the client's Windows service.
#[derive(Debug)]
pub struct WindowsServiceRestart {
    pub start: bool,
    pub phase: RestartPhase,
}

impl WindowsServiceRestart {
    pub fn new(start: bool) -> (result: WindowsServiceRestart)
        ensures
            result.start == start,
            result.phase == RestartPhase::Querying,
    {
        WindowsServiceRestart { start, phase: RestartPhase::Querying }
    }

    fn stopped(&mut self) -> (action: RestartAction)
        ensures
            final(self).start == old(self).start,
            if old(self).start {
                final(self).phase == RestartPhase::Starting && action is Start
            } else {
                final(self).phase == old(self).phase && action == RestartAction::Done(Ok(()))
            },
    {
        if self.start {
            self.phase = RestartPhase::Starting;
            RestartAction::Start
        } else {
            RestartAction::Done(Ok(()))
        }
    }

    /// Tells what is done next after a command of the service manager.
    pub fn step(&mut self, output: &CommandOutput) -> (action: RestartAction)
        ensures
            final(self).start == old(self).start,
            restart_step(old(self).start, old(self).phase, *output, final(self).phase, action),
    {
        match self.phase {
            RestartPhase::Querying => {
                if !output.success {
                    return RestartAction::Done(tell("CentralDClient service is not installed"));
                }
                if has_text(&output.stdout, "RUNNING") {
                    self.phase = RestartPhase::Stopping;
                    return RestartAction::Stop;
                }
                self.stopped()
            },
            RestartPhase::Stopping => {
                match run_checked(output) {
                    Ok(()) => {
                        self.phase = RestartPhase::Waiting { looks: 0 };
                        RestartAction::WaitAndQuery
                    },
                    Err(error) => RestartAction::Done(Err(error)),
                }
            },
            RestartPhase::Waiting { looks } => {
                if has_text(&output.stdout, "STOPPED") {
                    return self.stopped();
                }
                if looks >= STOP_LOOKS - 1 {
                    return RestartAction::Done(
                        tell("timed out waiting for CentralDClient to stop"),
                    );
                }
                self.phase = RestartPhase::Waiting { looks: looks + 1 };
                RestartAction::WaitAndQuery
            },
            RestartPhase::Starting => RestartAction::Done(run_checked(output)),
        }
    }
}

/// The command by which the client's service is controlled on Linux.
pub fn linux_service_command(verb: &str) -> (result: Vec<String>)
    ensures
        views(result@) == seq!["/usr/bin/systemctl"@, verb@, "centrald-client.service"@],
{
    let mut words: Vec<String> = Vec::new();
    words.push("/usr/bin/systemctl".to_owned());
    words.push(verb.to_owned());
    words.push("centrald-client.service".to_owned());
    assert(views(words@) =~= seq!["/usr/bin/systemctl"@, verb@, "centrald-client.service"@]);
    words
}

/// Judges the stop of the client's service on Linux.
pub fn stop_outcome(output: &CommandOutput) -> (result: Result<(), String>)
    ensures
        told(
            result,
            if output.success {
                None
            } else {
                Some("could not stop centrald-client.service: "@ + detail_of(*output))
            },
        ),
{
    if output.success {
        Ok(())
    } else {
        tell(&concat("could not stop centrald-client.service: ", &command_detail(output)))
    }
}

/// The check of a repair that was made, of a service that was running or not.
pub open spec fn repair_check(was_running: bool) -> CheckModel {
    passed(
        "repair"@,
        if was_running {
            "state permissions were reapplied and the previously running client service was restored"@
        } else {
            "state permissions were reapplied while the client service remained stopped"@
        },
    )
}

fn check_repair(was_running: bool) -> (result: RescueCheck)
    ensures
        result@ == repair_check(was_running),
{
    ok(
        "repair",
        if was_running {
            "state permissions were reapplied and the previously running client service was restored".to_owned()
        } else {
            "state permissions were reapplied while the client service remained stopped".to_owned()
        },
    )
}

/// What a repair is told as, by what came of it and of restoring the service: the
/// check that it adds, or what failed.
pub open spec fn repair_outcome_of(
    repair: Result<(), Seq<char>>,
    restore: Result<(), Seq<char>>,
    was_running: bool,
) -> Result<CheckModel, Seq<char>> {
    match (repair, restore) {
        (Ok(_), Ok(_)) => Ok(repair_check(was_running)),
        (Err(text), Ok(_)) => Err(text),
        (Ok(_), Err(text)) => Err(text),
        (Err(first), Err(text)) => Err(
            caused("service restoration also failed: "@ + text, first),
        ),
    }
}

/// Judges a repair.
pub fn repair_outcome(repair: Result<(), String>, restore: Result<(), String>, was_running: bool) -> (
    result: Result<RescueCheck, String>)
    ensures
        match repair_outcome_of(
            super::publication::outcome_view(repair),
            super::publication::outcome_view(restore),
            was_running,
        ) {
            Ok(check) => result is Ok && result->Ok_0@ == check,
            Err(text) => told(result, Some(text)),
        },
{
    match (repair, restore) {
        (Ok(()), Ok(())) => Ok(check_repair(was_running)),
        (Err(text), Ok(())) => Err(text),
        (Ok(()), Err(text)) => Err(text),
        (Err(first), Err(text)) => Err(
            with_cause(&concat("service restoration also failed: ", &text), &first),
        ),
    }
}

/// What was found of the client, once its configuration was loaded and what was
/// asked for was done.
#[derive(Debug)]
pub struct Findings {
    /// Whether the service was running before a repair, if one was made.
    pub repaired: Option<bool>,
    /// Whether the service was restarted.
    pub restarted: bool,
    pub identity_cert: CheckedFile,
    pub identity_key: CheckedFile,
    pub root_ca: CheckedFile,
    pub grant_key: CheckedFile,
    pub configuration: CheckedFile,
    pub now: Timestamp,
    /// The check of the service.
    pub service: RescueCheck,
    /// What came of connecting to the server.
    pub connection: Result<(), String>,
}

/// The check of a configuration's values.
pub open spec fn schema_check(config: ClientConfig) -> CheckModel {
    match client_fault(config) {
        None => passed("configuration schema"@, "configuration values are valid"@),
        Some(text) => not_passed(
            "configuration schema"@,
            "invalid configuration: "@ + text,
        ),
    }
}

/// The check of a certificate's lifetime.
pub open spec fn lifetime_check(config: ClientConfig, now: Timestamp) -> CheckModel {
    let expires = config.certificate_expires_at;
    let text = rfc3339_with_offset(expires.seconds_spec(), expires.nanos_spec());
    if expires@ > now@ {
        passed("certificate lifetime"@, "valid until "@ + text)
    } else {
        not_passed("certificate lifetime"@, "expired at "@ + text)
    }
}

/// The check of the service: after a repair without a restart it is not looked
/// at.
pub open spec fn service_check(findings: Findings) -> CheckModel {
    if findings.repaired is Some && !findings.restarted {
        passed(
            "client service"@,
            "stopped after permission repair; run rescue --restart-service when ready"@,
        )
    } else {
        findings.service@
    }
}

pub open spec fn connection_check(connection: Result<(), String>) -> CheckModel {
    match connection {
        Ok(_) => passed("server mTLS"@, "pinned TLS connection succeeded"@),
        Err(error) => not_passed("server mTLS"@, error@),
    }
}

/// The checks that come first: of the configuration, and of what was done.
pub open spec fn first_checks(findings: Findings) -> Seq<CheckModel> {
    let loaded = seq![passed("configuration"@, "active configuration loaded"@)];
    let repaired = match findings.repaired {
        Some(was_running) => loaded.push(repair_check(was_running)),
        None => loaded,
    };
    if findings.restarted {
        repaired.push(passed("service restart"@, "client service restarted"@))
    } else {
        repaired
    }
}

/// All checks of a client, in order.
pub open spec fn all_checks(config: ClientConfig, findings: Findings, unix: bool) -> Seq<
    CheckModel,
> {
    first_checks(findings) + seq![
        schema_check(config),
        file_check("identity certificate"@, findings.identity_cert, false, unix),
        file_check("identity private key"@, findings.identity_key, true, unix),
        file_check("root trust certificate"@, findings.root_ca, false, unix),
        file_check("grant verification key"@, findings.grant_key, false, unix),
        file_check("active configuration file"@, findings.configuration, true, unix),
        lifetime_check(config, findings.now),
        service_check(findings),
        connection_check(findings.connection),
    ]
}

fn check_schema(config: &ClientConfig) -> (result: RescueCheck)
    ensures
        result@ == schema_check(*config),
{
    match config.validate() {
        Ok(()) => ok("configuration schema", "configuration values are valid".to_owned()),
        Err(error) => failed("configuration schema", error.message()),
    }
}

fn check_lifetime(config: &ClientConfig, now: &Timestamp) -> (result: RescueCheck)
    ensures
        result@ == lifetime_check(*config, *now),
{
    let text = config.certificate_expires_at.text_with_offset();
    if now.before(&config.certificate_expires_at) {
        ok("certificate lifetime", concat("valid until ", &text))
    } else {
        failed("certificate lifetime", concat("expired at ", &text))
    }
}

fn add_check(checks: &mut Vec<RescueCheck>, check: RescueCheck)
    ensures
        check_views(final(checks)@) == check_views(old(checks)@).push(check@),
{
    let ghost before = check_views(checks@);
    checks.push(check);
    assert(check_views(checks@) =~= before.push(check@));
}

fn begin_checks(repaired: Option<bool>, restarted: bool) -> (result: Vec<RescueCheck>)
    ensures
        forall|findings: Findings|
            findings.repaired == repaired && findings.restarted == restarted ==> check_views(result@)
                == #[trigger] first_checks(findings),
{
    let mut checks: Vec<RescueCheck> = Vec::new();
    let loaded = ok("configuration", "active configuration loaded".to_owned());
    assert(check_views(checks@) =~= Seq::empty());
    add_check(&mut checks, loaded);
    assert(check_views(checks@) =~= seq![passed("configuration"@, "active configuration loaded"@)]);
    match repaired {
        Some(was_running) => add_check(&mut checks, check_repair(was_running)),
        None => {},
    }
    if restarted {
        add_check(&mut checks, ok("service restart", "client service restarted".to_owned()));
    }
    checks
}

fn check_connection(connection: Result<(), String>) -> (result: RescueCheck)
    ensures
        result@ == connection_check(connection),
{
    match connection {
        Ok(()) => ok("server mTLS", "pinned TLS connection succeeded".to_owned()),
        Err(error) => failed("server mTLS", error),
    }
}

proof fn nine_pushed(
    first: Seq<CheckModel>,
    a: CheckModel,
    b: CheckModel,
    c: CheckModel,
    d: CheckModel,
    e: CheckModel,
    f: CheckModel,
    g: CheckModel,
    h: CheckModel,
    i: CheckModel,
)
    ensures
        first.push(a).push(b).push(c).push(d).push(e).push(f).push(g).push(h).push(i) == first
            + seq![a, b, c, d, e, f, g, h, i],
{
    assert(first.push(a).push(b).push(c).push(d).push(e).push(f).push(g).push(h).push(i) =~= first
        + seq![a, b, c, d, e, f, g, h, i]);
}

/// Makes the checks of a client.
pub fn rescue_checks(config: &ClientConfig, findings: Findings, unix: bool) -> (result: Vec<
    RescueCheck,
>)
    ensures
        check_views(result@) == all_checks(*config, findings, unix),
{
    let ghost whole = findings;
    let certificate = check_file("identity certificate", &findings.identity_cert, false, unix);
    let key = check_file("identity private key", &findings.identity_key, true, unix);
    let root = check_file("root trust certificate", &findings.root_ca, false, unix);
    let grant = check_file("grant verification key", &findings.grant_key, false, unix);
    let file = check_file("active configuration file", &findings.configuration, true, unix);
    let lifetime = check_lifetime(config, &findings.now);
    let service = if findings.repaired.is_some() && !findings.restarted {
        ok(
            "client service",
            "stopped after permission repair; run rescue --restart-service when ready".to_owned(),
        )
    } else {
        findings.service
    };
    let connection = check_connection(findings.connection);
    let mut checks = begin_checks(findings.repaired, findings.restarted);
    let ghost first = first_checks(whole);
    assert(check_views(checks@) == first);
    let schema = check_schema(config);
    proof {
        nine_pushed(
            first,
            schema@,
            certificate@,
            key@,
            root@,
            grant@,
            file@,
            lifetime@,
            service@,
            connection@,
        );
    }
    add_check(&mut checks, schema);
    add_check(&mut checks, certificate);
    add_check(&mut checks, key);
    add_check(&mut checks, root);
    add_check(&mut checks, grant);
    add_check(&mut checks, file);
    add_check(&mut checks, lifetime);
    add_check(&mut checks, service);
    add_check(&mut checks, connection);
    checks
}

/// The report of a client without a configuration that can be used: one check,
/// and it failed.
pub fn unusable_configuration(error: &str) -> (result: RescueCheck)
    ensures
        result@ == not_passed("configuration"@, error@),
{
    failed("configuration", error.to_owned())
}

/// What is wrong with a report, if anything is.
pub open spec fn verdict_fault(checks: Seq<RescueCheck>) -> Option<Seq<char>> {
    if forall|i: int| 0 <= i < checks.len() ==> (#[trigger] checks[i]).ok {
        None
    } else {
        Some("one or more CentralD client rescue checks failed"@)
    }
}

/// Judges the checks of a client.
pub fn rescue_verdict(checks: &Vec<RescueCheck>) -> (result: Result<(), String>)
    ensures
        told(
            result,
            verdict_fault(checks@),
        ),
{
    let mut i: usize = 0;
    while i < checks.len()
        invariant
            i <= checks.len(),
            forall|j: int| 0 <= j < i ==> (#[trigger] checks@[j]).ok,
        decreases checks.len() - i,
    {
        if !checks[i].ok {
            assert(!checks@[i as int].ok);
            return tell("one or more CentralD client rescue checks failed");
        }
        i += 1;
    }
    Ok(())
}

/// The line that a report has for a check.
pub open spec fn check_line(check: CheckModel) -> Seq<char> {
    "  ["@ + (if check.ok {
        "ok"@
    } else {
        "failed"@
    }) + "] "@ + check.name + ": "@ + check.detail
}

/// Writes the line that a report has for a check.
pub fn report_line(check: &RescueCheck) -> (result: String)
    ensures
        result@ == check_line(check@),
{
    let mut line = concat(
        "  [",
        if check.ok {
            "ok"
        } else {
            "failed"
        },
    );
    line.append("] ");
    line.append(check.name);
    line.append(": ");
    line.append(&check.detail);
    line
}

/// A file passes exactly if it is a regular one and, where it is private on Unix, nobody but its
/// owner may use it; what is said of it begins with its path.
pub proof fn sound_files_pass(name: Seq<char>, file: CheckedFile, private: bool, unix: bool)
    ensures
        file_check(name, file, private, unix).ok <==> {
            &&& file.found is Ok
            &&& file.found->Ok_0.0 is Regular
            &&& unix && private ==> file.found->Ok_0.1 % 0o100 == 0
        },
        file_check(name, file, private, unix).name == name,
        file.path@.is_prefix_of(file_check(name, file, private, unix).detail),
{
    if file.found is Ok {
        let mode = file.found->Ok_0.1;
        assert((mode & 0o077 == 0) <==> mode % 0o100 == 0) by (bit_vector);
    }
}

/// Repair is allowed exactly to a process whose effective user is root.
pub proof fn only_root_repairs(status: Seq<char>)
    ensures
        privilege_fault(status) is None <==> effective_uid(lines(status), 0) == Some(0nat),
{
}

/// The effective user is the third word of the first line that begins with `Uid:`.
pub proof fn effective_user_is_read_from_its_line(all: Seq<Seq<char>>, from: int, line: int)
    requires
        0 <= from <= line < all.len(),
        "Uid:"@.is_prefix_of(all[line]),
        forall|i: int| from <= i < line ==> !"Uid:"@.is_prefix_of(#[trigger] all[i]),
    ensures
        words(all[line]).len() >= 3 ==> effective_uid(all, from) == unsigned(
            words(all[line])[2],
            u32::MAX as nat,
        ),
        words(all[line]).len() < 3 ==> effective_uid(all, from) is None,
    decreases line - from,
{
    if from < line {
        effective_user_is_read_from_its_line(all, from + 1, line);
    }
}

/// A service passes on Linux exactly if its manager says that it is active; on Windows, exactly if
/// it is running and set up under its own account.
pub proof fn running_services_pass(
    manager: bool,
    query: Result<CommandOutput, String>,
    account: Result<CommandOutput, String>,
)
    ensures
        linux_status(query).ok <==> query is Ok && query->Ok_0.success,
        windows_status(manager, query, account).ok <==> {
            &&& manager
            &&& query is Ok && query->Ok_0.success
            &&& account is Ok && account->Ok_0.success
            &&& names_account(account->Ok_0.stdout@)
            &&& contains_text(query->Ok_0.stdout@, "RUNNING"@)
        },
        query is Err ==> linux_status(query).detail == query->Err_0@,
        manager && query is Err ==> windows_status(manager, query, account).detail
            == query->Err_0@,
{
}

/// A running service is stopped first, and started only once it has stopped and where that was
/// asked for; what is not installed is left alone.
pub proof fn services_stop_before_they_start(
    start: bool,
    before: RestartPhase,
    output: CommandOutput,
    after: RestartPhase,
    action: RestartAction,
)
    requires
        restart_step(start, before, output, after, action),
    ensures
        action is Stop <==> before is Querying && output.success && contains_text(
            output.stdout@,
            "RUNNING"@,
        ),
        action is Start <==> start && {
            ||| before is Querying && output.success && !contains_text(
                output.stdout@,
                "RUNNING"@,
            )
            ||| before is Waiting && contains_text(output.stdout@, "STOPPED"@)
        },
        before is Starting ==> (action matches RestartAction::Done(done) && (done is Ok
            <==> output.success)),
        before is Querying && !output.success ==> (action matches RestartAction::Done(Err(_))),
        before is Stopping ==> (action is WaitAndQuery <==> output.success),
        action is WaitAndQuery ==> after is Waiting,
        (before is Waiting && action is WaitAndQuery) ==> after->looks == before->looks + 1
            && before->looks < 119,
        (before is Waiting && !contains_text(output.stdout@, "STOPPED"@) && before->looks < 119)
            ==> action is WaitAndQuery,
        action == RestartAction::Done(Ok(())) ==> !start || before is Starting,
{
}

/// A repair has passed exactly if it was made and the service was restored; a failure says first
/// what went wrong first.
pub proof fn repairs_pass_when_made_and_restored(
    repair: Result<(), Seq<char>>,
    restore: Result<(), Seq<char>>,
    was_running: bool,
)
    ensures
        repair_outcome_of(repair, restore, was_running) is Ok <==> repair is Ok && restore is Ok,
        repair_outcome_of(repair, restore, was_running) is Ok ==> repair_outcome_of(
            repair,
            restore,
            was_running,
        )->Ok_0.ok,
        repair is Err && restore is Ok ==> repair_outcome_of(repair, restore, was_running)->Err_0
            == repair->Err_0,
        repair is Ok && restore is Err ==> repair_outcome_of(repair, restore, was_running)->Err_0
            == restore->Err_0,
{
}

/// A report passes as a whole exactly if the configuration, its files, the certificate's lifetime,
/// the service and the connection each do.
pub proof fn reports_pass_when_all_is_well(config: ClientConfig, findings: Findings, unix: bool)
    ensures
        (forall|i: int|
            0 <= i < all_checks(config, findings, unix).len() ==> (#[trigger] all_checks(
                config,
                findings,
                unix,
            )[i]).ok) <==> {
            &&& client_fault(config) is None
            &&& file_check("identity certificate"@, findings.identity_cert, false, unix).ok
            &&& file_check("identity private key"@, findings.identity_key, true, unix).ok
            &&& file_check("root trust certificate"@, findings.root_ca, false, unix).ok
            &&& file_check("grant verification key"@, findings.grant_key, false, unix).ok
            &&& file_check("active configuration file"@, findings.configuration, true, unix).ok
            &&& findings.now@ < config.certificate_expires_at@
            &&& findings.service.ok || (findings.repaired is Some && !findings.restarted)
            &&& findings.connection is Ok
        },
{
    let checks = all_checks(config, findings, unix);
    let first = first_checks(findings);
    let n = first.len() as int;
    assert(forall|i: int| 0 <= i < n ==> (#[trigger] first[i]).ok);
    assert(checks.len() == n + 9);
    assert(forall|i: int| 0 <= i < n ==> #[trigger] checks[i] == first[i]);
    assert(checks[n] == schema_check(config));
    assert(checks[n + 1] == file_check(
        "identity certificate"@,
        findings.identity_cert,
        false,
        unix,
    ));
    assert(checks[n + 2] == file_check(
        "identity private key"@,
        findings.identity_key,
        true,
        unix,
    ));
    assert(checks[n + 3] == file_check("root trust certificate"@, findings.root_ca, false, unix));
    assert(checks[n + 4] == file_check("grant verification key"@, findings.grant_key, false, unix));
    assert(checks[n + 5] == file_check(
        "active configuration file"@,
        findings.configuration,
        true,
        unix,
    ));
    assert(checks[n + 6] == lifetime_check(config, findings.now));
    assert(checks[n + 7] == service_check(findings));
    assert(checks[n + 8] == connection_check(findings.connection));
}

/// What a command said is told: what it wrote as an error, or else what it wrote, and its status
/// only where it wrote nothing.
pub proof fn commands_are_told_by_what_they_wrote(output: CommandOutput)
    ensures
        trim(output.stderr@).len() > 0 ==> detail_of(output) == trim(output.stderr@),
        trim(output.stderr@).len() == 0 && trim(output.stdout@).len() > 0 ==> detail_of(output)
            == trim(output.stdout@),
        trim(output.stderr@).len() == 0 && trim(output.stdout@).len() == 0
            ==> output.status@.is_suffix_of(detail_of(output)),
{
    if trim(output.stderr@).len() == 0 && trim(output.stdout@).len() == 0 {
        let all = "exit status "@ + output.status@;
        assert(all.subrange(all.len() - output.status@.len(), all.len() as int)
            =~= output.status@);
    }
}

/// A report passes exactly if no check in it failed, and a command went well exactly if it says so.
pub proof fn one_failed_check_fails_the_report(
    checks: Seq<RescueCheck>,
    i: int,
    output: CommandOutput,
)
    ensures
        0 <= i < checks.len() && !checks[i].ok ==> verdict_fault(checks) is Some,
        verdict_fault(checks) is Some ==> exists|j: int|
            0 <= j < checks.len() && !(#[trigger] checks[j]).ok,
        manager_fault(output) is None <==> output.success,
        !output.success ==> detail_of(output).is_suffix_of(manager_fault(output)->0),
{
    if !output.success {
        let text = manager_fault(output)->0;
        let said = detail_of(output);
        assert(text.subrange(text.len() - said.len(), text.len() as int) =~= said);
    }
}

} // verus!
