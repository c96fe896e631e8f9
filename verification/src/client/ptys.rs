//! Which command a terminal session starts, and in which size.
//!
//! Command lines are fixed executable paths with fixed argument lists; no shell
//! interpolation happens on the broker side.

use vstd::prelude::*;

use crate::codec::{debug_form, debug_text};
use crate::common::release::OperatingSystem;
use crate::text::{concat, same_text, views};

verus! {

/// Privilege requested for a shell session.
#[derive(Debug, Clone, Copy, PartialEq, Eq, Structural)]
pub enum SessionPrivilege {
    Low,
    Elevated,
}

/// Everything the broker needs to start one PTY session.
#[derive(Debug)]
pub struct PtySessionSpec {
    pub privilege: SessionPrivilege,
    /// OS account the shell runs as. Empty selects the platform default.
    pub user: String,
    /// Shell program (fixed path). Empty selects the platform default.
    pub shell: String,
    pub columns: u32,
    pub rows: u32,
}

#[derive(Debug, Clone, Copy, PartialEq, Eq, Structural)]
pub enum ShellError {
    NotAllowed,
    RootLowShell,
    LowShellUnsupported,
}

impl ShellError {
    /// The message of an error, for the shell that was requested.
    pub open spec fn message_spec(self, shell: Seq<char>) -> Seq<char> {
        match self {
            ShellError::NotAllowed => "requested shell "@ + debug_form(shell)
                + " is not in the broker allowlist"@,
            ShellError::RootLowShell =>
                "a low shell must not run as root; request an elevated shell instead"@,
            ShellError::LowShellUnsupported =>
                "low-privilege shells are not supported on this platform in this build; request an elevated shell instead"@,
        }
    }

    pub fn message(&self, shell: &str) -> (result: String)
        ensures
            result@ == self.message_spec(shell@),
    {
        match self {
            ShellError::NotAllowed => {
                let mut message = concat("requested shell ", &debug_text(shell));
                message.append(" is not in the broker allowlist");
                message
            },
            ShellError::RootLowShell =>
                "a low shell must not run as root; request an elevated shell instead".to_owned(),
            ShellError::LowShellUnsupported =>
                "low-privilege shells are not supported on this platform in this build; request an elevated shell instead".to_owned(),
        }
    }
}

/// The shell that a platform starts when none is requested.
pub open spec fn default_shell(os: OperatingSystem) -> Seq<char> {
    match os {
        OperatingSystem::Linux => "/bin/bash"@,
        OperatingSystem::Windows => "cmd.exe"@,
    }
}

/// Shell programs the broker may start on a platform.
pub open spec fn allowed_shell(os: OperatingSystem, shell: Seq<char>) -> bool {
    match os {
        OperatingSystem::Linux => shell == "/bin/bash"@ || shell == "/bin/sh"@,
        OperatingSystem::Windows => shell == "cmd.exe"@ || shell == "powershell.exe"@,
    }
}

/// The shell that a request selects.
pub open spec fn selected_shell(os: OperatingSystem, requested: Seq<char>) -> Seq<char> {
    if requested.len() == 0 {
        default_shell(os)
    } else {
        requested
    }
}

/// The account that a low-privilege shell runs as.
pub open spec fn selected_user(requested: Seq<char>) -> Seq<char> {
    if requested.len() == 0 {
        "centrald"@
    } else {
        requested
    }
}

/// The program and the arguments that a session starts.
pub open spec fn command_for(os: OperatingSystem, spec: PtySessionSpec) -> Result<
    (Seq<char>, Seq<Seq<char>>),
    ShellError,
> {
    let shell = selected_shell(os, spec.shell@);
    if spec.shell@.len() > 0 && !allowed_shell(os, spec.shell@) {
        Err(ShellError::NotAllowed)
    } else {
        match (spec.privilege, os) {
            (SessionPrivilege::Elevated, _) => Ok((shell, Seq::empty())),
            (SessionPrivilege::Low, OperatingSystem::Windows) => Err(
                ShellError::LowShellUnsupported,
            ),
            (SessionPrivilege::Low, OperatingSystem::Linux) => if selected_user(spec.user@)
                == "root"@ {
                Err(ShellError::RootLowShell)
            } else {
                Ok(
                    (
                        "/usr/bin/runuser"@,
                        seq!["-u"@, selected_user(spec.user@), "--"@, shell],
                    ),
                )
            },
        }
    }
}

/// The view of a command.
pub open spec fn command_view(result: Result<(String, Vec<String>), ShellError>) -> Result<
    (Seq<char>, Seq<Seq<char>>),
    ShellError,
> {
    match result {
        Ok((program, arguments)) => Ok((program@, views(arguments@))),
        Err(error) => Err(error),
    }
}

/// Selects the fixed command of a session on a platform.
pub fn shell_command_on(os: OperatingSystem, spec: &PtySessionSpec) -> (result: Result<
    (String, Vec<String>),
    ShellError,
>)
    ensures
        command_view(result) == command_for(os, *spec),
{
    let shell: String;
    if spec.shell.as_str().is_empty() {
        shell =
        match os {
            OperatingSystem::Linux => "/bin/bash".to_owned(),
            OperatingSystem::Windows => "cmd.exe".to_owned(),
        };
    } else {
        let allowed = match os {
            OperatingSystem::Linux => same_text(&spec.shell, "/bin/bash") || same_text(
                &spec.shell,
                "/bin/sh",
            ),
            OperatingSystem::Windows => same_text(&spec.shell, "cmd.exe") || same_text(
                &spec.shell,
                "powershell.exe",
            ),
        };
        if !allowed {
            return Err(ShellError::NotAllowed);
        }
        shell = spec.shell.clone();
    }
    match spec.privilege {
        SessionPrivilege::Elevated => {
            let arguments: Vec<String> = Vec::new();
            assert(views(arguments@) =~= Seq::empty());
            Ok((shell, arguments))
        },
        SessionPrivilege::Low => match os {
            OperatingSystem::Windows => Err(ShellError::LowShellUnsupported),
            OperatingSystem::Linux => {
                let user: String = if spec.user.as_str().is_empty() {
                    "centrald".to_owned()
                } else {
                    spec.user.clone()
                };
                if same_text(&user, "root") {
                    return Err(ShellError::RootLowShell);
                }
                let ghost texts = seq!["-u"@, user@, "--"@, shell@];
                let mut arguments: Vec<String> = Vec::new();
                arguments.push("-u".to_owned());
                arguments.push(user);
                arguments.push("--".to_owned());
                arguments.push(shell);
                assert(views(arguments@) =~= texts);
                Ok(("/usr/bin/runuser".to_owned(), arguments))
            },
        },
    }
}

/// Selects the fixed command of a session on Linux.
pub fn shell_command(spec: &PtySessionSpec) -> (result: Result<(String, Vec<String>), ShellError>)
    ensures
        command_view(result) == command_for(OperatingSystem::Linux, *spec),
{
    shell_command_on(OperatingSystem::Linux, spec)
}

/// A low-privilege shell never runs as root, and whatever runs is on the
/// platform's list.
pub proof fn commands_are_allowlisted(os: OperatingSystem, spec: PtySessionSpec)
    ensures
        command_for(os, spec) matches Ok((program, arguments)) ==> allowed_shell(
            os,
            selected_shell(os, spec.shell@),
        ) && match spec.privilege {
            SessionPrivilege::Elevated => program == selected_shell(os, spec.shell@)
                && arguments.len() == 0,
            SessionPrivilege::Low => program == "/usr/bin/runuser"@ && arguments[1] != "root"@
                && arguments.last() == selected_shell(os, spec.shell@),
        },
{
}

/// `value` as a `u16`, at most its largest value.
pub open spec fn saturated(value: u32) -> u16 {
    if value <= u16::MAX {
        value as u16
    } else {
        u16::MAX
    }
}

/// `value`, moved into the bounds of a new terminal.
pub open spec fn clamped(value: u32) -> u16 {
    if value < 2 {
        2
    } else if value > 500 {
        500
    } else {
        value as u16
    }
}

/// The size (columns, rows) of a new terminal: 2 to 500 each way.
pub fn opening_size(columns: u32, rows: u32) -> (result: (u16, u16))
    ensures
        result == (clamped(columns), clamped(rows)),
{
    (clamp_dimension(columns), clamp_dimension(rows))
}

fn clamp_dimension(value: u32) -> (result: u16)
    ensures
        result == clamped(value),
{
    if value < 2 {
        2
    } else if value > 500 {
        500
    } else {
        value as u16
    }
}

/// The size (columns, rows) that a running terminal is given.
pub fn resized(columns: u32, rows: u32) -> (result: (u16, u16))
    ensures
        result == (saturated(columns), saturated(rows)),
{
    (saturate_dimension(columns), saturate_dimension(rows))
}

fn saturate_dimension(value: u32) -> (result: u16)
    ensures
        result == saturated(value),
{
    if value <= 0xffff {
        value as u16
    } else {
        0xffff
    }
}

/// A shell of the list starts in every session of Linux but a low one as root; on Windows, in
/// every elevated one. It starts as the user that was asked for, and elevated ones start bare.
pub proof fn allowed_shells_start(os: OperatingSystem, spec: PtySessionSpec)
    ensures
        command_for(os, spec) is Ok <==> {
            &&& spec.shell@.len() == 0 || allowed_shell(os, spec.shell@)
            &&& spec.privilege == SessionPrivilege::Low ==> os == OperatingSystem::Linux
                && spec.user@ != "root"@
        },
        spec.privilege == SessionPrivilege::Low && spec.user@.len() > 0 ==> (command_for(os, spec)
            matches Ok((program, arguments)) ==> arguments == seq![
            "-u"@,
            spec.user@,
            "--"@,
            selected_shell(os, spec.shell@),
        ]),
        spec.privilege == SessionPrivilege::Low && spec.user@.len() == 0 ==> (command_for(os, spec)
            matches Ok((program, arguments)) ==> arguments[1] == "centrald"@),
        spec.shell@.len() > 0 ==> selected_shell(os, spec.shell@) == spec.shell@,
        allowed_shell(os, selected_shell(os, Seq::empty())),
        command_for(os, spec) == Err::<(Seq<char>, Seq<Seq<char>>), ShellError>(
            ShellError::RootLowShell,
        ) ==> spec.privilege == SessionPrivilege::Low && spec.user@ == "root"@,
{
    reveal_strlit("centrald");
    reveal_strlit("root");
    assert("centrald"@.len() == 8 && "root"@.len() == 4);
}

/// A window opens in the size that was asked for, from 2 to 500; a size beyond is brought to the
/// nearest, and a larger one never opens smaller.
pub proof fn windows_open_in_size(value: u32, other: u32)
    ensures
        2 <= clamped(value) <= 500,
        2 <= value <= 500 ==> clamped(value) == value,
        value <= other ==> clamped(value) <= clamped(other),
        value <= 65_535 ==> saturated(value) == value,
        value > 65_535 ==> saturated(value) == 65_535,
{
}

} // verus!
