//! What the client's command line asks for.

use vstd::prelude::*;

verus! {

#[derive(Debug)]
pub struct ClientCli {
    pub command: ClientCommand,
}

#[derive(Debug)]
pub enum ClientCommand {
    Enroll(EnrollmentArgs),
    /// Restart the installed CentralD client service.
    Restart,
    Reenroll(EnrollmentArgs),
    Rescue(RescueArgs),
    Daemon,
    PrivilegedBroker,
    WindowsService,
}

#[derive(Debug)]
pub struct EnrollmentArgs {
    /// Server IP or FQDN override. The access key supplies ports and TLS trust.
    pub server: Option<String>,
    /// Read the one-time invitation from a protected file instead of prompting.
    pub key_file: Option<String>,
    /// Read the one-time invitation from piped standard input.
    pub key_stdin: bool,
}

impl EnrollmentArgs {
    /// Whether the access key is not typed.
    pub fn automated(&self) -> (result: bool)
        ensures
            result == (self.key_file is Some || self.key_stdin),
    {
        self.key_file.is_some() || self.key_stdin
    }
}

#[derive(Debug)]
pub struct RescueArgs {
    /// Reapply permissions to the fixed CentralD client state layout.
    pub repair: bool,
    /// Restart the installed client service after diagnostics/repair.
    pub restart_service: bool,
    pub bundle: Option<String>,
}

} // verus!
