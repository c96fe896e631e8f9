//! What the server, the client and the admin console share.

use vstd::prelude::*;

pub mod active_pointer;
pub mod build_info;
pub mod build_settings;
pub mod config;
pub mod enrollment;
pub mod grant;
pub mod host;
pub mod https;
pub mod release;
pub mod secure_fs;
pub mod url;
pub mod version;

verus! {

pub const PROTOCOL_MAJOR: u32 = 1;

pub const PROTOCOL_MINOR: u32 = 1;

pub const DEFAULT_ENROLLMENT_PORT: u16 = 7443;

pub const DEFAULT_CLIENT_PORT: u16 = 7444;

pub const DEFAULT_ADMIN_PORT: u16 = 7445;

pub const DEFAULT_ENROLLMENT_TTL_SECONDS: u64 = 900;

/// Remote restart, OS update, and client-package jobs stay fail-closed until
/// the complete broker path is a release gate. Flip only with the matching
/// Admin/client/broker checks and package enablement.
pub const PRIVILEGED_OPERATIONS_ENABLED: bool = false;

/// Interactive PTY/ConPTY stays fail-closed until vault + broker session
/// acceptance tests pass.
pub const TERMINAL_SESSIONS_ENABLED: bool = false;

/// Whether privileged jobs are served: production binaries stay gated.
pub fn privileged_operations_enabled() -> (result: bool)
    ensures
        result == PRIVILEGED_OPERATIONS_ENABLED,
{
    PRIVILEGED_OPERATIONS_ENABLED
}

/// Whether terminal sessions are served: production binaries stay gated.
pub fn terminal_sessions_enabled() -> (result: bool)
    ensures
        result == TERMINAL_SESSIONS_ENABLED,
{
    TERMINAL_SESSIONS_ENABLED
}

} // verus!
