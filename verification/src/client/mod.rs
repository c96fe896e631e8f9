//! The managed machine's side: the daemon, the privileged broker and their
//! durable state.

pub mod auth;
pub mod broker;
pub mod broker_session;
pub mod cli;
pub mod compaction;
pub mod control;
pub mod daemon;
pub mod enroll;
pub mod enrollment;
pub mod inventory;
pub mod job_run;
pub mod journal;
pub mod ledger;
pub mod ptys;
pub mod publication;
pub mod relay;
pub mod rescue;
pub mod rescue_run;
pub mod runners;
pub mod state_lock;
pub mod unix_state;
pub mod updates;
pub mod vault;
pub mod windows_ffi;
pub mod windows_service;
pub mod windows_state;
