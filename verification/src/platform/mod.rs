//! What a managed machine's services share.

use vstd::prelude::*;

pub mod broker;

verus! {

#[derive(Debug, Clone, Copy, PartialEq, Eq, Structural)]
pub enum ServiceKind {
    ClientDaemon,
    PrivilegedBroker,
}

#[derive(Debug, Clone, Copy, PartialEq, Eq, Structural)]
pub enum MachineAction {
    Restart,
}

} // verus!
