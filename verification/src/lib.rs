//! CentralD's verified core.

pub mod address;
pub mod admin;
pub mod client;
pub mod codec;
pub mod common;
pub mod crypto;
pub mod ident;
pub mod instant;
pub mod paths;
pub mod pki;
pub mod platform;
pub mod text;
