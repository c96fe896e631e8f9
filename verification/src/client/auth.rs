//! OS-account credentials for shell sessions, before the machine is asked.

use vstd::prelude::*;

use crate::text::{trim, trimmed};

verus! {

#[derive(Debug, Clone, Copy, PartialEq, Eq, Structural)]
pub enum CredentialGap {
    Account,
    Password,
}

impl CredentialGap {
    pub open spec fn message_spec(self) -> Seq<char> {
        match self {
            CredentialGap::Account => "an OS account is required"@,
            CredentialGap::Password => "a password is required for this account"@,
        }
    }

    pub fn message(&self) -> (result: &'static str)
        ensures
            result@ == self.message_spec(),
    {
        match self {
            CredentialGap::Account => "an OS account is required",
            CredentialGap::Password => "a password is required for this account",
        }
    }
}

/// What is missing from an account and its password.
pub open spec fn credential_gap(user: Seq<char>, password: Seq<char>) -> Option<CredentialGap> {
    if trim(user).len() == 0 {
        Some(CredentialGap::Account)
    } else if password.len() == 0 {
        Some(CredentialGap::Password)
    } else {
        None
    }
}

/// Refuses credentials that name no account or hold no password. Only complete
/// ones are put to the platform's authenticator.
pub fn validate_account_credentials(user: &str, password: &str) -> (result: Result<
    (),
    CredentialGap,
>)
    ensures
        match result {
            Ok(_) => credential_gap(user@, password@) is None,
            Err(gap) => credential_gap(user@, password@) == Some(gap),
        },
{
    if trimmed(user).as_str().is_empty() {
        return Err(CredentialGap::Account);
    }
    if password.is_empty() {
        return Err(CredentialGap::Password);
    }
    Ok(())
}

/// Credentials are put to the machine exactly if they name an account and hold a password.
pub proof fn complete_credentials_are_tried(user: Seq<char>, password: Seq<char>)
    ensures
        credential_gap(user, password) is None <==> trim(user).len() > 0 && password.len() > 0,
        credential_gap(user, password) == Some(CredentialGap::Account) <==> trim(user).len() == 0,
{
}

} // verus!
