//! Short-lived, signed permissions for one privileged operation on one device.

use vstd::prelude::*;
use vstd::utf8::encode_utf8;

use crate::codec::{
    base64_bytes, base64_decode, base64_encode, json_string, json_text, member, member_text, object,
    object_text, quote, quoted,
};
use crate::crypto::{ed25519_accepts, ed25519_public, ed25519_signature, SigningKey, VerifyingKey};
use crate::ident::{hyphenated, id_text};
use crate::instant::Timestamp;
use crate::text::views;

verus! {

#[derive(Debug, Clone, Copy, PartialEq, Eq, Structural)]
pub enum GrantOperation {
    RestartClientService,
    RestartMachine,
    CheckOsUpdates,
    ApplyOsUpdates,
    UpdateClient,
    OpenLowShell,
    OpenElevatedShell,
}

impl GrantOperation {
    /// The operation's name in documents.
    pub open spec fn name_spec(self) -> Seq<char> {
        match self {
            GrantOperation::RestartClientService => "restart_client_service"@,
            GrantOperation::RestartMachine => "restart_machine"@,
            GrantOperation::CheckOsUpdates => "check_os_updates"@,
            GrantOperation::ApplyOsUpdates => "apply_os_updates"@,
            GrantOperation::UpdateClient => "update_client"@,
            GrantOperation::OpenLowShell => "open_low_shell"@,
            GrantOperation::OpenElevatedShell => "open_elevated_shell"@,
        }
    }

    pub fn name(&self) -> (result: &'static str)
        ensures
            result@ == self.name_spec(),
    {
        match self {
            GrantOperation::RestartClientService => "restart_client_service",
            GrantOperation::RestartMachine => "restart_machine",
            GrantOperation::CheckOsUpdates => "check_os_updates",
            GrantOperation::ApplyOsUpdates => "apply_os_updates",
            GrantOperation::UpdateClient => "update_client",
            GrantOperation::OpenLowShell => "open_low_shell",
            GrantOperation::OpenElevatedShell => "open_elevated_shell",
        }
    }
}

/// Permission for one operation: who asked for it, on which device, with which
/// parameters, and when it may be used.
#[derive(Debug)]
pub struct PrivilegedGrant {
    pub id: u128,
    pub device_id: u128,
    pub job_or_session_id: u128,
    pub admin_id: u128,
    pub operation: GrantOperation,
    pub parameters_sha256: String,
    pub issued_at: Timestamp,
    pub expires_at: Timestamp,
    pub nonce: String,
}

#[derive(Debug)]
pub struct SignedGrant {
    pub grant: PrivilegedGrant,
    pub signature_base64: String,
}

#[derive(Debug, Clone, Copy, PartialEq, Eq, Structural)]
pub enum GrantError {
    Serialization,
    SignatureEncoding,
    InvalidSignature,
    WrongDevice,
    OutsideValidity,
}

impl GrantError {
    pub open spec fn message_spec(self) -> Seq<char> {
        match self {
            GrantError::Serialization => "grant serialization failed"@,
            GrantError::SignatureEncoding => "grant signature has invalid encoding"@,
            GrantError::InvalidSignature => "grant signature verification failed"@,
            GrantError::WrongDevice => "grant is not for this device"@,
            GrantError::OutsideValidity => "grant is expired or not yet valid"@,
        }
    }

    pub fn message(&self) -> (result: &'static str)
        ensures
            result@ == self.message_spec(),
    {
        match self {
            GrantError::Serialization => "grant serialization failed",
            GrantError::SignatureEncoding => "grant signature has invalid encoding",
            GrantError::InvalidSignature => "grant signature verification failed",
            GrantError::WrongDevice => "grant is not for this device",
            GrantError::OutsideValidity => "grant is expired or not yet valid",
        }
    }
}

impl Clone for PrivilegedGrant {
    fn clone(&self) -> (result: PrivilegedGrant)
        ensures
            result == *self,
    {
        PrivilegedGrant {
            id: self.id,
            device_id: self.device_id,
            job_or_session_id: self.job_or_session_id,
            admin_id: self.admin_id,
            operation: self.operation,
            parameters_sha256: self.parameters_sha256.clone(),
            issued_at: self.issued_at,
            expires_at: self.expires_at,
            nonce: self.nonce.clone(),
        }
    }
}

impl Clone for SignedGrant {
    fn clone(&self) -> (result: SignedGrant)
        ensures
            result == *self,
    {
        SignedGrant { grant: self.grant.clone(), signature_base64: self.signature_base64.clone() }
    }
}

/// The JSON document of a grant.
pub open spec fn grant_document(grant: PrivilegedGrant) -> Seq<char> {
    object(
        seq![
            member("id"@, quoted(hyphenated(grant.id))),
            member("device_id"@, quoted(hyphenated(grant.device_id))),
            member("job_or_session_id"@, quoted(hyphenated(grant.job_or_session_id))),
            member("admin_id"@, quoted(hyphenated(grant.admin_id))),
            member("operation"@, quoted(grant.operation.name_spec())),
            member("parameters_sha256"@, json_string(grant.parameters_sha256@)),
            member("issued_at"@, quoted(grant.issued_at.text_spec())),
            member("expires_at"@, quoted(grant.expires_at.text_spec())),
            member("nonce"@, json_string(grant.nonce@)),
        ],
    )
}

/// What is signed: a domain separator that ends in a zero byte, then the
/// grant's document.
pub open spec fn payload_of(grant: PrivilegedGrant) -> Seq<u8> {
    encode_utf8("centrald-grant-v1"@).push(0) + encode_utf8(grant_document(grant))
}

/// Writes the JSON document of a grant.
pub fn grant_text(grant: &PrivilegedGrant) -> (result: String)
    ensures
        result@ == grant_document(*grant),
{
    let mut members: Vec<String> = Vec::new();
    members.push(member_text("id", &quote(&id_text(grant.id))));
    members.push(member_text("device_id", &quote(&id_text(grant.device_id))));
    members.push(member_text("job_or_session_id", &quote(&id_text(grant.job_or_session_id))));
    members.push(member_text("admin_id", &quote(&id_text(grant.admin_id))));
    members.push(member_text("operation", &quote(grant.operation.name())));
    members.push(member_text("parameters_sha256", &json_text(&grant.parameters_sha256)));
    members.push(member_text("issued_at", &quote(&grant.issued_at.text())));
    members.push(member_text("expires_at", &quote(&grant.expires_at.text())));
    members.push(member_text("nonce", &json_text(&grant.nonce)));
    let result = object_text(&members);
    assert(views(members@) =~= seq![
        member("id"@, quoted(hyphenated(grant.id))),
        member("device_id"@, quoted(hyphenated(grant.device_id))),
        member("job_or_session_id"@, quoted(hyphenated(grant.job_or_session_id))),
        member("admin_id"@, quoted(hyphenated(grant.admin_id))),
        member("operation"@, quoted(grant.operation.name_spec())),
        member("parameters_sha256"@, json_string(grant.parameters_sha256@)),
        member("issued_at"@, quoted(grant.issued_at.text_spec())),
        member("expires_at"@, quoted(grant.expires_at.text_spec())),
        member("nonce"@, json_string(grant.nonce@)),
    ]);
    result
}

/// The bytes that a grant's signature covers.
pub fn signing_payload(grant: &PrivilegedGrant) -> (result: Vec<u8>)
    ensures
        result@ == payload_of(*grant),
{
    let mut payload: Vec<u8> = "centrald-grant-v1".as_bytes_vec();
    payload.push(0);
    let mut document: Vec<u8> = grant_text(grant).as_str().as_bytes_vec();
    payload.append(&mut document);
    payload
}

impl PrivilegedGrant {
    /// What the device and the time have to say about a grant.
    pub open spec fn admission(self, device: u128, now: int) -> Result<(), GrantError> {
        if self.device_id != device {
            Err(GrantError::WrongDevice)
        } else if now < self.issued_at@ || now > self.expires_at@ {
            Err(GrantError::OutsideValidity)
        } else {
            Ok(())
        }
    }

    /// Signs this grant using the broker-grant domain separator. Verifying the
    /// result with the key's public half depends only on device and time.
    pub fn sign(&self, key: &SigningKey) -> (result: Result<SignedGrant, GrantError>)
        ensures
            result is Ok,
            result->Ok_0.grant == *self,
            base64_bytes(result->Ok_0.signature_base64@) == Some(
                ed25519_signature(key@, payload_of(*self)),
            ),
            forall|device: u128, now: int| #[trigger]
                result->Ok_0.verdict(ed25519_public(key@), device, now) == self.admission(
                    device,
                    now,
                ),
    {
        let payload = signing_payload(self);
        let signature = key.sign(&payload);
        Ok(SignedGrant { grant: self.clone(), signature_base64: base64_encode(&signature) })
    }
}

impl SignedGrant {
    /// What verification says: the device first, then the validity window, the
    /// form of the signature, and last whether the key accepts it.
    pub open spec fn verdict(self, key: Seq<u8>, device: u128, now: int) -> Result<(), GrantError> {
        match self.grant.admission(device, now) {
            Err(error) => Err(error),
            Ok(_) => match base64_bytes(self.signature_base64@) {
                Some(signature) if signature.len() == 64 => if ed25519_accepts(
                    key,
                    payload_of(self.grant),
                    signature,
                ) {
                    Ok(())
                } else {
                    Err(GrantError::InvalidSignature)
                },
                _ => Err(GrantError::SignatureEncoding),
            },
        }
    }

    /// Verifies signature, device binding, and the validity window.
    pub fn verify(&self, key: &VerifyingKey, expected_device: u128, now: Timestamp) -> (result:
        Result<(), GrantError>)
        ensures
            result == self.verdict(key@, expected_device, now@),
    {
        if self.grant.device_id != expected_device {
            return Err(GrantError::WrongDevice);
        }
        if now.before(&self.grant.issued_at) || self.grant.expires_at.before(&now) {
            return Err(GrantError::OutsideValidity);
        }
        let signature = match base64_decode(&self.signature_base64) {
            Some(signature) => signature,
            None => return Err(GrantError::SignatureEncoding),
        };
        if signature.len() != 64 {
            return Err(GrantError::SignatureEncoding);
        }
        let payload = signing_payload(&self.grant);
        if key.accepts(&payload, &signature) {
            Ok(())
        } else {
            Err(GrantError::InvalidSignature)
        }
    }
}

/// A grant is accepted exactly by the device that it names, from the moment of its issue to that
/// of its expiry, both counted, and only with a signature of its own payload that the key accepts.
pub proof fn grants_are_accepted_where_and_while_they_hold(
    signed: SignedGrant,
    key: Seq<u8>,
    device: u128,
    now: int,
)
    ensures
        signed.verdict(key, device, now) is Ok <==> {
            &&& signed.grant.device_id == device
            &&& signed.grant.issued_at@ <= now
            &&& now <= signed.grant.expires_at@
            &&& base64_bytes(signed.signature_base64@) is Some
            &&& base64_bytes(signed.signature_base64@)->0.len() == 64
            &&& ed25519_accepts(
                key,
                payload_of(signed.grant),
                base64_bytes(signed.signature_base64@)->0,
            )
        },
{
}

/// A refusal names its reason: another device before all else, then the time, then a signature
/// that cannot be read, then one that the key does not accept.
pub proof fn refusals_name_their_reason(
    signed: SignedGrant,
    key: Seq<u8>,
    device: u128,
    now: int,
)
    ensures
        signed.verdict(key, device, now) == Err::<(), GrantError>(GrantError::WrongDevice)
            <==> signed.grant.device_id != device,
        signed.verdict(key, device, now) == Err::<(), GrantError>(GrantError::OutsideValidity)
            <==> signed.grant.device_id == device && (now < signed.grant.issued_at@ || now
            > signed.grant.expires_at@),
        signed.verdict(key, device, now) == Err::<(), GrantError>(GrantError::InvalidSignature)
            ==> !ed25519_accepts(
            key,
            payload_of(signed.grant),
            base64_bytes(signed.signature_base64@)->0,
        ),
        signed.verdict(key, device, now) == Err::<(), GrantError>(GrantError::SignatureEncoding)
            ==> base64_bytes(signed.signature_base64@) is None || base64_bytes(
            signed.signature_base64@,
        )->0.len() != 64,
        signed.verdict(key, device, now) != Err::<(), GrantError>(GrantError::Serialization),
{
}

} // verus!
