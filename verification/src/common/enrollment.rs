//! One-time enrollment invitations.
//!
//! An invitation carries public bootstrap metadata and a random bearer secret,
//! under a keyed hash with that secret. Its text has four fields with dots
//! between them: a fixed prefix, the metadata as a JSON document, the secret and
//! the hash, the last three in URL-safe base64.

use vstd::prelude::*;
use vstd::utf8::encode_utf8;

use crate::codec::{
    base64url_bytes, base64url_character, base64url_decode, base64url_encode, base64url_field,
    base64url_text, json_string, json_text, member, member_text, object, object_text, quote, quoted,
};
use crate::crypto::{
    argon2_accepts, argon2_parameters, argon2_verify, argon2id_hash, argon2id_text, bounded_lanes,
    constant_time_equal, has_bounded_lanes, hmac, hmac_sha256, last_value, random_bytes,
    read_hash_parameters,
};
use crate::ident::{hyphenated, id_text};
use crate::instant::Timestamp;
use crate::text::{
    byte_length, contains_text, control, decimal, fields, has_character, has_control, has_text,
    has_white_space, join, numeral, same_text, split, split_of_appended, split_of_field,
    split_then_join, trim, trimmed, views, white_space,
};

use super::config::{is_printable_name, printable_name};

verus! {

pub const INVITATION_SECRET_BYTES: usize = 32;

pub const SALT_BYTES: usize = 16;

pub const INVITATION_PREFIX: &'static str = "centrald-invite1";

pub const INVITATION_SCHEMA_VERSION: u32 = 1;

pub const MAX_INVITATION_BYTES: usize = 131_072;

pub const MAX_ROOT_CA_BYTES: usize = 65_536;

/// The memory that a stored hash takes, in kibibytes.
pub const HASH_MEMORY: u32 = 65_536;

pub const HASH_PASSES: u32 = 3;

pub const HASH_LANES: u32 = 1;

pub const HASH_BYTES: usize = 32;

/// The length of a stored hash.
pub const STORED_HASH_CHARACTERS: usize = 97;

#[derive(Debug, Clone, Copy, PartialEq, Eq, Structural)]
pub enum EnrollmentRole {
    Client,
    Admin,
}

impl EnrollmentRole {
    pub open spec fn name_spec(self) -> Seq<char> {
        match self {
            EnrollmentRole::Client => "client"@,
            EnrollmentRole::Admin => "admin"@,
        }
    }

    pub fn as_str(self) -> (result: &'static str)
        ensures
            result@ == self.name_spec(),
    {
        match self {
            EnrollmentRole::Client => "client",
            EnrollmentRole::Admin => "admin",
        }
    }
}

#[derive(Debug, Clone, Copy, PartialEq, Eq, Structural)]
pub enum EnrollmentSecretError {
    Salt,
    Hash,
    InvalidHash,
    InvalidFormat,
    InvalidClaims,
    Integrity,
    Serialization,
}

impl EnrollmentSecretError {
    pub open spec fn message_spec(self) -> Seq<char> {
        match self {
            EnrollmentSecretError::Salt => "could not encode enrollment-invitation salt"@,
            EnrollmentSecretError::Hash => "could not hash enrollment invitation"@,
            EnrollmentSecretError::InvalidHash =>
                "stored enrollment-invitation hash is invalid"@,
            EnrollmentSecretError::InvalidFormat =>
                "enrollment invitation has an invalid format"@,
            EnrollmentSecretError::InvalidClaims =>
                "enrollment invitation contains invalid bootstrap metadata"@,
            EnrollmentSecretError::Integrity =>
                "enrollment invitation integrity check failed"@,
            EnrollmentSecretError::Serialization =>
                "could not serialize enrollment invitation"@,
        }
    }

    pub fn message(&self) -> (result: &'static str)
        ensures
            result@ == self.message_spec(),
    {
        match self {
            EnrollmentSecretError::Salt => "could not encode enrollment-invitation salt",
            EnrollmentSecretError::Hash => "could not hash enrollment invitation",
            EnrollmentSecretError::InvalidHash => "stored enrollment-invitation hash is invalid",
            EnrollmentSecretError::InvalidFormat => "enrollment invitation has an invalid format",
            EnrollmentSecretError::InvalidClaims =>
                "enrollment invitation contains invalid bootstrap metadata",
            EnrollmentSecretError::Integrity => "enrollment invitation integrity check failed",
            EnrollmentSecretError::Serialization => "could not serialize enrollment invitation",
        }
    }
}

#[derive(Debug)]
pub struct EnrollmentInvitationClaims {
    pub schema_version: u32,
    pub id: u128,
    pub server_instance_id: u128,
    pub role: EnrollmentRole,
    pub name: String,
    pub server_name: String,
    pub enrollment_port: u16,
    pub client_port: u16,
    pub admin_port: u16,
    pub root_ca_pem: String,
    pub expires_at: Timestamp,
}

/// The name of a server in an invitation: not blank, of at most 253 bytes, and
/// without a slash, white space or a control character inside.
pub open spec fn server_name_is_usable(name: Seq<char>) -> bool {
    let inner = trim(name);
    &&& inner.len() > 0
    &&& encode_utf8(inner).len() <= 253
    &&& !inner.contains('/')
    &&& forall|i: int|
        0 <= i < inner.len() ==> !white_space(#[trigger] inner[i]) && !control(inner[i])
}

/// Three ports that no privilege is needed for, all different.
pub open spec fn ports_are_usable(first: u16, second: u16, third: u16) -> bool {
    &&& first >= 1024 && second >= 1024 && third >= 1024
    &&& first != second && first != third && second != third
}

/// A certificate in text form of bounded size.
pub open spec fn root_is_usable(pem: Seq<char>) -> bool {
    &&& encode_utf8(pem).len() <= MAX_ROOT_CA_BYTES
    &&& contains_text(pem, "-----BEGIN CERTIFICATE-----"@)
    &&& contains_text(pem, "-----END CERTIFICATE-----"@)
}

impl EnrollmentInvitationClaims {
    /// Whether the metadata can be used.
    pub open spec fn valid(self) -> bool {
        &&& self.schema_version == INVITATION_SCHEMA_VERSION
        &&& self.id != 0
        &&& self.server_instance_id != 0
        &&& printable_name(self.name@)
        &&& server_name_is_usable(self.server_name@)
        &&& ports_are_usable(self.enrollment_port, self.client_port, self.admin_port)
        &&& root_is_usable(self.root_ca_pem@)
    }

    pub fn new(
        id: u128,
        server_instance_id: u128,
        role: EnrollmentRole,
        name: String,
        server_name: String,
        enrollment_port: u16,
        client_port: u16,
        admin_port: u16,
        root_ca_pem: String,
        expires_at: Timestamp,
    ) -> (result: EnrollmentInvitationClaims)
        ensures
            result == (EnrollmentInvitationClaims {
                schema_version: INVITATION_SCHEMA_VERSION,
                id,
                server_instance_id,
                role,
                name,
                server_name,
                enrollment_port,
                client_port,
                admin_port,
                root_ca_pem,
                expires_at,
            }),
    {
        EnrollmentInvitationClaims {
            schema_version: INVITATION_SCHEMA_VERSION,
            id,
            server_instance_id,
            role,
            name,
            server_name,
            enrollment_port,
            client_port,
            admin_port,
            root_ca_pem,
            expires_at,
        }
    }

    /// Validates the public bootstrap metadata carried by an invitation.
    pub fn validate(&self) -> (result: Result<(), EnrollmentSecretError>)
        ensures
            result == if self.valid() {
                Ok::<(), EnrollmentSecretError>(())
            } else {
                Err(EnrollmentSecretError::InvalidClaims)
            },
    {
        if self.schema_version != INVITATION_SCHEMA_VERSION || self.id == 0
            || self.server_instance_id == 0 {
            return Err(EnrollmentSecretError::InvalidClaims);
        }
        if !is_printable_name(&self.name) {
            return Err(EnrollmentSecretError::InvalidClaims);
        }
        let server_name = trimmed(&self.server_name);
        if server_name.as_str().is_empty() || byte_length(&server_name) > 253 || has_character(
            &server_name,
            '/',
        ) || has_white_space(&server_name) || has_control(&server_name) {
            return Err(EnrollmentSecretError::InvalidClaims);
        }
        let first: u16 = self.enrollment_port;
        let second: u16 = self.client_port;
        let third: u16 = self.admin_port;
        if first < 1024 || second < 1024 || third < 1024 || first == second || first == third
            || second == third {
            return Err(EnrollmentSecretError::InvalidClaims);
        }
        if byte_length(&self.root_ca_pem) > MAX_ROOT_CA_BYTES || !has_text(
            &self.root_ca_pem,
            "-----BEGIN CERTIFICATE-----",
        ) || !has_text(&self.root_ca_pem, "-----END CERTIFICATE-----") {
            return Err(EnrollmentSecretError::InvalidClaims);
        }
        Ok(())
    }
}

pub open spec fn claims_members(claims: EnrollmentInvitationClaims) -> Seq<Seq<char>> {
    seq![
        member("schema_version"@, numeral(claims.schema_version as nat, 10)),
        member("id"@, quoted(hyphenated(claims.id))),
        member("server_instance_id"@, quoted(hyphenated(claims.server_instance_id))),
        member("role"@, quoted(claims.role.name_spec())),
        member("name"@, json_string(claims.name@)),
        member("server_name"@, json_string(claims.server_name@)),
        member("enrollment_port"@, numeral(claims.enrollment_port as nat, 10)),
        member("client_port"@, numeral(claims.client_port as nat, 10)),
        member("admin_port"@, numeral(claims.admin_port as nat, 10)),
        member("root_ca_pem"@, json_string(claims.root_ca_pem@)),
        member("expires_at"@, quoted(claims.expires_at.text_spec())),
    ]
}

/// The JSON document of an invitation's metadata.
pub open spec fn claims_document(claims: EnrollmentInvitationClaims) -> Seq<char> {
    object(claims_members(claims))
}

/// Writes the JSON document of an invitation's metadata.
pub fn claims_text(claims: &EnrollmentInvitationClaims) -> (result: String)
    ensures
        result@ == claims_document(*claims),
{
    let mut members: Vec<String> = Vec::new();
    members.push(member_text("schema_version", &decimal(claims.schema_version as u64)));
    members.push(member_text("id", &quote(&id_text(claims.id))));
    members.push(
        member_text("server_instance_id", &quote(&id_text(claims.server_instance_id))),
    );
    members.push(member_text("role", &quote(claims.role.as_str())));
    members.push(member_text("name", &json_text(&claims.name)));
    members.push(member_text("server_name", &json_text(&claims.server_name)));
    members.push(member_text("enrollment_port", &decimal(claims.enrollment_port as u64)));
    members.push(member_text("client_port", &decimal(claims.client_port as u64)));
    members.push(member_text("admin_port", &decimal(claims.admin_port as u64)));
    members.push(member_text("root_ca_pem", &json_text(&claims.root_ca_pem)));
    members.push(member_text("expires_at", &quote(&claims.expires_at.text())));
    assert(views(members@) =~= claims_members(*claims));
    object_text(&members)
}

/// What the keyed hash of an invitation covers.
pub open spec fn signed_text(payload: Seq<char>, secret: Seq<char>) -> Seq<char> {
    (INVITATION_PREFIX@.push('.') + payload).push('.') + secret
}

/// The text of an invitation with these fields.
pub open spec fn token_text(payload: Seq<char>, secret: Seq<char>, mac: Seq<char>) -> Seq<char> {
    signed_text(payload, secret).push('.') + mac
}

/// The hash that belongs to two fields of an invitation.
pub open spec fn mac_of(payload: Seq<char>, secret: Seq<char>, key: Seq<u8>) -> Seq<u8> {
    hmac(key, encode_utf8(signed_text(payload, secret)))
}

/// The text of an invitation with this payload and this secret.
pub open spec fn sealed(payload: Seq<u8>, secret: Seq<u8>) -> Seq<char> {
    let payload_field = base64url_text(payload);
    let secret_field = base64url_text(secret);
    token_text(
        payload_field,
        secret_field,
        base64url_text(mac_of(payload_field, secret_field, secret)),
    )
}

/// The payload of an invitation, if it is intact.
pub open spec fn opened(token: Seq<char>) -> Result<Seq<u8>, EnrollmentSecretError> {
    let parts = split(token, '.');
    if encode_utf8(token).len() > MAX_INVITATION_BYTES || parts.len() != 4 || parts[0]
        != INVITATION_PREFIX@ {
        Err(EnrollmentSecretError::InvalidFormat)
    } else {
        match (base64url_bytes(parts[2]), base64url_bytes(parts[3])) {
            (Some(key), Some(mac)) => if key.len() != INVITATION_SECRET_BYTES || mac.len() != 32 {
                Err(EnrollmentSecretError::InvalidFormat)
            } else if mac_of(parts[1], parts[2], key) != mac {
                Err(EnrollmentSecretError::Integrity)
            } else {
                match base64url_bytes(parts[1]) {
                    Some(payload) => Ok(payload),
                    None => Err(EnrollmentSecretError::InvalidFormat),
                }
            },
            _ => Err(EnrollmentSecretError::InvalidFormat),
        }
    }
}

/// The fields of an invitation's text.
proof fn token_fields(payload: Seq<char>, secret: Seq<char>, mac: Seq<char>)
    requires
        !payload.contains('.'),
        !secret.contains('.'),
        !mac.contains('.'),
    ensures
        split(token_text(payload, secret, mac), '.') == seq![
            INVITATION_PREFIX@,
            payload,
            secret,
            mac,
        ],
{
    reveal_strlit("centrald-invite1");
    let prefix = INVITATION_PREFIX@;
    assert(!prefix.contains('.'));
    split_of_field(prefix, '.');
    split_of_appended(prefix, payload, '.');
    let first = prefix.push('.') + payload;
    split_of_appended(first, secret, '.');
    let second = first.push('.') + secret;
    split_of_appended(second, mac, '.');
    assert(split(token_text(payload, secret, mac), '.') =~= seq![prefix, payload, secret, mac]);
}

/// A text of four fields is put together from them.
proof fn four_fields(token: Seq<char>)
    requires
        split(token, '.').len() == 4,
        split(token, '.')[0] == INVITATION_PREFIX@,
    ensures
        ({
            let parts = split(token, '.');
            token == token_text(parts[1], parts[2], parts[3])
        }),
{
    let parts = split(token, '.');
    split_then_join(token, '.');
    reveal_with_fuel(join, 5);
    assert(parts.drop_last().drop_last().drop_last() =~= seq![parts[0]]);
    assert(parts.drop_last().drop_last() =~= seq![parts[0], parts[1]]);
    assert(parts.drop_last() =~= seq![parts[0], parts[1], parts[2]]);
    assert(token =~= token_text(parts[1], parts[2], parts[3]));
}

/// An intact invitation is refused once its hash is changed: any field in the
/// hash's place that does not stand for the same bytes makes it invalid.
pub proof fn changed_hash_is_refused(
    payload: Seq<char>,
    secret: Seq<char>,
    mac: Seq<char>,
    other: Seq<char>,
)
    requires
        !payload.contains('.'),
        !secret.contains('.'),
        !mac.contains('.'),
        !other.contains('.'),
        opened(token_text(payload, secret, mac)) is Ok,
        base64url_bytes(other) != base64url_bytes(mac),
    ensures
        opened(token_text(payload, secret, other)) is Err,
{
    token_fields(payload, secret, mac);
    token_fields(payload, secret, other);
}

/// Of an intact invitation, the hash is the one of the payload and the secret
/// that it carries.
pub proof fn intact_invitation_is_authenticated(token: Seq<char>)
    requires
        opened(token) is Ok,
    ensures
        ({
            let parts = split(token, '.');
            &&& parts.len() == 4
            &&& base64url_bytes(parts[1]) == Some(opened(token)->Ok_0)
            &&& base64url_bytes(parts[3]) == Some(
                mac_of(parts[1], parts[2], base64url_bytes(parts[2])->0),
            )
        }),
{
}

/// Whether a text is that of an invitation with this payload and this secret, and
/// its fields stand for what they are made of.
pub open spec fn sealed_with(token: Seq<char>, payload: Seq<u8>, secret: Seq<u8>) -> bool {
    let payload_field = base64url_text(payload);
    let secret_field = base64url_text(secret);
    let mac = mac_of(payload_field, secret_field, secret);
    &&& token == sealed(payload, secret)
    &&& secret.len() == INVITATION_SECRET_BYTES
    &&& mac.len() == 32
    &&& base64url_field(payload_field, payload)
    &&& base64url_field(secret_field, secret)
    &&& base64url_field(base64url_text(mac), mac)
}

/// Whether a text is that of an invitation with this payload.
pub open spec fn authentic(token: Seq<char>, payload: Seq<u8>) -> bool {
    exists|secret: Seq<u8>| #[trigger] sealed_with(token, payload, secret)
}

/// An invitation has one last character: a text that differs from an authentic one
/// in nothing but that is not authentic itself, so it does not parse.
pub proof fn changed_last_character_is_refused(
    token: Seq<char>,
    payload: Seq<u8>,
    other: Seq<char>,
    claimed: Seq<u8>,
)
    requires
        authentic(token, payload),
        other.len() == token.len(),
        other.drop_last() == token.drop_last(),
        other.last() != token.last(),
    ensures
        !authentic(other, claimed),
{
    if authentic(other, claimed) {
        let secret = choose|secret: Seq<u8>| #[trigger] sealed_with(token, payload, secret);
        let guess = choose|guess: Seq<u8>| #[trigger] sealed_with(other, claimed, guess);
        let signed = signed_text(base64url_text(payload), base64url_text(secret));
        let other_signed = signed_text(base64url_text(claimed), base64url_text(guess));
        let mac = base64url_text(mac_of(base64url_text(payload), base64url_text(secret), secret));
        let other_mac = base64url_text(
            mac_of(base64url_text(claimed), base64url_text(guess), guess),
        );
        no_dot(base64url_text(payload));
        no_dot(base64url_text(secret));
        no_dot(mac);
        no_dot(base64url_text(claimed));
        no_dot(base64url_text(guess));
        assert(mac.len() == 43 && other_mac.len() == 43);
        let start = (token.len() - 44) as int;
        assert(signed =~= token.take(start));
        assert(other_signed =~= other.take(start));
        assert(token.take(start) =~= token.drop_last().take(start));
        assert(other.take(start) =~= other.drop_last().take(start));
        token_fields(base64url_text(payload), base64url_text(secret), mac);
        token_fields(base64url_text(claimed), base64url_text(guess), mac);
        assert(token_text(base64url_text(payload), base64url_text(secret), mac) == token_text(
            base64url_text(claimed),
            base64url_text(guess),
            mac,
        ));
        let parts = split(token, '.');
        assert(parts[1] == base64url_text(payload) && parts[1] == base64url_text(claimed));
        assert(parts[2] == base64url_text(secret) && parts[2] == base64url_text(guess));
        assert(secret == guess);
        assert(mac == other_mac);
        assert(token == other);
    }
}

proof fn no_dot(text: Seq<char>)
    requires
        forall|i: int| 0 <= i < text.len() ==> base64url_character(#[trigger] text[i]),
    ensures
        !text.contains('.'),
{
}

fn signed_part(payload: &str, secret: &str) -> (result: String)
    ensures
        result@ == signed_text(payload@, secret@),
{
    let mut signed: String = INVITATION_PREFIX.to_owned();
    signed.push('.');
    signed.append(payload);
    signed.push('.');
    signed.append(secret);
    signed
}

/// Seals a payload into the text of an invitation with a secret. The text opens
/// to that payload, unless it is longer than an invitation may be.
pub fn seal_invitation(payload: &Vec<u8>, secret: &Vec<u8>) -> (result: String)
    requires
        secret.len() == INVITATION_SECRET_BYTES,
    ensures
        result@ == sealed(payload@, secret@),
        sealed_with(result@, payload@, secret@),
        encode_utf8(result@).len() <= MAX_INVITATION_BYTES ==> opened(result@) == Ok::<
            Seq<u8>,
            EnrollmentSecretError,
        >(payload@),
{
    let payload_field = base64url_encode(payload);
    let secret_field = base64url_encode(secret);
    let mut token = signed_part(&payload_field, &secret_field);
    let mac = hmac_sha256(secret, token.as_str().as_bytes_vec().as_slice());
    let mac_field = base64url_encode(&mac);
    token.push('.');
    token.append(&mac_field);
    proof {
        no_dot(payload_field@);
        no_dot(secret_field@);
        no_dot(mac_field@);
        token_fields(payload_field@, secret_field@, mac_field@);
    }
    token
}

/// Creates a self-contained, one-time invitation.
///
/// The invitation carries only public bootstrap information plus the bearer
/// secret. The full serialized invitation is Argon2id-hashed by the server.
pub fn generate_enrollment_invitation(claims: &EnrollmentInvitationClaims) -> (result: Result<
    String,
    EnrollmentSecretError,
>)
    ensures
        result is Ok <==> claims.valid(),
        match result {
            Ok(token) => {
                let payload = encode_utf8(claims_document(*claims));
                &&& authentic(token@, payload)
                &&& encode_utf8(token@).len() <= MAX_INVITATION_BYTES ==> opened(token@) == Ok::<
                    Seq<u8>,
                    EnrollmentSecretError,
                >(payload)
            },
            Err(error) => error == EnrollmentSecretError::InvalidClaims,
        },
{
    match claims.validate() {
        Ok(()) => {},
        Err(error) => return Err(error),
    }
    let payload = claims_text(claims).as_str().as_bytes_vec();
    let secret = random_bytes(INVITATION_SECRET_BYTES);
    Ok(seal_invitation(&payload, &secret))
}

/// Opens the only supported invitation format and checks that it is intact: what
/// opens is the very text that sealing its payload makes. The payload is the JSON
/// document of the claims, which [`accept_claims`] takes decoded.
pub fn parse_enrollment_invitation(token: &str) -> (result: Result<Vec<u8>, EnrollmentSecretError>)
    ensures
        match opened(token@) {
            Ok(payload) => result is Ok && result->Ok_0@ == payload && authentic(token@, payload),
            Err(error) => result == Err::<Vec<u8>, EnrollmentSecretError>(error),
        },
{
    if byte_length(token) > MAX_INVITATION_BYTES {
        return Err(EnrollmentSecretError::InvalidFormat);
    }
    let parts = fields(token, '.');
    let ghost texts = split(token@, '.');
    assert(texts.len() == parts.len());
    if parts.len() != 4 {
        return Err(EnrollmentSecretError::InvalidFormat);
    }
    assert(texts[0] == parts@[0]@ && texts[1] == parts@[1]@ && texts[2] == parts@[2]@ && texts[3]
        == parts@[3]@);
    if !same_text(&parts[0], INVITATION_PREFIX) {
        return Err(EnrollmentSecretError::InvalidFormat);
    }
    let key = match base64url_decode(&parts[2]) {
        Some(key) => key,
        None => return Err(EnrollmentSecretError::InvalidFormat),
    };
    let mac = match base64url_decode(&parts[3]) {
        Some(mac) => mac,
        None => return Err(EnrollmentSecretError::InvalidFormat),
    };
    if key.len() != INVITATION_SECRET_BYTES || mac.len() != 32 {
        return Err(EnrollmentSecretError::InvalidFormat);
    }
    let signed = signed_part(&parts[1], &parts[2]);
    let expected = hmac_sha256(&key, signed.as_str().as_bytes_vec().as_slice());
    if !constant_time_equal(&expected, &mac) {
        return Err(EnrollmentSecretError::Integrity);
    }
    match base64url_decode(&parts[1]) {
        Some(payload) => {
            proof {
                four_fields(token@);
                assert(mac@ == mac_of(texts[1], texts[2], key@));
                assert(token@ == sealed(payload@, key@));
                assert(sealed_with(token@, payload@, key@));
            }
            Ok(payload)
        },
        None => Err(EnrollmentSecretError::InvalidFormat),
    }
}

/// The claims that an intact invitation's payload decoded to, if they can be used.
pub open spec fn accepted_claims(decoded: Option<EnrollmentInvitationClaims>) -> Result<
    EnrollmentInvitationClaims,
    EnrollmentSecretError,
> {
    match decoded {
        None => Err(EnrollmentSecretError::InvalidFormat),
        Some(claims) => if claims.valid() {
            Ok(claims)
        } else {
            Err(EnrollmentSecretError::InvalidClaims)
        },
    }
}

/// The identifier in the claims that a payload decoded to, if they can be used.
pub open spec fn accepted_id(decoded: Option<EnrollmentInvitationClaims>) -> Result<
    u128,
    EnrollmentSecretError,
> {
    match accepted_claims(decoded) {
        Ok(claims) => Ok(claims.id),
        Err(error) => Err(error),
    }
}

/// A generated invitation gives its claims back, and their identifier, to every
/// reader that decodes the JSON document of claims to the claims it was written
/// from.
pub proof fn generated_invitation_gives_its_claims_back(
    claims: EnrollmentInvitationClaims,
    token: Seq<char>,
    decode: spec_fn(Seq<u8>) -> Option<EnrollmentInvitationClaims>,
)
    requires
        claims.valid(),
        authentic(token, encode_utf8(claims_document(claims))),
        encode_utf8(token).len() <= MAX_INVITATION_BYTES,
        decode(encode_utf8(claims_document(claims))) == Some(claims),
    ensures
        opened(token) is Ok,
        accepted_claims(decode(opened(token)->Ok_0)) == Ok::<
            EnrollmentInvitationClaims,
            EnrollmentSecretError,
        >(claims),
        accepted_id(decode(opened(token)->Ok_0)) == Ok::<u128, EnrollmentSecretError>(claims.id),
{
    let payload = encode_utf8(claims_document(claims));
    let secret = choose|secret: Seq<u8>| #[trigger] sealed_with(token, payload, secret);
    let mac = mac_of(base64url_text(payload), base64url_text(secret), secret);
    no_dot(base64url_text(payload));
    no_dot(base64url_text(secret));
    no_dot(base64url_text(mac));
    token_fields(base64url_text(payload), base64url_text(secret), base64url_text(mac));
}

/// Accepts the claims that an intact invitation's payload decoded to, if it
/// decoded at all.
pub fn accept_claims(decoded: Option<EnrollmentInvitationClaims>) -> (result: Result<
    EnrollmentInvitationClaims,
    EnrollmentSecretError,
>)
    ensures
        result == accepted_claims(decoded),
{
    let claims = match decoded {
        Some(claims) => claims,
        None => return Err(EnrollmentSecretError::InvalidFormat),
    };
    match claims.validate() {
        Ok(()) => Ok(claims),
        Err(error) => Err(error),
    }
}

/// Extracts the non-secret lookup identifier embedded in an invitation.
pub fn enrollment_key_id(decoded: Option<EnrollmentInvitationClaims>) -> (result: Result<
    u128,
    EnrollmentSecretError,
>)
    ensures
        result == accepted_id(decoded),
{
    match accept_claims(decoded) {
        Ok(claims) => Ok(claims.id),
        Err(error) => Err(error),
    }
}

/// The hash that is stored of an invitation, with a salt.
pub open spec fn stored_hash(token: Seq<char>, salt: Seq<u8>) -> Option<Seq<char>> {
    argon2id_text(token, salt, HASH_MEMORY, HASH_PASSES, HASH_LANES, HASH_BYTES as nat)
}

/// What verifying an invitation against a stored hash gives. A number of lanes with
/// more than eight digits is over every limit, so nothing verifies against it.
pub open spec fn key_verdict(token: Seq<char>, hash: Seq<char>) -> Result<
    bool,
    EnrollmentSecretError,
> {
    match argon2_parameters(hash) {
        None => Err(EnrollmentSecretError::InvalidHash),
        Some(parameters) => Ok(
            bounded_lanes(parameters) && argon2_accepts(token, hash) == Some(true),
        ),
    }
}

/// Hashes an enrollment invitation using hardened Argon2id parameters and a
/// random salt. The hash names its algorithm first, and the invitation verifies
/// against it.
pub fn hash_enrollment_key(token: &str) -> (result: Result<String, EnrollmentSecretError>)
    ensures
        match result {
            Ok(hash) => {
                &&& exists|salt: Seq<u8>|
                    salt.len() == SALT_BYTES && #[trigger] stored_hash(token@, salt) == Some(hash@)
                &&& "$argon2id$"@.is_prefix_of(hash@)
                &&& hash@.len() == STORED_HASH_CHARACTERS
                &&& key_verdict(token@, hash@) == Ok::<bool, EnrollmentSecretError>(true)
            },
            Err(error) => {
                &&& error == EnrollmentSecretError::Hash
                &&& exists|salt: Seq<u8>|
                    salt.len() == SALT_BYTES && #[trigger] stored_hash(token@, salt) is None
            },
        },
{
    let bytes = random_bytes(SALT_BYTES);
    let mut salt: [u8; 16] = [0; 16];
    let mut i: usize = 0;
    while i < 16
        invariant
            i <= 16,
            bytes.len() == 16,
        decreases 16 - i,
    {
        salt[i] = bytes[i];
        i += 1;
    }
    match argon2id_hash(token, &salt, HASH_MEMORY, HASH_PASSES, HASH_LANES, HASH_BYTES) {
        Some(hash) => {
            assert(stored_hash(token@, salt@) == Some(hash@));
            proof {
                let parameters = argon2_parameters(hash@)->Some_0;
                let lanes = numeral(HASH_LANES as nat, 10);
                assert(last_value(parameters, "p"@) == Some(lanes));
                reveal_with_fuel(numeral, 6);
                assert(numeral(HASH_MEMORY as nat, 10).len() == 5);
            }
            Ok(hash)
        },
        None => {
            assert(stored_hash(token@, salt@) is None);
            Err(EnrollmentSecretError::Hash)
        },
    }
}

/// The hash that is stored of an invitation does not hold its text: it is shorter.
pub proof fn stored_hash_does_not_hold_the_invitation(
    token: Seq<char>,
    payload: Seq<u8>,
    hash: Seq<char>,
)
    requires
        authentic(token, payload),
        hash.len() == STORED_HASH_CHARACTERS,
    ensures
        !contains_text(hash, token),
{
    reveal_strlit("centrald-invite1");
}

/// Verifies a candidate invitation against a stored Argon2id hash. A text that does
/// not begin as a hash does is none.
pub fn verify_enrollment_key(token: &str, encoded_hash: &str) -> (result: Result<
    bool,
    EnrollmentSecretError,
>)
    ensures
        result == key_verdict(token@, encoded_hash@),
        encoded_hash@.len() == 0 || encoded_hash@[0] != '$' ==> result == Err::<
            bool,
            EnrollmentSecretError,
        >(EnrollmentSecretError::InvalidHash),
{
    match read_hash_parameters(encoded_hash) {
        Some(parameters) => {
            if !has_bounded_lanes(&parameters) {
                return Ok(false);
            }
        },
        None => return Err(EnrollmentSecretError::InvalidHash),
    }
    match argon2_verify(token, encoded_hash) {
        Some(accepted) => Ok(accepted),
        None => Err(EnrollmentSecretError::InvalidHash),
    }
}

/// Claims are valid exactly if they follow the schema, name an invitation and a server, and carry a
/// printable name, a host's name, three ports of their own above the privileged ones and a root
/// certificate of at most 64 KiB.
pub proof fn complete_claims_are_valid(claims: EnrollmentInvitationClaims)
    ensures
        claims.valid() ==> {
            &&& claims.schema_version == 1
            &&& claims.id > 0
            &&& claims.server_instance_id > 0
            &&& trim(claims.name@).len() > 0
            &&& encode_utf8(claims.name@).len() <= 128
            &&& trim(claims.server_name@).len() > 0
            &&& !trim(claims.server_name@).contains('/')
            &&& claims.enrollment_port >= 1024
            &&& claims.client_port >= 1024
            &&& claims.admin_port >= 1024
            &&& claims.enrollment_port != claims.client_port
            &&& claims.enrollment_port != claims.admin_port
            &&& claims.client_port != claims.admin_port
            &&& encode_utf8(claims.root_ca_pem@).len() <= 65_536
        },
        claims.schema_version == 1 && claims.id > 0 && claims.server_instance_id > 0
            && printable_name(claims.name@) && server_name_is_usable(claims.server_name@)
            && 1024 <= claims.enrollment_port < claims.client_port && claims.client_port
            < claims.admin_port && encode_utf8(claims.root_ca_pem@).len() <= 65_536
            && contains_text(claims.root_ca_pem@, "-----BEGIN CERTIFICATE-----"@) && contains_text(
            claims.root_ca_pem@,
            "-----END CERTIFICATE-----"@,
        ) ==> claims.valid(),
{
}

/// What is accepted of an invitation is what it holds, and it is accepted exactly if it could be
/// read and is valid.
pub proof fn valid_claims_are_accepted(decoded: Option<EnrollmentInvitationClaims>)
    ensures
        accepted_claims(decoded) is Ok <==> decoded is Some && decoded->0.valid(),
        accepted_claims(decoded) is Ok ==> accepted_claims(decoded)->Ok_0 == decoded->0,
        accepted_id(decoded) is Ok <==> accepted_claims(decoded) is Ok,
        accepted_id(decoded) is Ok ==> accepted_id(decoded)->Ok_0 == decoded->0.id,
{
}

/// A token of four fields with a secret of 32 bytes opens exactly if its hash is the one that its
/// secret gives for the fields before it.
pub proof fn tokens_open_by_their_own_secret(token: Seq<char>)
    requires
        split(token, '.').len() == 4,
        split(token, '.')[0] == "centrald-invite1"@,
        encode_utf8(token).len() <= 131_072,
        base64url_bytes(split(token, '.')[1]) is Some,
        base64url_bytes(split(token, '.')[2]) is Some,
        base64url_bytes(split(token, '.')[2])->0.len() == 32,
        base64url_bytes(split(token, '.')[3]) is Some,
        base64url_bytes(split(token, '.')[3])->0.len() == 32,
    ensures
        opened(token) is Ok <==> base64url_bytes(split(token, '.')[3])->0 == hmac(
            base64url_bytes(split(token, '.')[2])->0,
            encode_utf8(signed_text(split(token, '.')[1], split(token, '.')[2])),
        ),
        opened(token) is Ok ==> opened(token)->Ok_0 == base64url_bytes(split(token, '.')[1])->0,
        opened(token) is Err ==> opened(token)->Err_0 == EnrollmentSecretError::Integrity,
{
}

/// What is signed holds both the payload and the secret, so tokens that differ in either are signed
/// differently.
pub proof fn tokens_are_signed_apart(
    payload: Seq<char>,
    secret: Seq<char>,
    other_payload: Seq<char>,
    other_secret: Seq<char>,
)
    requires
        payload.len() == other_payload.len(),
        signed_text(payload, secret) == signed_text(other_payload, other_secret),
    ensures
        payload == other_payload,
        secret == other_secret,
{
    let n = INVITATION_PREFIX@.len() as int + 1;
    let m = n + payload.len();
    assert(payload =~= signed_text(payload, secret).subrange(n, m));
    assert(other_payload =~= signed_text(other_payload, other_secret).subrange(n, m));
    assert(secret =~= signed_text(payload, secret).skip(m + 1));
    assert(other_secret =~= signed_text(other_payload, other_secret).skip(m + 1));
}

} // verus!
