//! The certificate policy: what is issued, for how long, and to whom.
//!
//! Moments are nanoseconds since 1970. A certificate is planned, signed by the
//! issuing key, and put together with its chain. Keys and signatures rest on
//! chance: of an issued certificate it is stated which policy and which keys it
//! was signed with.

use rcgen::{
    BasicConstraints, CertificateParams, CertificateSigningRequestParams, DistinguishedName, DnType,
    DnValue, ExtendedKeyUsagePurpose, IsCa, Issuer, KeyPair, KeyUsagePurpose,
};
use time::OffsetDateTime;
use vstd::prelude::*;
use vstd::utf8::is_ascii_chars;

use crate::codec::{hex_encode, hex_text};
use crate::crypto::{random_bytes, sha256, sha256_digest};
use crate::text::{concat, same_bytes, same_text, trim, trimmed};

verus! {

pub const ROOT_VALIDITY_DAYS: i64 = 5475;

pub const ISSUER_VALIDITY_DAYS: i64 = 1095;

pub const SERVER_VALIDITY_DAYS: i64 = 90;

pub const IDENTITY_VALIDITY_DAYS: i64 = 90;

pub const SIGNING_CHAIN_SAFETY_MARGIN_DAYS: i64 = 1;

pub const MINIMUM_LEAF_VALIDITY_DAYS: i64 = 31;

pub const MINIMUM_ISSUER_VALIDITY_DAYS: i64 = 120;

/// A minute, in nanoseconds.
pub const MINUTE: i128 = 60_000_000_000;

/// A day, in nanoseconds.
pub const DAY: i128 = 86_400_000_000_000;

/// No moment that can be named is further than this from 1970: years have four
/// digits.
pub const FURTHEST: i128 = 1_000_000_000_000_000_000_000_000;

pub open spec fn moment(value: int) -> bool {
    -FURTHEST <= value <= FURTHEST
}

#[derive(Debug)]
pub enum PkiError {
    Rcgen(String),
    EmptyPublicHost,
    EmptyIdentityName,
    CommonNameMismatch,
    UnsupportedCommonName,
    CertificateParse(String),
    InsufficientSigningValidity { kind: &'static str, available_until: i128 },
}

/// An error, with its texts as sequences of characters.
pub enum PkiFault {
    Rcgen(Seq<char>),
    EmptyPublicHost,
    EmptyIdentityName,
    CommonNameMismatch,
    UnsupportedCommonName,
    CertificateParse(Seq<char>),
    InsufficientSigningValidity { kind: Seq<char>, available_until: int },
}

impl View for PkiError {
    type V = PkiFault;

    open spec fn view(&self) -> PkiFault {
        match self {
            PkiError::Rcgen(text) => PkiFault::Rcgen(text@),
            PkiError::EmptyPublicHost => PkiFault::EmptyPublicHost,
            PkiError::EmptyIdentityName => PkiFault::EmptyIdentityName,
            PkiError::CommonNameMismatch => PkiFault::CommonNameMismatch,
            PkiError::UnsupportedCommonName => PkiFault::UnsupportedCommonName,
            PkiError::CertificateParse(text) => PkiFault::CertificateParse(text@),
            PkiError::InsufficientSigningValidity { kind, available_until } =>
                PkiFault::InsufficientSigningValidity {
                    kind: kind@,
                    available_until: *available_until as int,
                },
        }
    }
}

/// A moment as the time crate writes it, where it can.
pub uninterp spec fn offset_text(nanos: int) -> Option<Seq<char>>;

/// Calls `time::OffsetDateTime::from_unix_timestamp_nanos` and writes what it
/// returns with `to_string`. The contract names the result, which is none for a
/// moment outside the crate's range.
#[verifier::external_body]
fn write_offset(nanos: i128) -> (result: Option<String>)
    ensures
        match result {
            Some(text) => offset_text(nanos as int) == Some(text@),
            None => offset_text(nanos as int) is None,
        },
{
    OffsetDateTime::from_unix_timestamp_nanos(nanos).ok().map(|moment| moment.to_string())
}

impl PkiError {
    /// The message of an error.
    pub open spec fn message_spec(self) -> Seq<char> {
        match self {
            PkiError::Rcgen(text) => "certificate generation failed: "@ + text@,
            PkiError::EmptyPublicHost => "public host must not be empty"@,
            PkiError::EmptyIdentityName => "identity name must not be empty"@,
            PkiError::CommonNameMismatch =>
                "certificate request common name does not match the requested identity"@,
            PkiError::UnsupportedCommonName =>
                "certificate request common name uses an unsupported string encoding"@,
            PkiError::CertificateParse(text) => "certificate parsing failed: "@ + text@,
            PkiError::InsufficientSigningValidity { kind, available_until } => kind@
                + " cannot be issued because its signing chain expires too soon"@
                + match offset_text(available_until as int) {
                Some(text) => " ("@ + text + ")"@,
                None => Seq::empty(),
            },
        }
    }

    pub fn message(&self) -> (result: String)
        ensures
            result@ == self.message_spec(),
    {
        match self {
            PkiError::Rcgen(text) => concat("certificate generation failed: ", text),
            PkiError::EmptyPublicHost => "public host must not be empty".to_owned(),
            PkiError::EmptyIdentityName => "identity name must not be empty".to_owned(),
            PkiError::CommonNameMismatch =>
                "certificate request common name does not match the requested identity".to_owned(),
            PkiError::UnsupportedCommonName =>
                "certificate request common name uses an unsupported string encoding".to_owned(),
            PkiError::CertificateParse(text) => concat("certificate parsing failed: ", text),
            PkiError::InsufficientSigningValidity { kind, available_until } => {
                let mut message = concat(
                    kind,
                    " cannot be issued because its signing chain expires too soon",
                );
                let ghost before = message@;
                match write_offset(*available_until) {
                    Some(text) => {
                        message.append(" (");
                        message.append(&text);
                        message.append(")");
                        assert(message@ =~= before + (" ("@ + text@ + ")"@));
                    },
                    None => {
                        assert(before + Seq::empty() =~= before);
                    },
                }
                message
            },
        }
    }
}

/// The earliest of some moments.
pub open spec fn earliest(moments: Seq<i128>) -> int
    decreases moments.len(),
{
    if moments.len() == 0 {
        0
    } else if moments.len() == 1 {
        moments[0] as int
    } else {
        let before = earliest(moments.drop_last());
        if moments.last() < before {
            moments.last() as int
        } else {
            before
        }
    }
}

/// How long a signing chain lets a certificate live: one day less than the first
/// certificate in it, and as long as requested where there is no chain.
pub open spec fn chain_limit(requested: int, parents: Seq<i128>) -> int {
    if parents.len() == 0 {
        requested
    } else {
        earliest(parents) - SIGNING_CHAIN_SAFETY_MARGIN_DAYS * DAY
    }
}

/// When a certificate expires: as requested, or when its chain says so. It is not
/// issued at all where it would not live longer than a minimum.
pub open spec fn expiry(now: int, requested_days: int, parents: Seq<i128>, minimum_days: int) ->
    Option<int> {
    let requested = now + requested_days * DAY;
    let limit = chain_limit(requested, parents);
    let expires = if requested <= limit {
        requested
    } else {
        limit
    };
    if expires <= now + minimum_days * DAY {
        None
    } else {
        Some(expires)
    }
}

/// What is told where a certificate would not live long enough.
pub open spec fn too_short(now: int, requested_days: int, parents: Seq<i128>, kind: Seq<char>) ->
    PkiFault {
    PkiFault::InsufficientSigningValidity {
        kind,
        available_until: chain_limit(now + requested_days * DAY, parents),
    }
}

/// A certificate never outlives the chain that signs it, nor what was requested,
/// and lives longer than its minimum.
pub proof fn expiry_is_bounded(
    now: int,
    requested_days: int,
    parents: Seq<i128>,
    minimum_days: int,
    i: int,
)
    requires
        expiry(now, requested_days, parents, minimum_days) is Some,
    ensures
        ({
            let expires = expiry(now, requested_days, parents, minimum_days)->0;
            &&& expires <= now + requested_days * DAY
            &&& expires > now + minimum_days * DAY
            &&& 0 <= i < parents.len() ==> expires <= parents[i] - DAY
        }),
{
    if 0 <= i < parents.len() {
        earliest_is_least(parents, i);
    }
}

proof fn earliest_is_least(moments: Seq<i128>, i: int)
    requires
        0 <= i < moments.len(),
    ensures
        earliest(moments) <= moments[i],
    decreases moments.len(),
{
    if moments.len() > 1 && i < moments.len() - 1 {
        earliest_is_least(moments.drop_last(), i);
    }
}

/// Tells when a certificate expires that is requested for a number of days and
/// signed by a chain.
pub fn bounded_not_after(
    now: i128,
    requested_days: i64,
    kind: &'static str,
    parents: &Vec<i128>,
    minimum_days: i64,
) -> (result: Result<i128, PkiError>)
    requires
        moment(now as int),
        forall|i: int| 0 <= i < parents.len() ==> moment(#[trigger] parents@[i] as int),
    ensures
        match expiry(now as int, requested_days as int, parents@, minimum_days as int) {
            Some(expires) => result == Ok::<i128, PkiError>(expires as i128) && expires
                == result->Ok_0,
            None => result is Err && result->Err_0@ == too_short(
                now as int,
                requested_days as int,
                parents@,
                kind@,
            ),
        },
{
    let requested: i128 = now + requested_days as i128 * DAY;
    let mut limit: i128 = requested;
    if parents.len() > 0 {
        limit = parents[0];
        let mut i: usize = 1;
        assert(parents@.take(1) =~= seq![parents@[0]]);
        while i < parents.len()
            invariant
                1 <= i <= parents.len(),
                limit == earliest(parents@.take(i as int)),
                moment(limit as int),
                forall|i: int| 0 <= i < parents.len() ==> moment(#[trigger] parents@[i] as int),
            decreases parents.len() - i,
        {
            assert(parents@.take(i + 1).drop_last() =~= parents@.take(i as int));
            if parents[i] < limit {
                limit = parents[i];
            }
            i += 1;
        }
        assert(parents@.take(parents@.len() as int) =~= parents@);
        limit = limit - SIGNING_CHAIN_SAFETY_MARGIN_DAYS as i128 * DAY;
    }
    let expires: i128 = if requested <= limit {
        requested
    } else {
        limit
    };
    if expires <= now + minimum_days as i128 * DAY {
        return Err(PkiError::InsufficientSigningValidity { kind, available_until: limit });
    }
    Ok(expires)
}

/// A certificate serial from random bytes: positive, and not zero.
pub open spec fn serial_of(random: Seq<u8>) -> Seq<u8> {
    let cleared = random.update(0, random[0] & 0x7f);
    if forall|i: int| 0 <= i < cleared.len() ==> cleared[i] == 0 {
        cleared.update(19, 1)
    } else {
        cleared
    }
}

/// A serial is a positive number of twenty bytes: its sign bit is clear, and some
/// byte of it is not zero.
pub proof fn serial_is_positive(random: Seq<u8>)
    requires
        random.len() == 20,
    ensures
        serial_of(random).len() == 20,
        serial_of(random)[0] < 0x80,
        exists|i: int| 0 <= i < 20 && serial_of(random)[i] != 0,
{
    let first = random[0];
    assert(first & 0x7f < 0x80) by (bit_vector);
    let cleared = random.update(0, first & 0x7f);
    if forall|i: int| 0 <= i < cleared.len() ==> cleared[i] == 0 {
        assert(serial_of(random)[19] != 0);
    } else {
        let i = choose|i: int| 0 <= i < cleared.len() && cleared[i] != 0;
        assert(serial_of(random)[i] != 0);
    }
}

/// Makes a certificate serial of random bytes. RFC 5280 serials are positive and
/// non-zero. Clearing the sign bit also keeps the DER INTEGER within the required
/// 20-octet representation.
pub fn certificate_serial(random: Vec<u8>) -> (result: Vec<u8>)
    requires
        random.len() == 20,
    ensures
        result@ == serial_of(random@),
{
    let mut serial = random;
    serial.set(0, serial[0] & 0x7f);
    let ghost cleared = serial@;
    let mut i: usize = 0;
    while i < 20
        invariant
            i <= 20,
            serial.len() == 20,
            serial@ == cleared,
            cleared == random@.update(0, random@[0] & 0x7f),
            forall|j: int| 0 <= j < i ==> cleared[j] == 0,
        decreases 20 - i,
    {
        if serial[i] != 0 {
            assert(cleared[i as int] != 0);
            return serial;
        }
        i += 1;
    }
    serial.set(19, 1);
    serial
}

/// Makes a fresh certificate serial.
pub fn fresh_certificate_serial() -> (result: Vec<u8>)
    ensures
        exists|random: Seq<u8>| random.len() == 20 && result@ == #[trigger] serial_of(random),
{
    certificate_serial(random_bytes(20))
}

/// Calls `time::OffsetDateTime::now_utc`: the clock may say anything within its
/// range.
#[verifier::external_body]
fn now_utc() -> (result: i128)
    ensures
        moment(result as int),
{
    time::OffsetDateTime::now_utc().unix_timestamp_nanos()
}

/// When the first certificate of a chain in PEM form expires, or why that cannot
/// be read.
pub uninterp spec fn x509_expiry(pem: Seq<char>) -> Result<int, Seq<char>>;

/// Calls `parse_x509_pem` and `parse_x509_certificate` of x509-parser and reads
/// the end of the certificate's validity. The contract names the result, and says
/// that it lies in the range of the time crate.
#[verifier::external_body]
fn read_expiry(pem: &str) -> (result: Result<i128, String>)
    ensures
        match result {
            Ok(expires) => x509_expiry(pem@) == Ok::<int, Seq<char>>(expires as int) && moment(
                expires as int,
            ),
            Err(text) => x509_expiry(pem@) == Err::<int, Seq<char>>(text@),
        },
{
    let (_, block) = x509_parser::pem::parse_x509_pem(pem.as_bytes()).map_err(|e| e.to_string())?;
    let (_, certificate) =
        x509_parser::parse_x509_certificate(&block.contents).map_err(|e| e.to_string())?;
    Ok(certificate.validity().not_after.to_datetime().unix_timestamp_nanos())
}

/// The raw public key of a certificate in PEM form, or why it cannot be read.
pub uninterp spec fn x509_public_key(pem: Seq<char>) -> Result<Seq<u8>, Seq<char>>;

/// Calls `parse_x509_pem` and `parse_x509_certificate` of x509-parser and reads
/// the certificate's public key. The contract names the result.
#[verifier::external_body]
fn read_public_key(pem: &str) -> (result: Result<Vec<u8>, String>)
    ensures
        match result {
            Ok(key) => x509_public_key(pem@) == Ok::<Seq<u8>, Seq<char>>(key@),
            Err(text) => x509_public_key(pem@) == Err::<Seq<u8>, Seq<char>>(text@),
        },
{
    let (_, block) = x509_parser::pem::parse_x509_pem(pem.as_bytes()).map_err(|e| e.to_string())?;
    let (_, certificate) =
        x509_parser::parse_x509_certificate(&block.contents).map_err(|e| e.to_string())?;
    Ok(certificate.public_key().subject_public_key.data.to_vec())
}

/// The raw public half of a private key in PEM form, or why it cannot be read.
pub uninterp spec fn key_pair_public(pem: Seq<char>) -> Result<Seq<u8>, Seq<char>>;

/// Calls `from_pem` and `public_key_raw` of rcgen's `KeyPair`. The contract names
/// the result.
#[verifier::external_body]
fn read_key_pair(pem: &str) -> (result: Result<Vec<u8>, String>)
    ensures
        match result {
            Ok(key) => key_pair_public(pem@) == Ok::<Seq<u8>, Seq<char>>(key@),
            Err(text) => key_pair_public(pem@) == Err::<Seq<u8>, Seq<char>>(text@),
        },
{
    let pair = KeyPair::from_pem(pem).map_err(|error| error.to_string())?;
    Ok(pair.public_key_raw().to_vec())
}

/// Why an authority's certificate and key, both in PEM form, cannot sign, if they
/// cannot.
pub uninterp spec fn issuer_refusal(certificate: Seq<char>, key: Seq<char>) -> Option<Seq<char>>;

/// Calls `from_ca_cert_pem` of rcgen's `Issuer` with a key that `from_pem` of its
/// `KeyPair` reads. The contract names the error, if there is one.
#[verifier::external_body]
fn refuse_issuer(certificate: &str, key: &str) -> (result: Option<String>)
    ensures
        match result {
            Some(text) => issuer_refusal(certificate@, key@) == Some(text@),
            None => issuer_refusal(certificate@, key@) is None,
        },
{
    let issuer = KeyPair::from_pem(key).and_then(|pair| Issuer::from_ca_cert_pem(certificate, pair));
    issuer.err().map(|error| error.to_string())
}

/// The bytes in the first block of a text in PEM form, if there is one.
pub uninterp spec fn pem_block(pem: Seq<char>) -> Option<Seq<u8>>;

/// Calls `pem::parse`, as rcgen does to read the certificate of an issuer, and takes
/// the contents of the block. The contract names the result.
#[verifier::external_body]
fn read_pem_block(text: &str) -> (result: Option<Vec<u8>>)
    ensures
        match result {
            Some(der) => pem_block(text@) == Some(der@),
            None => pem_block(text@) is None,
        },
{
    pem::parse(text).ok().map(|block| block.into_contents())
}

/// Object identifiers, each with its arcs, as sequences. One whose arcs are too
/// large to be told is none.
pub open spec fn oid_views(oids: Seq<Option<Vec<u64>>>) -> Seq<Option<Seq<u64>>> {
    oids.map_values(
        |oid: Option<Vec<u64>>|
            match oid {
                Some(arcs) => Some(arcs@),
                None => None,
            },
    )
}

/// The types of the attributes of a certificate's subject, or why they cannot be
/// read. The certificate is in DER form.
pub uninterp spec fn subject_oids(der: Seq<u8>) -> Result<Seq<Option<Seq<u64>>>, Seq<char>>;

/// Calls `parse_x509_certificate` of x509-parser and reads the types of the
/// attributes of the certificate's subject. The contract names the result.
#[verifier::external_body]
fn read_subject_oids(der: &[u8]) -> (result: Result<Vec<Option<Vec<u64>>>, String>)
    ensures
        match result {
            Ok(oids) => subject_oids(der@) == Ok::<Seq<Option<Seq<u64>>>, Seq<char>>(
                oid_views(oids@),
            ),
            Err(text) => subject_oids(der@) == Err::<Seq<Option<Seq<u64>>>, Seq<char>>(text@),
        },
{
    let (_, parsed) = x509_parser::parse_x509_certificate(der).map_err(|e| e.to_string())?;
    let attributes = parsed.subject().iter_attributes();
    Ok(attributes.map(|each| each.attr_type().iter().map(Iterator::collect)).collect())
}

/// Whether an object identifier can be written: it has two arcs at least, the
/// first at most two, and the second below forty unless the first is two.
pub open spec fn writable_oid(oid: Option<Seq<u64>>) -> bool {
    match oid {
        Some(arcs) => arcs.len() >= 2 && arcs[0] <= 2 && (arcs[0] == 2 || arcs[1] < 40) && arcs[1]
            < 18_446_744_073_709_551_535,
        None => true,
    }
}

pub open spec fn writable_oids(oids: Seq<Option<Seq<u64>>>) -> bool {
    forall|i: int| 0 <= i < oids.len() ==> writable_oid(#[trigger] oids[i])
}

fn has_writable_oids(oids: &Vec<Option<Vec<u64>>>) -> (result: bool)
    ensures
        result == writable_oids(oid_views(oids@)),
{
    let ghost views = oid_views(oids@);
    let mut i: usize = 0;
    while i < oids.len()
        invariant
            i <= oids.len(),
            views == oid_views(oids@),
            forall|j: int| 0 <= j < i ==> writable_oid(#[trigger] views[j]),
        decreases oids.len() - i,
    {
        match &oids[i] {
            Some(arcs) => {
                assert(views[i as int] == Some(arcs@));
                if arcs.len() < 2 || arcs[0] > 2 || (arcs[0] < 2 && arcs[1] >= 40) || arcs[1]
                    >= 18_446_744_073_709_551_535 {
                    assert(!writable_oid(views[i as int]));
                    return false;
                }
            },
            None => {
                assert(views[i as int] is None);
            },
        }
        i += 1;
    }
    true
}

/// The common name in a certificate request.
#[derive(Debug)]
pub enum CommonName {
    Missing,
    Text(String),
    Unsupported,
}

/// A common name, with its text as a sequence of characters.
pub enum CommonNameModel {
    Missing,
    Text(Seq<char>),
    Unsupported,
}

impl View for CommonName {
    type V = CommonNameModel;

    open spec fn view(&self) -> CommonNameModel {
        match self {
            CommonName::Missing => CommonNameModel::Missing,
            CommonName::Text(text) => CommonNameModel::Text(text@),
            CommonName::Unsupported => CommonNameModel::Unsupported,
        }
    }
}

/// The common name in a certificate request in PEM form whose signature is valid,
/// or why it cannot be read.
pub uninterp spec fn request_name(csr: Seq<char>) -> Result<CommonNameModel, Seq<char>>;

/// Calls `from_pem` of rcgen's `CertificateSigningRequestParams`, which checks
/// the request's signature, and reads the common name. The contract names the
/// result.
#[verifier::external_body]
fn read_request_name(csr: &str) -> (result: Result<CommonName, String>)
    ensures
        match result {
            Ok(name) => request_name(csr@) == Ok::<CommonNameModel, Seq<char>>(name@),
            Err(text) => request_name(csr@) == Err::<CommonNameModel, Seq<char>>(text@),
        },
{
    let request = CertificateSigningRequestParams::from_pem(csr).map_err(|e| e.to_string())?;
    Ok(match request.params.distinguished_name.get(&DnType::CommonName) {
        None => CommonName::Missing,
        Some(DnValue::Utf8String(text)) => CommonName::Text(text.clone()),
        Some(DnValue::Ia5String(text)) => CommonName::Text(text.as_ref().to_owned()),
        Some(DnValue::PrintableString(text)) => CommonName::Text(text.as_ref().to_owned()),
        Some(DnValue::TeletexString(text)) => CommonName::Text(text.as_ref().to_owned()),
        Some(_) => CommonName::Unsupported,
    })
}

/// What is told of a host that cannot stand in a certificate.
pub uninterp spec fn host_refusal(host: Seq<char>) -> Seq<char>;

/// Why a host cannot stand in a certificate, if it cannot: it is not ASCII.
pub open spec fn host_fault(host: Seq<char>) -> Option<Seq<char>> {
    if is_ascii_chars(host) {
        None
    } else {
        Some(host_refusal(host))
    }
}

/// Calls `new` of rcgen's `CertificateParams` with one alternative name, which is
/// an address or an ASCII text. The contract says that any ASCII text is taken,
/// and names the text of the error that comes of another.
#[verifier::external_body]
fn refuse_host(host: &str) -> (result: Option<String>)
    ensures
        match result {
            Some(text) => !is_ascii_chars(host@) && text@ == host_refusal(host@),
            None => is_ascii_chars(host@),
        },
{
    CertificateParams::new(vec![host.to_owned()]).err().map(|error| error.to_string())
}

/// Returns the expiration time of the first certificate in a PEM chain.
pub fn certificate_not_after(pem: &str) -> (result: Result<i128, PkiError>)
    ensures
        match x509_expiry(pem@) {
            Ok(expires) => result == Ok::<i128, PkiError>(expires as i128) && expires
                == result->Ok_0,
            Err(text) => result is Err && result->Err_0@ == PkiFault::CertificateParse(text),
        },
        result is Ok ==> moment(result->Ok_0 as int),
{
    match read_expiry(pem) {
        Ok(expires) => Ok(expires),
        Err(text) => Err(PkiError::CertificateParse(text)),
    }
}

/// The fingerprint of a certificate in DER form.
pub fn certificate_sha256(der: &[u8]) -> (result: String)
    ensures
        result@ == hex_text(sha256_digest(der@)),
{
    hex_encode(&sha256(der))
}

/// `rcgen::BasicConstraints`: how many more authorities may stand below one.
#[verifier::external_type_specification]
pub struct ExBasicConstraints(BasicConstraints);

/// `rcgen::IsCa`: whether a certificate may sign others.
#[verifier::external_type_specification]
pub struct ExIsCa(IsCa);

/// `rcgen::KeyUsagePurpose`: what a certificate's key may be used for.
#[verifier::external_type_specification]
pub struct ExKeyUsagePurpose(KeyUsagePurpose);

/// `rcgen::ExtendedKeyUsagePurpose`: what a certificate may prove.
#[verifier::external_type_specification]
pub struct ExExtendedKeyUsagePurpose(ExtendedKeyUsagePurpose);

/// `rcgen::Error`, carried to where its text is taken.
#[verifier::external_type_specification]
#[verifier::external_body]
pub struct ExRcgenError(rcgen::Error);

#[derive(Debug, Clone, Copy, PartialEq, Eq, Structural)]
pub enum IdentityCertificateKind {
    Client,
    Admin,
}

impl IdentityCertificateKind {
    pub open spec fn unit_spec(self) -> Seq<char> {
        match self {
            IdentityCertificateKind::Client => "client"@,
            IdentityCertificateKind::Admin => "admin"@,
        }
    }

    pub fn unit(self) -> (result: &'static str)
        ensures
            result@ == self.unit_spec(),
    {
        match self {
            IdentityCertificateKind::Client => "client",
            IdentityCertificateKind::Admin => "admin",
        }
    }
}

/// All that is put into a certificate, but for its key.
#[derive(Debug)]
pub struct CertificatePolicy {
    pub common_name: String,
    pub organizational_unit: Option<String>,
    pub alternative_name: Option<String>,
    pub authority: IsCa,
    pub key_uses: Vec<KeyUsagePurpose>,
    pub extended_uses: Vec<ExtendedKeyUsagePurpose>,
    pub not_before: i128,
    pub not_after: i128,
    pub serial: Vec<u8>,
}

/// A policy, with its texts and lists as sequences.
pub struct PolicyModel {
    pub common_name: Seq<char>,
    pub organizational_unit: Option<Seq<char>>,
    pub alternative_name: Option<Seq<char>>,
    pub authority: IsCa,
    pub key_uses: Seq<KeyUsagePurpose>,
    pub extended_uses: Seq<ExtendedKeyUsagePurpose>,
    pub not_before: int,
    pub not_after: int,
    pub serial: Seq<u8>,
}

impl View for CertificatePolicy {
    type V = PolicyModel;

    open spec fn view(&self) -> PolicyModel {
        PolicyModel {
            common_name: self.common_name@,
            organizational_unit: crate::text::optional_view(self.organizational_unit),
            alternative_name: crate::text::optional_view(self.alternative_name),
            authority: self.authority,
            key_uses: self.key_uses@,
            extended_uses: self.extended_uses@,
            not_before: self.not_before as int,
            not_after: self.not_after as int,
            serial: self.serial@,
        }
    }
}

/// The first moment that a certificate can hold: the start of the year zero.
pub const FIRST_WRITABLE: i128 = -62_167_219_200_000_000_000;

/// The last moment that a certificate can hold: the end of 9999.
pub const LAST_WRITABLE: i128 = 253_402_300_799_999_999_999;

/// Whether a moment can stand in a certificate.
pub open spec fn writable(value: int) -> bool {
    FIRST_WRITABLE <= value <= LAST_WRITABLE
}

/// A moment as a certificate holds it, without its fraction of a second.
pub open spec fn whole_second(value: int) -> int {
    value / 1_000_000_000 * 1_000_000_000
}

/// Whether the subject of a certificate can be written into another as its issuer.
pub open spec fn can_stand_as_issuer(certificate: Seq<char>) -> bool {
    match pem_block(certificate) {
        Some(der) => match subject_oids(der) {
            Ok(oids) => writable_oids(oids),
            Err(_) => true,
        },
        None => true,
    }
}

/// Tells whether the subject of a certificate can be written into another as its
/// issuer.
fn is_writable_issuer(certificate: &str) -> (result: bool)
    ensures
        result == can_stand_as_issuer(certificate@),
{
    match read_pem_block(certificate) {
        Some(der) => match read_subject_oids(&der) {
            Ok(oids) => has_writable_oids(&oids),
            Err(_) => true,
        },
        None => true,
    }
}

/// Whether a policy can be written as a certificate.
pub open spec fn issuable(policy: PolicyModel) -> bool {
    &&& writable(policy.not_before)
    &&& writable(policy.not_after)
    &&& well_shaped(policy)
}

/// Whether a policy has a serial of twenty bytes, and proves only what a server
/// or a client proves.
pub open spec fn well_shaped(policy: PolicyModel) -> bool {
    &&& policy.serial.len() == 20
    &&& forall|i: int|
        0 <= i < policy.extended_uses.len() ==> #[trigger] policy.extended_uses[i]
            == ExtendedKeyUsagePurpose::ServerAuth || policy.extended_uses[i]
            == ExtendedKeyUsagePurpose::ClientAuth
}

/// Takes the text of an `rcgen::Error` with `to_string`. Which text belongs to
/// which error is not stated.
#[verifier::external_body]
fn error_text(error: rcgen::Error) -> (result: String) {
    error.to_string()
}

/// The private key, in PEM form, that is made of the given random bytes; `None`
/// where none can be made.
pub uninterp spec fn generated_key(entropy: Seq<u8>) -> Option<Seq<char>>;

/// Calls `generate` and `serialize_pem` of rcgen's `KeyPair`. The contract says
/// that the result is decided by some random bytes.
#[verifier::external_body]
fn generate_key() -> (result: Result<String, rcgen::Error>)
    ensures
        match result {
            Ok(key) => exists|entropy: Seq<u8>| #[trigger] generated_key(entropy) == Some(key@),
            Err(_) => exists|entropy: Seq<u8>| #[trigger] generated_key(entropy) is None,
        },
{
    Ok(KeyPair::generate()?.serialize_pem())
}

/// The certificate, in PEM and in DER form, that a key signs for itself with the
/// given random bytes; `None` where it cannot be made.
pub uninterp spec fn self_signed_certificate(
    policy: PolicyModel,
    key: Seq<char>,
    entropy: Seq<u8>,
) -> Option<(Seq<char>, Seq<u8>)>;

/// Calls `self_signed` of rcgen's `CertificateParams`, filled from a policy. The
/// contract says that the result is decided by the policy, the key and some
/// random bytes, and that the end of its validity is read back as the policy has
/// it, to the second.
#[verifier::external_body]
fn sign_itself(policy: CertificatePolicy, key: &str) -> (result: Result<
    (String, Vec<u8>),
    rcgen::Error,
>)
    requires
        issuable(policy@),
        policy@.organizational_unit is None,
        policy@.alternative_name is None,
    ensures
        match result {
            Ok((pem, der)) => x509_expiry(pem@) == Ok::<int, Seq<char>>(
                whole_second(policy@.not_after),
            ) && exists|entropy: Seq<u8>| #[trigger]
                self_signed_certificate(policy@, key@, entropy) == Some((pem@, der@)),
            Err(_) => exists|entropy: Seq<u8>| #[trigger]
                self_signed_certificate(policy@, key@, entropy) is None,
        },
{
    let mut params = CertificateParams::default();
    params.distinguished_name = DistinguishedName::new();
    params.distinguished_name.push(DnType::CommonName, policy.common_name);
    params.is_ca = policy.authority;
    params.key_usages = policy.key_uses;
    params.extended_key_usages = policy.extended_uses;
    params.not_before = OffsetDateTime::from_unix_timestamp_nanos(policy.not_before).unwrap();
    params.not_after = OffsetDateTime::from_unix_timestamp_nanos(policy.not_after).unwrap();
    params.serial_number = Some(policy.serial.into());
    let certificate = params.self_signed(&KeyPair::from_pem(key)?)?;
    Ok((certificate.pem(), certificate.der().to_vec()))
}

/// The certificate, in PEM and in DER form, that an issuer signs for a key with
/// the given random bytes; `None` where it cannot be made.
pub uninterp spec fn signed_certificate(
    policy: PolicyModel,
    key: Seq<char>,
    issuer: Seq<char>,
    issuer_key: Seq<char>,
    entropy: Seq<u8>,
) -> Option<(Seq<char>, Seq<u8>)>;

/// Calls `signed_by` of rcgen's `CertificateParams`, filled from a policy. The
/// contract says that the result is decided by the policy, the keys, the issuer's
/// certificate and some random bytes, and that the end of its validity is read back
/// as the policy has it, to the second.
#[verifier::external_body]
fn sign_certificate(policy: CertificatePolicy, key: &str, issuer: &str, issuer_key: &str) -> (
    result: Result<(String, Vec<u8>), rcgen::Error>)
    requires
        issuable(policy@),
        can_stand_as_issuer(issuer@),
        policy@.organizational_unit is None,
    ensures
        match result {
            Ok((pem, der)) => x509_expiry(pem@) == Ok::<int, Seq<char>>(
                whole_second(policy@.not_after),
            ) && exists|entropy: Seq<u8>| #[trigger]
                signed_certificate(policy@, key@, issuer@, issuer_key@, entropy) == Some(
                    (pem@, der@),
                ),
            Err(_) => exists|entropy: Seq<u8>| #[trigger]
                signed_certificate(policy@, key@, issuer@, issuer_key@, entropy) is None,
        },
{
    let mut params =
        CertificateParams::new(policy.alternative_name.into_iter().collect::<Vec<_>>())?;
    params.distinguished_name = DistinguishedName::new();
    params.distinguished_name.push(DnType::CommonName, policy.common_name);
    params.is_ca = policy.authority;
    params.key_usages = policy.key_uses;
    params.extended_key_usages = policy.extended_uses;
    params.not_before = OffsetDateTime::from_unix_timestamp_nanos(policy.not_before).unwrap();
    params.not_after = OffsetDateTime::from_unix_timestamp_nanos(policy.not_after).unwrap();
    params.serial_number = Some(policy.serial.into());
    let issuer = Issuer::from_ca_cert_pem(issuer, KeyPair::from_pem(issuer_key)?)?;
    let certificate = params.signed_by(&KeyPair::from_pem(key)?, &issuer)?;
    Ok((certificate.pem(), certificate.der().to_vec()))
}

/// The certificate, in PEM and in DER form, that an issuer signs for the key of a
/// request with the given random bytes; `None` where it cannot be made.
pub uninterp spec fn signed_request(
    csr: Seq<char>,
    policy: PolicyModel,
    issuer: Seq<char>,
    issuer_key: Seq<char>,
    entropy: Seq<u8>,
) -> Option<(Seq<char>, Seq<u8>)>;

/// Calls `signed_by` of rcgen's `CertificateSigningRequestParams`, whose
/// parameters are replaced from a policy. The contract says that the result is
/// decided by the request, the policy, the issuer, its key and some random bytes,
/// and that the end of its validity is read back as the policy has it, to the
/// second.
#[verifier::external_body]
fn sign_request(csr: &str, policy: CertificatePolicy, issuer: &str, issuer_key: &str) -> (result:
    Result<(String, Vec<u8>), rcgen::Error>)
    requires
        issuable(policy@),
        can_stand_as_issuer(issuer@),
        policy@.organizational_unit is Some,
        policy@.alternative_name is None,
    ensures
        match result {
            Ok((pem, der)) => x509_expiry(pem@) == Ok::<int, Seq<char>>(
                whole_second(policy@.not_after),
            ) && exists|entropy: Seq<u8>| #[trigger]
                signed_request(csr@, policy@, issuer@, issuer_key@, entropy) == Some((pem@, der@)),
            Err(_) => exists|entropy: Seq<u8>| #[trigger]
                signed_request(csr@, policy@, issuer@, issuer_key@, entropy) is None,
        },
{
    let mut request = CertificateSigningRequestParams::from_pem(csr)?;
    let params = &mut request.params;
    params.distinguished_name = DistinguishedName::new();
    params.distinguished_name.push(DnType::CommonName, policy.common_name);
    params.distinguished_name.push(DnType::OrganizationalUnitName, policy.organizational_unit.unwrap());
    params.is_ca = policy.authority;
    params.subject_alt_names.clear();
    params.key_usages = policy.key_uses;
    params.extended_key_usages = policy.extended_uses;
    params.not_before = OffsetDateTime::from_unix_timestamp_nanos(policy.not_before).unwrap();
    params.not_after = OffsetDateTime::from_unix_timestamp_nanos(policy.not_after).unwrap();
    params.serial_number = Some(policy.serial.into());
    let certificate = request
        .signed_by(&Issuer::from_ca_cert_pem(issuer, KeyPair::from_pem(issuer_key)?)?)?;
    Ok((certificate.pem(), certificate.der().to_vec()))
}

/// The request, in PEM form, for a certificate with a common name and some uses,
/// that a key signs with the given random bytes; `None` where it cannot be made.
pub uninterp spec fn request_text(
    common_name: Seq<char>,
    key_uses: Seq<KeyUsagePurpose>,
    extended_uses: Seq<ExtendedKeyUsagePurpose>,
    key: Seq<char>,
    entropy: Seq<u8>,
) -> Option<Seq<char>>;

/// Calls `serialize_request` of rcgen's `CertificateParams`, and `pem` of what it
/// returns. The contract says that the result is decided by the arguments and
/// some random bytes.
#[verifier::external_body]
fn make_request(
    common_name: &str,
    key_uses: Vec<KeyUsagePurpose>,
    extended_uses: Vec<ExtendedKeyUsagePurpose>,
    key: &str,
) -> (result: Result<String, rcgen::Error>)
    requires
        forall|i: int|
            0 <= i < extended_uses@.len() ==> #[trigger] extended_uses@[i]
                == ExtendedKeyUsagePurpose::ClientAuth,
    ensures
        match result {
            Ok(csr) => exists|entropy: Seq<u8>| #[trigger]
                request_text(common_name@, key_uses@, extended_uses@, key@, entropy) == Some(csr@),
            Err(_) => exists|entropy: Seq<u8>| #[trigger]
                request_text(common_name@, key_uses@, extended_uses@, key@, entropy) is None,
        },
{
    let mut params = CertificateParams::default();
    params.distinguished_name = DistinguishedName::new();
    params.distinguished_name.push(DnType::CommonName, common_name);
    params.key_usages = key_uses;
    params.extended_key_usages = extended_uses;
    params.serialize_request(&KeyPair::from_pem(key)?)?.pem()
}

/// Tells whether a policy's moments can stand in a certificate.
fn has_writable_moments(policy: &CertificatePolicy) -> (result: bool)
    ensures
        result == (writable(policy@.not_before) && writable(policy@.not_after)),
{
    FIRST_WRITABLE <= policy.not_before && policy.not_before <= LAST_WRITABLE && FIRST_WRITABLE
        <= policy.not_after && policy.not_after <= LAST_WRITABLE
}

/// What is told where a moment cannot stand in a certificate.
fn unwritable() -> (result: PkiError)
    ensures
        result@ == PkiFault::Rcgen("Time error"@),
{
    PkiError::Rcgen("Time error".to_owned())
}

/// Why a policy cannot be signed, if that is known before the signature: the
/// issuer's certificate and key do not go together or cannot be read, its name
/// cannot be written, or a moment cannot.
pub open spec fn issuing_fault(
    policy: PolicyModel,
    issuer_pem: Seq<char>,
    issuer_key_pem: Seq<char>,
) -> Option<PkiFault> {
    match issuer_refusal(issuer_pem, issuer_key_pem) {
        Some(text) => Some(PkiFault::Rcgen(text)),
        None => if !can_stand_as_issuer(issuer_pem) {
            Some(PkiFault::CertificateParse("issuer name cannot be written"@))
        } else if !writable(policy.not_before) || !writable(policy.not_after) {
            Some(PkiFault::Rcgen("Time error"@))
        } else {
            None
        },
    }
}

/// Tells what is wrong with signing a policy before it is signed.
fn check_issuing(policy: &CertificatePolicy, issuer_pem: &str, issuer_key_pem: &str) -> (result:
    Result<(), PkiError>)
    ensures
        match issuing_fault(policy@, issuer_pem@, issuer_key_pem@) {
            Some(fault) => result is Err && result->Err_0@ == fault,
            None => result is Ok,
        },
{
    match refuse_issuer(issuer_pem, issuer_key_pem) {
        Some(text) => return Err(PkiError::Rcgen(text)),
        None => {},
    }
    if !is_writable_issuer(issuer_pem) {
        return Err(PkiError::CertificateParse("issuer name cannot be written".to_owned()));
    }
    if !has_writable_moments(policy) {
        return Err(unwritable());
    }
    Ok(())
}

/// Whether no key was made: some random bytes make none.
pub open spec fn no_key_came(error: PkiError) -> bool {
    &&& error is Rcgen
    &&& exists|entropy: Seq<u8>| #[trigger] generated_key(entropy) is None
}

/// Whether a key is one that random bytes make.
pub open spec fn key_came(key: Seq<char>) -> bool {
    exists|entropy: Seq<u8>| #[trigger] generated_key(entropy) == Some(key)
}

/// An authority: it may sign certificates and revocation lists, and is valid from
/// the day before.
pub open spec fn authority_model(
    name: Seq<char>,
    authority: IsCa,
    now: int,
    expires: int,
    serial: Seq<u8>,
) -> PolicyModel {
    PolicyModel {
        common_name: name,
        organizational_unit: None,
        alternative_name: None,
        authority,
        key_uses: seq![KeyUsagePurpose::KeyCertSign, KeyUsagePurpose::CrlSign, KeyUsagePurpose::DigitalSignature],
        extended_uses: Seq::empty(),
        not_before: now - DAY,
        not_after: expires,
        serial,
    }
}

fn authority_policy(
    name: &str,
    authority: IsCa,
    now: i128,
    expires: i128,
    serial: Vec<u8>,
) -> (result: CertificatePolicy)
    requires
        moment(now as int),
    ensures
        result@ == authority_model(name@, authority, now as int, expires as int, serial@),
{
    let mut key_uses: Vec<KeyUsagePurpose> = Vec::new();
    key_uses.push(KeyUsagePurpose::KeyCertSign);
    key_uses.push(KeyUsagePurpose::CrlSign);
    key_uses.push(KeyUsagePurpose::DigitalSignature);
    let extended_uses: Vec<ExtendedKeyUsagePurpose> = Vec::new();
    assert(key_uses@ =~= seq![
        KeyUsagePurpose::KeyCertSign,
        KeyUsagePurpose::CrlSign,
        KeyUsagePurpose::DigitalSignature,
    ]);
    assert(extended_uses@ =~= Seq::empty());
    CertificatePolicy {
        common_name: name.to_owned(),
        organizational_unit: None,
        alternative_name: None,
        authority,
        key_uses,
        extended_uses,
        not_before: now - DAY,
        not_after: expires,
        serial,
    }
}

/// A certificate with its chain, and its private key.
pub struct PemIdentity {
    pub certificate_chain_pem: String,
    pub private_key_pem: String,
}

impl PemIdentity {
    /// Puts a signed certificate together with its chain and its key.
    pub fn assemble(
        certificate_pem: &str,
        issuer_pem: &str,
        root_pem: &str,
        private_key_pem: String,
    ) -> (result: PemIdentity)
        ensures
            result.certificate_chain_pem@ == certificate_pem@ + issuer_pem@ + root_pem@,
            result.private_key_pem == private_key_pem,
    {
        let mut chain = concat(certificate_pem, issuer_pem);
        chain.append(root_pem);
        PemIdentity { certificate_chain_pem: chain, private_key_pem }
    }

    /// A text for logs that holds no key.
    pub fn debug_text(&self) -> (result: String)
        ensures
            result@
                == "PemIdentity { certificate_chain_pem: \"[CERTIFICATE CHAIN PEM]\", private_key_pem: \"[REDACTED]\" }"@,
    {
        "PemIdentity { certificate_chain_pem: \"[CERTIFICATE CHAIN PEM]\", private_key_pem: \"[REDACTED]\" }".to_owned()
    }
}

/// An authority's certificate and key.
pub struct CertificateAuthority {
    pub certificate_pem: String,
    pub certificate_der: Vec<u8>,
    pub private_key_pem: String,
}

impl CertificateAuthority {
    pub fn certificate_pem(&self) -> (result: String)
        ensures
            result@ == self.certificate_pem@,
    {
        self.certificate_pem.clone()
    }

    pub fn private_key_pem(&self) -> (result: String)
        ensures
            result@ == self.private_key_pem@,
    {
        self.private_key_pem.clone()
    }

    pub fn certificate_sha256(&self) -> (result: String)
        ensures
            result@ == hex_text(sha256_digest(self.certificate_der@)),
    {
        certificate_sha256(&self.certificate_der)
    }

    /// A text for logs that holds no key.
    pub fn debug_text(&self) -> (result: String)
        ensures
            result@ == "CertificateAuthority { certificate_sha256: \""@ + hex_text(
                sha256_digest(self.certificate_der@),
            ) + "\", private_key: \"[REDACTED]\" }"@,
    {
        let mut text = concat(
            "CertificateAuthority { certificate_sha256: \"",
            &self.certificate_sha256(),
        );
        text.append("\", private_key: \"[REDACTED]\" }");
        text
    }
}

/// A certificate that was signed for an identity.
#[derive(Debug)]
pub struct IssuedCertificate {
    pub certificate_chain_pem: String,
    pub fingerprint_sha256: String,
    pub serial_hex: String,
    pub expires_at: i128,
}

impl IssuedCertificate {
    /// Puts a signed certificate together with its chain, its serial and the end
    /// of its validity.
    pub fn assemble(
        serial_hex: String,
        expires_at: i128,
        certificate_pem: &str,
        certificate_der: &[u8],
        issuer_pem: &str,
        root_pem: &str,
    ) -> (result: IssuedCertificate)
        ensures
            result.certificate_chain_pem@ == certificate_pem@ + issuer_pem@ + root_pem@,
            result.fingerprint_sha256@ == hex_text(sha256_digest(certificate_der@)),
            result.serial_hex == serial_hex,
            result.expires_at == expires_at,
    {
        let mut chain = concat(certificate_pem, issuer_pem);
        chain.append(root_pem);
        IssuedCertificate {
            certificate_chain_pem: chain,
            fingerprint_sha256: certificate_sha256(certificate_der),
            serial_hex,
            expires_at,
        }
    }
}

/// The offline root, as planned at a moment: it is constrained by nothing.
pub open spec fn root_plan(now: int, serial: Seq<u8>) -> PolicyModel {
    authority_model(
        "CentralD Offline Root CA"@,
        IsCa::Ca(BasicConstraints::Unconstrained),
        now,
        now + ROOT_VALIDITY_DAYS * DAY,
        serial,
    )
}

/// Plans the offline root at a moment, with a serial.
pub fn root_policy(now: i128, serial: Vec<u8>) -> (result: CertificatePolicy)
    requires
        moment(now as int),
    ensures
        result@ == root_plan(now as int, serial@),
{
    let expires: i128 = now + ROOT_VALIDITY_DAYS as i128 * DAY;
    authority_policy(
        "CentralD Offline Root CA",
        IsCa::Ca(BasicConstraints::Unconstrained),
        now,
        expires,
        serial,
    )
}

/// Whether an authority's certificate is the one that a policy says, signed by
/// the authority's own key.
pub open spec fn signs_itself(policy: PolicyModel, authority: CertificateAuthority) -> bool {
    &&& x509_expiry(authority.certificate_pem@) == Ok::<int, Seq<char>>(
        whole_second(policy.not_after),
    )
    &&& exists|entropy: Seq<u8>| #[trigger]
        self_signed_certificate(policy, authority.private_key_pem@, entropy) == Some(
            (authority.certificate_pem@, authority.certificate_der@),
        )
}

/// Whether an authority is an offline root that was made at some moment, with
/// some serial.
pub open spec fn is_root(authority: CertificateAuthority) -> bool {
    &&& key_came(authority.private_key_pem@)
    &&& exists|now: int, random: Seq<u8>|
        random.len() == 20 && signs_itself(
            #[trigger] root_plan(now, serial_of(random)),
            authority,
        )
}

/// Whether a planned root failed with an error: its moments cannot be written, or a
/// key that was made could not sign it.
pub open spec fn root_fails(policy: PolicyModel, error: PkiError) -> bool {
    if writable(policy.not_before) && writable(policy.not_after) {
        &&& error is Rcgen
        &&& exists|key: Seq<char>, entropy: Seq<u8>|
            key_came(key) && #[trigger] self_signed_certificate(policy, key, entropy) is None
    } else {
        error@ == PkiFault::Rcgen("Time error"@)
    }
}

/// Whether no root was made: there was no key, or what was planned at some moment
/// failed.
pub open spec fn no_root_came(error: PkiError) -> bool {
    no_key_came(error) || exists|now: int, random: Seq<u8>|
        random.len() == 20 && root_fails(#[trigger] root_plan(now, serial_of(random)), error)
}

/// Makes the offline root, with a key of its own.
fn self_signed_ca() -> (result: Result<CertificateAuthority, PkiError>)
    ensures
        match result {
            Ok(authority) => is_root(authority),
            Err(error) => no_root_came(error),
        },
{
    let now = now_utc();
    let serial = fresh_certificate_serial();
    let ghost random = choose|random: Seq<u8>|
        random.len() == 20 && serial@ == #[trigger] serial_of(random);
    let policy = root_policy(now, serial);
    proof {
        serial_is_positive(random);
    }
    let key = match generate_key() {
        Ok(key) => key,
        Err(error) => return Err(PkiError::Rcgen(error_text(error))),
    };
    let ghost plan = root_plan(now as int, serial_of(random));
    if !has_writable_moments(&policy) {
        let error = unwritable();
        assert(root_fails(plan, error));
        return Err(error);
    }
    match sign_itself(policy, &key) {
        Ok((certificate_pem, certificate_der)) => {
            let authority = CertificateAuthority {
                certificate_pem,
                certificate_der,
                private_key_pem: key,
            };
            assert(signs_itself(plan, authority));
            Ok(authority)
        },
        Err(error) => {
            let error = PkiError::Rcgen(error_text(error));
            assert(key_came(key@));
            assert(root_fails(plan, error));
            Err(error)
        },
    }
}

/// An online issuer below a root that expires at some moment, as planned at
/// another: it may sign no further authority.
pub open spec fn issuer_plan(name: Seq<char>, root_not_after: i128, now: int, serial: Seq<u8>) ->
    Result<PolicyModel, PkiFault> {
    match expiry(
        now,
        ISSUER_VALIDITY_DAYS as int,
        seq![root_not_after],
        MINIMUM_ISSUER_VALIDITY_DAYS as int,
    ) {
        Some(expires) => Ok(
            authority_model(
                name,
                IsCa::Ca(BasicConstraints::Constrained(0)),
                now,
                expires,
                serial,
            ),
        ),
        None => Err(
            too_short(
                now,
                ISSUER_VALIDITY_DAYS as int,
                seq![root_not_after],
                "online issuing CA"@,
            ),
        ),
    }
}

/// Plans an online issuer at a moment, with a serial.
pub fn issuer_policy(name: &str, root_not_after: i128, now: i128, serial: Vec<u8>) -> (result:
    Result<CertificatePolicy, PkiError>)
    requires
        moment(now as int),
        moment(root_not_after as int),
    ensures
        match issuer_plan(name@, root_not_after, now as int, serial@) {
            Ok(policy) => result is Ok && result->Ok_0@ == policy,
            Err(fault) => result is Err && result->Err_0@ == fault,
        },
{
    let mut parents: Vec<i128> = Vec::new();
    parents.push(root_not_after);
    assert(parents@ =~= seq![root_not_after]);
    match bounded_not_after(
        now,
        ISSUER_VALIDITY_DAYS,
        "online issuing CA",
        &parents,
        MINIMUM_ISSUER_VALIDITY_DAYS,
    ) {
        Ok(expires) => Ok(
            authority_policy(
                name,
                IsCa::Ca(BasicConstraints::Constrained(0)),
                now,
                expires,
                serial,
            ),
        ),
        Err(error) => Err(error),
    }
}

/// Whether a certificate is the one that a policy says, for a key, signed by an
/// issuer.
pub open spec fn signed_by(
    policy: PolicyModel,
    key: Seq<char>,
    issuer: Seq<char>,
    issuer_key: Seq<char>,
    pem: Seq<char>,
    der: Seq<u8>,
) -> bool {
    &&& issuing_fault(policy, issuer, issuer_key) is None
    &&& key_came(key)
    &&& x509_expiry(pem) == Ok::<int, Seq<char>>(whole_second(policy.not_after))
    &&& exists|entropy: Seq<u8>| #[trigger]
        signed_certificate(policy, key, issuer, issuer_key, entropy) == Some(
            (pem, der),
        )
}

/// Whether an issuer's signing failed with an error: what is known before the
/// signature is told, and beyond it a key that was made could not be signed.
pub open spec fn signing_fails(
    policy: PolicyModel,
    issuer: Seq<char>,
    issuer_key: Seq<char>,
    error: PkiError,
) -> bool {
    match issuing_fault(policy, issuer, issuer_key) {
        Some(fault) => error@ == fault,
        None => {
            &&& error is Rcgen
            &&& exists|key: Seq<char>, entropy: Seq<u8>|
                key_came(key) && #[trigger] signed_certificate(
                    policy,
                    key,
                    issuer,
                    issuer_key,
                    entropy,
                ) is None
        },
    }
}

/// Makes a key and signs the certificate that a policy says for it.
fn certify(policy: CertificatePolicy, issuer_pem: &str, issuer_key_pem: &str) -> (result: Result<
    CertificateAuthority,
    PkiError,
>)
    requires
        well_shaped(policy@),
        policy@.organizational_unit is None,
    ensures
        match result {
            Ok(made) => signed_by(
                policy@,
                made.private_key_pem@,
                issuer_pem@,
                issuer_key_pem@,
                made.certificate_pem@,
                made.certificate_der@,
            ),
            Err(error) => no_key_came(error) || signing_fails(
                policy@,
                issuer_pem@,
                issuer_key_pem@,
                error,
            ),
        },
{
    let key = match generate_key() {
        Ok(key) => key,
        Err(error) => return Err(PkiError::Rcgen(error_text(error))),
    };
    assert(key_came(key@));
    match check_issuing(&policy, issuer_pem, issuer_key_pem) {
        Ok(()) => {},
        Err(error) => return Err(error),
    }
    match sign_certificate(policy, &key, issuer_pem, issuer_key_pem) {
        Ok((certificate_pem, certificate_der)) => Ok(
            CertificateAuthority { certificate_pem, certificate_der, private_key_pem: key },
        ),
        Err(error) => Err(PkiError::Rcgen(error_text(error))),
    }
}

/// Whether an authority came out of a plan for one, signed by a root: the plan's
/// error is told, and beyond it only making a key or signing can fail.
pub open spec fn authority_came(
    plan: Result<PolicyModel, PkiFault>,
    root_pem: Seq<char>,
    root_key_pem: Seq<char>,
    result: Result<CertificateAuthority, PkiError>,
) -> bool {
    match plan {
        Err(fault) => result is Err && result->Err_0@ == fault,
        Ok(policy) => match result {
            Ok(made) => signed_by(
                policy,
                made.private_key_pem@,
                root_pem,
                root_key_pem,
                made.certificate_pem@,
                made.certificate_der@,
            ),
            Err(error) => no_key_came(error) || signing_fails(
                policy,
                root_pem,
                root_key_pem,
                error,
            ),
        },
    }
}

/// Whether an issuer of some name was made, or refused, below a root that expires
/// at some moment.
pub open spec fn issuer_came(
    name: Seq<char>,
    root_pem: Seq<char>,
    root_key_pem: Seq<char>,
    root_not_after: i128,
    result: Result<CertificateAuthority, PkiError>,
) -> bool {
    exists|now: int, random: Seq<u8>|
        random.len() == 20 && authority_came(
            #[trigger] issuer_plan(name, root_not_after, now, serial_of(random)),
            root_pem,
            root_key_pem,
            result,
        )
}

/// Makes an online issuer, with a key of its own, below a root.
fn signed_ca_with_issuer(
    name: &str,
    root_pem: &str,
    root_key_pem: &str,
    root_not_after: i128,
) -> (result: Result<CertificateAuthority, PkiError>)
    requires
        moment(root_not_after as int),
    ensures
        issuer_came(name@, root_pem@, root_key_pem@, root_not_after, result),
{
    let now = now_utc();
    let serial = fresh_certificate_serial();
    let ghost random = choose|random: Seq<u8>|
        random.len() == 20 && serial@ == #[trigger] serial_of(random);
    let planned = issuer_policy(name, root_not_after, now, serial);
    proof {
        serial_is_positive(random);
    }
    let ghost plan = issuer_plan(name@, root_not_after, now as int, serial_of(random));
    let policy = match planned {
        Ok(policy) => policy,
        Err(error) => {
            assert(authority_came(plan, root_pem@, root_key_pem@, Err(error)));
            return Err(error);
        },
    };
    let result = certify(policy, root_pem, root_key_pem);
    assert(authority_came(plan, root_pem@, root_key_pem@, result));
    result
}

/// An issuer's certificate expires at least a day before the root that signed it.
pub proof fn issuer_expires_before_its_root(
    name: Seq<char>,
    root_pem: Seq<char>,
    root_key_pem: Seq<char>,
    root_not_after: i128,
    made: CertificateAuthority,
)
    requires
        issuer_came(name, root_pem, root_key_pem, root_not_after, Ok(made)),
    ensures
        x509_expiry(made.certificate_pem@) is Ok,
        x509_expiry(made.certificate_pem@)->Ok_0 <= root_not_after - DAY,
{
    let (now, random) = choose|now: int, random: Seq<u8>|
        random.len() == 20 && authority_came(
            #[trigger] issuer_plan(name, root_not_after, now, serial_of(random)),
            root_pem,
            root_key_pem,
            Ok(made),
        );
    expiry_is_bounded(
        now,
        ISSUER_VALIDITY_DAYS as int,
        seq![root_not_after],
        MINIMUM_ISSUER_VALIDITY_DAYS as int,
        0,
    );
}

/// A leaf: it may sign nothing, and is valid from five minutes before.
pub open spec fn leaf_model(
    name: Seq<char>,
    unit: Option<Seq<char>>,
    host: Option<Seq<char>>,
    now: int,
    expires: int,
    serial: Seq<u8>,
) -> PolicyModel {
    PolicyModel {
        common_name: name,
        organizational_unit: unit,
        alternative_name: host,
        authority: IsCa::NoCa,
        key_uses: if host is Some {
            seq![KeyUsagePurpose::DigitalSignature, KeyUsagePurpose::KeyEncipherment]
        } else {
            seq![KeyUsagePurpose::DigitalSignature]
        },
        extended_uses: if host is Some {
            seq![ExtendedKeyUsagePurpose::ServerAuth]
        } else {
            seq![ExtendedKeyUsagePurpose::ClientAuth]
        },
        not_before: now - 5 * MINUTE,
        not_after: expires,
        serial,
    }
}

fn leaf_policy(
    name: &str,
    unit: Option<String>,
    host: Option<String>,
    now: i128,
    expires: i128,
    serial: Vec<u8>,
) -> (result: CertificatePolicy)
    requires
        moment(now as int),
    ensures
        result@ == leaf_model(
            name@,
            crate::text::optional_view(unit),
            crate::text::optional_view(host),
            now as int,
            expires as int,
            serial@,
        ),
{
    let mut key_uses: Vec<KeyUsagePurpose> = Vec::new();
    let mut extended_uses: Vec<ExtendedKeyUsagePurpose> = Vec::new();
    key_uses.push(KeyUsagePurpose::DigitalSignature);
    if host.is_some() {
        key_uses.push(KeyUsagePurpose::KeyEncipherment);
        extended_uses.push(ExtendedKeyUsagePurpose::ServerAuth);
        assert(key_uses@ =~= seq![KeyUsagePurpose::DigitalSignature, KeyUsagePurpose::KeyEncipherment]);
        assert(extended_uses@ =~= seq![ExtendedKeyUsagePurpose::ServerAuth]);
    } else {
        extended_uses.push(ExtendedKeyUsagePurpose::ClientAuth);
        assert(key_uses@ =~= seq![KeyUsagePurpose::DigitalSignature]);
        assert(extended_uses@ =~= seq![ExtendedKeyUsagePurpose::ClientAuth]);
    }
    CertificatePolicy {
        common_name: name.to_owned(),
        organizational_unit: unit,
        alternative_name: host,
        authority: IsCa::NoCa,
        key_uses,
        extended_uses,
        not_before: now - 5 * MINUTE,
        not_after: expires,
        serial,
    }
}

/// The ends of an issuer's and a root's validity, or why one cannot be read.
pub open spec fn chain_ends(
    issuer: Result<int, Seq<char>>,
    root: Result<int, Seq<char>>,
) -> Result<Seq<i128>, PkiFault> {
    match issuer {
        Err(text) => Err(PkiFault::CertificateParse(text)),
        Ok(first) => match root {
            Err(text) => Err(PkiFault::CertificateParse(text)),
            Ok(second) => Ok(seq![first as i128, second as i128]),
        },
    }
}

fn read_chain_ends(issuer_pem: &str, root_pem: &str) -> (result: Result<Vec<i128>, PkiError>)
    ensures
        match chain_ends(x509_expiry(issuer_pem@), x509_expiry(root_pem@)) {
            Ok(ends) => result is Ok && result->Ok_0@ == ends,
            Err(fault) => result is Err && result->Err_0@ == fault,
        },
        result is Ok ==> forall|i: int|
            0 <= i < result->Ok_0@.len() ==> moment(#[trigger] result->Ok_0@[i] as int),
{
    let first = match certificate_not_after(issuer_pem) {
        Ok(end) => end,
        Err(error) => return Err(error),
    };
    let second = match certificate_not_after(root_pem) {
        Ok(end) => end,
        Err(error) => return Err(error),
    };
    let mut ends: Vec<i128> = Vec::new();
    ends.push(first);
    ends.push(second);
    assert(ends@ =~= seq![first, second]);
    Ok(ends)
}

/// What a server certificate for a host is, given how long its chain is valid.
pub open spec fn server_plan(
    public_host: Seq<char>,
    refusal: Option<Seq<char>>,
    ends: Result<Seq<i128>, PkiFault>,
    now: int,
    serial: Seq<u8>,
) -> Result<PolicyModel, PkiFault> {
    if trim(public_host).len() == 0 {
        Err(PkiFault::EmptyPublicHost)
    } else if refusal is Some {
        Err(PkiFault::Rcgen(refusal->0))
    } else {
        match ends {
            Err(fault) => Err(fault),
            Ok(parents) => match expiry(
                now,
                SERVER_VALIDITY_DAYS as int,
                parents,
                MINIMUM_LEAF_VALIDITY_DAYS as int,
            ) {
                Some(expires) => Ok(
                    leaf_model("CentralD Server"@, None, Some(public_host), now, expires, serial),
                ),
                None => Err(
                    too_short(
                        now,
                        SERVER_VALIDITY_DAYS as int,
                        parents,
                        "server TLS certificate"@,
                    ),
                ),
            },
        }
    }
}

/// Plans a server certificate at a moment, with a serial.
pub fn server_policy(
    public_host: &str,
    issuer_pem: &str,
    root_pem: &str,
    now: i128,
    serial: Vec<u8>,
) -> (result: Result<CertificatePolicy, PkiError>)
    requires
        moment(now as int),
    ensures
        match server_plan(
            public_host@,
            host_fault(public_host@),
            chain_ends(x509_expiry(issuer_pem@), x509_expiry(root_pem@)),
            now as int,
            serial@,
        ) {
            Ok(policy) => result is Ok && result->Ok_0@ == policy,
            Err(fault) => result is Err && result->Err_0@ == fault,
        },
{
    if trimmed(public_host).as_str().is_empty() {
        return Err(PkiError::EmptyPublicHost);
    }
    match refuse_host(public_host) {
        Some(text) => return Err(PkiError::Rcgen(text)),
        None => {},
    }
    let ends = match read_chain_ends(issuer_pem, root_pem) {
        Ok(ends) => ends,
        Err(error) => return Err(error),
    };
    match bounded_not_after(
        now,
        SERVER_VALIDITY_DAYS,
        "server TLS certificate",
        &ends,
        MINIMUM_LEAF_VALIDITY_DAYS,
    ) {
        Ok(expires) => Ok(
            leaf_policy(
                "CentralD Server",
                None,
                Some(public_host.to_owned()),
                now,
                expires,
                serial,
            ),
        ),
        Err(error) => Err(error),
    }
}

/// Whether a server identity came out of a plan for one: the plan's error is told,
/// and beyond it only making a key or signing can fail.
pub open spec fn identity_came(
    plan: Result<PolicyModel, PkiFault>,
    issuer_pem: Seq<char>,
    issuer_key_pem: Seq<char>,
    root_pem: Seq<char>,
    result: Result<PemIdentity, PkiError>,
) -> bool {
    match plan {
        Err(fault) => result is Err && result->Err_0@ == fault,
        Ok(policy) => match result {
            Ok(identity) => is_chained(identity, policy, issuer_pem, issuer_key_pem, root_pem),
            Err(error) => no_key_came(error) || signing_fails(
                policy,
                issuer_pem,
                issuer_key_pem,
                error,
            ),
        },
    }
}

/// Whether an identity holds a key, and the certificate that a policy says for it
/// with its chain.
pub open spec fn is_chained(
    identity: PemIdentity,
    policy: PolicyModel,
    issuer_pem: Seq<char>,
    issuer_key_pem: Seq<char>,
    root_pem: Seq<char>,
) -> bool {
    exists|pem: Seq<char>, der: Seq<u8>|
        {
            &&& #[trigger] signed_by(
                policy,
                identity.private_key_pem@,
                issuer_pem,
                issuer_key_pem,
                pem,
                der,
            )
            &&& identity.certificate_chain_pem@ == pem + issuer_pem + root_pem
        }
}

/// Whether a server identity for a host was issued, or refused.
pub open spec fn server_came(
    public_host: Seq<char>,
    issuer_pem: Seq<char>,
    issuer_key_pem: Seq<char>,
    root_pem: Seq<char>,
    result: Result<PemIdentity, PkiError>,
) -> bool {
    exists|now: int, random: Seq<u8>|
        random.len() == 20 && identity_came(
            #[trigger] server_plan(
                public_host,
                host_fault(public_host),
                chain_ends(x509_expiry(issuer_pem), x509_expiry(root_pem)),
                now,
                serial_of(random),
            ),
            issuer_pem,
            issuer_key_pem,
            root_pem,
            result,
        )
}

/// Issues the identity of a server for its public DNS name or IP, from persisted
/// online issuer material. The offline root key is not required because the
/// online server issuer is retained by the server.
pub fn issue_server_identity(
    public_host: &str,
    issuer_certificate_pem: &str,
    issuer_private_key_pem: &str,
    root_certificate_pem: &str,
) -> (result: Result<PemIdentity, PkiError>)
    ensures
        server_came(
            public_host@,
            issuer_certificate_pem@,
            issuer_private_key_pem@,
            root_certificate_pem@,
            result,
        ),
{
    let now = now_utc();
    let serial = fresh_certificate_serial();
    let ghost random = choose|random: Seq<u8>|
        random.len() == 20 && serial@ == #[trigger] serial_of(random);
    let planned = server_policy(
        public_host,
        issuer_certificate_pem,
        root_certificate_pem,
        now,
        serial,
    );
    proof {
        serial_is_positive(random);
    }
    let ghost plan = server_plan(
        public_host@,
        host_fault(public_host@),
        chain_ends(x509_expiry(issuer_certificate_pem@), x509_expiry(root_certificate_pem@)),
        now as int,
        serial_of(random),
    );
    let policy = match planned {
        Ok(policy) => policy,
        Err(error) => {
            assert(identity_came(
                plan,
                issuer_certificate_pem@,
                issuer_private_key_pem@,
                root_certificate_pem@,
                Err(error),
            ));
            return Err(error);
        },
    };
    let result = match certify(policy, issuer_certificate_pem, issuer_private_key_pem) {
        Ok(made) => {
            let identity = PemIdentity::assemble(
                &made.certificate_pem,
                issuer_certificate_pem,
                root_certificate_pem,
                made.private_key_pem,
            );
            assert(is_chained(
                identity,
                policy@,
                issuer_certificate_pem@,
                issuer_private_key_pem@,
                root_certificate_pem@,
            ));
            Ok(identity)
        },
        Err(error) => Err(error),
    };
    assert(identity_came(
        plan,
        issuer_certificate_pem@,
        issuer_private_key_pem@,
        root_certificate_pem@,
        result,
    ));
    result
}

/// What the identity certificate for a request is. The request is only read for
/// its common name, which must be the expected one: every policy field is
/// CentralD's own.
pub open spec fn identity_plan(
    name: Result<CommonNameModel, Seq<char>>,
    expected_name: Seq<char>,
    kind: IdentityCertificateKind,
    ends: Result<Seq<i128>, PkiFault>,
    now: int,
    serial: Seq<u8>,
) -> Result<PolicyModel, PkiFault> {
    if trim(expected_name).len() == 0 {
        Err(PkiFault::EmptyIdentityName)
    } else {
        match name {
            Err(text) => Err(PkiFault::Rcgen(text)),
            Ok(CommonNameModel::Missing) => Err(PkiFault::CommonNameMismatch),
            Ok(CommonNameModel::Unsupported) => Err(PkiFault::UnsupportedCommonName),
            Ok(CommonNameModel::Text(requested)) => if requested != expected_name {
                Err(PkiFault::CommonNameMismatch)
            } else {
                match ends {
                    Err(fault) => Err(fault),
                    Ok(parents) => match expiry(
                        now,
                        IDENTITY_VALIDITY_DAYS as int,
                        parents,
                        MINIMUM_LEAF_VALIDITY_DAYS as int,
                    ) {
                        Some(expires) => Ok(
                            leaf_model(
                                expected_name,
                                Some(kind.unit_spec()),
                                None,
                                now,
                                expires,
                                serial,
                            ),
                        ),
                        None => Err(
                            too_short(
                                now,
                                IDENTITY_VALIDITY_DAYS as int,
                                parents,
                                "client/Admin identity certificate"@,
                            ),
                        ),
                    },
                }
            },
        }
    }
}

/// Plans the certificate of an identity at a moment, with a serial, for what the
/// common name in its request was found to be.
pub fn identity_policy(
    name: Result<CommonName, String>,
    expected_name: &str,
    kind: IdentityCertificateKind,
    issuer_pem: &str,
    root_pem: &str,
    now: i128,
    serial: Vec<u8>,
) -> (result: Result<CertificatePolicy, PkiError>)
    requires
        moment(now as int),
    ensures
        match identity_plan(
            match name {
                Ok(name) => Ok(name@),
                Err(text) => Err(text@),
            },
            expected_name@,
            kind,
            chain_ends(x509_expiry(issuer_pem@), x509_expiry(root_pem@)),
            now as int,
            serial@,
        ) {
            Ok(policy) => result is Ok && result->Ok_0@ == policy,
            Err(fault) => result is Err && result->Err_0@ == fault,
        },
{
    if trimmed(expected_name).as_str().is_empty() {
        return Err(PkiError::EmptyIdentityName);
    }
    match name {
        Err(text) => return Err(PkiError::Rcgen(text)),
        Ok(CommonName::Missing) => return Err(PkiError::CommonNameMismatch),
        Ok(CommonName::Unsupported) => return Err(PkiError::UnsupportedCommonName),
        Ok(CommonName::Text(requested)) => {
            if !same_text(&requested, expected_name) {
                return Err(PkiError::CommonNameMismatch);
            }
        },
    }
    let ends = match read_chain_ends(issuer_pem, root_pem) {
        Ok(ends) => ends,
        Err(error) => return Err(error),
    };
    match bounded_not_after(
        now,
        IDENTITY_VALIDITY_DAYS,
        "client/Admin identity certificate",
        &ends,
        MINIMUM_LEAF_VALIDITY_DAYS,
    ) {
        Ok(expires) => Ok(
            leaf_policy(
                expected_name,
                Some(kind.unit().to_owned()),
                None,
                now,
                expires,
                serial,
            ),
        ),
        Err(error) => Err(error),
    }
}

/// Whether a certificate for a request came out of a plan for one: the plan's
/// error is told, and beyond it only signing can fail.
pub open spec fn certificate_came(
    plan: Result<PolicyModel, PkiFault>,
    csr: Seq<char>,
    issuer_pem: Seq<char>,
    issuer_key_pem: Seq<char>,
    root_pem: Seq<char>,
    result: Result<IssuedCertificate, PkiError>,
) -> bool {
    match plan {
        Err(fault) => result is Err && result->Err_0@ == fault,
        Ok(policy) => match result {
            Ok(issued) => answers_request(
                issued,
                csr,
                policy,
                issuer_pem,
                issuer_key_pem,
                root_pem,
            ),
            Err(error) => match issuing_fault(policy, issuer_pem, issuer_key_pem) {
                Some(fault) => error@ == fault,
                None => error is Rcgen && exists|entropy: Seq<u8>| #[trigger]
                    signed_request(
                        csr,
                        policy,
                        issuer_pem,
                        issuer_key_pem,
                        entropy,
                    ) is None,
            },
        },
    }
}

/// Whether what was issued holds the certificate that a policy says for a request,
/// signed by an issuer.
pub open spec fn answers_request(
    issued: IssuedCertificate,
    csr: Seq<char>,
    policy: PolicyModel,
    issuer_pem: Seq<char>,
    issuer_key_pem: Seq<char>,
    root_pem: Seq<char>,
) -> bool {
    &&& issuing_fault(policy, issuer_pem, issuer_key_pem) is None
    &&& exists|pem: Seq<char>, der: Seq<u8>, entropy: Seq<u8>|
        {
            &&& #[trigger] signed_request(
                csr,
                policy,
                issuer_pem,
                issuer_key_pem,
                entropy,
            ) == Some((pem, der))
            &&& #[trigger] is_issued(issued, policy, pem, der, issuer_pem, root_pem)
        }
}

/// Whether what was issued holds a certificate with its chain, and tells of it
/// what its policy says.
pub open spec fn is_issued(
    issued: IssuedCertificate,
    policy: PolicyModel,
    pem: Seq<char>,
    der: Seq<u8>,
    issuer_pem: Seq<char>,
    root_pem: Seq<char>,
) -> bool {
    &&& x509_expiry(pem) == Ok::<int, Seq<char>>(whole_second(issued.expires_at as int))
    &&& issued.certificate_chain_pem@ == pem + issuer_pem + root_pem
    &&& issued.fingerprint_sha256@ == hex_text(sha256_digest(der))
    &&& issued.serial_hex@ == hex_text(policy.serial)
    &&& issued.expires_at == policy.not_after
}

/// Whether a certificate for a request was issued, or refused.
pub open spec fn request_came(
    csr: Seq<char>,
    expected_name: Seq<char>,
    kind: IdentityCertificateKind,
    issuer_pem: Seq<char>,
    issuer_key_pem: Seq<char>,
    root_pem: Seq<char>,
    result: Result<IssuedCertificate, PkiError>,
) -> bool {
    exists|now: int, random: Seq<u8>|
        random.len() == 20 && certificate_came(
            #[trigger] identity_plan(
                request_name(csr),
                expected_name,
                kind,
                chain_ends(x509_expiry(issuer_pem), x509_expiry(root_pem)),
                now,
                serial_of(random),
            ),
            csr,
            issuer_pem,
            issuer_key_pem,
            root_pem,
            result,
        )
}

/// Verifies and signs an identity CSR with a role-specific issuing CA.
///
/// The CSR signature and common name are verified before `CentralD` replaces all
/// caller-controlled certificate policy fields with its own end-entity policy.
/// The identity's ID does not stand in the certificate.
pub fn issue_identity_csr(
    csr_pem: &str,
    expected_name: &str,
    _identity_id: u128,
    kind: IdentityCertificateKind,
    issuer_certificate_pem: &str,
    issuer_private_key_pem: &str,
    root_certificate_pem: &str,
) -> (result: Result<IssuedCertificate, PkiError>)
    ensures
        request_came(
            csr_pem@,
            expected_name@,
            kind,
            issuer_certificate_pem@,
            issuer_private_key_pem@,
            root_certificate_pem@,
            result,
        ),
{
    let name = read_request_name(csr_pem);
    let now = now_utc();
    let serial = fresh_certificate_serial();
    let ghost random = choose|random: Seq<u8>|
        random.len() == 20 && serial@ == #[trigger] serial_of(random);
    let planned = identity_policy(
        name,
        expected_name,
        kind,
        issuer_certificate_pem,
        root_certificate_pem,
        now,
        serial,
    );
    proof {
        serial_is_positive(random);
    }
    let ghost plan = identity_plan(
        request_name(csr_pem@),
        expected_name@,
        kind,
        chain_ends(x509_expiry(issuer_certificate_pem@), x509_expiry(root_certificate_pem@)),
        now as int,
        serial_of(random),
    );
    let result = match planned {
        Ok(policy) => match check_issuing(
            &policy,
            issuer_certificate_pem,
            issuer_private_key_pem,
        ) {
            Ok(()) => {
                let serial_hex = hex_encode(&policy.serial);
                let expires_at: i128 = policy.not_after;
                let ghost model = policy@;
                match sign_request(
                    csr_pem,
                    policy,
                    issuer_certificate_pem,
                    issuer_private_key_pem,
                ) {
                    Ok((pem, der)) => {
                        let issued = IssuedCertificate::assemble(
                            serial_hex,
                            expires_at,
                            &pem,
                            &der,
                            issuer_certificate_pem,
                            root_certificate_pem,
                        );
                        assert(is_issued(
                            issued,
                            model,
                            pem@,
                            der@,
                            issuer_certificate_pem@,
                            root_certificate_pem@,
                        ));
                        assert(answers_request(
                            issued,
                            csr_pem@,
                            model,
                            issuer_certificate_pem@,
                            issuer_private_key_pem@,
                            root_certificate_pem@,
                        ));
                        Ok(issued)
                    },
                    Err(error) => Err(PkiError::Rcgen(error_text(error))),
                }
            },
            Err(error) => Err(error),
        },
        Err(error) => Err(error),
    };
    assert(certificate_came(
        plan,
        csr_pem@,
        issuer_certificate_pem@,
        issuer_private_key_pem@,
        root_certificate_pem@,
        result,
    ));
    result
}

/// Whether an offline root's recovery key belongs to its certificate and can sign
/// with it, and when the root expires.
pub open spec fn recovery_root(
    certificate_key: Result<Seq<u8>, Seq<char>>,
    private_key: Result<Seq<u8>, Seq<char>>,
    expires: Result<int, Seq<char>>,
    refusal: Option<Seq<char>>,
) -> Result<int, PkiFault> {
    match certificate_key {
        Err(text) => Err(PkiFault::CertificateParse(text)),
        Ok(published) => match private_key {
            Err(text) => Err(PkiFault::Rcgen(text)),
            Ok(derived) => if published != derived {
                Err(
                    PkiFault::CertificateParse(
                        "offline root recovery private key does not match the root certificate"@,
                    ),
                )
            } else {
                match expires {
                    Err(text) => Err(PkiFault::CertificateParse(text)),
                    Ok(end) => match refusal {
                        Some(text) => Err(PkiFault::Rcgen(text)),
                        None => Ok(end),
                    },
                }
            },
        },
    }
}

/// Checks that an offline root's recovery key belongs to its certificate and can
/// sign with it, and tells when the root expires.
pub fn validate_recovery_root(root_pem: &str, root_key_pem: &str) -> (result: Result<
    i128,
    PkiError,
>)
    ensures
        match recovery_root(
            x509_public_key(root_pem@),
            key_pair_public(root_key_pem@),
            x509_expiry(root_pem@),
            issuer_refusal(root_pem@, root_key_pem@),
        ) {
            Ok(end) => result is Ok && result->Ok_0 == end,
            Err(fault) => result is Err && result->Err_0@ == fault,
        },
        result is Ok ==> moment(result->Ok_0 as int),
{
    let published = match read_public_key(root_pem) {
        Ok(key) => key,
        Err(text) => return Err(PkiError::CertificateParse(text)),
    };
    let derived = match read_key_pair(root_key_pem) {
        Ok(key) => key,
        Err(text) => return Err(PkiError::Rcgen(text)),
    };
    if !same_bytes(&published, &derived) {
        return Err(
            PkiError::CertificateParse(
                "offline root recovery private key does not match the root certificate".to_owned(),
            ),
        );
    }
    let end = match certificate_not_after(root_pem) {
        Ok(end) => end,
        Err(error) => return Err(error),
    };
    match refuse_issuer(root_pem, root_key_pem) {
        Some(text) => Err(PkiError::Rcgen(text)),
        None => Ok(end),
    }
}

/// Online issuers that replace earlier ones.
pub struct OnlineIssuerRotation {
    pub server_certificate_pem: String,
    pub server_private_key_pem: String,
    pub client_certificate_pem: String,
    pub client_private_key_pem: String,
    pub admin_certificate_pem: String,
    pub admin_private_key_pem: String,
}

impl OnlineIssuerRotation {
    /// A text for logs that holds no key.
    pub fn debug_text(&self) -> (result: String)
        ensures
            result@
                == "OnlineIssuerRotation { server_certificate_pem: \"[CERTIFICATE PEM]\", server_private_key_pem: \"[REDACTED]\", client_certificate_pem: \"[CERTIFICATE PEM]\", client_private_key_pem: \"[REDACTED]\", admin_certificate_pem: \"[CERTIFICATE PEM]\", admin_private_key_pem: \"[REDACTED]\" }"@,
    {
        "OnlineIssuerRotation { server_certificate_pem: \"[CERTIFICATE PEM]\", server_private_key_pem: \"[REDACTED]\", client_certificate_pem: \"[CERTIFICATE PEM]\", client_private_key_pem: \"[REDACTED]\", admin_certificate_pem: \"[CERTIFICATE PEM]\", admin_private_key_pem: \"[REDACTED]\" }".to_owned()
    }
}

/// Generates replacement online server/client/Admin issuers from the offline root
/// recovery certificate and private key. The root itself is not replaced.
pub fn rotate_online_issuers(root_certificate_pem: &str, root_private_key_pem: &str) -> (result:
    Result<OnlineIssuerRotation, PkiError>)
    ensures
        match recovery_root(
            x509_public_key(root_certificate_pem@),
            key_pair_public(root_private_key_pem@),
            x509_expiry(root_certificate_pem@),
            issuer_refusal(root_certificate_pem@, root_private_key_pem@),
        ) {
            Err(fault) => result is Err && result->Err_0@ == fault,
            Ok(end) => rotation_came(
                root_certificate_pem@,
                root_private_key_pem@,
                end as i128,
                result,
            ),
        },
{
    let end = match validate_recovery_root(root_certificate_pem, root_private_key_pem) {
        Ok(end) => end,
        Err(error) => return Err(error),
    };
    let server = match signed_ca_with_issuer(
        "CentralD Server Issuing CA",
        root_certificate_pem,
        root_private_key_pem,
        end,
    ) {
        Ok(made) => made,
        Err(error) => return Err(error),
    };
    let client = match signed_ca_with_issuer(
        "CentralD Client Issuing CA",
        root_certificate_pem,
        root_private_key_pem,
        end,
    ) {
        Ok(made) => made,
        Err(error) => return Err(error),
    };
    let admin = match signed_ca_with_issuer(
        "CentralD Admin Issuing CA",
        root_certificate_pem,
        root_private_key_pem,
        end,
    ) {
        Ok(made) => made,
        Err(error) => return Err(error),
    };
    let rotation = OnlineIssuerRotation {
        server_certificate_pem: server.certificate_pem(),
        server_private_key_pem: server.private_key_pem(),
        client_certificate_pem: client.certificate_pem(),
        client_private_key_pem: client.private_key_pem(),
        admin_certificate_pem: admin.certificate_pem(),
        admin_private_key_pem: admin.private_key_pem(),
    };
    proof {
        let (root, key) = (root_certificate_pem@, root_private_key_pem@);
        assert(x509_expiry(root)->Ok_0 as i128 == end);
        assert(issuer_came("CentralD Server Issuing CA"@, root, key, end, Ok(server)));
        assert(rotated_issuer(
            "CentralD Server Issuing CA"@,
            root,
            key,
            end,
            rotation.server_certificate_pem@,
            rotation.server_private_key_pem@,
        ));
        assert(issuer_came("CentralD Client Issuing CA"@, root, key, end, Ok(client)));
        assert(rotated_issuer(
            "CentralD Client Issuing CA"@,
            root,
            key,
            end,
            rotation.client_certificate_pem@,
            rotation.client_private_key_pem@,
        ));
        assert(issuer_came("CentralD Admin Issuing CA"@, root, key, end, Ok(admin)));
        assert(rotated_issuer(
            "CentralD Admin Issuing CA"@,
            root,
            key,
            end,
            rotation.admin_certificate_pem@,
            rotation.admin_private_key_pem@,
        ));
    }
    Ok(rotation)
}

/// Whether a certificate and its key are those of an issuer that was made below a
/// root.
pub open spec fn rotated_issuer(
    name: Seq<char>,
    root_pem: Seq<char>,
    root_key_pem: Seq<char>,
    root_not_after: i128,
    certificate_pem: Seq<char>,
    private_key_pem: Seq<char>,
) -> bool {
    exists|made: CertificateAuthority|
        {
            &&& made.certificate_pem@ == certificate_pem
            &&& made.private_key_pem@ == private_key_pem
            &&& #[trigger] issuer_came(name, root_pem, root_key_pem, root_not_after, Ok(made))
        }
}

/// Whether three issuers were made below a root that expires at some moment, or
/// one of them was refused.
pub open spec fn rotation_came(
    root_pem: Seq<char>,
    root_key_pem: Seq<char>,
    root_not_after: i128,
    result: Result<OnlineIssuerRotation, PkiError>,
) -> bool {
    match result {
        Ok(rotation) => {
            &&& rotated_issuer(
                "CentralD Server Issuing CA"@,
                root_pem,
                root_key_pem,
                root_not_after,
                rotation.server_certificate_pem@,
                rotation.server_private_key_pem@,
            )
            &&& rotated_issuer(
                "CentralD Client Issuing CA"@,
                root_pem,
                root_key_pem,
                root_not_after,
                rotation.client_certificate_pem@,
                rotation.client_private_key_pem@,
            )
            &&& rotated_issuer(
                "CentralD Admin Issuing CA"@,
                root_pem,
                root_key_pem,
                root_not_after,
                rotation.admin_certificate_pem@,
                rotation.admin_private_key_pem@,
            )
        },
        Err(error) => exists|name: Seq<char>| #[trigger]
            issuer_came(name, root_pem, root_key_pem, root_not_after, Err(error)),
    }
}

/// An identity's certificate expires at least a day before its issuer and its root.
pub proof fn identity_expires_before_its_chain(
    csr: Seq<char>,
    expected_name: Seq<char>,
    kind: IdentityCertificateKind,
    issuer_pem: Seq<char>,
    issuer_key_pem: Seq<char>,
    root_pem: Seq<char>,
    issued: IssuedCertificate,
    issuer_end: i128,
    root_end: i128,
)
    requires
        request_came(
            csr,
            expected_name,
            kind,
            issuer_pem,
            issuer_key_pem,
            root_pem,
            Ok(issued),
        ),
        x509_expiry(issuer_pem) == Ok::<int, Seq<char>>(issuer_end as int),
        x509_expiry(root_pem) == Ok::<int, Seq<char>>(root_end as int),
    ensures
        issued.expires_at <= issuer_end - DAY,
        issued.expires_at <= root_end - DAY,
{
    let ends = chain_ends(x509_expiry(issuer_pem), x509_expiry(root_pem));
    let (now, random) = choose|now: int, random: Seq<u8>|
        random.len() == 20 && certificate_came(
            #[trigger] identity_plan(
                request_name(csr),
                expected_name,
                kind,
                ends,
                now,
                serial_of(random),
            ),
            csr,
            issuer_pem,
            issuer_key_pem,
            root_pem,
            Ok(issued),
        );
    let parents = seq![issuer_end, root_end];
    assert(ends->Ok_0 =~= parents);
    let (days, least) = (IDENTITY_VALIDITY_DAYS as int, MINIMUM_LEAF_VALIDITY_DAYS as int);
    expiry_is_bounded(now, days, parents, least, 0);
    expiry_is_bounded(now, days, parents, least, 1);
}

/// A server's certificate expires at least a day before its issuer and its root.
pub proof fn server_expires_before_its_chain(
    public_host: Seq<char>,
    issuer_pem: Seq<char>,
    issuer_key_pem: Seq<char>,
    root_pem: Seq<char>,
    identity: PemIdentity,
    issuer_end: i128,
    root_end: i128,
) -> (pem: Seq<char>)
    requires
        server_came(public_host, issuer_pem, issuer_key_pem, root_pem, Ok(identity)),
        x509_expiry(issuer_pem) == Ok::<int, Seq<char>>(issuer_end as int),
        x509_expiry(root_pem) == Ok::<int, Seq<char>>(root_end as int),
    ensures
        identity.certificate_chain_pem@ == pem + issuer_pem + root_pem,
        x509_expiry(pem) is Ok,
        x509_expiry(pem)->Ok_0 <= issuer_end - DAY,
        x509_expiry(pem)->Ok_0 <= root_end - DAY,
{
    let ends = chain_ends(x509_expiry(issuer_pem), x509_expiry(root_pem));
    let (now, random) = choose|now: int, random: Seq<u8>|
        random.len() == 20 && identity_came(
            #[trigger] server_plan(
                public_host,
                host_fault(public_host),
                ends,
                now,
                serial_of(random),
            ),
            issuer_pem,
            issuer_key_pem,
            root_pem,
            Ok(identity),
        );
    let plan = server_plan(public_host, host_fault(public_host), ends, now, serial_of(random));
    let parents = seq![issuer_end, root_end];
    assert(ends->Ok_0 =~= parents);
    let (days, least) = (SERVER_VALIDITY_DAYS as int, MINIMUM_LEAF_VALIDITY_DAYS as int);
    expiry_is_bounded(now, days, parents, least, 0);
    expiry_is_bounded(now, days, parents, least, 1);
    let policy = plan->Ok_0;
    let (pem, der) = choose|pem: Seq<char>, der: Seq<u8>|
        {
            &&& #[trigger] signed_by(
                policy,
                identity.private_key_pem@,
                issuer_pem,
                issuer_key_pem,
                pem,
                der,
            )
            &&& identity.certificate_chain_pem@ == pem + issuer_pem + root_pem
        };
    pem
}

/// Whether a request is one that a key signed for a client's certificate.
pub open spec fn client_request(name: Seq<char>, key: Seq<char>, csr: Seq<char>) -> bool {
    exists|entropy: Seq<u8>| #[trigger]
        request_text(
            name,
            seq![KeyUsagePurpose::DigitalSignature],
            seq![ExtendedKeyUsagePurpose::ClientAuth],
            key,
            entropy,
        ) == Some(csr)
}

/// Whether no request for a client's certificate was made: there was no key, or one
/// that was made could not sign it.
pub open spec fn no_request_came(name: Seq<char>, error: PkiError) -> bool {
    no_key_came(error) || (error is Rcgen && exists|key: Seq<char>, entropy: Seq<u8>|
        key_came(key) && #[trigger] request_text(
            name,
            seq![KeyUsagePurpose::DigitalSignature],
            seq![ExtendedKeyUsagePurpose::ClientAuth],
            key,
            entropy,
        ) is None)
}

/// A request for a certificate, and the private key that signed it.
pub struct IdentityRequest {
    pub csr_pem: String,
    pub private_key_pem: String,
}

/// Makes a key, and a request for a client-auth certificate of some name that the
/// key signs. Only making the key or the request can fail.
pub fn identity_request(name: &str) -> (result: Result<IdentityRequest, PkiError>)
    ensures
        match result {
            Ok(request) => {
                &&& key_came(request.private_key_pem@)
                &&& client_request(name@, request.private_key_pem@, request.csr_pem@)
            },
            Err(error) => no_request_came(name@, error),
        },
{
    let private_key_pem = match generate_key() {
        Ok(key) => key,
        Err(error) => return Err(PkiError::Rcgen(error_text(error))),
    };
    let mut key_uses: Vec<KeyUsagePurpose> = Vec::new();
    key_uses.push(KeyUsagePurpose::DigitalSignature);
    let mut extended_uses: Vec<ExtendedKeyUsagePurpose> = Vec::new();
    extended_uses.push(ExtendedKeyUsagePurpose::ClientAuth);
    assert(key_uses@ =~= seq![KeyUsagePurpose::DigitalSignature]);
    assert(extended_uses@ =~= seq![ExtendedKeyUsagePurpose::ClientAuth]);
    match make_request(name, key_uses, extended_uses, &private_key_pem) {
        Ok(csr_pem) => Ok(IdentityRequest { csr_pem, private_key_pem }),
        Err(error) => Err(PkiError::Rcgen(error_text(error))),
    }
}

/// Generates an ephemeral client-auth identity for server-local TLS health
/// probing. The private key is returned only to the caller and is never stored.
pub fn issue_ephemeral_identity(
    name: &str,
    kind: IdentityCertificateKind,
    issuer_certificate_pem: &str,
    issuer_private_key_pem: &str,
    root_certificate_pem: &str,
) -> (result: Result<PemIdentity, PkiError>)
    ensures
        ephemeral_came(
            name@,
            kind,
            issuer_certificate_pem@,
            issuer_private_key_pem@,
            root_certificate_pem@,
            result,
        ),
{
    let request = match identity_request(name) {
        Ok(request) => request,
        Err(error) => return Err(error),
    };
    let csr = request.csr_pem;
    let key = request.private_key_pem;
    let issued = issue_identity_csr(
        &csr,
        name,
        0,
        kind,
        issuer_certificate_pem,
        issuer_private_key_pem,
        root_certificate_pem,
    );
    assert(client_request(name@, key@, csr@));
    match issued {
        Ok(issued) => {
            assert(request_came(
                csr@,
                name@,
                kind,
                issuer_certificate_pem@,
                issuer_private_key_pem@,
                root_certificate_pem@,
                Ok(issued),
            ));
            let identity = PemIdentity {
                certificate_chain_pem: issued.certificate_chain_pem,
                private_key_pem: key,
            };
            assert(client_request(name@, identity.private_key_pem@, csr@));
            assert(identity.certificate_chain_pem@ == issued.certificate_chain_pem@);
            assert(is_ephemeral(
                identity,
                name@,
                kind,
                issuer_certificate_pem@,
                issuer_private_key_pem@,
                root_certificate_pem@,
            ));
            Ok(identity)
        },
        Err(error) => Err(error),
    }
}

/// Whether an identity holds a key, and what was issued for a request that the key
/// signed.
pub open spec fn is_ephemeral(
    identity: PemIdentity,
    name: Seq<char>,
    kind: IdentityCertificateKind,
    issuer_pem: Seq<char>,
    issuer_key_pem: Seq<char>,
    root_pem: Seq<char>,
) -> bool {
    exists|csr: Seq<char>, issued: IssuedCertificate|
        {
            &&& #[trigger] client_request(name, identity.private_key_pem@, csr)
            &&& #[trigger] request_came(
                csr,
                name,
                kind,
                issuer_pem,
                issuer_key_pem,
                root_pem,
                Ok(issued),
            )
            &&& identity.certificate_chain_pem@ == issued.certificate_chain_pem@
        }
}

/// Whether an ephemeral identity was issued for a request of its own, or refused:
/// where neither a key nor a request could be made, or as the request was.
pub open spec fn ephemeral_came(
    name: Seq<char>,
    kind: IdentityCertificateKind,
    issuer_pem: Seq<char>,
    issuer_key_pem: Seq<char>,
    root_pem: Seq<char>,
    result: Result<PemIdentity, PkiError>,
) -> bool {
    match result {
        Ok(identity) => is_ephemeral(identity, name, kind, issuer_pem, issuer_key_pem, root_pem),
        Err(error) => no_request_came(name, error) || exists|csr: Seq<char>, key: Seq<char>|
            {
                &&& #[trigger] client_request(name, key, csr)
                &&& request_came(
                    csr,
                    name,
                    kind,
                    issuer_pem,
                    issuer_key_pem,
                    root_pem,
                    Err(error),
                )
            },
    }
}

/// The offline root and the issuers below it.
pub struct PkiHierarchy {
    pub root: CertificateAuthority,
    pub server_issuer: CertificateAuthority,
    pub client_issuer: CertificateAuthority,
    pub admin_issuer: CertificateAuthority,
}

impl PkiHierarchy {
    /// Whether the hierarchy has a root of its own, and three issuers signed by it.
    pub open spec fn wf(self) -> bool {
        &&& is_root(self.root)
        &&& issuer_below("CentralD Server Issuing CA"@, self.root, Ok(self.server_issuer))
        &&& issuer_below("CentralD Client Issuing CA"@, self.root, Ok(self.client_issuer))
        &&& issuer_below("CentralD Admin Issuing CA"@, self.root, Ok(self.admin_issuer))
    }

    /// Generates an offline root and separate server, client, and admin issuers.
    pub fn generate() -> (result: Result<PkiHierarchy, PkiError>)
        ensures
            match result {
                Ok(hierarchy) => hierarchy.wf(),
                Err(error) => no_root_came(error) || exists|
                    name: Seq<char>,
                    root: CertificateAuthority,
                |
                    is_root(root) && #[trigger] issuer_below(name, root, Err(error)),
            },
    {
        let root = match self_signed_ca() {
            Ok(root) => root,
            Err(error) => return Err(error),
        };
        let server_issuer = match signed_ca("CentralD Server Issuing CA", &root) {
            Ok(made) => made,
            Err(error) => return Err(error),
        };
        let client_issuer = match signed_ca("CentralD Client Issuing CA", &root) {
            Ok(made) => made,
            Err(error) => return Err(error),
        };
        let admin_issuer = match signed_ca("CentralD Admin Issuing CA", &root) {
            Ok(made) => made,
            Err(error) => return Err(error),
        };
        Ok(PkiHierarchy { root, server_issuer, client_issuer, admin_issuer })
    }

    /// Issues a server identity for the configured public DNS name or IP.
    pub fn issue_server(&self, public_host: &str) -> (result: Result<PemIdentity, PkiError>)
        ensures
            server_came(
                public_host@,
                self.server_issuer.certificate_pem@,
                self.server_issuer.private_key_pem@,
                self.root.certificate_pem@,
                result,
            ),
    {
        issue_server_identity(
            public_host,
            &self.server_issuer.certificate_pem,
            &self.server_issuer.private_key_pem,
            &self.root.certificate_pem,
        )
    }
}

/// Whether an issuer of some name was made, or refused, below a root that can be
/// read.
pub open spec fn issuer_below(
    name: Seq<char>,
    root: CertificateAuthority,
    result: Result<CertificateAuthority, PkiError>,
) -> bool {
    match x509_expiry(root.certificate_pem@) {
        Ok(end) => issuer_came(
            name,
            root.certificate_pem@,
            root.private_key_pem@,
            end as i128,
            result,
        ),
        Err(text) => result is Err && result->Err_0@ == PkiFault::CertificateParse(text),
    }
}

/// Makes an online issuer below a root.
fn signed_ca(name: &str, root: &CertificateAuthority) -> (result: Result<
    CertificateAuthority,
    PkiError,
>)
    ensures
        issuer_below(name@, *root, result),
{
    match certificate_not_after(&root.certificate_pem) {
        Ok(end) => signed_ca_with_issuer(name, &root.certificate_pem, &root.private_key_pem, end),
        Err(error) => Err(error),
    }
}

/// Whether a certificate that a plan describes can be used at a moment.
pub open spec fn valid_at(policy: PolicyModel, at: int) -> bool {
    policy.not_before <= at < policy.not_after
}

/// Every certificate of a server can be used from the moment of its issuance on: it is
/// valid from exactly five minutes before, so that clocks may differ, for more than
/// thirty-one days and for ninety if its chain lasts, and never beyond the day before
/// its chain ends. It is for the host that was asked for, serves TLS and nothing else,
/// and signs no other certificate.
pub proof fn server_certificate_is_usable_at_once(
    public_host: Seq<char>,
    refusal: Option<Seq<char>>,
    ends: Seq<i128>,
    now: int,
    serial: Seq<u8>,
    i: int,
)
    requires
        server_plan(
            public_host,
            refusal,
            Ok::<Seq<i128>, PkiFault>(ends),
            now,
            serial,
        ) is Ok,
    ensures
        ({
            let policy = server_plan(
                public_host,
                refusal,
                Ok::<Seq<i128>, PkiFault>(ends),
                now,
                serial,
            )->Ok_0;
            &&& valid_at(policy, now)
            &&& now - policy.not_before == 300_000_000_000
            &&& policy.not_after > now + 31 * 86_400_000_000_000
            &&& policy.not_after <= now + 90 * 86_400_000_000_000
            &&& 0 <= i < ends.len() ==> policy.not_after <= ends[i] - 86_400_000_000_000
            &&& (forall|j: int|
                0 <= j < ends.len() ==> #[trigger] ends[j] >= now + 91 * 86_400_000_000_000)
                ==> policy.not_after == now + 90 * 86_400_000_000_000
            &&& policy.common_name == "CentralD Server"@
            &&& policy.alternative_name == Some(public_host)
            &&& policy.organizational_unit is None
            &&& policy.authority == IsCa::NoCa
            &&& policy.extended_uses.len() == 1
            &&& policy.extended_uses[0] == ExtendedKeyUsagePurpose::ServerAuth
            &&& policy.key_uses.contains(KeyUsagePurpose::DigitalSignature)
            &&& policy.key_uses.contains(KeyUsagePurpose::KeyEncipherment)
            &&& !policy.key_uses.contains(KeyUsagePurpose::KeyCertSign)
            &&& policy.serial == serial
        }),
{
    expiry_is_bounded(now, SERVER_VALIDITY_DAYS as int, ends, MINIMUM_LEAF_VALIDITY_DAYS as int, i);
    if forall|j: int| 0 <= j < ends.len() ==> #[trigger] ends[j] >= now + 91 * 86_400_000_000_000 {
        long_chains_do_not_shorten(now, SERVER_VALIDITY_DAYS as int, ends);
    }
    let policy = server_plan(
        public_host,
        refusal,
        Ok::<Seq<i128>, PkiFault>(ends),
        now,
        serial,
    )->Ok_0;
    assert(policy.key_uses[0] == KeyUsagePurpose::DigitalSignature);
    assert(policy.key_uses[1] == KeyUsagePurpose::KeyEncipherment);
}

/// Every certificate of a client or an Admin can be used from the moment of its
/// issuance on: it is valid from exactly five minutes before, for more than thirty-one
/// days and for ninety if its chain lasts, and never beyond the day before its chain
/// ends. It bears the name that was asked for and the unit of its role, authenticates a
/// client and nothing else, and signs no other certificate.
pub proof fn identity_certificate_is_usable_at_once(
    name: Result<CommonNameModel, Seq<char>>,
    expected_name: Seq<char>,
    kind: IdentityCertificateKind,
    ends: Seq<i128>,
    now: int,
    serial: Seq<u8>,
    i: int,
)
    requires
        identity_plan(
            name,
            expected_name,
            kind,
            Ok::<Seq<i128>, PkiFault>(ends),
            now,
            serial,
        ) is Ok,
    ensures
        ({
            let policy = identity_plan(
                name,
                expected_name,
                kind,
                Ok::<Seq<i128>, PkiFault>(ends),
                now,
                serial,
            )->Ok_0;
            &&& valid_at(policy, now)
            &&& now - policy.not_before == 300_000_000_000
            &&& policy.not_after > now + 31 * 86_400_000_000_000
            &&& policy.not_after <= now + 90 * 86_400_000_000_000
            &&& 0 <= i < ends.len() ==> policy.not_after <= ends[i] - 86_400_000_000_000
            &&& (forall|j: int|
                0 <= j < ends.len() ==> #[trigger] ends[j] >= now + 91 * 86_400_000_000_000)
                ==> policy.not_after == now + 90 * 86_400_000_000_000
            &&& policy.common_name == expected_name
            &&& name == Ok::<CommonNameModel, Seq<char>>(CommonNameModel::Text(expected_name))
            &&& policy.organizational_unit == Some(
                if kind == IdentityCertificateKind::Client {
                    "client"@
                } else {
                    "admin"@
                },
            )
            &&& policy.alternative_name is None
            &&& policy.authority == IsCa::NoCa
            &&& policy.extended_uses.len() == 1
            &&& policy.extended_uses[0] == ExtendedKeyUsagePurpose::ClientAuth
            &&& policy.key_uses.len() == 1
            &&& policy.key_uses[0] == KeyUsagePurpose::DigitalSignature
            &&& policy.serial == serial
        }),
{
    expiry_is_bounded(
        now,
        IDENTITY_VALIDITY_DAYS as int,
        ends,
        MINIMUM_LEAF_VALIDITY_DAYS as int,
        i,
    );
    if forall|j: int| 0 <= j < ends.len() ==> #[trigger] ends[j] >= now + 91 * 86_400_000_000_000 {
        long_chains_do_not_shorten(now, IDENTITY_VALIDITY_DAYS as int, ends);
    }
}

/// An issuer can be used from a day before its issuance on, for more than a hundred and
/// twenty days and at most for three years, and it ends a day before its root. It signs
/// certificates and lists of revoked ones, but no further issuers.
pub proof fn issuer_certificate_is_usable_at_once(
    name: Seq<char>,
    root_not_after: i128,
    now: int,
    serial: Seq<u8>,
)
    requires
        issuer_plan(name, root_not_after, now, serial) is Ok,
    ensures
        ({
            let policy = issuer_plan(name, root_not_after, now, serial)->Ok_0;
            &&& valid_at(policy, now)
            &&& now - policy.not_before == 86_400_000_000_000
            &&& policy.not_after > now + 120 * 86_400_000_000_000
            &&& policy.not_after <= now + 1095 * 86_400_000_000_000
            &&& policy.not_after <= root_not_after - 86_400_000_000_000
            &&& root_not_after >= now + 1096 * 86_400_000_000_000 ==> policy.not_after == now + 1095
                * 86_400_000_000_000
            &&& policy.common_name == name
            &&& policy.authority == IsCa::Ca(BasicConstraints::Constrained(0))
            &&& policy.key_uses.contains(KeyUsagePurpose::KeyCertSign)
            &&& policy.key_uses.contains(KeyUsagePurpose::CrlSign)
            &&& policy.extended_uses.len() == 0
            &&& policy.alternative_name is None
            &&& policy.serial == serial
        }),
{
    let ends = seq![root_not_after];
    expiry_is_bounded(
        now,
        ISSUER_VALIDITY_DAYS as int,
        ends,
        MINIMUM_ISSUER_VALIDITY_DAYS as int,
        0,
    );
    if root_not_after >= now + 1096 * 86_400_000_000_000 {
        long_chains_do_not_shorten(now, ISSUER_VALIDITY_DAYS as int, ends);
    }
    let policy = issuer_plan(name, root_not_after, now, serial)->Ok_0;
    assert(policy.key_uses[0] == KeyUsagePurpose::KeyCertSign);
    assert(policy.key_uses[1] == KeyUsagePurpose::CrlSign);
}

/// A root can be used from a day before it was made, for fifteen years, and signs
/// issuers.
pub proof fn root_certificate_is_usable_at_once(now: int, serial: Seq<u8>)
    ensures
        ({
            let policy = root_plan(now, serial);
            &&& valid_at(policy, now)
            &&& now - policy.not_before == 86_400_000_000_000
            &&& policy.not_after == now + 5475 * 86_400_000_000_000
            &&& policy.common_name == "CentralD Offline Root CA"@
            &&& policy.authority == IsCa::Ca(BasicConstraints::Unconstrained)
            &&& policy.key_uses.contains(KeyUsagePurpose::KeyCertSign)
            &&& policy.extended_uses.len() == 0
            &&& policy.serial == serial
        }),
{
    assert(root_plan(now, serial).key_uses[0] == KeyUsagePurpose::KeyCertSign);
}

/// A chain is valid throughout: a certificate begins no earlier than the issuer that
/// signs it later than that was made, and an issuer no earlier than its root.
pub proof fn certificates_begin_within_their_chain(
    name: Seq<char>,
    root_not_after: i128,
    root_made: int,
    issuer_made: int,
    now: int,
    first: Seq<u8>,
    second: Seq<u8>,
    third: Seq<u8>,
    public_host: Seq<char>,
    refusal: Option<Seq<char>>,
    ends: Result<Seq<i128>, PkiFault>,
    requested: Result<CommonNameModel, Seq<char>>,
    expected_name: Seq<char>,
    kind: IdentityCertificateKind,
)
    requires
        root_made <= issuer_made <= now,
        issuer_plan(name, root_not_after, issuer_made, second) is Ok,
    ensures
        ({
            let root = root_plan(root_made, first);
            let issuer = issuer_plan(name, root_not_after, issuer_made, second)->Ok_0;
            &&& root.not_before <= issuer.not_before
            &&& server_plan(public_host, refusal, ends, now, third) matches Ok(server)
                ==> issuer.not_before <= server.not_before
            &&& identity_plan(requested, expected_name, kind, ends, now, third) matches Ok(identity)
                ==> issuer.not_before <= identity.not_before
        }),
{
}

proof fn long_chains_do_not_shorten(now: int, days: int, ends: Seq<i128>)
    requires
        forall|j: int| 0 <= j < ends.len() ==> #[trigger] ends[j] >= now + (days + 1) * DAY,
    ensures
        chain_limit(now + days * DAY, ends) >= now + days * DAY,
{
    if ends.len() > 0 {
        earliest_is_one(ends);
    }
}

proof fn earliest_is_one(moments: Seq<i128>)
    requires
        moments.len() > 0,
    ensures
        exists|i: int| 0 <= i < moments.len() && earliest(moments) == #[trigger] moments[i],
    decreases moments.len(),
{
    if moments.len() > 1 {
        let front = moments.drop_last();
        earliest_is_one(front);
        let i = choose|i: int| 0 <= i < front.len() && earliest(front) == #[trigger] front[i];
        assert(moments[i] == front[i]);
        assert(moments[moments.len() - 1] == moments.last());
    } else {
        assert(earliest(moments) == moments[0]);
    }
}

/// A certificate is planned for every request that deserves one: for a server with a
/// host that can be named, and for an identity whose request bears the name that was
/// expected, if the chain lasts for more than thirty-two days.
pub proof fn deserving_requests_are_planned(
    public_host: Seq<char>,
    expected_name: Seq<char>,
    kind: IdentityCertificateKind,
    ends: Seq<i128>,
    now: int,
    serial: Seq<u8>,
)
    requires
        forall|j: int| 0 <= j < ends.len() ==> #[trigger] ends[j] > now + 32 * 86_400_000_000_000,
    ensures
        trim(public_host).len() > 0 ==> server_plan(
            public_host,
            None,
            Ok::<Seq<i128>, PkiFault>(ends),
            now,
            serial,
        ) is Ok,
        trim(expected_name).len() > 0 ==> identity_plan(
            Ok::<CommonNameModel, Seq<char>>(CommonNameModel::Text(expected_name)),
            expected_name,
            kind,
            Ok::<Seq<i128>, PkiFault>(ends),
            now,
            serial,
        ) is Ok,
{
    if ends.len() > 0 {
        earliest_is_one(ends);
    }
}

/// Nothing is planned for a blank name, for a request under another name, under a chain
/// that cannot be read, or under one that ends within thirty-two days.
pub proof fn undeserving_requests_are_refused(
    public_host: Seq<char>,
    refusal: Option<Seq<char>>,
    requested: Result<CommonNameModel, Seq<char>>,
    expected_name: Seq<char>,
    kind: IdentityCertificateKind,
    ends: Result<Seq<i128>, PkiFault>,
    now: int,
    serial: Seq<u8>,
    i: int,
)
    ensures
        ({
            let server = server_plan(public_host, refusal, ends, now, serial);
            let identity = identity_plan(requested, expected_name, kind, ends, now, serial);
            &&& trim(public_host).len() == 0 ==> server == Err::<PolicyModel, PkiFault>(
                PkiFault::EmptyPublicHost,
            )
            &&& refusal is Some ==> server is Err
            &&& trim(expected_name).len() == 0 ==> identity == Err::<PolicyModel, PkiFault>(
                PkiFault::EmptyIdentityName,
            )
            &&& requested != Ok::<CommonNameModel, Seq<char>>(CommonNameModel::Text(expected_name))
                ==> identity is Err
            &&& ends is Err ==> server is Err && identity is Err
            &&& ends is Ok && 0 <= i < ends->Ok_0.len() && ends->Ok_0[i] <= now + 32
                * 86_400_000_000_000 ==> server is Err && identity is Err
        }),
{
    if ends is Ok && 0 <= i < ends->Ok_0.len() {
        earliest_is_least(ends->Ok_0, i);
    }
}

/// A recovery key is taken exactly if it is that of the root, whose end and use as an
/// issuer can be read.
pub proof fn recovery_keys_are_those_of_the_root(
    certificate_key: Result<Seq<u8>, Seq<char>>,
    private_key: Result<Seq<u8>, Seq<char>>,
    expires: Result<int, Seq<char>>,
    refusal: Option<Seq<char>>,
)
    ensures
        recovery_root(certificate_key, private_key, expires, refusal) is Ok <==> {
            &&& certificate_key is Ok
            &&& private_key is Ok
            &&& certificate_key->Ok_0 == private_key->Ok_0
            &&& expires is Ok
            &&& refusal is None
        },
        recovery_root(certificate_key, private_key, expires, refusal) matches Ok(end) ==> expires
            == Ok::<int, Seq<char>>(end),
{
}

/// An issued certificate comes first in its chain, before its issuer and its root; its
/// fingerprint and serial are its own, and its expiry is what it says.
pub proof fn issued_chains_are_in_order(
    csr: Seq<char>,
    expected_name: Seq<char>,
    kind: IdentityCertificateKind,
    issuer_pem: Seq<char>,
    issuer_key_pem: Seq<char>,
    root_pem: Seq<char>,
    issued: IssuedCertificate,
) -> (parts: (Seq<char>, Seq<u8>, Seq<u8>))
    requires
        request_came(
            csr,
            expected_name,
            kind,
            issuer_pem,
            issuer_key_pem,
            root_pem,
            Ok(issued),
        ),
    ensures
        issued.certificate_chain_pem@ == parts.0 + issuer_pem + root_pem,
        issued.fingerprint_sha256@ == hex_text(sha256_digest(parts.1)),
        issued.serial_hex@ == hex_text(parts.2),
        parts.2.len() == 20,
        parts.2[0] < 0x80,
        x509_expiry(parts.0) == Ok::<int, Seq<char>>(whole_second(issued.expires_at as int)),
        request_name(csr) == Ok::<CommonNameModel, Seq<char>>(
            CommonNameModel::Text(expected_name),
        ),
{
    let ends = chain_ends(x509_expiry(issuer_pem), x509_expiry(root_pem));
    let (now, random) = choose|now: int, random: Seq<u8>|
        random.len() == 20 && certificate_came(
            #[trigger] identity_plan(
                request_name(csr),
                expected_name,
                kind,
                ends,
                now,
                serial_of(random),
            ),
            csr,
            issuer_pem,
            issuer_key_pem,
            root_pem,
            Ok(issued),
        );
    let policy = identity_plan(
        request_name(csr),
        expected_name,
        kind,
        ends,
        now,
        serial_of(random),
    )->Ok_0;
    let (pem, der, entropy) = choose|pem: Seq<char>, der: Seq<u8>, entropy: Seq<u8>|
        {
            &&& #[trigger] signed_request(csr, policy, issuer_pem, issuer_key_pem, entropy) == Some(
                (pem, der),
            )
            &&& #[trigger] is_issued(issued, policy, pem, der, issuer_pem, root_pem)
        };
    serial_is_positive(random);
    (pem, der, policy.serial)
}

/// A rotation makes each of the three issuers under its own name, with its own key, below the same
/// root.
pub proof fn rotated_issuers_keep_their_names(
    root_pem: Seq<char>,
    root_key_pem: Seq<char>,
    root_not_after: i128,
    rotation: OnlineIssuerRotation,
)
    requires
        rotation_came(root_pem, root_key_pem, root_not_after, Ok(rotation)),
    ensures
        rotated_issuer(
            "CentralD Server Issuing CA"@,
            root_pem,
            root_key_pem,
            root_not_after,
            rotation.server_certificate_pem@,
            rotation.server_private_key_pem@,
        ),
        rotated_issuer(
            "CentralD Client Issuing CA"@,
            root_pem,
            root_key_pem,
            root_not_after,
            rotation.client_certificate_pem@,
            rotation.client_private_key_pem@,
        ),
        rotated_issuer(
            "CentralD Admin Issuing CA"@,
            root_pem,
            root_key_pem,
            root_not_after,
            rotation.admin_certificate_pem@,
            rotation.admin_private_key_pem@,
        ),
{
}

} // verus!
