//! Digests and signatures.

use vstd::prelude::*;
use vstd::utf8::{decode_utf8, encode_utf8, valid_utf8};

use crate::text::{
    byte_length, concat, lines, numeral, same_text, text_lines, trim, trimmed, utf8_text,
};

verus! {

/// The SHA-256 digest of bytes.
pub uninterp spec fn sha256_digest(bytes: Seq<u8>) -> Seq<u8>;

/// Calls `sha2::Sha256::digest`; the digest has 32 bytes.
#[verifier::external_body]
pub(crate) fn sha256(bytes: &[u8]) -> (result: Vec<u8>)
    ensures
        result@ == sha256_digest(bytes@),
        result@.len() == 32,
{
    <sha2::Sha256 as sha2::Digest>::digest(bytes).to_vec()
}

/// The public half of an Ed25519 secret.
pub uninterp spec fn ed25519_public(secret: Seq<u8>) -> Seq<u8>;

/// The Ed25519 signature that a secret makes of a message.
pub uninterp spec fn ed25519_signature(secret: Seq<u8>, message: Seq<u8>) -> Seq<u8>;

/// Whether a public key accepts a signature of a message.
pub uninterp spec fn ed25519_accepts(key: Seq<u8>, message: Seq<u8>, signature: Seq<u8>) -> bool;

/// Calls `ed25519_dalek::SigningKey::verifying_key`; the key has 32 bytes.
#[verifier::external_body]
pub(crate) fn public_key_of(secret: &[u8; 32]) -> (result: [u8; 32])
    ensures
        result@ == ed25519_public(secret@),
{
    ed25519_dalek::SigningKey::from_bytes(secret).verifying_key().to_bytes()
}

/// Calls `ed25519_dalek::SigningKey::sign`. The signature depends on the secret
/// and the message alone, has 64 bytes, and the secret's public key accepts it.
#[verifier::external_body]
pub(crate) fn sign_message(secret: &[u8; 32], message: &[u8]) -> (result: Vec<u8>)
    ensures
        result@ == ed25519_signature(secret@, message@),
        result@.len() == 64,
        ed25519_accepts(ed25519_public(secret@), message@, result@),
{
    let key = ed25519_dalek::SigningKey::from_bytes(secret);
    ed25519_dalek::Signer::sign(&key, message).to_bytes().to_vec()
}

/// Calls `ed25519_dalek::VerifyingKey::verify`. The contract names the answer;
/// bytes that are no key or no signature are never accepted.
#[verifier::external_body]
pub(crate) fn accepts_signature(key: &[u8; 32], message: &[u8], signature: &[u8]) -> (result: bool)
    ensures
        result == ed25519_accepts(key@, message@, signature@),
        result ==> signature@.len() == 64,
{
    let key = ed25519_dalek::VerifyingKey::from_bytes(key);
    let signature = ed25519_dalek::Signature::from_slice(signature);
    match (key, signature) {
        (Ok(key), Ok(signature)) => ed25519_dalek::Verifier::verify(&key, message, &signature).is_ok(),
        _ => false,
    }
}

/// An Ed25519 secret.
#[derive(Clone, Copy)]
pub struct SigningKey {
    secret: [u8; 32],
}

/// An Ed25519 public key.
#[derive(Debug, Clone, Copy)]
pub struct VerifyingKey {
    bytes: [u8; 32],
}

impl View for SigningKey {
    type V = Seq<u8>;

    closed spec fn view(&self) -> Seq<u8> {
        self.secret@
    }
}

impl View for VerifyingKey {
    type V = Seq<u8>;

    closed spec fn view(&self) -> Seq<u8> {
        self.bytes@
    }
}

impl SigningKey {
    pub fn from_bytes(secret: &[u8; 32]) -> (result: SigningKey)
        ensures
            result@ == secret@,
    {
        SigningKey { secret: *secret }
    }

    pub fn verifying_key(&self) -> (result: VerifyingKey)
        ensures
            result@ == ed25519_public(self@),
    {
        VerifyingKey { bytes: public_key_of(&self.secret) }
    }

    /// Signs a message; the public half of the key accepts the signature.
    pub fn sign(&self, message: &[u8]) -> (result: Vec<u8>)
        ensures
            result@ == ed25519_signature(self@, message@),
            result@.len() == 64,
            ed25519_accepts(ed25519_public(self@), message@, result@),
    {
        sign_message(&self.secret, message)
    }
}

impl VerifyingKey {
    pub fn from_bytes(bytes: &[u8; 32]) -> (result: VerifyingKey)
        ensures
            result@ == bytes@,
    {
        VerifyingKey { bytes: *bytes }
    }

    /// Whether the key accepts a signature of a message.
    pub fn accepts(&self, message: &[u8], signature: &[u8]) -> (result: bool)
        ensures
            result == ed25519_accepts(self@, message@, signature@),
            result ==> signature@.len() == 64,
    {
        accepts_signature(&self.bytes, message, signature)
    }
}

/// Whether a text is a Minisign public key in base64.
pub uninterp spec fn minisign_key_reads(key: Seq<char>) -> bool;

/// Whether a text is a Minisign signature file.
pub uninterp spec fn minisign_signature_reads(signature: Seq<char>) -> bool;

/// Whether a Minisign public key accepts a signature file for data; legacy
/// signatures are never accepted.
pub uninterp spec fn minisign_accepts(
    key: Seq<char>,
    data: Seq<u8>,
    signature: Seq<char>,
) -> bool;

/// The number of characters that 64 bytes take in base64.
pub const SIGNATURE_BASE64_CHARS: usize = 88;

/// Whether the fourth line of a signature file, its comment signature, is long
/// enough for a signature.
pub open spec fn comment_signature_is_whole(signature: Seq<char>) -> bool {
    lines(signature).len() >= 4 && encode_utf8(trim(lines(signature)[3])).len()
        >= SIGNATURE_BASE64_CHARS
}

/// Calls `minisign::PublicKey::from_base64` for whether it succeeds. The
/// contract names the answer.
#[verifier::external_body]
fn minisign_reads_key(key: &str) -> (result: bool)
    ensures
        result == minisign_key_reads(key@),
{
    minisign::PublicKey::from_base64(key).is_ok()
}

/// Calls `minisign::SignatureBox::from_string` for whether it succeeds. The
/// contract names the answer.
#[verifier::external_body]
fn minisign_reads_signature(signature: &str) -> (result: bool)
    ensures
        result == minisign_signature_reads(signature@),
{
    minisign::SignatureBox::from_string(signature).is_ok()
}

/// Calls `minisign::verify`, quietly, without output and without legacy
/// signatures. The contract names the answer. The comment signature must be
/// whole, because the function takes 64 bytes from it without looking.
#[verifier::external_body]
fn minisign_verifies(key: &str, data: &[u8], signature: &str) -> (result: bool)
    requires
        comment_signature_is_whole(signature@),
    ensures
        result == minisign_accepts(key@, data@, signature@),
{
    let key = minisign::PublicKey::from_base64(key);
    let signature = minisign::SignatureBox::from_string(signature);
    let data = std::io::Cursor::new(data);
    match (key, signature) {
        (Ok(key), Ok(signature)) => minisign::verify(&key, &signature, data, true, false, false).is_ok(),
        _ => false,
    }
}

#[derive(Debug, Clone, Copy, PartialEq, Eq, Structural)]
pub enum MinisignError {
    NoKey,
    Key,
    Text,
    Signature,
    Refused,
}

impl MinisignError {
    /// The message of an error, in a build of the client or of Admin.
    pub open spec fn message_spec(self, build: Seq<char>) -> Seq<char> {
        match self {
            MinisignError::NoKey => "this "@ + build
                + " build has no Minisign public key; update verification is disabled"@,
            MinisignError::Key => "parse the Minisign public key"@,
            MinisignError::Text => "Minisign signature is not valid text"@,
            MinisignError::Signature => "decode the Minisign signature"@,
            MinisignError::Refused => "Minisign verification failed"@,
        }
    }

    pub fn message(&self, build: &str) -> (result: String)
        ensures
            result@ == self.message_spec(build@),
    {
        match self {
            MinisignError::NoKey => {
                let mut message = concat("this ", build);
                message.append(
                    " build has no Minisign public key; update verification is disabled",
                );
                message
            },
            MinisignError::Key => "parse the Minisign public key".to_owned(),
            MinisignError::Text => "Minisign signature is not valid text".to_owned(),
            MinisignError::Signature => "decode the Minisign signature".to_owned(),
            MinisignError::Refused => "Minisign verification failed".to_owned(),
        }
    }
}

/// What a Minisign public key says of a signature file for data.
pub open spec fn minisign_verdict(key: Seq<char>, data: Seq<u8>, signature: Seq<u8>) -> Result<
    (),
    MinisignError,
> {
    if key.len() == 0 {
        Err(MinisignError::NoKey)
    } else if !minisign_key_reads(key) {
        Err(MinisignError::Key)
    } else if !valid_utf8(signature) {
        Err(MinisignError::Text)
    } else if !minisign_signature_reads(decode_utf8(signature)) {
        Err(MinisignError::Signature)
    } else if comment_signature_is_whole(decode_utf8(signature)) && minisign_accepts(
        key,
        data,
        decode_utf8(signature),
    ) {
        Ok(())
    } else {
        Err(MinisignError::Refused)
    }
}

/// Verifies data against a Minisign signature file.
pub fn verify_minisign(key: &str, data: &[u8], signature: Vec<u8>) -> (result: Result<
    (),
    MinisignError,
>)
    ensures
        result == minisign_verdict(key@, data@, signature@),
{
    if key.is_empty() {
        return Err(MinisignError::NoKey);
    }
    if !minisign_reads_key(key) {
        return Err(MinisignError::Key);
    }
    let text = match utf8_text(signature) {
        Some(text) => text,
        None => return Err(MinisignError::Text),
    };
    proof {
        vstd::utf8::encode_utf8_decode_utf8(text@);
    }
    if !minisign_reads_signature(&text) {
        return Err(MinisignError::Signature);
    }
    let all = text_lines(&text);
    if all.len() < 4 {
        return Err(MinisignError::Refused);
    }
    assert(lines(text@)[3] == all@[3]@);
    if byte_length(&trimmed(&all[3])) < SIGNATURE_BASE64_CHARS {
        return Err(MinisignError::Refused);
    }
    if minisign_verifies(key, data, &text) {
        Ok(())
    } else {
        Err(MinisignError::Refused)
    }
}

/// The public key in a PEM text, if it holds one.
pub uninterp spec fn ed25519_public_in(pem: Seq<char>) -> Option<Seq<u8>>;

/// Calls `from_public_key_pem` of ed25519-dalek's `VerifyingKey`. The contract
/// names the key that it reads.
#[verifier::external_body]
fn public_key_in(pem: &str) -> (result: Option<[u8; 32]>)
    ensures
        match result {
            Some(bytes) => ed25519_public_in(pem@) == Some(bytes@),
            None => ed25519_public_in(pem@) is None,
        },
{
    let key: Result<ed25519_dalek::VerifyingKey, _> =
        ed25519_dalek::pkcs8::DecodePublicKey::from_public_key_pem(pem);
    key.ok().map(|key| key.to_bytes())
}

/// The secret in a PEM text, if it holds one.
pub uninterp spec fn ed25519_secret_in(pem: Seq<char>) -> Option<Seq<u8>>;

/// Calls `from_pkcs8_pem` of ed25519-dalek's `SigningKey`. The contract names the
/// secret that it reads.
#[verifier::external_body]
fn secret_in(pem: &str) -> (result: Option<[u8; 32]>)
    ensures
        match result {
            Some(bytes) => ed25519_secret_in(pem@) == Some(bytes@),
            None => ed25519_secret_in(pem@) is None,
        },
{
    let key: Result<ed25519_dalek::SigningKey, _> =
        ed25519_dalek::pkcs8::DecodePrivateKey::from_pkcs8_pem(pem);
    key.ok().map(|key| key.to_bytes())
}

/// The PEM text of a secret.
pub uninterp spec fn ed25519_secret_text(secret: Seq<u8>) -> Option<Seq<char>>;

/// Calls `to_pkcs8_pem` of ed25519-dalek's `SigningKey`, with line feeds. The
/// contract names the text, and says that the secret is read back from it.
#[verifier::external_body]
fn secret_text(secret: &[u8; 32]) -> (result: Option<String>)
    ensures
        match result {
            Some(text) => ed25519_secret_text(secret@) == Some(text@) && ed25519_secret_in(text@)
                == Some(secret@),
            None => ed25519_secret_text(secret@) is None,
        },
{
    let key = ed25519_dalek::SigningKey::from_bytes(secret);
    let ending = ed25519_dalek::pkcs8::spki::der::pem::LineEnding::LF;
    let text = ed25519_dalek::pkcs8::EncodePrivateKey::to_pkcs8_pem(&key, ending);
    text.ok().map(|text| text.as_str().to_owned())
}

/// Calls `generate` of ed25519-dalek's `SigningKey` with the operating system's
/// generator. Nothing is stated of the secret: it is random.
#[verifier::external_body]
fn random_secret() -> (result: [u8; 32])
{
    ed25519_dalek::SigningKey::generate(&mut rand_core::OsRng).to_bytes()
}

impl SigningKey {
    /// Makes a new key.
    pub fn generate() -> (result: SigningKey)
        ensures
            result@.len() == 32,
    {
        SigningKey { secret: random_secret() }
    }

    /// Reads a key from its PEM text.
    pub fn from_pem(pem: &str) -> (result: Option<SigningKey>)
        ensures
            match result {
                Some(key) => ed25519_secret_in(pem@) == Some(key@),
                None => ed25519_secret_in(pem@) is None,
            },
    {
        match secret_in(pem) {
            Some(secret) => Some(SigningKey { secret }),
            None => None,
        }
    }

    /// Writes a key as PEM text, from which it is read back.
    pub fn to_pem(&self) -> (result: Option<String>)
        ensures
            match result {
                Some(text) => ed25519_secret_text(self@) == Some(text@) && ed25519_secret_in(text@)
                    == Some(self@),
                None => ed25519_secret_text(self@) is None,
            },
    {
        secret_text(&self.secret)
    }
}

impl VerifyingKey {
    /// Reads a key from its PEM text.
    pub fn from_pem(pem: &str) -> (result: Option<VerifyingKey>)
        ensures
            match result {
                Some(key) => ed25519_public_in(pem@) == Some(key@),
                None => ed25519_public_in(pem@) is None,
            },
    {
        match public_key_in(pem) {
            Some(bytes) => Some(VerifyingKey { bytes }),
            None => None,
        }
    }

    /// The bytes of a key.
    pub fn to_bytes(&self) -> (result: [u8; 32])
        ensures
            result@ == self@,
    {
        self.bytes
    }
}

/// The bytes that a key is mixed into, in a keyed hash.
pub const HMAC_BLOCK_BYTES: usize = 64;

/// A key as a block: hashed first where it is longer, filled up with zeros.
pub open spec fn hmac_key(key: Seq<u8>) -> Seq<u8> {
    let short = if key.len() > HMAC_BLOCK_BYTES {
        sha256_digest(key)
    } else {
        key
    };
    Seq::new(
        HMAC_BLOCK_BYTES as nat,
        |i: int|
            if i < short.len() {
                short[i]
            } else {
                0u8
            },
    )
}

/// A key block mixed with one repeated byte.
pub open spec fn padded(block: Seq<u8>, pad: u8) -> Seq<u8> {
    block.map_values(|byte: u8| byte ^ pad)
}

/// The keyed SHA-256 hash of a message.
pub open spec fn hmac(key: Seq<u8>, message: Seq<u8>) -> Seq<u8> {
    let block = hmac_key(key);
    sha256_digest(padded(block, 0x5c) + sha256_digest(padded(block, 0x36) + message))
}

fn hmac_block(key: &[u8]) -> (result: Vec<u8>)
    ensures
        result@ == hmac_key(key@),
{
    let ghost short = if key@.len() > HMAC_BLOCK_BYTES {
        sha256_digest(key@)
    } else {
        key@
    };
    let mut block: Vec<u8> = Vec::new();
    if key.len() > HMAC_BLOCK_BYTES {
        let digest = sha256(key);
        let mut i: usize = 0;
        while i < digest.len()
            invariant
                i <= digest.len(),
                digest@ == short,
                digest.len() == 32,
                block@ == short.take(i as int),
            decreases digest.len() - i,
        {
            block.push(digest[i]);
            assert(block@ =~= short.take(i + 1));
            i += 1;
        }
    } else {
        let mut i: usize = 0;
        while i < key.len()
            invariant
                i <= key.len(),
                key@ == short,
                block@ == short.take(i as int),
            decreases key.len() - i,
        {
            block.push(key[i]);
            assert(block@ =~= short.take(i + 1));
            i += 1;
        }
    }
    assert(block@ =~= short);
    while block.len() < HMAC_BLOCK_BYTES
        invariant
            short.len() <= block.len() <= HMAC_BLOCK_BYTES,
            forall|i: int| 0 <= i < short.len() ==> block@[i] == short[i],
            forall|i: int| short.len() <= i < block.len() ==> block@[i] == 0u8,
        decreases HMAC_BLOCK_BYTES - block.len(),
    {
        block.push(0);
    }
    assert(block@ =~= hmac_key(key@));
    block
}

/// Hashes a padded block followed by a message.
fn hash_padded(block: &Vec<u8>, pad: u8, message: &[u8]) -> (result: Vec<u8>)
    ensures
        result@ == sha256_digest(padded(block@, pad) + message@),
        result@.len() == 32,
{
    let ghost mixed = padded(block@, pad);
    let mut bytes: Vec<u8> = Vec::new();
    let mut i: usize = 0;
    while i < block.len()
        invariant
            i <= block.len(),
            mixed == padded(block@, pad),
            bytes@ == mixed.take(i as int),
        decreases block.len() - i,
    {
        bytes.push(block[i] ^ pad);
        assert(bytes@ =~= mixed.take(i + 1));
        i += 1;
    }
    assert(bytes@ =~= mixed);
    let mut j: usize = 0;
    while j < message.len()
        invariant
            j <= message.len(),
            bytes@ == mixed + message@.take(j as int),
        decreases message.len() - j,
    {
        bytes.push(message[j]);
        assert(bytes@ =~= mixed + message@.take(j + 1));
        j += 1;
    }
    assert(message@.take(message@.len() as int) =~= message@);
    sha256(&bytes)
}

/// Computes the keyed SHA-256 hash of a message.
pub fn hmac_sha256(key: &[u8], message: &[u8]) -> (result: Vec<u8>)
    ensures
        result@ == hmac(key@, message@),
        result@.len() == 32,
{
    let block = hmac_block(key);
    let inner = hash_padded(&block, 0x36, message);
    hash_padded(&block, 0x5c, &inner)
}

proof fn differing_bits(difference: u8, left: u8, right: u8)
    ensures
        (difference | (left ^ right)) == 0 <==> difference == 0 && left == right,
{
    assert((difference | (left ^ right)) == 0 <==> difference == 0 && left == right)
        by (bit_vector);
}

/// Compares bytes without stopping at the first difference.
pub fn constant_time_equal(left: &[u8], right: &[u8]) -> (result: bool)
    ensures
        result == (left@ == right@),
{
    if left.len() != right.len() {
        return false;
    }
    let mut difference: u8 = 0;
    let mut i: usize = 0;
    assert(left@.take(0) =~= right@.take(0));
    while i < left.len()
        invariant
            i <= left.len(),
            left.len() == right.len(),
            difference == 0 <==> left@.take(i as int) == right@.take(i as int),
        decreases left.len() - i,
    {
        proof {
            differing_bits(difference, left@[i as int], right@[i as int]);
            assert(left@.take(i + 1) =~= left@.take(i as int).push(left@[i as int]));
            assert(right@.take(i + 1) =~= right@.take(i as int).push(right@[i as int]));
            assert(left@.take(i + 1).drop_last() =~= left@.take(i as int));
            assert(right@.take(i + 1).drop_last() =~= right@.take(i as int));
            assert(left@.take(i + 1).last() == left@[i as int]);
            assert(right@.take(i + 1).last() == right@[i as int]);
        }
        difference = difference | (left[i] ^ right[i]);
        i += 1;
    }
    assert(left@.take(left@.len() as int) =~= left@);
    assert(right@.take(right@.len() as int) =~= right@);
    difference == 0
}

/// Calls `fill_bytes` of rand's thread generator. Of the bytes only their number
/// is stated: they are random.
#[verifier::external_body]
pub(crate) fn random_bytes(count: usize) -> (result: Vec<u8>)
    ensures
        result@.len() == count,
{
    let mut bytes = vec![0u8; count];
    rand::RngCore::fill_bytes(&mut rand::rng(), &mut bytes);
    bytes
}

/// The Argon2id hash of a password with a salt of sixteen bytes, a memory size
/// in kibibytes, a number of passes and of lanes, and a length, in its text form.
pub uninterp spec fn argon2id_text(
    password: Seq<char>,
    salt: Seq<u8>,
    memory: u32,
    passes: u32,
    lanes: u32,
    length: nat,
) -> Option<Seq<char>>;

/// Whether a password has a hash in text form: none where that text is no hash.
pub uninterp spec fn argon2_accepts(password: Seq<char>, hash: Seq<char>) -> Option<bool>;

/// The parameters that a hash in text form names, each with its value: none where
/// that text is no hash.
pub uninterp spec fn argon2_parameters(hash: Seq<char>) -> Option<Seq<(Seq<char>, Seq<char>)>>;

/// Pairs of texts, as sequences.
pub open spec fn pair_views(pairs: Seq<(String, String)>) -> Seq<(Seq<char>, Seq<char>)> {
    pairs.map_values(|pair: (String, String)| (pair.0@, pair.1@))
}

/// The value that stands last under a name.
pub open spec fn last_value(
    parameters: Seq<(Seq<char>, Seq<char>)>,
    name: Seq<char>,
) -> Option<Seq<char>>
    decreases parameters.len(),
{
    if parameters.len() == 0 {
        None
    } else if parameters.last().0 == name {
        Some(parameters.last().1)
    } else {
        last_value(parameters.drop_last(), name)
    }
}

/// Whether the number of lanes that parameters name has eight digits at most.
pub open spec fn bounded_lanes(parameters: Seq<(Seq<char>, Seq<char>)>) -> bool {
    match last_value(parameters, "p"@) {
        Some(lanes) => lanes.len() <= 8,
        None => true,
    }
}

/// Calls `PasswordHash::new` of argon2 and reads the parameters of the hash. The
/// contract names the result, and says that a hash begins with a dollar sign.
#[verifier::external_body]
pub(crate) fn read_hash_parameters(hash: &str) -> (result: Option<Vec<(String, String)>>)
    ensures
        match result {
            Some(pairs) => argon2_parameters(hash@) == Some(pair_views(pairs@)) && hash@.len() > 0
                && hash@[0] == '$',
            None => argon2_parameters(hash@) is None,
        },
{
    let parsed = argon2::PasswordHash::new(hash).ok()?;
    let pairs = parsed.params.iter();
    Some(pairs.map(|(name, value)| (name.to_string(), value.to_string())).collect())
}

pub(crate) fn has_bounded_lanes(parameters: &Vec<(String, String)>) -> (result: bool)
    ensures
        result == bounded_lanes(pair_views(parameters@)),
{
    let ghost all = pair_views(parameters@);
    let mut i: usize = parameters.len();
    assert(all.take(i as int) =~= all);
    while i > 0
        invariant
            i <= parameters.len(),
            all == pair_views(parameters@),
            last_value(all.take(i as int), "p"@) == last_value(all, "p"@),
        decreases i,
    {
        let pair = &parameters[i - 1];
        assert(all.take(i as int).drop_last() =~= all.take(i - 1));
        assert(all.take(i as int).last() == (pair.0@, pair.1@));
        if same_text(pair.0.as_str(), "p") {
            return pair.1.as_str().unicode_len() <= 8;
        }
        i -= 1;
    }
    true
}

/// Calls `hash_password` of argon2's `Argon2`, for Argon2id in version 19. The
/// contract names the result, and says that it begins with the name of the
/// algorithm, that it holds the three numbers that were given, how long it is, and
/// that the password is accepted against it.
#[verifier::external_body]
pub(crate) fn argon2id_hash(
    password: &str,
    salt: &[u8; 16],
    memory: u32,
    passes: u32,
    lanes: u32,
    length: usize,
) -> (result: Option<String>)
    requires
        memory <= 1_048_576,
        lanes <= 1024,
    ensures
        match result {
            Some(text) => {
                &&& argon2id_text(password@, salt@, memory, passes, lanes, length as nat) == Some(
                    text@,
                )
                &&& argon2_accepts(password@, text@) == Some(true)
                &&& argon2_parameters(text@) == Some(
                    seq![
                        ("m"@, numeral(memory as nat, 10)),
                        ("t"@, numeral(passes as nat, 10)),
                        ("p"@, numeral(lanes as nat, 10)),
                    ],
                )
                &&& "$argon2id$"@.is_prefix_of(text@)
                &&& text@.len() == 47 + numeral(memory as nat, 10).len() + numeral(
                    passes as nat,
                    10,
                ).len() + numeral(lanes as nat, 10).len() + (length * 4 + 2) / 3
            },
            None => argon2id_text(password@, salt@, memory, passes, lanes, length as nat) is None,
        },
{
    let params = argon2::Params::new(memory, passes, lanes, Some(length)).ok()?;
    let hasher = argon2::Argon2::new(argon2::Algorithm::Argon2id, argon2::Version::V0x13, params);
    let salt = argon2::password_hash::SaltString::encode_b64(salt).ok()?;
    argon2::PasswordHasher::hash_password(&hasher, password.as_bytes(), &salt)
        .ok()
        .map(|hash| hash.to_string())
}

/// Calls `verify_password` of argon2's `Argon2`, which takes the parameters from
/// the hash. The contract names the result, and says that there is none only where
/// the text is no hash. Eight times the number of lanes must fit into 32 bits.
#[verifier::external_body]
pub(crate) fn argon2_verify(password: &str, hash: &str) -> (result: Option<bool>)
    requires
        argon2_parameters(hash@) is Some ==> bounded_lanes(argon2_parameters(hash@)->Some_0),
    ensures
        result == argon2_accepts(password@, hash@),
        result is None == (argon2_parameters(hash@) is None),
{
    let parsed = argon2::PasswordHash::new(hash).ok()?;
    let verifier = argon2::Argon2::default();
    Some(argon2::PasswordVerifier::verify_password(&verifier, password.as_bytes(), &parsed).is_ok())
}

/// Bytes are accepted exactly with a key that reads, and a signature that is text, reads, is whole
/// and verifies under that key; without a key nothing is accepted.
pub proof fn signed_bytes_are_accepted(key: Seq<char>, data: Seq<u8>, signature: Seq<u8>)
    ensures
        minisign_verdict(key, data, signature) is Ok <==> {
            &&& key.len() > 0
            &&& minisign_key_reads(key)
            &&& valid_utf8(signature)
            &&& minisign_signature_reads(decode_utf8(signature))
            &&& comment_signature_is_whole(decode_utf8(signature))
            &&& minisign_accepts(key, data, decode_utf8(signature))
        },
        key.len() == 0 ==> minisign_verdict(key, data, signature) == Err::<(), MinisignError>(
            MinisignError::NoKey,
        ),
{
}

} // verus!
