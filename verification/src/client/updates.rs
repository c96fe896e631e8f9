//! Broker-side release verification and installation for `UpdateClient` jobs.
//!
//! The broker downloads the server-approved release manifest, verifies the
//! channel, pinned version, protocol, artifact digest, and Minisign signature,
//! and then installs the package with the platform installer (dpkg on Linux, the
//! signed installer script on Windows). Downloads are bounded; staging files live
//! only under the root-owned broker state directory and are removed after
//! installation.

use vstd::prelude::*;
use vstd::utf8::encode_utf8;

use crate::codec::{hex_encode, hex_text};
use crate::common::build_info::{is_supported_channel, supported_channel, RELEASE_CHANNEL};
use crate::common::release::{
    manifest_fault, Architecture, Component, OperatingSystem, PackageKind, ReleaseArtifact,
    ReleaseManifestV1,
};
use crate::common::url::{plain_https, url_parts, UrlModel, UrlParts};
use crate::common::version::{
    semver_reading, semver_version, supersedes, version_text, Version, VersionModel,
};
use crate::common::PROTOCOL_MAJOR;
use crate::crypto::{minisign_verdict, sha256, sha256_digest, verify_minisign};
use crate::text::{
    before_suffix, byte_length, characters, concat, decimal, fields, has_character, lower_ascii,
    lower_case, numeral, optional_view, same_text, split, starts_with, strip_suffix, tell, text_of,
    told, views,
};

verus! {

pub const MAX_MANIFEST_BYTES: u64 = 1_048_576;

pub const MAX_SIGNATURE_BYTES: u64 = 4096;

/// Hard cap for a single artifact download regardless of manifest size.
pub const MAX_ARTIFACT_BYTES: u64 = 536_870_912;

pub const MANIFEST_TIMEOUT_SECONDS: u64 = 30;

pub const ARTIFACT_TIMEOUT_SECONDS: u64 = 600;

/// The most entries that a client ZIP may have.
pub const MAX_ZIP_ENTRIES: usize = 512;

/// The most bytes that an entry of a client ZIP may have.
pub const MAX_ZIP_ENTRY_BYTES: u64 = 536_870_912;

/// How long the extraction of a client ZIP may take, in nanoseconds.
pub const EXTRACTION_TIMEOUT_NANOS: u128 = 600_000_000_000;

/// Job parameters for an `UpdateClient` operation.
#[derive(Debug)]
pub struct UpdateParameters {
    pub manifest_url: String,
    pub channel: String,
    pub allow_prerelease: bool,
    pub expected_version: String,
}

/// What is wrong with update parameters, if anything, given what their URL and
/// their version read as.
pub open spec fn parameters_fault(
    parts: Option<UrlModel>,
    channel: Seq<char>,
    version: Option<VersionModel>,
) -> Option<Seq<char>> {
    if parts is None {
        Some("manifest URL is invalid"@)
    } else if !plain_https(parts->0) {
        Some("manifest URL must be HTTPS without credentials, a query, or a fragment"@)
    } else if !supported_channel(channel) {
        Some("update channel is invalid"@)
    } else if channel != RELEASE_CHANNEL@ {
        Some("this build follows the "@ + RELEASE_CHANNEL@ + " channel, not "@ + channel)
    } else if version is None {
        Some("expected_version is not a valid semantic version"@)
    } else {
        None
    }
}

impl UpdateParameters {
    pub open spec fn fault(self) -> Option<Seq<char>> {
        parameters_fault(
            url_parts(self.manifest_url@),
            self.channel@,
            semver_version(self.expected_version@),
        )
    }

    /// Validates every parameter against the updater's invariants.
    pub fn validate(&self) -> (result: Result<(), String>)
        ensures
            told(result, self.fault()),
    {
        self.check(UrlParts::parse(&self.manifest_url), Version::parse(&self.expected_version))
    }

    /// Validates every parameter, given what the URL and the version read as.
    pub fn check(&self, parts: Option<UrlParts>, version: Option<Version>) -> (result: Result<
        (),
        String,
    >)
        ensures
            told(
                result,
                parameters_fault(
                    match parts {
                        Some(parts) => Some(parts@),
                        None => None,
                    },
                    self.channel@,
                    match version {
                        Some(version) => Some(version@),
                        None => None,
                    },
                ),
            ),
    {
        match parts {
            None => return tell("manifest URL is invalid"),
            Some(parts) => {
                if !parts.is_plain_https() {
                    return tell(
                        "manifest URL must be HTTPS without credentials, a query, or a fragment",
                    );
                }
            },
        }
        if !is_supported_channel(&self.channel) {
            return tell("update channel is invalid");
        }
        if !same_text(&self.channel, RELEASE_CHANNEL) {
            let mut message = concat("this build follows the ", RELEASE_CHANNEL);
            message.append(" channel, not ");
            message.append(&self.channel);
            return tell(&message);
        }
        if version.is_none() {
            return tell("expected_version is not a valid semantic version");
        }
        Ok(())
    }
}

/// Whether a response says that its body is not encoded.
pub open spec fn is_identity(encoding: Option<Seq<char>>) -> bool {
    match encoding {
        None => true,
        Some(text) => text.map_values(|c: char| lower_ascii(c)) == "identity"@,
    }
}

/// What is wrong with the headers of a response that may be of some length, if
/// anything.
pub open spec fn headers_fault(
    content_length: Option<u64>,
    encoding: Option<Seq<char>>,
    limit: u64,
    label: Seq<char>,
    oversized: Seq<char>,
) -> Option<Seq<char>> {
    if content_length is Some && content_length->0 > limit {
        Some(label + oversized)
    } else if !is_identity(encoding) {
        Some(label + " must not use content encoding"@)
    } else {
        None
    }
}

fn check_headers(
    content_length: Option<u64>,
    encoding: &Option<String>,
    limit: u64,
    label: &str,
    oversized: &str,
) -> (result: Result<(), String>)
    ensures
        told(
            result,
            headers_fault(content_length, optional_view(*encoding), limit, label@, oversized@),
        ),
{
    match content_length {
        Some(length) => {
            if length > limit {
                return tell(&concat(label, oversized));
            }
        },
        None => {},
    }
    match encoding {
        Some(text) => {
            if !same_text(&lower_case(text), "identity") {
                return tell(&concat(label, " must not use content encoding"));
            }
        },
        None => {},
    }
    Ok(())
}

/// Checks the headers of a download that may be of at most `limit` bytes. At most
/// one byte more than the limit is then to be read.
pub fn check_bounded_headers(
    content_length: Option<u64>,
    encoding: &Option<String>,
    limit: u64,
    label: &str,
) -> (result: Result<(), String>)
    ensures
        told(
            result,
            headers_fault(
                content_length,
                optional_view(*encoding),
                limit,
                label@,
                " exceeds the size limit"@,
            ),
        ),
{
    check_headers(content_length, encoding, limit, label, " exceeds the size limit")
}

/// Why an amount is refused that has a limit, if it is.
pub open spec fn over_fault(
    amount: int,
    limit: int,
    label: Seq<char>,
    what: Seq<char>,
) -> Option<Seq<char>> {
    if amount > limit {
        Some(label + what)
    } else {
        None
    }
}

/// Checks the body of a download that may be of at most `limit` bytes.
pub fn check_bounded_body(body: Vec<u8>, limit: u64, label: &str) -> (result: Result<
    Vec<u8>,
    String,
>)
    ensures
        told(
            result,
            over_fault(body@.len() as int, limit as int, label@, " exceeds the size limit"@),
        ),
        result is Ok ==> result->Ok_0 == body,
{
    if body.len() as u64 > limit {
        return tell(&concat(label, " exceeds the size limit"));
    }
    Ok(body)
}

/// Why a download is not what was declared, if it is not.
pub open spec fn short_fault(written: nat, expected: nat, label: Seq<char>) -> Option<Seq<char>> {
    if written != expected {
        Some(
            label + " is "@ + numeral(written, 10) + " bytes but the manifest declares "@ + numeral(
                expected,
                10,
            ),
        )
    } else {
        None
    }
}

/// A download of exactly as many bytes as the manifest declares.
#[derive(Debug)]
pub struct ExactDownload {
    expected: u64,
    written: u64,
}

impl ExactDownload {
    pub closed spec fn expected_spec(self) -> u64 {
        self.expected
    }

    /// How many bytes were accepted, never more than expected.
    pub closed spec fn written_spec(self) -> u64 {
        self.written
    }

    #[verifier::type_invariant]
    spec fn bounded(self) -> bool {
        self.written <= self.expected
    }

    /// Begins a download, unless it is to be larger than a hard limit.
    pub fn new(expected: u64, hard_limit: u64, label: &str) -> (result: Result<
        ExactDownload,
        String,
    >)
        ensures
            told(
                result,
                over_fault(
                    expected as int,
                    hard_limit as int,
                    label@,
                    " size exceeds the hard limit"@,
                ),
            ),
            result is Ok ==> result->Ok_0.expected_spec() == expected
                && result->Ok_0.written_spec() == 0,
    {
        if expected > hard_limit {
            return tell(&concat(label, " size exceeds the hard limit"));
        }
        Ok(ExactDownload { expected, written: 0 })
    }

    /// Checks the headers of the response.
    pub fn check_headers(
        &self,
        content_length: Option<u64>,
        encoding: &Option<String>,
        label: &str,
    ) -> (result: Result<(), String>)
        ensures
            told(
                result,
                headers_fault(
                    content_length,
                    optional_view(*encoding),
                    self.expected_spec(),
                    label@,
                    " is larger than the manifest size"@,
                ),
            ),
    {
        check_headers(
            content_length,
            encoding,
            self.expected,
            label,
            " is larger than the manifest size",
        )
    }

    /// Accepts so many further bytes, unless there are too many.
    pub fn accept(&mut self, count: u64, label: &str) -> (result: Result<(), String>)
        ensures
            told(
                result,
                over_fault(
                    old(self).written_spec() + count,
                    old(self).expected_spec() as int,
                    label@,
                    " exceeds the manifest size"@,
                ),
            ),
            final(self).expected_spec() == old(self).expected_spec(),
            final(self).written_spec() == if result is Ok {
                old(self).written_spec() + count
            } else {
                old(self).written_spec() as int
            },
    {
        proof {
            use_type_invariant(&*self);
        }
        if count > self.expected - self.written {
            return tell(&concat(label, " exceeds the manifest size"));
        }
        self.written = self.written + count;
        Ok(())
    }

    /// Ends a download, which must have all its bytes.
    pub fn finish(&self, label: &str) -> (result: Result<(), String>)
        ensures
            told(
                result,
                short_fault(self.written_spec() as nat, self.expected_spec() as nat, label@),
            ),
    {
        if self.written != self.expected {
            let mut message = concat(label, " is ");
            message.append(&decimal(self.written));
            message.append(" bytes but the manifest declares ");
            message.append(&decimal(self.expected));
            return tell(&message);
        }
        Ok(())
    }
}

/// Verifies the SHA-256 digest of an artifact.
pub fn verify_sha256(contents: &[u8], expected: &str) -> (result: Result<(), String>)
    ensures
        told(result, digest_fault(contents@, expected@)),
{
    let actual = hex_encode(&sha256(contents));
    if !same_text(&actual, expected) {
        let mut message = concat("artifact SHA-256 mismatch: expected ", expected);
        message.append(", got ");
        message.append(&actual);
        return tell(&message);
    }
    Ok(())
}

pub open spec fn digest_fault(contents: Seq<u8>, expected: Seq<char>) -> Option<Seq<char>> {
    let actual = hex_text(sha256_digest(contents));
    if actual != expected {
        Some("artifact SHA-256 mismatch: expected "@ + expected + ", got "@ + actual)
    } else {
        None
    }
}

pub open spec fn signature_fault(key: Seq<char>, data: Seq<u8>, signature: Seq<u8>) -> Option<
    Seq<char>,
> {
    match minisign_verdict(key, data, signature) {
        Ok(_) => None,
        Err(error) => Some(error.message_spec("client"@)),
    }
}

/// Verifies in-memory bytes against a Minisign signature file and a public key.
pub fn verify_minisign_bytes(key: &str, data: &[u8], signature: Vec<u8>) -> (result: Result<
    (),
    String,
>)
    ensures
        told(result, signature_fault(key@, data@, signature@)),
{
    match verify_minisign(key, data, signature) {
        Ok(()) => Ok(()),
        Err(error) => Err(error.message("client")),
    }
}

/// What is wrong with a valid manifest as an update that was approved, if
/// anything. Monotonicity uses semver precedence so build-metadata variants of the
/// same version cannot be relabeled as newer (or newer builds as older).
pub open spec fn approval_fault(
    manifest: ReleaseManifestV1,
    parameters: UpdateParameters,
    expected: VersionModel,
    installed: VersionModel,
    installed_version: Seq<char>,
) -> Option<Seq<char>> {
    if manifest.channel@ != parameters.channel@ {
        Some(
            "release feed channel "@ + manifest.channel@ + " does not match the approved channel "@
                + parameters.channel@,
        )
    } else if manifest.version@ != expected {
        Some(
            "release feed version "@ + version_text(manifest.version@)
                + " does not match the approved version "@ + parameters.expected_version@,
        )
    } else if !supersedes(manifest.version@, installed) {
        Some(
            "same-version byte replacement is forbidden; the installed version is "@
                + installed_version,
        )
    } else if manifest.protocol_major != PROTOCOL_MAJOR {
        Some("release feed protocol major is incompatible with this client"@)
    } else if !parameters.allow_prerelease && manifest.version.pre@.len() > 0 {
        Some("release feed returned a prerelease while prereleases are disabled"@)
    } else {
        None
    }
}

/// Checks a valid manifest as an update that was approved.
pub fn check_approval(
    manifest: &ReleaseManifestV1,
    parameters: &UpdateParameters,
    expected: &Version,
    installed: &Version,
    installed_version: &str,
) -> (result: Result<(), String>)
    ensures
        told(
            result,
            approval_fault(*manifest, *parameters, expected@, installed@, installed_version@),
        ),
{
    if !same_text(&manifest.channel, &parameters.channel) {
        let mut message = concat("release feed channel ", &manifest.channel);
        message.append(" does not match the approved channel ");
        message.append(&parameters.channel);
        return tell(&message);
    }
    if !manifest.version.same(expected) {
        let mut message = concat("release feed version ", &manifest.version.text());
        message.append(" does not match the approved version ");
        message.append(&parameters.expected_version);
        return tell(&message);
    }
    if !manifest.version.comes_after(installed) {
        return tell(
            &concat(
                "same-version byte replacement is forbidden; the installed version is ",
                installed_version,
            ),
        );
    }
    if manifest.protocol_major != PROTOCOL_MAJOR {
        return tell("release feed protocol major is incompatible with this client");
    }
    if !parameters.allow_prerelease && !manifest.version.pre.as_str().is_empty() {
        return tell("release feed returned a prerelease while prereleases are disabled");
    }
    Ok(())
}

/// An approved update is newer than what is installed, on the channel of this
/// build's approval, and speaks this build's protocol.
pub proof fn approved_update_is_newer(
    manifest: ReleaseManifestV1,
    parameters: UpdateParameters,
    expected: VersionModel,
    installed: VersionModel,
    installed_version: Seq<char>,
)
    requires
        approval_fault(manifest, parameters, expected, installed, installed_version) is None,
    ensures
        supersedes(manifest.version@, installed),
        manifest.version@ == expected,
        manifest.channel@ == parameters.channel@,
        manifest.protocol_major == PROTOCOL_MAJOR,
        !parameters.allow_prerelease ==> manifest.version.pre@.len() == 0,
{
}

/// What is wrong with the installed version, if anything.
pub open spec fn installed_fault(installed_version: Seq<char>) -> Option<Seq<char>> {
    match semver_reading(installed_version) {
        Ok(_) => None,
        Err(message) => Some(message),
    }
}

/// What is wrong with a downloaded manifest, if anything: its signature, its
/// document, its own rules, and then what was approved.
pub open spec fn manifest_refusal(
    key: Seq<char>,
    bytes: Seq<u8>,
    signature: Seq<u8>,
    decoded: Option<ReleaseManifestV1>,
    parameters: UpdateParameters,
    installed_version: Seq<char>,
) -> Option<Seq<char>> {
    let expected = semver_version(parameters.expected_version@);
    let installed = semver_version(installed_version);
    if expected is None {
        Some("expected_version is not a valid semantic version"@)
    } else if installed_fault(installed_version) is Some {
        installed_fault(installed_version)
    } else if signature_fault(key, bytes, signature) is Some {
        signature_fault(key, bytes, signature)
    } else if decoded is None {
        Some("decode release manifest"@)
    } else if manifest_fault(decoded->0) is Some {
        Some(manifest_fault(decoded->0)->0.message_spec())
    } else {
        approval_fault(decoded->0, parameters, expected->0, installed->0, installed_version)
    }
}

/// Validates a downloaded manifest against the approved update parameters and the
/// installed version. The manifest itself must carry a Minisign signature
/// (`<url>.minisig`) so a feed compromise cannot spoof channel/version fields;
/// artifact signatures remain the second gate. `decoded` is what the bytes read
/// as.
pub fn verify_manifest(
    key: &str,
    bytes: &[u8],
    signature: Vec<u8>,
    decoded: Option<ReleaseManifestV1>,
    parameters: &UpdateParameters,
    installed_version: &str,
) -> (result: Result<ReleaseManifestV1, String>)
    ensures
        told(
            result,
            manifest_refusal(
                key@,
                bytes@,
                signature@,
                decoded,
                *parameters,
                installed_version@,
            ),
        ),
        result is Ok ==> decoded == Some(result->Ok_0),
{
    let expected = match Version::parse(&parameters.expected_version) {
        Some(version) => version,
        None => return tell("expected_version is not a valid semantic version"),
    };
    let installed = match Version::read(installed_version) {
        Ok(version) => version,
        Err(message) => return Err(message),
    };
    match verify_minisign_bytes(key, bytes, signature) {
        Ok(()) => {},
        Err(error) => return Err(error),
    }
    let manifest = match decoded {
        Some(manifest) => manifest,
        None => return tell("decode release manifest"),
    };
    match manifest.validate() {
        Ok(()) => {},
        Err(error) => return tell(error.message()),
    }
    match check_approval(&manifest, parameters, &expected, &installed, installed_version) {
        Ok(()) => Ok(manifest),
        Err(error) => Err(error),
    }
}

/// The URL of the signature of a manifest.
pub fn signature_url(manifest_url: &str) -> (result: String)
    ensures
        result@ == manifest_url@ + ".minisig"@,
{
    concat(manifest_url, ".minisig")
}

pub open spec fn os_name_spec(os: OperatingSystem) -> Seq<char> {
    match os {
        OperatingSystem::Linux => "linux"@,
        OperatingSystem::Windows => "windows"@,
    }
}

pub fn os_name(os: OperatingSystem) -> (result: &'static str)
    ensures
        result@ == os_name_spec(os),
{
    match os {
        OperatingSystem::Linux => "linux",
        OperatingSystem::Windows => "windows",
    }
}

pub open spec fn arch_name_spec(arch: Architecture) -> Seq<char> {
    match arch {
        Architecture::X86_64 => "x86_64"@,
        Architecture::Aarch64 => "aarch64"@,
    }
}

pub fn arch_name(arch: Architecture) -> (result: &'static str)
    ensures
        result@ == arch_name_spec(arch),
{
    match arch {
        Architecture::X86_64 => "x86_64",
        Architecture::Aarch64 => "aarch64",
    }
}

/// The system that this build runs on.
pub open spec fn system_of(windows: bool) -> OperatingSystem {
    if windows {
        OperatingSystem::Windows
    } else {
        OperatingSystem::Linux
    }
}

/// The operating system of a build.
pub fn current_os(windows: bool) -> (result: OperatingSystem)
    ensures
        result == system_of(windows),
{
    if windows {
        OperatingSystem::Windows
    } else {
        OperatingSystem::Linux
    }
}

/// The architecture of this name.
pub open spec fn architecture_of(name: Seq<char>) -> Architecture {
    if name == "aarch64"@ {
        Architecture::Aarch64
    } else {
        Architecture::X86_64
    }
}

/// The architecture of a build, by the name that the compiler has for it.
pub fn current_architecture(name: &str) -> (result: Architecture)
    ensures
        result == architecture_of(name@),
{
    if same_text(name, "aarch64") {
        Architecture::Aarch64
    } else {
        Architecture::X86_64
    }
}

/// The package that installs the client on an operating system.
pub open spec fn client_package(os: OperatingSystem) -> PackageKind {
    match os {
        OperatingSystem::Linux => PackageKind::Deb,
        OperatingSystem::Windows => PackageKind::Zip,
    }
}

/// Whether an artifact is the client package of a platform.
pub open spec fn is_client_package(
    artifact: ReleaseArtifact,
    os: OperatingSystem,
    arch: Architecture,
) -> bool {
    &&& artifact.component == Component::Client
    &&& artifact.os == os
    &&& artifact.architecture == arch
    &&& artifact.package == client_package(os)
}

/// Selects the client package for a platform from the manifest: the first one.
pub fn select_artifact(manifest: &ReleaseManifestV1, os: OperatingSystem, arch: Architecture) -> (
    result: Result<usize, String>)
    ensures
        match result {
            Ok(index) => {
                &&& index < manifest.artifacts@.len()
                &&& is_client_package(manifest.artifacts@[index as int], os, arch)
                &&& forall|i: int|
                    0 <= i < index ==> !is_client_package(
                        #[trigger] manifest.artifacts@[i],
                        os,
                        arch,
                    )
            },
            Err(text) => {
                &&& forall|i: int|
                    0 <= i < manifest.artifacts@.len() ==> !is_client_package(
                        #[trigger] manifest.artifacts@[i],
                        os,
                        arch,
                    )
                &&& text@ == "release manifest has no client package for "@ + os_name_spec(os)
                    + " "@ + arch_name_spec(arch)
            },
        },
{
    let package = match os {
        OperatingSystem::Linux => PackageKind::Deb,
        OperatingSystem::Windows => PackageKind::Zip,
    };
    let mut i: usize = 0;
    while i < manifest.artifacts.len()
        invariant
            i <= manifest.artifacts.len(),
            package == client_package(os),
            forall|j: int|
                0 <= j < i ==> !is_client_package(#[trigger] manifest.artifacts@[j], os, arch),
        decreases manifest.artifacts.len() - i,
    {
        let artifact = &manifest.artifacts[i];
        if artifact.component == Component::Client && artifact.os == os && artifact.architecture
            == arch && artifact.package == package {
            return Ok(i);
        }
        i += 1;
    }
    let mut message = concat("release manifest has no client package for ", os_name(os));
    message.append(" ");
    message.append(arch_name(arch));
    Err(message)
}

/// What is wrong with a downloaded artifact, if anything: its digest, and then
/// its signature, which it must have. `signature` is what was downloaded from
/// the signature's URL, where the artifact has one.
pub open spec fn artifact_refusal(
    key: Seq<char>,
    artifact: ReleaseArtifact,
    contents: Seq<u8>,
    signature: Option<Seq<u8>>,
) -> Option<Seq<char>> {
    if digest_fault(contents, artifact.sha256@) is Some {
        digest_fault(contents, artifact.sha256@)
    } else if artifact.signature_url is None || signature is None {
        Some("release artifact has no Minisign signature"@)
    } else {
        signature_fault(key, contents, signature->0)
    }
}

/// Verifies a downloaded artifact.
pub fn verify_artifact(
    key: &str,
    artifact: &ReleaseArtifact,
    contents: &[u8],
    signature: Option<Vec<u8>>,
) -> (result: Result<(), String>)
    ensures
        told(
            result,
            artifact_refusal(
                key@,
                *artifact,
                contents@,
                match signature {
                    Some(bytes) => Some(bytes@),
                    None => None,
                },
            ),
        ),
{
    match verify_sha256(contents, &artifact.sha256) {
        Ok(()) => {},
        Err(error) => return Err(error),
    }
    if artifact.signature_url.is_none() {
        return tell("release artifact has no Minisign signature");
    }
    match signature {
        Some(bytes) => verify_minisign_bytes(key, contents, bytes),
        None => tell("release artifact has no Minisign signature"),
    }
}

/// How a package is installed.
#[derive(Debug)]
pub enum Installation {
    /// A program and its arguments.
    Command(Vec<String>),
    /// The installer script in a ZIP.
    WindowsZip,
}

/// What is wrong with installing a package on a platform, if anything.
pub open spec fn installation_fault(package: PackageKind, windows: bool) -> Option<Seq<char>> {
    match package {
        PackageKind::Deb => if windows {
            Some("deb packages are only installable on Linux"@)
        } else {
            None
        },
        PackageKind::Zip => if windows {
            None
        } else {
            Some("zip packages are only installable on Windows"@)
        },
        _ => Some("unsupported client package kind"@),
    }
}

/// The command that installs a package on Linux.
pub open spec fn package_command(artifact_path: Seq<char>) -> Seq<Seq<char>> {
    seq!["/usr/bin/dpkg"@, "-i"@, artifact_path]
}

/// Tells how a package is installed.
pub fn install_artifact(artifact_path: &str, package: PackageKind, windows: bool) -> (result: Result<
    Installation,
    String,
>)
    ensures
        told(result, installation_fault(package, windows)),
        result is Ok ==> match result->Ok_0 {
            Installation::Command(words) => package == PackageKind::Deb && views(words@)
                == package_command(artifact_path@),
            Installation::WindowsZip => package == PackageKind::Zip,
        },
{
    match package {
        PackageKind::Deb => {
            if windows {
                return tell("deb packages are only installable on Linux");
            }
            let mut words: Vec<String> = Vec::new();
            words.push("/usr/bin/dpkg".to_owned());
            words.push("-i".to_owned());
            words.push(artifact_path.to_owned());
            assert(views(words@) =~= seq!["/usr/bin/dpkg"@, "-i"@, artifact_path@]);
            Ok(Installation::Command(words))
        },
        PackageKind::Zip => {
            if !windows {
                return tell("zip packages are only installable on Windows");
            }
            Ok(Installation::WindowsZip)
        },
        _ => tell("unsupported client package kind"),
    }
}

/// What an installer said that did not install, if it did not.
pub open spec fn rejection(zip: bool, success: bool, output: Seq<char>) -> Option<Seq<char>> {
    if success {
        None
    } else if zip {
        Some("the CentralD installer failed: "@ + output)
    } else {
        Some("dpkg rejected the package: "@ + output)
    }
}

/// Judges what an installer did, by its output as text.
pub fn installation_outcome(zip: bool, success: bool, output: &str) -> (result: Result<(), String>)
    ensures
        told(
            result,
            rejection(zip, success, output@),
        ),
{
    if success {
        return Ok(());
    }
    if zip {
        tell(&concat("the CentralD installer failed: ", output))
    } else {
        tell(&concat("dpkg rejected the package: ", output))
    }
}

/// What is said of an installed update.
pub open spec fn summary_spec(manifest: ReleaseManifestV1, artifact: ReleaseArtifact) -> Seq<char> {
    "installed CentralD "@ + version_text(manifest.version@) + " ("@ + manifest.channel@ + ") on "@
        + os_name_spec(artifact.os) + "/"@ + arch_name_spec(artifact.architecture) + "\nartifact: "@
        + artifact.filename@ + "\nsha256: "@ + artifact.sha256@
}

/// Says what was installed.
pub fn update_summary(manifest: &ReleaseManifestV1, artifact: &ReleaseArtifact) -> (result: Vec<u8>)
    ensures
        result@ == encode_utf8(summary_spec(*manifest, *artifact)),
{
    let mut text = concat("installed CentralD ", &manifest.version.text());
    text.append(" (");
    text.append(&manifest.channel);
    text.append(") on ");
    text.append(os_name(artifact.os));
    text.append("/");
    text.append(arch_name(artifact.architecture));
    text.append("\nartifact: ");
    text.append(&artifact.filename);
    text.append("\nsha256: ");
    text.append(&artifact.sha256);
    text.as_str().as_bytes_vec()
}

/// Where an update is staged below the broker's state directory: whether the
/// directory is to be created, by what stands there.
pub fn staging_directory(kind: crate::common::secure_fs::EntryKind) -> (result: Result<bool, String>)
    ensures
        match result {
            Ok(create) => if create {
                kind is Missing
            } else {
                kind is Directory
            },
            Err(text) => !(kind is Missing) && !(kind is Directory) && text@
                == "update staging path is not a real directory"@,
        },
{
    match kind {
        crate::common::secure_fs::EntryKind::Missing => Ok(true),
        crate::common::secure_fs::EntryKind::Directory => Ok(false),
        _ => tell("update staging path is not a real directory"),
    }
}

/// What the update of a client asks for next, or how it ended.
#[derive(Debug)]
pub enum UpdateRequest {
    /// A download of at most so many bytes.
    Fetch { url: String, limit: u64, timeout_seconds: u64, label: &'static str },
    /// A download of exactly so many bytes, which is staged under a name.
    Stage { url: String, size: u64, filename: String },
    /// The installation of what was staged under a name.
    Install { filename: String, package: PackageKind },
    /// The end: the staging directory is removed, and this is the result.
    Done(Result<Vec<u8>, String>),
}

/// How far the update of a client is.
#[derive(Debug)]
pub enum UpdateStage {
    Manifest,
    ManifestSignature { bytes: Vec<u8> },
    Artifact { manifest: ReleaseManifestV1, index: usize },
    Signature { manifest: ReleaseManifestV1, index: usize, contents: Vec<u8> },
    Installing { manifest: ReleaseManifestV1, index: usize },
    Ended,
}

/// What came of a request: bytes, what the manifest's bytes read as where they
/// were asked for, the end of an installation, or a failure.
#[derive(Debug)]
pub enum UpdateEvent {
    Fetched { bytes: Vec<u8>, decoded: Option<ReleaseManifestV1> },
    Installed,
    Failed(String),
}

/// The update of a client by a job that was approved.
#[derive(Debug)]
pub struct ClientUpdate {
    pub parameters: UpdateParameters,
    pub installed_version: String,
    pub key: String,
    pub os: OperatingSystem,
    pub arch: Architecture,
    pub stage: UpdateStage,
}

impl UpdateStage {
    /// Whether a stage names an artifact that its manifest has.
    pub open spec fn wf(self) -> bool {
        match self {
            UpdateStage::Artifact { manifest, index } => index < manifest.artifacts@.len(),
            UpdateStage::Signature { manifest, index, .. } => index < manifest.artifacts@.len(),
            UpdateStage::Installing { manifest, index } => index < manifest.artifacts@.len(),
            _ => true,
        }
    }
}

pub open spec fn ends_in(request: UpdateRequest, text: Seq<char>) -> bool {
    request matches UpdateRequest::Done(Err(error)) && error@ == text
}

pub open spec fn fetches(
    request: UpdateRequest,
    wanted: Seq<char>,
    bound: u64,
    seconds: u64,
    what: Seq<char>,
) -> bool {
    request matches UpdateRequest::Fetch { url, limit, timeout_seconds, label } && url@ == wanted
        && limit == bound && timeout_seconds == seconds && label@ == what
}

impl ClientUpdate {
    /// Begins the update that decoded parameters ask for: with the manifest.
    pub fn begin(
        parameters: Option<UpdateParameters>,
        installed_version: String,
        key: String,
        os: OperatingSystem,
        arch: Architecture,
    ) -> (result: Result<(ClientUpdate, UpdateRequest), String>)
        ensures
            match parameters {
                None => told(result, Some("decode update parameters"@)),
                Some(given) => {
                    &&& told(
                        result,
                        match given.fault() {
                            Some(text) => Some(text),
                            None => installed_fault(installed_version@),
                        },
                    )
                    &&& result is Ok ==> {
                        let (update, request) = result->Ok_0;
                        &&& update == (ClientUpdate {
                            parameters: given,
                            installed_version,
                            key,
                            os,
                            arch,
                            stage: UpdateStage::Manifest,
                        })
                        &&& fetches(
                            request,
                            given.manifest_url@,
                            MAX_MANIFEST_BYTES,
                            MANIFEST_TIMEOUT_SECONDS,
                            "release manifest"@,
                        )
                    }
                },
            },
    {
        let parameters = match parameters {
            Some(parameters) => parameters,
            None => return tell("decode update parameters"),
        };
        match parameters.validate() {
            Ok(()) => {},
            Err(error) => return Err(error),
        }
        match Version::read(&installed_version) {
            Ok(_) => {},
            Err(error) => return Err(error),
        }
        let request = UpdateRequest::Fetch {
            url: parameters.manifest_url.clone(),
            limit: MAX_MANIFEST_BYTES,
            timeout_seconds: MANIFEST_TIMEOUT_SECONDS,
            label: "release manifest",
        };
        Ok(
            (
                ClientUpdate {
                    parameters,
                    installed_version,
                    key,
                    os,
                    arch,
                    stage: UpdateStage::Manifest,
                },
                request,
            ),
        )
    }

    /// Whether a step from one update to another, on an event, asks for the right
    /// thing next.
    pub open spec fn steps(
        before: ClientUpdate,
        event: UpdateEvent,
        after: ClientUpdate,
        request: UpdateRequest,
    ) -> bool {
        &&& after.parameters == before.parameters
        &&& after.installed_version == before.installed_version
        &&& after.key == before.key
        &&& after.os == before.os
        &&& after.arch == before.arch
        &&& match event {
            UpdateEvent::Failed(text) => after.stage is Ended && ends_in(request, text@),
            UpdateEvent::Installed => match before.stage {
                UpdateStage::Installing { manifest, index } => {
                    &&& after.stage is Ended
                    &&& request matches UpdateRequest::Done(Ok(summary))
                    &&& summary@ == encode_utf8(
                        summary_spec(manifest, manifest.artifacts@[index as int]),
                    )
                },
                _ => after.stage is Ended && ends_in(request, "update event is out of order"@),
            },
            UpdateEvent::Fetched { bytes: got, decoded } => match before.stage {
                UpdateStage::Manifest => {
                    &&& after.stage matches UpdateStage::ManifestSignature { bytes }
                    &&& bytes == got
                    &&& fetches(
                        request,
                        before.parameters.manifest_url@ + ".minisig"@,
                        MAX_SIGNATURE_BYTES,
                        MANIFEST_TIMEOUT_SECONDS,
                        "release manifest signature"@,
                    )
                },
                UpdateStage::ManifestSignature { bytes } => before.chooses(
                    bytes@,
                    got@,
                    decoded,
                    after.stage,
                    request,
                ),
                UpdateStage::Artifact { manifest, index } => {
                    let artifact = manifest.artifacts@[index as int];
                    match artifact.signature_url {
                        Some(url) => {
                            &&& after.stage == (UpdateStage::Signature {
                                manifest,
                                index,
                                contents: got,
                            })
                            &&& fetches(
                                request,
                                url@,
                                MAX_SIGNATURE_BYTES,
                                ARTIFACT_TIMEOUT_SECONDS,
                                "release signature"@,
                            )
                        },
                        None => after.stage is Ended && ends_in(
                            request,
                            artifact_refusal(before.key@, artifact, got@, None)->0,
                        ),
                    }
                },
                UpdateStage::Signature { manifest, index, contents } => {
                    let artifact = manifest.artifacts@[index as int];
                    match artifact_refusal(before.key@, artifact, contents@, Some(got@)) {
                        Some(text) => after.stage is Ended && ends_in(request, text),
                        None => {
                            &&& after.stage == (UpdateStage::Installing { manifest, index })
                            &&& request matches UpdateRequest::Install { filename, package }
                            &&& filename@ == artifact.filename@
                            &&& package == artifact.package
                        },
                    }
                },
                _ => after.stage is Ended && ends_in(request, "update event is out of order"@),
            },
        }
    }

    /// Whether a signed manifest led to the right artifact, or to a refusal.
    pub open spec fn chooses(
        self,
        bytes: Seq<u8>,
        signature: Seq<u8>,
        decoded: Option<ReleaseManifestV1>,
        stage: UpdateStage,
        request: UpdateRequest,
    ) -> bool {
        match manifest_refusal(
            self.key@,
            bytes,
            signature,
            decoded,
            self.parameters,
            self.installed_version@,
        ) {
            Some(text) => stage is Ended && ends_in(request, text),
            None => match stage {
                UpdateStage::Artifact { manifest, index } => {
                    let artifact = manifest.artifacts@[index as int];
                    &&& decoded == Some(manifest)
                    &&& index < manifest.artifacts@.len()
                    &&& is_client_package(artifact, self.os, self.arch)
                    &&& forall|i: int|
                        0 <= i < index ==> !is_client_package(
                            #[trigger] manifest.artifacts@[i],
                            self.os,
                            self.arch,
                        )
                    &&& request matches UpdateRequest::Stage { url, size, filename }
                    &&& url@ == artifact.url@
                    &&& size == artifact.size
                    &&& filename@ == artifact.filename@
                },
                _ => {
                    &&& stage is Ended
                    &&& forall|i: int|
                        0 <= i < decoded->0.artifacts@.len() ==> !is_client_package(
                            #[trigger] decoded->0.artifacts@[i],
                            self.os,
                            self.arch,
                        )
                    &&& ends_in(
                        request,
                        "release manifest has no client package for "@ + os_name_spec(self.os)
                            + " "@ + arch_name_spec(self.arch),
                    )
                },
            },
        }
    }

    fn choose_artifact(&mut self, bytes: Vec<u8>, signature: Vec<u8>, decoded: Option<
        ReleaseManifestV1,
    >) -> (request: UpdateRequest)
        requires
            old(self).stage is Ended,
        ensures
            old(self).chooses(bytes@, signature@, decoded, final(self).stage, request),
            final(self).parameters == old(self).parameters,
            final(self).installed_version == old(self).installed_version,
            final(self).key == old(self).key,
            final(self).os == old(self).os,
            final(self).arch == old(self).arch,
            final(self).stage.wf(),
    {
        let manifest = match verify_manifest(
            &self.key,
            &bytes,
            signature,
            decoded,
            &self.parameters,
            &self.installed_version,
        ) {
            Ok(manifest) => manifest,
            Err(error) => return UpdateRequest::Done(Err(error)),
        };
        match select_artifact(&manifest, self.os, self.arch) {
            Ok(index) => {
                let request = UpdateRequest::Stage {
                    url: manifest.artifacts[index].url.clone(),
                    size: manifest.artifacts[index].size,
                    filename: manifest.artifacts[index].filename.clone(),
                };
                self.stage = UpdateStage::Artifact { manifest, index };
                request
            },
            Err(error) => UpdateRequest::Done(Err(error)),
        }
    }

    /// Takes the next step of the operator-approved client update. It ends at the
    /// first failed integrity or installation step, or with a bounded text
    /// summary.
    pub fn step(&mut self, event: UpdateEvent) -> (request: UpdateRequest)
        requires
            old(self).stage.wf(),
        ensures
            ClientUpdate::steps(*old(self), event, *final(self), request),
            final(self).stage.wf(),
    {
        let mut stage = UpdateStage::Ended;
        core::mem::swap(&mut self.stage, &mut stage);
        match event {
            UpdateEvent::Failed(text) => UpdateRequest::Done(Err(text)),
            UpdateEvent::Installed => match stage {
                UpdateStage::Installing { manifest, index } => UpdateRequest::Done(
                    Ok(update_summary(&manifest, &manifest.artifacts[index])),
                ),
                _ => UpdateRequest::Done(tell("update event is out of order")),
            },
            UpdateEvent::Fetched { bytes: got, decoded } => match stage {
                UpdateStage::Manifest => {
                    self.stage = UpdateStage::ManifestSignature { bytes: got };
                    UpdateRequest::Fetch {
                        url: signature_url(&self.parameters.manifest_url),
                        limit: MAX_SIGNATURE_BYTES,
                        timeout_seconds: MANIFEST_TIMEOUT_SECONDS,
                        label: "release manifest signature",
                    }
                },
                UpdateStage::ManifestSignature { bytes } => self.choose_artifact(
                    bytes,
                    got,
                    decoded,
                ),
                UpdateStage::Artifact { manifest, index } => {
                    match &manifest.artifacts[index].signature_url {
                        Some(url) => {
                            let request = UpdateRequest::Fetch {
                                url: url.clone(),
                                limit: MAX_SIGNATURE_BYTES,
                                timeout_seconds: ARTIFACT_TIMEOUT_SECONDS,
                                label: "release signature",
                            };
                            self.stage = UpdateStage::Signature { manifest, index, contents: got };
                            request
                        },
                        None => {
                            let refused = verify_artifact(
                                &self.key,
                                &manifest.artifacts[index],
                                &got,
                                None,
                            );
                            match refused {
                                Err(error) => UpdateRequest::Done(Err(error)),
                                Ok(()) => UpdateRequest::Done(
                                    tell("release artifact has no Minisign signature"),
                                ),
                            }
                        },
                    }
                },
                UpdateStage::Signature { manifest, index, contents } => {
                    match verify_artifact(
                        &self.key,
                        &manifest.artifacts[index],
                        &contents,
                        Some(got),
                    ) {
                        Err(error) => UpdateRequest::Done(Err(error)),
                        Ok(()) => {
                            let request = UpdateRequest::Install {
                                filename: manifest.artifacts[index].filename.clone(),
                                package: manifest.artifacts[index].package,
                            };
                            self.stage = UpdateStage::Installing { manifest, index };
                            request
                        },
                    }
                },
                _ => UpdateRequest::Done(tell("update event is out of order")),
            },
        }
    }
}

/// An installation is only asked for once the artifact's digest is the one in the
/// manifest, and its signature is accepted by the key.
pub proof fn only_verified_artifacts_are_installed(
    before: ClientUpdate,
    event: UpdateEvent,
    after: ClientUpdate,
    request: UpdateRequest,
)
    requires
        ClientUpdate::steps(before, event, after, request),
        request is Install,
    ensures
        ({
            let stage = before.stage;
            &&& stage is Signature
            &&& event is Fetched
            &&& hex_text(sha256_digest(stage->contents@))
                == stage->Signature_manifest.artifacts@[stage->Signature_index as int].sha256@
            &&& minisign_verdict(
                before.key@,
                stage->contents@,
                event->Fetched_bytes@,
            ) is Ok
        }),
{
}

/// A name with slashes for its backslashes.
pub open spec fn slashed(name: Seq<char>) -> Seq<char> {
    name.map_values(
        |c: char|
            if c == '\\' {
                '/'
            } else {
                c
            },
    )
}

/// The parts of a name between slashes or backslashes.
pub open spec fn entry_parts(name: Seq<char>) -> Seq<Seq<char>> {
    split(slashed(name), '/')
}

/// What stands before the first dot of a name, in lower case.
pub open spec fn stem(name: Seq<char>) -> Seq<char> {
    split(name, '.')[0].map_values(|c: char| lower_ascii(c))
}

/// Windows reserves these device names even with an extension; a file named
/// `CON` or `CON.txt` cannot be created normally and would resolve to a device.
pub open spec fn device_name(name: Seq<char>) -> bool {
    let s = stem(name);
    ||| s == "con"@ || s == "prn"@ || s == "aux"@ || s == "nul"@
    ||| s.len() == 4 && (s.take(3) == "com"@ || s.take(3) == "lpt"@) && '1' <= s[3] <= '9'
}

/// A name that an entry of a client ZIP may have: a relative path that never
/// climbs.
pub open spec fn simple_entry_name(name: Seq<char>) -> bool {
    &&& name.len() > 0
    &&& encode_utf8(name).len() <= 255
    &&& name[0] != '/' && name[0] != '\\'
    &&& !name.contains('\0')
    &&& !name.contains(':')
    &&& name.last() != '.'
    &&& name.last() != ' '
    &&& forall|i: int|
        0 <= i < entry_parts(name).len() ==> {
            let part = #[trigger] entry_parts(name)[i];
            part.len() > 0 && part != "."@ && part != ".."@
        }
    &&& !device_name(name)
}

fn with_slashes(name: &str) -> (result: String)
    ensures
        result@ == slashed(name@),
{
    let all = characters(name);
    let mut mapped: Vec<char> = Vec::new();
    let mut i: usize = 0;
    while i < all.len()
        invariant
            i <= all.len(),
            all@ == name@,
            mapped@ == slashed(name@).take(i as int),
        decreases all.len() - i,
    {
        if all[i] == '\\' {
            mapped.push('/');
        } else {
            mapped.push(all[i]);
        }
        assert(mapped@ =~= slashed(name@).take(i + 1));
        i += 1;
    }
    assert(mapped@ =~= slashed(name@));
    text_of(&mapped)
}

/// Whether a name is that of a Windows device.
pub fn is_windows_device_name(name: &str) -> (result: bool)
    ensures
        result == device_name(name@),
{
    let parts = fields(name, '.');
    proof {
        crate::text::split_then_join(name@, '.');
        assert(split(name@, '.')[0] == parts@[0]@);
    }
    let stem_text = lower_case(&parts[0]);
    let ghost s = stem(name@);
    assert(stem_text@ =~= s);
    if same_text(&stem_text, "con") || same_text(&stem_text, "prn") || same_text(&stem_text, "aux")
        || same_text(&stem_text, "nul") {
        return true;
    }
    let all = characters(&stem_text);
    proof {
        reveal_strlit("com");
        reveal_strlit("lpt");
    }
    if all.len() != 4 {
        return false;
    }
    let com = starts_with(&stem_text, "com");
    let lpt = starts_with(&stem_text, "lpt");
    assert(com == (s.take(3) == "com"@)) by {
        if com {
            assert(s.take(3) =~= "com"@);
        } else if s.take(3) == "com"@ {
            assert("com"@.is_prefix_of(s));
        }
    }
    assert(lpt == (s.take(3) == "lpt"@)) by {
        if lpt {
            assert(s.take(3) =~= "lpt"@);
        } else if s.take(3) == "lpt"@ {
            assert("lpt"@.is_prefix_of(s));
        }
    }
    (com || lpt) && '1' <= all[3] && all[3] <= '9'
}

/// Whether an entry of a client ZIP may have a name.
pub fn is_simple_entry_name(name: &str) -> (result: bool)
    ensures
        result == simple_entry_name(name@),
{
    let all = characters(name);
    if all.len() == 0 || byte_length(name) > 255 {
        return false;
    }
    let last = all[all.len() - 1];
    if all[0] == '/' || all[0] == '\\' || last == '.' || last == ' ' {
        return false;
    }
    if has_character(name, '\0') || has_character(name, ':') {
        return false;
    }
    let parts = fields(&with_slashes(name), '/');
    let ghost texts = entry_parts(name@);
    let mut i: usize = 0;
    while i < parts.len()
        invariant
            i <= parts.len(),
            texts == views(parts@),
            texts == entry_parts(name@),
            forall|j: int|
                0 <= j < i ==> {
                    let part = #[trigger] texts[j];
                    part.len() > 0 && part != "."@ && part != ".."@
                },
        decreases parts.len() - i,
    {
        assert(texts[i as int] == parts@[i as int]@);
        if parts[i].as_str().is_empty() || same_text(&parts[i], ".") || same_text(&parts[i], "..") {
            assert(!simple_entry_name(name@)) by {
                let part = entry_parts(name@)[i as int];
            }
            return false;
        }
        i += 1;
    }
    !is_windows_device_name(name)
}

/// What is to be done with an entry of a client ZIP.
#[derive(Debug)]
pub enum ZipEntryAction {
    CreateDirectory(String),
    Extract(String),
}

/// The extraction of a client ZIP.
#[derive(Debug)]
pub struct ZipExtraction {
    extracted: u64,
}

/// The name of an entry, without the slash that a directory's ends in.
pub open spec fn entry_name(name: Seq<char>) -> Seq<char> {
    match before_suffix(name, "/"@) {
        Some(front) => front,
        None => name,
    }
}

/// What is wrong with an entry of a client ZIP, if anything, so many nanoseconds
/// after the extraction began.
pub open spec fn entry_fault(name: Seq<char>, directory: bool, size: u64, elapsed: u128) -> Option<
    Seq<char>,
> {
    let inner = entry_name(name);
    if elapsed > EXTRACTION_TIMEOUT_NANOS {
        Some("the client ZIP extraction exceeded the time bound"@)
    } else if !simple_entry_name(inner) {
        Some("ZIP entry name is unsafe: "@ + inner)
    } else if !directory && size > MAX_ZIP_ENTRY_BYTES {
        Some("ZIP entry "@ + inner + " exceeds the per-entry limit"@)
    } else {
        None
    }
}

/// Why an archive with this many entries is not extracted, if it is not.
pub open spec fn entries_fault(entries: int) -> Option<Seq<char>> {
    if entries > MAX_ZIP_ENTRIES {
        Some("the client ZIP contains more than 512 entries"@)
    } else {
        None
    }
}

/// Why an archive that has grown to this many bytes is not extracted further, if it is not.
pub open spec fn expansion_fault(extracted: int) -> Option<Seq<char>> {
    if extracted > MAX_ARTIFACT_BYTES {
        Some("the client ZIP expands beyond the hard limit"@)
    } else {
        None
    }
}

/// Why what was extracted is not installed, if it is not.
pub open spec fn installer_fault(present: bool, powershell: bool) -> Option<Seq<char>> {
    if !present {
        Some("the client ZIP does not contain install-client.ps1"@)
    } else if !powershell {
        Some("Windows did not return its trusted system directory"@)
    } else {
        None
    }
}

impl ZipExtraction {
    /// How many bytes were extracted, never more than an artifact may have.
    pub closed spec fn extracted_spec(self) -> u64 {
        self.extracted
    }

    #[verifier::type_invariant]
    spec fn bounded(self) -> bool {
        self.extracted <= MAX_ARTIFACT_BYTES
    }

    /// Begins the extraction of a ZIP with so many entries.
    pub fn new(entries: usize) -> (result: Result<ZipExtraction, String>)
        ensures
            told(
                result,
                entries_fault(entries as int),
            ),
            result is Ok ==> result->Ok_0.extracted_spec() == 0,
    {
        if entries > MAX_ZIP_ENTRIES {
            return tell("the client ZIP contains more than 512 entries");
        }
        Ok(ZipExtraction { extracted: 0 })
    }

    /// Tells what is to be done with an entry, so many nanoseconds after the
    /// extraction began.
    pub fn entry(&self, name: &str, directory: bool, size: u64, elapsed: u128) -> (result: Result<
        ZipEntryAction,
        String,
    >)
        ensures
            told(result, entry_fault(name@, directory, size, elapsed)),
            result is Ok ==> match result->Ok_0 {
                ZipEntryAction::CreateDirectory(inner) => directory && inner@ == entry_name(name@),
                ZipEntryAction::Extract(inner) => !directory && inner@ == entry_name(name@),
            },
    {
        if elapsed > EXTRACTION_TIMEOUT_NANOS {
            return tell("the client ZIP extraction exceeded the time bound");
        }
        let inner = match strip_suffix(name, "/") {
            Some(front) => front,
            None => name.to_owned(),
        };
        if !is_simple_entry_name(&inner) {
            return tell(&concat("ZIP entry name is unsafe: ", &inner));
        }
        if directory {
            return Ok(ZipEntryAction::CreateDirectory(inner));
        }
        if size > MAX_ZIP_ENTRY_BYTES {
            let mut message = concat("ZIP entry ", &inner);
            message.append(" exceeds the per-entry limit");
            return tell(&message);
        }
        Ok(ZipEntryAction::Extract(inner))
    }

    /// Accepts so many further bytes, unless the ZIP expands too far.
    pub fn accept(&mut self, count: u64) -> (result: Result<(), String>)
        ensures
            told(
                result,
                expansion_fault(old(self).extracted_spec() + count),
            ),
            final(self).extracted_spec() == if result is Ok {
                old(self).extracted_spec() + count
            } else {
                old(self).extracted_spec() as int
            },
    {
        proof {
            use_type_invariant(&*self);
        }
        if count > MAX_ARTIFACT_BYTES - self.extracted {
            return tell("the client ZIP expands beyond the hard limit");
        }
        self.extracted = self.extracted + count;
        Ok(())
    }

    /// Ends an extraction: with the command that runs the installer script, if
    /// the ZIP has one.
    pub fn finish(&self, installer: &str, present: bool, powershell: Option<String>) -> (result:
        Result<Vec<String>, String>)
        ensures
            told(
                result,
                installer_fault(present, powershell is Some),
            ),
            result is Ok ==> views(result->Ok_0@) == seq![
                powershell->0@,
                "-NoLogo"@,
                "-NoProfile"@,
                "-NonInteractive"@,
                "-ExecutionPolicy"@,
                "Bypass"@,
                "-File"@,
                installer@,
                "-StartAfterInstall"@,
            ],
    {
        if !present {
            return tell("the client ZIP does not contain install-client.ps1");
        }
        let program = match powershell {
            Some(program) => program,
            None => return tell("Windows did not return its trusted system directory"),
        };
        let mut words: Vec<String> = Vec::new();
        words.push(program);
        words.push("-NoLogo".to_owned());
        words.push("-NoProfile".to_owned());
        words.push("-NonInteractive".to_owned());
        words.push("-ExecutionPolicy".to_owned());
        words.push("Bypass".to_owned());
        words.push("-File".to_owned());
        words.push(installer.to_owned());
        words.push("-StartAfterInstall".to_owned());
        assert(views(words@) =~= seq![
            powershell->0@,
            "-NoLogo"@,
            "-NoProfile"@,
            "-NonInteractive"@,
            "-ExecutionPolicy"@,
            "Bypass"@,
            "-File"@,
            installer@,
            "-StartAfterInstall"@,
        ]);
        Ok(words)
    }
}

/// Parameters are accepted exactly if they name a plain HTTPS address, the channel that this build
/// follows and a version.
pub proof fn accepted_parameters_name_a_release(
    parts: Option<UrlModel>,
    channel: Seq<char>,
    version: Option<VersionModel>,
)
    ensures
        parameters_fault(parts, channel, version) is None <==> {
            &&& parts is Some
            &&& plain_https(parts->0)
            &&& supported_channel(channel)
            &&& channel == RELEASE_CHANNEL@
            &&& version is Some
        },
{
}

/// A release is approved exactly if it is the approved version on the approved channel, is newer
/// than what is installed, speaks this protocol, and is a prerelease only where those are allowed.
pub proof fn releases_are_approved(
    manifest: ReleaseManifestV1,
    parameters: UpdateParameters,
    expected: VersionModel,
    installed: VersionModel,
    installed_version: Seq<char>,
)
    ensures
        approval_fault(manifest, parameters, expected, installed, installed_version) is None <==> {
            &&& manifest.channel@ == parameters.channel@
            &&& manifest.version@ == expected
            &&& supersedes(manifest.version@, installed)
            &&& manifest.protocol_major == 1
            &&& parameters.allow_prerelease || manifest.version.pre@.len() == 0
        },
{
}

/// A manifest is followed exactly if its bytes carry a signature that the key accepts and what
/// they hold is a sound manifest of an approved release.
pub proof fn signed_manifests_are_followed(
    key: Seq<char>,
    bytes: Seq<u8>,
    signature: Seq<u8>,
    decoded: Option<ReleaseManifestV1>,
    parameters: UpdateParameters,
    installed_version: Seq<char>,
)
    ensures
        manifest_refusal(key, bytes, signature, decoded, parameters, installed_version) is None
            <==> {
            &&& semver_version(parameters.expected_version@) is Some
            &&& semver_reading(installed_version) is Ok
            &&& minisign_verdict(key, bytes, signature) is Ok
            &&& decoded is Some
            &&& manifest_fault(decoded->0) is None
            &&& approval_fault(
                decoded->0,
                parameters,
                semver_version(parameters.expected_version@)->0,
                semver_version(installed_version)->0,
                installed_version,
            ) is None
        },
{
}

/// An artifact is accepted exactly if it hashes to what the manifest declares and carries a
/// signature that the key accepts.
pub proof fn sound_artifacts_are_accepted(
    key: Seq<char>,
    artifact: ReleaseArtifact,
    contents: Seq<u8>,
    signature: Option<Seq<u8>>,
)
    ensures
        artifact_refusal(key, artifact, contents, signature) is None <==> {
            &&& hex_text(sha256_digest(contents)) == artifact.sha256@
            &&& artifact.signature_url is Some
            &&& signature is Some
            &&& minisign_verdict(key, contents, signature->0) is Ok
        },
{
}

/// A package for a system's clients can be installed there, and on the other system it cannot.
pub proof fn client_packages_are_installable(package: PackageKind, windows: bool)
    ensures
        installation_fault(package, windows) is None <==> {
            ||| package == PackageKind::Deb && !windows
            ||| package == PackageKind::Zip && windows
        },
        installation_fault(client_package(OperatingSystem::Linux), false) is None,
        installation_fault(client_package(OperatingSystem::Windows), true) is None,
        client_package(OperatingSystem::Linux) != client_package(OperatingSystem::Windows),
{
}

/// An answer's head is accepted exactly if it declares no more than the limit and the body comes
/// as it is.
pub proof fn plain_bounded_answers_are_read(
    content_length: Option<u64>,
    encoding: Option<Seq<char>>,
    limit: u64,
    label: Seq<char>,
    oversized: Seq<char>,
)
    ensures
        headers_fault(content_length, encoding, limit, label, oversized) is None <==> {
            &&& content_length is None || content_length->0 <= limit
            &&& encoding is None || encoding->0.map_values(|c: char| lower_ascii(c)) == "identity"@
        },
{
}

/// An entry of an archive is extracted exactly if its name is simple, it holds at most 512 MiB
/// where it is a file, and ten minutes have not passed. A simple name leads nowhere but down.
pub proof fn extracted_entries_stay_inside(
    name: Seq<char>,
    directory: bool,
    size: u64,
    elapsed: u128,
)
    ensures
        entry_fault(name, directory, size, elapsed) is None <==> {
            &&& elapsed <= 600 * 1_000_000_000
            &&& simple_entry_name(entry_name(name))
            &&& directory || size <= 536_870_912
        },
        entry_fault(name, directory, size, elapsed) is None ==> {
            &&& entry_name(name).len() > 0
            &&& !entry_parts(entry_name(name)).contains(".."@)
            &&& !entry_parts(entry_name(name)).contains("."@)
            &&& !entry_parts(entry_name(name)).contains(Seq::<char>::empty())
            &&& entry_name(name)[0] != '/' && entry_name(name)[0] != '\\'
            &&& !entry_name(name).contains(':')
            &&& !entry_name(name).contains('\0')
            &&& !device_name(entry_name(name))
        },
{
}

/// An update runs from the manifest and its signature to the first package for this machine, that
/// package's signature, its installation and a summary, if each answer is sound.
pub proof fn sound_updates_are_installed(
    states: Seq<ClientUpdate>,
    requests: Seq<UpdateRequest>,
    manifest_bytes: Vec<u8>,
    manifest_signature: Vec<u8>,
    manifest: ReleaseManifestV1,
    contents: Vec<u8>,
    signature: Vec<u8>,
    index: int,
    unread: Option<ReleaseManifestV1>,
)
    requires
        states.len() == 6,
        requests.len() == 5,
        states[0].stage is Manifest,
        ClientUpdate::steps(
            states[0],
            (UpdateEvent::Fetched { bytes: manifest_bytes, decoded: unread }),
            states[1],
            requests[0],
        ),
        ClientUpdate::steps(
            states[1],
            (UpdateEvent::Fetched { bytes: manifest_signature, decoded: Some(manifest) }),
            states[2],
            requests[1],
        ),
        ClientUpdate::steps(
            states[2],
            (UpdateEvent::Fetched { bytes: contents, decoded: unread }),
            states[3],
            requests[2],
        ),
        ClientUpdate::steps(
            states[3],
            (UpdateEvent::Fetched { bytes: signature, decoded: unread }),
            states[4],
            requests[3],
        ),
        ClientUpdate::steps(states[4], UpdateEvent::Installed, states[5], requests[4]),
        manifest_refusal(
            states[0].key@,
            manifest_bytes@,
            manifest_signature@,
            Some(manifest),
            states[0].parameters,
            states[0].installed_version@,
        ) is None,
        0 <= index < manifest.artifacts@.len(),
        is_client_package(manifest.artifacts@[index], states[0].os, states[0].arch),
        forall|i: int|
            0 <= i < index ==> !is_client_package(
                #[trigger] manifest.artifacts@[i],
                states[0].os,
                states[0].arch,
            ),
        artifact_refusal(
            states[0].key@,
            manifest.artifacts@[index],
            contents@,
            Some(signature@),
        ) is None,
    ensures
        requests[0] matches UpdateRequest::Fetch { url, .. } && url@
            == states[0].parameters.manifest_url@ + ".minisig"@,
        requests[1] matches UpdateRequest::Stage { url, size, filename } && url@
            == manifest.artifacts@[index].url@ && size == manifest.artifacts@[index].size
            && filename@ == manifest.artifacts@[index].filename@,
        requests[2] matches UpdateRequest::Fetch { url, .. } && url@
            == manifest.artifacts@[index].signature_url->0@,
        requests[3] matches UpdateRequest::Install { filename, package } && filename@
            == manifest.artifacts@[index].filename@ && package
            == manifest.artifacts@[index].package,
        requests[4] matches UpdateRequest::Done(Ok(_)),
        states[5].stage is Ended,
{
    let stage = states[2].stage;
    assert(stage is Artifact);
    let chosen = stage->Artifact_index as int;
    if chosen < index {
        assert(!is_client_package(
            manifest.artifacts@[chosen],
            states[0].os,
            states[0].arch,
        ));
    }
    if index < chosen {
        assert(!is_client_package(
            manifest.artifacts@[index],
            states[0].os,
            states[0].arch,
        ));
    }
    assert(chosen == index);
}

/// A failure ends an update in its own words, wherever it comes; and an answer that comes out of
/// turn ends it too.
pub proof fn failed_updates_end(
    before: ClientUpdate,
    event: UpdateEvent,
    after: ClientUpdate,
    request: UpdateRequest,
)
    requires
        ClientUpdate::steps(before, event, after, request),
    ensures
        event matches UpdateEvent::Failed(text) ==> (request matches UpdateRequest::Done(Err(told))
            && told@ == text@),
        request is Done ==> after.stage is Ended,
        before.stage is Ended ==> (request matches UpdateRequest::Done(Err(_))),
        (request matches UpdateRequest::Done(Ok(_))) ==> before.stage is Installing && event
            is Installed,
{
}

/// What has a limit is taken up to it and refused beyond it, and a download is whole exactly if it
/// holds what was declared.
pub proof fn amounts_are_taken_up_to_their_limit(
    amount: int,
    limit: int,
    written: nat,
    expected: nat,
    label: Seq<char>,
    what: Seq<char>,
)
    ensures
        over_fault(amount, limit, label, what) is None <==> amount <= limit,
        over_fault(amount, limit, label, what) is Some ==> over_fault(amount, limit, label, what)->0
            == label + what,
        short_fault(written, expected, label) is None <==> written == expected,
{
}

/// An archive is extracted with at most 512 entries and 512 MiB, and installed exactly if it holds
/// its installer and the system can run it.
pub proof fn bounded_archives_are_installed(
    entries: int,
    extracted: int,
    present: bool,
    powershell: bool,
)
    ensures
        entries_fault(entries) is None <==> entries <= 512,
        expansion_fault(extracted) is None <==> extracted <= 512 * 1024 * 1024,
        installer_fault(present, powershell) is None <==> present && powershell,
{
}

/// An installation went well exactly if its installer says so, and what it said is told otherwise.
pub proof fn installers_are_believed(zip: bool, success: bool, output: Seq<char>)
    ensures
        rejection(zip, success, output) is None <==> success,
        !success ==> output.is_suffix_of(rejection(zip, success, output)->0),
{
    if !success {
        let text = rejection(zip, success, output)->0;
        assert(text.subrange(text.len() - output.len(), text.len() as int) =~= output);
    }
}

/// The package that is looked for is one that this machine can install.
pub proof fn machines_look_for_their_own_package(windows: bool, name: Seq<char>)
    ensures
        installation_fault(client_package(system_of(windows)), windows) is None,
        system_of(windows) == OperatingSystem::Windows <==> windows,
        architecture_of(name) == Architecture::Aarch64 <==> name == "aarch64"@,
        architecture_of(arch_name_spec(Architecture::Aarch64)) == Architecture::Aarch64,
        architecture_of(arch_name_spec(Architecture::X86_64)) == Architecture::X86_64,
{
    reveal_strlit("aarch64");
    reveal_strlit("x86_64");
    assert("aarch64"@.len() == 7 && "x86_64"@.len() == 6);
}

/// A package is installed by the system's own installer, which is handed that package and told to
/// install it; packages at different paths are never mistaken for one another.
pub proof fn packages_are_installed_by_path(artifact_path: Seq<char>, other: Seq<char>)
    ensures
        package_command(artifact_path)[0] == "/usr/bin/dpkg"@,
        package_command(artifact_path).contains("-i"@),
        package_command(artifact_path).last() == artifact_path,
        package_command(artifact_path) == package_command(other) ==> artifact_path == other,
{
    assert(package_command(artifact_path)[1] == "-i"@);
    assert(package_command(artifact_path)[2] == artifact_path);
    assert(package_command(other)[2] == other);
}

} // verus!
