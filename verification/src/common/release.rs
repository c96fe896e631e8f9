//! Release manifests: what a release feed may offer.

use vstd::prelude::*;
use vstd::utf8::encode_utf8;

use crate::instant::Timestamp;
use crate::text::{
    ascii_digit, ascii_lower, byte_length, characters, concat, contains_text, control,
    has_character, has_control, has_text, lower_ascii, lower_case, same_text,
};

use super::url::{last_segment, plain_https, url_parts, UrlModel, UrlParts};
use super::version::Version;

verus! {

#[derive(Debug, Clone, Copy, PartialEq, Eq, Hash, Structural)]
pub enum Component {
    Server,
    Client,
    Admin,
}

#[derive(Debug, Clone, Copy, PartialEq, Eq, Hash, Structural)]
pub enum OperatingSystem {
    Linux,
    Windows,
}

#[derive(Debug, Clone, Copy, PartialEq, Eq, Hash, Structural)]
pub enum Architecture {
    X86_64,
    Aarch64,
}

#[derive(Debug, Clone, Copy, PartialEq, Eq, Hash, Structural)]
pub enum PackageKind {
    Deb,
    Msi,
    Nsis,
    AppImage,
    TarGz,
    Zip,
}

#[derive(Debug)]
pub struct ReleaseArtifact {
    pub component: Component,
    pub os: OperatingSystem,
    pub architecture: Architecture,
    pub package: PackageKind,
    pub filename: String,
    pub url: String,
    pub size: u64,
    pub sha256: String,
    pub signature_url: Option<String>,
}

#[derive(Debug)]
pub struct ReleaseManifestV1 {
    pub schema_version: u32,
    pub version: Version,
    pub channel: String,
    pub protocol_major: u32,
    pub generated_at: Timestamp,
    pub repository: String,
    pub artifacts: Vec<ReleaseArtifact>,
}

impl Clone for ReleaseArtifact {
    fn clone(&self) -> (result: ReleaseArtifact)
        ensures
            result == *self,
    {
        ReleaseArtifact {
            component: self.component,
            os: self.os,
            architecture: self.architecture,
            package: self.package,
            filename: self.filename.clone(),
            url: self.url.clone(),
            size: self.size,
            sha256: self.sha256.clone(),
            signature_url: match &self.signature_url {
                Some(url) => Some(url.clone()),
                None => None,
            },
        }
    }
}

#[derive(Debug, Clone, Copy, PartialEq, Eq, Structural)]
pub enum ManifestError {
    Schema,
    ChannelVersion,
    Protocol,
    Repository,
    Empty,
    Duplicate,
    Url,
    SignatureUrl,
    Digest,
    Filename,
    Size,
}

impl ManifestError {
    pub open spec fn message_spec(self) -> Seq<char> {
        match self {
            ManifestError::Schema => "unsupported release manifest schema"@,
            ManifestError::ChannelVersion =>
                "release channel and semantic version do not agree"@,
            ManifestError::Protocol => "release protocol major must be non-zero"@,
            ManifestError::Repository =>
                "release manifest repository is not a safe HTTPS URL"@,
            ManifestError::Empty => "release manifest contains no artifacts"@,
            ManifestError::Duplicate => "release manifest contains duplicate artifacts"@,
            ManifestError::Url => "artifact URL is not an immutable HTTPS URL"@,
            ManifestError::SignatureUrl => "artifact signature URL is invalid"@,
            ManifestError::Digest =>
                "artifact digest must be a lowercase SHA-256 hex string"@,
            ManifestError::Filename =>
                "artifact filename is invalid or does not match its URL"@,
            ManifestError::Size => "artifact size must be non-zero"@,
        }
    }

    pub fn message(&self) -> (result: &'static str)
        ensures
            result@ == self.message_spec(),
    {
        match self {
            ManifestError::Schema => "unsupported release manifest schema",
            ManifestError::ChannelVersion => "release channel and semantic version do not agree",
            ManifestError::Protocol => "release protocol major must be non-zero",
            ManifestError::Repository => "release manifest repository is not a safe HTTPS URL",
            ManifestError::Empty => "release manifest contains no artifacts",
            ManifestError::Duplicate => "release manifest contains duplicate artifacts",
            ManifestError::Url => "artifact URL is not an immutable HTTPS URL",
            ManifestError::SignatureUrl => "artifact signature URL is invalid",
            ManifestError::Digest => "artifact digest must be a lowercase SHA-256 hex string",
            ManifestError::Filename => "artifact filename is invalid or does not match its URL",
            ManifestError::Size => "artifact size must be non-zero",
        }
    }
}

/// A character of a channel's name after the first.
pub open spec fn channel_character(c: char) -> bool {
    ascii_lower(c) || ascii_digit(c) || c == '.' || c == '_' || c == '-'
}

/// The name of a channel: a lower-case letter, then lower-case letters, digits,
/// dots, underscores and hyphens; at most 32 characters.
pub open spec fn channel_name(s: Seq<char>) -> bool {
    &&& 0 < s.len() <= 32
    &&& ascii_lower(s[0])
    &&& forall|i: int| 1 <= i < s.len() ==> channel_character(#[trigger] s[i])
}

/// Whether a text is the name of a channel.
pub fn valid_channel(value: &str) -> (result: bool)
    ensures
        result == channel_name(value@),
{
    let all = characters(value);
    if all.len() == 0 || all.len() > 32 || !('a' <= all[0] && all[0] <= 'z') {
        return false;
    }
    let mut i: usize = 1;
    while i < all.len()
        invariant
            1 <= i <= all.len(),
            all@ == value@,
            forall|j: int| 1 <= j < i ==> channel_character(#[trigger] value@[j]),
        decreases all.len() - i,
    {
        let c = all[i];
        if !(('a' <= c && c <= 'z') || ('0' <= c && c <= '9') || c == '.' || c == '_' || c == '-') {
            assert(!channel_character(value@[i as int]));
            return false;
        }
        i += 1;
    }
    true
}

/// A file name without path separators, control characters or a leading dot.
pub open spec fn simple_filename(s: Seq<char>) -> bool {
    &&& s.len() > 0
    &&& encode_utf8(s).len() <= 255
    &&& s[0] != '.'
    &&& !s.contains('/')
    &&& !s.contains('\\')
    &&& forall|i: int| 0 <= i < s.len() ==> !control(#[trigger] s[i])
}

/// Whether a text is a simple file name.
pub fn is_simple_filename(value: &str) -> (result: bool)
    ensures
        result == simple_filename(value@),
{
    let all = characters(value);
    all.len() > 0 && byte_length(value) <= 255 && all[0] != '.' && !has_character(value, '/')
        && !has_character(value, '\\') && !has_control(value)
}

pub open spec fn lower_hex(c: char) -> bool {
    ascii_digit(c) || 'a' <= c <= 'f'
}

/// A SHA-256 digest in lower-case hexadecimal.
pub open spec fn lower_sha256(s: Seq<char>) -> bool {
    s.len() == 64 && forall|i: int| 0 <= i < s.len() ==> lower_hex(#[trigger] s[i])
}

fn is_lower_sha256(value: &str) -> (result: bool)
    ensures
        result == lower_sha256(value@),
{
    let all = characters(value);
    if all.len() != 64 {
        return false;
    }
    let mut i: usize = 0;
    while i < all.len()
        invariant
            i <= all.len(),
            all@ == value@,
            all@.len() == 64,
            forall|j: int| 0 <= j < i ==> lower_hex(#[trigger] value@[j]),
        decreases all.len() - i,
    {
        let c = all[i];
        if !(('0' <= c && c <= '9') || ('a' <= c && c <= 'f')) {
            assert(!lower_hex(value@[i as int]));
            return false;
        }
        i += 1;
    }
    true
}

/// A text that is a plain HTTPS URL.
pub open spec fn https_base(text: Seq<char>) -> Option<UrlModel> {
    match url_parts(text) {
        Some(parts) if plain_https(parts) => Some(parts),
        _ => None,
    }
}

/// Whether a path leads to something that is replaced by later releases.
pub open spec fn mutable_path(path: Seq<char>) -> bool {
    let normalized = path.map_values(|c: char| lower_ascii(c));
    normalized == "/latest"@ || contains_text(normalized, "/latest/"@)
}

/// A text that is a plain HTTPS URL whose path is not one of a latest release.
pub open spec fn immutable_url(text: Seq<char>) -> Option<UrlModel> {
    match https_base(text) {
        Some(parts) if !mutable_path(parts.path) => Some(parts),
        _ => None,
    }
}

/// Takes a plain HTTPS URL apart.
pub fn validate_https_base(value: &str) -> (result: Option<UrlParts>)
    ensures
        match result {
            Some(parts) => https_base(value@) == Some(parts@),
            None => https_base(value@) is None,
        },
{
    match UrlParts::parse(value) {
        Some(parts) => if parts.is_plain_https() {
            Some(parts)
        } else {
            None
        },
        None => None,
    }
}

/// Takes the URL of something that never changes apart.
pub fn validate_immutable_url(value: &str) -> (result: Option<UrlParts>)
    ensures
        match result {
            Some(parts) => immutable_url(value@) == Some(parts@),
            None => immutable_url(value@) is None,
        },
{
    let parts = match validate_https_base(value) {
        Some(parts) => parts,
        None => return None,
    };
    let normalized = lower_case(&parts.path);
    if same_text(&normalized, "/latest") || has_text(&normalized, "/latest/") {
        return None;
    }
    Some(parts)
}

/// What is wrong with an artifact, if anything.
pub open spec fn artifact_fault(artifact: ReleaseArtifact) -> Option<ManifestError> {
    if !simple_filename(artifact.filename@) {
        Some(ManifestError::Filename)
    } else if artifact.size == 0 {
        Some(ManifestError::Size)
    } else if !lower_sha256(artifact.sha256@) {
        Some(ManifestError::Digest)
    } else {
        match immutable_url(artifact.url@) {
            None => Some(ManifestError::Url),
            Some(parts) => if last_segment(parts.path) != Some(artifact.filename@) {
                Some(ManifestError::Filename)
            } else {
                signature_fault(artifact)
            },
        }
    }
}

/// What is wrong with an artifact's signature URL, if anything.
pub open spec fn signature_fault(artifact: ReleaseArtifact) -> Option<ManifestError> {
    match artifact.signature_url {
        None => Some(ManifestError::SignatureUrl),
        Some(url) => match immutable_url(url@) {
            Some(parts) if last_segment(parts.path) == Some(
                artifact.filename@ + ".minisig"@,
            ) => None,
            _ => Some(ManifestError::SignatureUrl),
        },
    }
}

/// Validates one artifact: a simple file name, a size, a digest, an immutable
/// URL and the URL of a signature, both of which end in the file name.
pub fn validate_artifact(artifact: &ReleaseArtifact) -> (result: Result<(), ManifestError>)
    ensures
        match result {
            Ok(_) => artifact_fault(*artifact) is None,
            Err(error) => artifact_fault(*artifact) == Some(error),
        },
{
    if !is_simple_filename(&artifact.filename) {
        return Err(ManifestError::Filename);
    }
    if artifact.size == 0 {
        return Err(ManifestError::Size);
    }
    if !is_lower_sha256(&artifact.sha256) {
        return Err(ManifestError::Digest);
    }
    let parts = match validate_immutable_url(&artifact.url) {
        Some(parts) => parts,
        None => return Err(ManifestError::Url),
    };
    if !parts.ends_in(&artifact.filename) {
        return Err(ManifestError::Filename);
    }
    let signature_url = match &artifact.signature_url {
        Some(url) => url,
        None => return Err(ManifestError::SignatureUrl),
    };
    let signature = match validate_immutable_url(signature_url) {
        Some(parts) => parts,
        None => return Err(ManifestError::SignatureUrl),
    };
    if !signature.ends_in(&concat(&artifact.filename, ".minisig")) {
        return Err(ManifestError::SignatureUrl);
    }
    Ok(())
}

/// Whether two artifacts are for the same platform package.
pub open spec fn same_platform_package(left: ReleaseArtifact, right: ReleaseArtifact) -> bool {
    left.component == right.component && left.os == right.os && left.architecture
        == right.architecture && left.package == right.package
}

/// Whether two artifacts collide: the same platform package, file name or URL.
pub open spec fn collide(left: ReleaseArtifact, right: ReleaseArtifact) -> bool {
    same_platform_package(left, right) || left.filename@ == right.filename@ || left.url@
        == right.url@
}

/// What is wrong with artifact `i` of a list, given the ones before it.
pub open spec fn fault_at(artifacts: Seq<ReleaseArtifact>, i: int) -> Option<ManifestError> {
    match artifact_fault(artifacts[i]) {
        Some(error) => Some(error),
        None => if exists|j: int| 0 <= j < i && #[trigger] collide(artifacts[j], artifacts[i]) {
            Some(ManifestError::Duplicate)
        } else {
            None
        },
    }
}

/// The first fault among the artifacts from `i` on.
pub open spec fn fault_from(artifacts: Seq<ReleaseArtifact>, i: int) -> Option<ManifestError>
    decreases artifacts.len() - i,
{
    if i < 0 || i >= artifacts.len() {
        None
    } else {
        match fault_at(artifacts, i) {
            Some(error) => Some(error),
            None => fault_from(artifacts, i + 1),
        }
    }
}

/// What is wrong with a manifest, if anything.
pub open spec fn manifest_fault(manifest: ReleaseManifestV1) -> Option<ManifestError> {
    if manifest.schema_version != 1 {
        Some(ManifestError::Schema)
    } else if !channel_name(manifest.channel@) {
        Some(ManifestError::ChannelVersion)
    } else if (manifest.channel@ == "stable"@) != (manifest.version@.pre.len() == 0) {
        Some(ManifestError::ChannelVersion)
    } else if manifest.protocol_major == 0 {
        Some(ManifestError::Protocol)
    } else if https_base(manifest.repository@) is None {
        Some(ManifestError::Repository)
    } else if manifest.artifacts@.len() == 0 {
        Some(ManifestError::Empty)
    } else {
        fault_from(manifest.artifacts@, 0)
    }
}

fn collides_with_earlier(artifacts: &Vec<ReleaseArtifact>, i: usize) -> (result: bool)
    requires
        i < artifacts.len(),
    ensures
        result == exists|j: int| 0 <= j < i && #[trigger] collide(artifacts@[j], artifacts@[i as int]),
{
    let current = &artifacts[i];
    let mut j: usize = 0;
    while j < i
        invariant
            j <= i < artifacts.len(),
            *current == artifacts@[i as int],
            forall|k: int| 0 <= k < j ==> !#[trigger] collide(artifacts@[k], artifacts@[i as int]),
        decreases i - j,
    {
        let earlier = &artifacts[j];
        if (earlier.component == current.component && earlier.os == current.os
            && earlier.architecture == current.architecture && earlier.package == current.package)
            || same_text(&earlier.filename, &current.filename) || same_text(
            &earlier.url,
            &current.url,
        ) {
            assert(collide(artifacts@[j as int], artifacts@[i as int]));
            return true;
        }
        j += 1;
    }
    false
}

impl ReleaseManifestV1 {
    /// Validates the release-feed schema, semantic channel, and every artifact.
    ///
    /// Artifact hosts may be GitHub Releases or static object storage. The
    /// manifest itself is the signed/approved index, while each artifact URL
    /// must still be HTTPS, immutable-looking (never `/latest/`), credential
    /// free, and bound to the declared filename and digest.
    pub fn validate(&self) -> (result: Result<(), ManifestError>)
        ensures
            match result {
                Ok(_) => manifest_fault(*self) is None,
                Err(error) => manifest_fault(*self) == Some(error),
            },
    {
        if self.schema_version != 1 {
            return Err(ManifestError::Schema);
        }
        if !valid_channel(&self.channel) {
            return Err(ManifestError::ChannelVersion);
        }
        if same_text(&self.channel, "stable") != self.version.pre.as_str().is_empty() {
            return Err(ManifestError::ChannelVersion);
        }
        if self.protocol_major == 0 {
            return Err(ManifestError::Protocol);
        }
        if validate_https_base(&self.repository).is_none() {
            return Err(ManifestError::Repository);
        }
        if self.artifacts.len() == 0 {
            return Err(ManifestError::Empty);
        }
        let mut i: usize = 0;
        while i < self.artifacts.len()
            invariant
                i <= self.artifacts.len(),
                manifest_fault(*self) == fault_from(self.artifacts@, i as int),
            decreases self.artifacts.len() - i,
        {
            match validate_artifact(&self.artifacts[i]) {
                Ok(()) => {},
                Err(error) => return Err(error),
            }
            if collides_with_earlier(&self.artifacts, i) {
                return Err(ManifestError::Duplicate);
            }
            i += 1;
        }
        Ok(())
    }
}

proof fn no_fault_at(artifacts: Seq<ReleaseArtifact>, from: int, i: int)
    requires
        fault_from(artifacts, from) is None,
        0 <= from <= i < artifacts.len(),
    ensures
        fault_at(artifacts, i) is None,
    decreases i - from,
{
    if from < i {
        no_fault_at(artifacts, from + 1, i);
    }
}

/// Every artifact of a valid manifest is immutable, signed, and bound to its
/// file name and digest.
pub proof fn valid_manifest_artifacts_are_sound(manifest: ReleaseManifestV1, i: int)
    requires
        manifest_fault(manifest) is None,
        0 <= i < manifest.artifacts@.len(),
    ensures
        artifact_fault(manifest.artifacts@[i]) is None,
        immutable_url(manifest.artifacts@[i].url@) is Some,
        manifest.artifacts@[i].signature_url is Some,
        immutable_url(manifest.artifacts@[i].signature_url->0@) is Some,
{
    no_fault_at(manifest.artifacts@, 0, i);
}

/// No two artifacts of a valid manifest share a platform package, a file name
/// or a URL.
pub proof fn valid_manifest_has_no_duplicates(manifest: ReleaseManifestV1, i: int, j: int)
    requires
        manifest_fault(manifest) is None,
        0 <= i < j < manifest.artifacts@.len(),
    ensures
        !collide(manifest.artifacts@[i], manifest.artifacts@[j]),
{
    no_fault_at(manifest.artifacts@, 0, j);
}

/// An artifact is sound exactly if it has a simple name and a size, a digest in lower-case
/// hexadecimal, an immutable address that ends in its name, and one for its signature.
pub proof fn sound_artifacts_are_valid(artifact: ReleaseArtifact)
    ensures
        artifact_fault(artifact) is None <==> {
            &&& simple_filename(artifact.filename@)
            &&& artifact.size > 0
            &&& lower_sha256(artifact.sha256@)
            &&& immutable_url(artifact.url@) is Some
            &&& last_segment(immutable_url(artifact.url@)->0.path) == Some(artifact.filename@)
            &&& artifact.signature_url is Some
            &&& immutable_url(artifact.signature_url->0@) is Some
            &&& last_segment(immutable_url(artifact.signature_url->0@)->0.path) == Some(
                artifact.filename@ + ".minisig"@,
            )
        },
{
}

/// An immutable address is a plain HTTPS one whose path names no latest release.
pub proof fn immutable_addresses_are_plain(text: Seq<char>)
    ensures
        immutable_url(text) is Some <==> {
            &&& url_parts(text) is Some
            &&& plain_https(url_parts(text)->0)
            &&& !mutable_path(url_parts(text)->0.path)
        },
        immutable_url(text) is Some ==> immutable_url(text) == url_parts(text),
{
}

/// Two artifacts collide exactly if they are for the same machines or share a name or an address,
/// whichever comes first.
pub proof fn collisions_go_both_ways(left: ReleaseArtifact, right: ReleaseArtifact)
    ensures
        collide(left, right) <==> collide(right, left),
        collide(left, left),
        left.filename@ == right.filename@ ==> collide(left, right),
        left.url@ == right.url@ ==> collide(left, right),
        left.component == right.component && left.os == right.os && left.architecture
            == right.architecture && left.package == right.package ==> collide(left, right),
{
}

/// A manifest is valid exactly if it follows the schema, keeps prereleases off the stable channel
/// and releases off the others, speaks a protocol, names its repository and holds sound artifacts
/// of which no two collide.
pub proof fn sound_manifests_are_valid(manifest: ReleaseManifestV1)
    ensures
        manifest_fault(manifest) is None <==> {
            let artifacts = manifest.artifacts@;
            &&& manifest.schema_version == 1
            &&& channel_name(manifest.channel@)
            &&& manifest.channel@ == "stable"@ <==> manifest.version@.pre.len() == 0
            &&& manifest.protocol_major > 0
            &&& url_parts(manifest.repository@) is Some && plain_https(
                url_parts(manifest.repository@)->0,
            )
            &&& artifacts.len() > 0
            &&& forall|i: int|
                0 <= i < artifacts.len() ==> artifact_fault(#[trigger] artifacts[i]) is None
            &&& forall|i: int, j: int|
                0 <= i < j < artifacts.len() ==> !#[trigger] collide(artifacts[i], artifacts[j])
        },
{
    let artifacts = manifest.artifacts@;
    if fault_from(artifacts, 0) is None {
        assert forall|i: int| 0 <= i < artifacts.len() implies artifact_fault(
            #[trigger] artifacts[i],
        ) is None by {
            no_fault_at(artifacts, 0, i);
        }
        assert forall|i: int, j: int| 0 <= i < j < artifacts.len() implies !#[trigger] collide(
            artifacts[i],
            artifacts[j],
        ) by {
            no_fault_at(artifacts, 0, j);
        }
    }
    if (forall|i: int| 0 <= i < artifacts.len() ==> artifact_fault(#[trigger] artifacts[i]) is None)
        && (forall|i: int, j: int|
        0 <= i < j < artifacts.len() ==> !#[trigger] collide(artifacts[i], artifacts[j])) {
        sound_from(artifacts, 0);
    }
}

proof fn sound_from(artifacts: Seq<ReleaseArtifact>, from: int)
    requires
        0 <= from,
        forall|i: int| 0 <= i < artifacts.len() ==> artifact_fault(#[trigger] artifacts[i]) is None,
        forall|i: int, j: int|
            0 <= i < j < artifacts.len() ==> !#[trigger] collide(artifacts[i], artifacts[j]),
    ensures
        fault_from(artifacts, from) is None,
    decreases artifacts.len() - from,
{
    if from < artifacts.len() {
        sound_from(artifacts, from + 1);
    }
}

} // verus!
