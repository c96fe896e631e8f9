//! Non-secret build and update settings.

use vstd::prelude::*;

use crate::text::{
    after_prefix, concat, same_text, split_first, split_once, strip_prefix, trim_trailing,
    without_trailing,
};

verus! {

pub const REPO_URL: &'static str = "https://github.com/BurntToasters/centrald";

pub const UPDATE_BASE_URL: &'static str =
    "https://raw.githubusercontent.com/BurntToasters/centrald/centrald-channels/channels/alpha/latest";

pub const CDN_BASE_URL: &'static str = "";

pub const ARTIFACT_BASE_URL_TEMPLATE: &'static str =
    "https://github.com/BurntToasters/centrald/releases/download/{tag}";

pub const RELEASE_CHANNEL: &'static str = "alpha";

pub const RELEASE_MANIFEST: &'static str = "centrald-release.yml";

pub const TAURI_UPDATE_MANIFEST: &'static str = "centrald-admin-updater.json";

pub const TAURI_UPDATER_PUBKEY: &'static str = "";

pub const MINISIGN_PUBLIC_KEY: &'static str = "";

/// The version of this package.
pub const PACKAGE_VERSION: &'static str = "0.1.0-alpha.1";

/// The only release channels CentralD serves. Version auto-detection, the
/// operator-facing tools, the server update feed, and manifest validation all
/// restrict updates to exactly these three.
pub const SUPPORTED_CHANNELS: [&'static str; 3] = ["stable", "alpha", "beta"];

/// Whether a channel is one that CentralD serves.
pub open spec fn supported_channel(s: Seq<char>) -> bool {
    s == "stable"@ || s == "alpha"@ || s == "beta"@
}

pub fn is_supported_channel(value: &str) -> (result: bool)
    ensures
        result == supported_channel(value@),
{
    same_text(value, "stable") || same_text(value, "alpha") || same_text(value, "beta")
}

/// A file under a base URL, with one slash between them.
pub open spec fn under(base: Seq<char>, file: Seq<char>) -> Seq<char> {
    without_trailing(base, '/') + "/"@ + file
}

fn join_url(base: &str, file: &str) -> (result: String)
    ensures
        result@ == under(base@, file@),
{
    let mut result = trim_trailing(base, '/');
    result.append("/");
    result.append(file);
    result
}

pub fn release_manifest_url() -> (result: String)
    ensures
        result@ == under(UPDATE_BASE_URL@, RELEASE_MANIFEST@),
{
    join_url(UPDATE_BASE_URL, RELEASE_MANIFEST)
}

pub fn tauri_update_manifest_url() -> (result: String)
    ensures
        result@ == under(UPDATE_BASE_URL@, TAURI_UPDATE_MANIFEST@),
{
    join_url(UPDATE_BASE_URL, TAURI_UPDATE_MANIFEST)
}

/// The owner and the name of a GitHub repository.
pub open spec fn owner_and_name(rest: Seq<char>) -> (Seq<char>, Seq<char>) {
    match split_first(rest, '/') {
        Some(parts) => parts,
        None => (Seq::empty(), rest),
    }
}

/// Where the manifest of a channel is served: a CDN serves every channel at
/// `<cdn>/<channel>/<manifest>`; otherwise GitHub serves stable from
/// `/releases/latest/download` and other channels from the `centrald-channels`
/// branch; generic origins use `<repo>/<channel>/latest`.
pub open spec fn channel_manifest(
    cdn_base: Seq<char>,
    repo_url: Seq<char>,
    manifest: Seq<char>,
    channel: Seq<char>,
) -> Seq<char> {
    let cdn = without_trailing(cdn_base, '/');
    let repo = without_trailing(repo_url, '/');
    if cdn.len() > 0 {
        cdn + "/"@ + channel + "/"@ + manifest
    } else {
        match after_prefix(repo, "https://github.com/"@) {
            Some(rest) => if channel == "stable"@ {
                repo + "/releases/latest/download/"@ + manifest
            } else {
                "https://raw.githubusercontent.com/"@ + owner_and_name(rest).0 + "/"@
                    + owner_and_name(rest).1 + "/centrald-channels/channels/"@ + channel
                    + "/latest/"@ + manifest
            },
            None => repo + "/"@ + channel + "/latest/"@ + manifest,
        }
    }
}

/// Resolves the URL of a channel's manifest for given build settings.
pub fn channel_manifest_url(cdn_base: &str, repo_url: &str, manifest: &str, channel: &str) -> (
    result: String)
    ensures
        result@ == channel_manifest(cdn_base@, repo_url@, manifest@, channel@),
{
    let cdn = trim_trailing(cdn_base, '/');
    if !cdn.as_str().is_empty() {
        let mut result = cdn;
        result.append("/");
        result.append(channel);
        result.append("/");
        result.append(manifest);
        return result;
    }
    let repo = trim_trailing(repo_url, '/');
    match strip_prefix(&repo, "https://github.com/") {
        Some(rest) => {
            if same_text(channel, "stable") {
                let mut result = repo;
                result.append("/releases/latest/download/");
                result.append(manifest);
                return result;
            }
            let (owner, name) = match split_once(&rest, '/') {
                Some(parts) => parts,
                None => (String::new(), rest.clone()),
            };
            let mut result = concat("https://raw.githubusercontent.com/", &owner);
            result.append("/");
            result.append(&name);
            result.append("/centrald-channels/channels/");
            result.append(channel);
            result.append("/latest/");
            result.append(manifest);
            result
        },
        None => {
            let mut result = repo;
            result.append("/");
            result.append(channel);
            result.append("/latest/");
            result.append(manifest);
            result
        },
    }
}

/// Resolves the mutable release-manifest URL for a specific channel.
pub fn manifest_url_for_channel(channel: &str) -> (result: String)
    ensures
        result@ == channel_manifest(CDN_BASE_URL@, REPO_URL@, RELEASE_MANIFEST@, channel@),
{
    channel_manifest_url(CDN_BASE_URL, REPO_URL, RELEASE_MANIFEST, channel)
}

/// A channel's manifest is found at the delivery network where there is one; else at the
/// repository's own host, where the stable channel is the latest release and every other channel
/// has a place of its own. The manifest's name always ends the address.
pub proof fn channels_have_their_own_manifests(
    cdn_base: Seq<char>,
    repo_url: Seq<char>,
    manifest: Seq<char>,
    channel: Seq<char>,
)
    ensures
        manifest.is_suffix_of(channel_manifest(cdn_base, repo_url, manifest, channel)),
        without_trailing(cdn_base, '/').len() > 0 ==> without_trailing(cdn_base, '/').is_prefix_of(
            channel_manifest(cdn_base, repo_url, manifest, channel),
        ),
        without_trailing(cdn_base, '/').len() == 0 && channel == "stable"@ ==> without_trailing(
            repo_url,
            '/',
        ).is_prefix_of(channel_manifest(cdn_base, repo_url, manifest, channel)),
        without_trailing(cdn_base, '/').len() == 0 && channel != "stable"@ && after_prefix(
            without_trailing(repo_url, '/'),
            "https://github.com/"@,
        ) is Some ==> "https://raw.githubusercontent.com/"@.is_prefix_of(
            channel_manifest(cdn_base, repo_url, manifest, channel),
        ),
{
    let all = channel_manifest(cdn_base, repo_url, manifest, channel);
    assert(all.subrange(all.len() - manifest.len(), all.len() as int) =~= manifest);
}

} // verus!
