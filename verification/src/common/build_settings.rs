//! The tracked `centrald.config` file: non-secret `KEY=value` build settings.

use vstd::prelude::*;

use crate::text::{
    after_prefix, ascii_digit, ascii_lower, characters, concat, contains_text, fields,
    has_character, has_text, has_white_space, lines, lower_ascii, lower_case, same_text, split,
    split_first, split_once, starts_with, strip_prefix, text_lines, text_of, trim, trim_trailing,
    trimmed, views, white_space, without_trailing,
};

use super::build_info::{is_supported_channel, supported_channel};
use super::version::{semver_version, Version};

verus! {

pub const DEFAULT_REPO_URL: &'static str = "https://github.com/BurntToasters/centrald";

pub const DEFAULT_RELEASE_MANIFEST: &'static str = "centrald-release.yml";

pub const DEFAULT_TAURI_MANIFEST: &'static str = "centrald-admin-updater.json";

/// The keys that the file may hold. Anything else is refused, so that a secret
/// cannot slip in.
#[derive(Debug, Clone, Copy, PartialEq, Eq, Structural)]
pub enum SettingKey {
    RepoUrl,
    UpdateBaseUrl,
    ArtifactBaseUrlTemplate,
    CdnBaseUrl,
    ReleaseChannel,
    ReleaseManifest,
    TauriUpdateManifest,
    TauriUpdaterPubkey,
    MinisignPublicKey,
}

#[derive(Debug, Clone, Copy, PartialEq, Eq, Structural)]
pub enum SettingsError {
    Malformed { line: usize },
    UnknownKey { line: usize },
    DuplicateKey { line: usize },
    NotHttps { key: SettingKey },
    UnsafeUrl { key: SettingKey },
    Channel,
    PackageVersion,
    GithubPrefix,
    GithubRepository,
    Template,
    Filename { key: SettingKey },
    PublicValue { key: SettingKey },
    MinisignKey,
    Forbidden { key: SettingKey },
}

/// The key that a name stands for.
pub open spec fn key_named(name: Seq<char>) -> Option<SettingKey> {
    if name == "REPO_URL"@ {
        Some(SettingKey::RepoUrl)
    } else if name == "UPDATE_BASE_URL"@ {
        Some(SettingKey::UpdateBaseUrl)
    } else if name == "ARTIFACT_BASE_URL_TEMPLATE"@ {
        Some(SettingKey::ArtifactBaseUrlTemplate)
    } else if name == "CDN_BASE_URL"@ {
        Some(SettingKey::CdnBaseUrl)
    } else if name == "RELEASE_CHANNEL"@ {
        Some(SettingKey::ReleaseChannel)
    } else if name == "RELEASE_MANIFEST"@ {
        Some(SettingKey::ReleaseManifest)
    } else if name == "TAURI_UPDATE_MANIFEST"@ {
        Some(SettingKey::TauriUpdateManifest)
    } else if name == "TAURI_UPDATER_PUBKEY"@ {
        Some(SettingKey::TauriUpdaterPubkey)
    } else if name == "MINISIGN_PUBLIC_KEY"@ {
        Some(SettingKey::MinisignPublicKey)
    } else {
        None
    }
}

fn find_key(name: &str) -> (result: Option<SettingKey>)
    ensures
        result == key_named(name@),
{
    if same_text(name, "REPO_URL") {
        Some(SettingKey::RepoUrl)
    } else if same_text(name, "UPDATE_BASE_URL") {
        Some(SettingKey::UpdateBaseUrl)
    } else if same_text(name, "ARTIFACT_BASE_URL_TEMPLATE") {
        Some(SettingKey::ArtifactBaseUrlTemplate)
    } else if same_text(name, "CDN_BASE_URL") {
        Some(SettingKey::CdnBaseUrl)
    } else if same_text(name, "RELEASE_CHANNEL") {
        Some(SettingKey::ReleaseChannel)
    } else if same_text(name, "RELEASE_MANIFEST") {
        Some(SettingKey::ReleaseManifest)
    } else if same_text(name, "TAURI_UPDATE_MANIFEST") {
        Some(SettingKey::TauriUpdateManifest)
    } else if same_text(name, "TAURI_UPDATER_PUBKEY") {
        Some(SettingKey::TauriUpdaterPubkey)
    } else if same_text(name, "MINISIGN_PUBLIC_KEY") {
        Some(SettingKey::MinisignPublicKey)
    } else {
        None
    }
}

/// `s` without quotation marks of one kind around it.
pub open spec fn unquoted(s: Seq<char>) -> Seq<char> {
    if s.len() >= 2 && (s.first() == '"' && s.last() == '"' || s.first() == '\'' && s.last()
        == '\'') {
        s.subrange(1, s.len() - 1)
    } else {
        s
    }
}

/// Cuts quotation marks of one kind from around a text.
pub fn unquote(value: &str) -> (result: String)
    ensures
        result@ == unquoted(value@),
{
    let all = characters(value);
    let length: usize = all.len();
    if length >= 2 && ((all[0] == '"' && all[length - 1] == '"') || (all[0] == '\'' && all[length
        - 1] == '\'')) {
        return text_of(vstd::slice::slice_subrange(all.as_slice(), 1, length - 1));
    }
    text_of(all.as_slice())
}

/// The settings of a file, in the order of its lines.
pub type Settings = Seq<(SettingKey, Seq<char>)>;

/// The value of a key.
pub open spec fn setting(settings: Settings, key: SettingKey) -> Option<Seq<char>>
    decreases settings.len(),
{
    if settings.len() == 0 {
        None
    } else if settings.last().0 == key {
        Some(settings.last().1)
    } else {
        setting(settings.drop_last(), key)
    }
}

/// What one line adds to the settings.
pub open spec fn with_line(settings: Settings, raw_line: Seq<char>, number: int) -> Result<
    Settings,
    SettingsError,
> {
    let line = trim(raw_line);
    if line.len() == 0 || line[0] == '#' {
        Ok(settings)
    } else {
        match split_first(line, '=') {
            None => Err(SettingsError::Malformed { line: number as usize }),
            Some((name, value)) => match key_named(trim(name)) {
                None => Err(SettingsError::UnknownKey { line: number as usize }),
                Some(key) => if setting(settings, key) is Some {
                    Err(SettingsError::DuplicateKey { line: number as usize })
                } else {
                    Ok(settings.push((key, unquoted(trim(value)))))
                },
            },
        }
    }
}

/// The settings of the first `n` lines.
pub open spec fn settings_before(all: Seq<Seq<char>>, n: int) -> Result<Settings, SettingsError>
    decreases n,
{
    if n <= 0 {
        Ok(Seq::empty())
    } else {
        match settings_before(all, n - 1) {
            Err(error) => Err(error),
            Ok(settings) => with_line(settings, all[n - 1], n),
        }
    }
}

/// The settings of a file.
pub open spec fn settings_of(contents: Seq<char>) -> Result<Settings, SettingsError> {
    settings_before(lines(contents), lines(contents).len() as int)
}

/// The view of read settings.
pub open spec fn settings_view(values: Seq<(SettingKey, String)>) -> Settings {
    values.map_values(|value: (SettingKey, String)| (value.0, value.1@))
}

fn find_setting(values: &Vec<(SettingKey, String)>, key: SettingKey) -> (result: Option<usize>)
    ensures
        match result {
            Some(i) => i < values.len() && setting(settings_view(values@), key) == Some(
                values@[i as int].1@,
            ),
            None => setting(settings_view(values@), key) is None,
        },
{
    let ghost views = settings_view(values@);
    let mut end: usize = values.len();
    assert(views.take(views.len() as int) == views);
    while end > 0
        invariant
            end <= values.len(),
            views == settings_view(values@),
            setting(views, key) == setting(views.take(end as int), key),
        decreases end,
    {
        assert(views.take(end as int).drop_last() == views.take(end - 1));
        assert(views.take(end as int).last() == (values@[end - 1].0, values@[end - 1].1@));
        if values[end - 1].0 == key {
            return Some(end - 1);
        }
        end -= 1;
    }
    None
}

proof fn failed_line_stands(all: Seq<Seq<char>>, n: int)
    requires
        0 <= n <= all.len(),
        settings_before(all, n) is Err,
    ensures
        settings_before(all, all.len() as int) == settings_before(all, n),
    decreases all.len() - n,
{
    if n < all.len() {
        failed_line_stands(all, n + 1);
    }
}

/// Reads the settings of a file.
pub fn read_config(contents: &str) -> (result: Result<Vec<(SettingKey, String)>, SettingsError>)
    ensures
        match result {
            Ok(values) => settings_of(contents@) == Ok::<Settings, SettingsError>(
                settings_view(values@),
            ),
            Err(error) => settings_of(contents@) == Err::<Settings, SettingsError>(error),
        },
{
    let all = text_lines(contents);
    let ghost texts = lines(contents@);
    let mut values: Vec<(SettingKey, String)> = Vec::new();
    let mut i: usize = 0;
    assert(settings_view(values@) =~= Seq::empty());
    while i < all.len()
        invariant
            i <= all.len(),
            texts == views(all@),
            texts == lines(contents@),
            settings_before(texts, i as int) == Ok::<Settings, SettingsError>(
                settings_view(values@),
            ),
        decreases all.len() - i,
    {
        assert(texts[i as int] == all@[i as int]@);
        let line = trimmed(&all[i]);
        let ghost before = settings_view(values@);
        let start = characters(&line);
        if start.len() > 0 && start[0] != '#' {
            match split_once(&line, '=') {
                None => {
                    proof {
                        failed_line_stands(texts, i + 1);
                    }
                    return Err(SettingsError::Malformed { line: i + 1 });
                },
                Some((name, value)) => match find_key(&trimmed(&name)) {
                    None => {
                        proof {
                            failed_line_stands(texts, i + 1);
                        }
                        return Err(SettingsError::UnknownKey { line: i + 1 });
                    },
                    Some(key) => {
                        if find_setting(&values, key).is_some() {
                            proof {
                                failed_line_stands(texts, i + 1);
                            }
                            return Err(SettingsError::DuplicateKey { line: i + 1 });
                        }
                        let unquoted_value = unquote(&trimmed(&value));
                        let ghost entry = (key, unquoted_value@);
                        values.push((key, unquoted_value));
                        assert(settings_view(values@) =~= before.push(entry));
                    },
                },
            }
        }
        i += 1;
    }
    Ok(values)
}

/// A key's value, or a default where it is absent or blank.
pub open spec fn value_or(settings: Settings, key: SettingKey, default: Seq<char>) -> Seq<char> {
    match setting(settings, key) {
        Some(value) if trim(value).len() > 0 => value,
        _ => default,
    }
}

/// Whether a key has a value that is not blank.
pub open spec fn has_value(settings: Settings, key: SettingKey) -> bool {
    setting(settings, key) is Some && trim(setting(settings, key)->0).len() > 0
}

fn chosen_value(values: &Vec<(SettingKey, String)>, key: SettingKey) -> (result: Option<String>)
    ensures
        match result {
            Some(value) => has_value(settings_view(values@), key) && setting(
                settings_view(values@),
                key,
            ) == Some(value@),
            None => !has_value(settings_view(values@), key),
        },
{
    match find_setting(values, key) {
        Some(i) => {
            if trimmed(&values[i].1).as_str().is_empty() {
                None
            } else {
                Some(values[i].1.clone())
            }
        },
        None => None,
    }
}

fn chosen_or(values: &Vec<(SettingKey, String)>, key: SettingKey, default: &str) -> (result: String)
    ensures
        result@ == value_or(settings_view(values@), key, default@),
{
    match chosen_value(values, key) {
        Some(value) => value,
        None => default.to_owned(),
    }
}

/// What is wrong with a base URL, if anything.
pub open spec fn base_fault(value: Seq<char>, key: SettingKey) -> Option<SettingsError> {
    match after_prefix(trim(value), "https://"@) {
        None => Some(SettingsError::NotHttps { key }),
        Some(rest) => if rest.len() == 0 || rest[0] == '/' || trim(value).contains('@') || trim(
            value,
        ).contains('?') || trim(value).contains('#') || exists|i: int|
            0 <= i < trim(value).len() && #[trigger] white_space(trim(value)[i]) {
            Some(SettingsError::UnsafeUrl { key })
        } else {
            None
        },
    }
}

/// Validates a base URL.
pub fn validate_base(value: &str, key: SettingKey) -> (result: Result<(), SettingsError>)
    ensures
        match result {
            Ok(_) => base_fault(value@, key) is None,
            Err(error) => base_fault(value@, key) == Some(error),
        },
{
    let value = trimmed(value);
    let rest = match strip_prefix(&value, "https://") {
        Some(rest) => characters(&rest),
        None => return Err(SettingsError::NotHttps { key }),
    };
    if rest.len() == 0 || rest[0] == '/' || has_white_space(&value) || has_character(&value, '@')
        || has_character(&value, '?') || has_character(&value, '#') {
        return Err(SettingsError::UnsafeUrl { key });
    }
    Ok(())
}

/// Whether a URL is one of GitHub, in any case of letters.
pub open spec fn github(url: Seq<char>) -> bool {
    match after_prefix(url, "https://"@) {
        Some(rest) => "github.com/"@.is_prefix_of(rest.map_values(|c: char| lower_ascii(c))),
        None => false,
    }
}

pub fn is_github(value: &str) -> (result: bool)
    ensures
        result == github(value@),
{
    match strip_prefix(value, "https://") {
        Some(rest) => starts_with(&lower_case(&rest), "github.com/"),
        None => false,
    }
}

/// Where a channel's manifests are served by default.
pub open spec fn default_base(repo_url: Seq<char>, channel: Seq<char>) -> Result<
    Seq<char>,
    SettingsError,
> {
    let repo = without_trailing(repo_url, '/');
    if github(repo) {
        if channel == "stable"@ {
            Ok(repo + "/releases/latest/download"@)
        } else {
            match after_prefix(repo, "https://github.com/"@) {
                None => Err(SettingsError::GithubPrefix),
                Some(rest) => {
                    let pieces = split(rest, '/');
                    if pieces.len() == 2 && pieces[0].len() > 0 && pieces[1].len() > 0 {
                        Ok(
                            "https://raw.githubusercontent.com/"@ + pieces[0] + "/"@ + pieces[1]
                                + "/centrald-channels/channels/"@ + channel + "/latest"@,
                        )
                    } else {
                        Err(SettingsError::GithubRepository)
                    }
                },
            }
        }
    } else {
        Ok(repo + "/"@ + channel + "/latest"@)
    }
}

/// The view of a text or an error.
pub open spec fn text_view(result: Result<String, SettingsError>) -> Result<
    Seq<char>,
    SettingsError,
> {
    match result {
        Ok(text) => Ok(text@),
        Err(error) => Err(error),
    }
}

pub fn default_update_base(repo_url: &str, release_channel: &str) -> (result: Result<
    String,
    SettingsError,
>)
    ensures
        text_view(result) == default_base(repo_url@, release_channel@),
{
    let repo = trim_trailing(repo_url, '/');
    if is_github(&repo) {
        if same_text(release_channel, "stable") {
            return Ok(concat(&repo, "/releases/latest/download"));
        }
        let rest = match strip_prefix(&repo, "https://github.com/") {
            Some(rest) => rest,
            None => return Err(SettingsError::GithubPrefix),
        };
        let pieces = fields(&rest, '/');
        let ghost texts = split(rest@, '/');
        assert(forall|i: int| 0 <= i < texts.len() ==> #[trigger] texts[i] == pieces@[i]@);
        if pieces.len() != 2 || pieces[0].as_str().is_empty() || pieces[1].as_str().is_empty() {
            return Err(SettingsError::GithubRepository);
        }
        let mut result = concat("https://raw.githubusercontent.com/", &pieces[0]);
        result.append("/");
        result.append(&pieces[1]);
        result.append("/centrald-channels/channels/");
        result.append(release_channel);
        result.append("/latest");
        return Ok(result);
    }
    let mut result = repo;
    result.append("/");
    result.append(release_channel);
    result.append("/latest");
    Ok(result)
}

/// Where a version's artifacts are served by default.
pub open spec fn default_template(repo_url: Seq<char>) -> Seq<char> {
    let repo = without_trailing(repo_url, '/');
    if github(repo) {
        repo + "/releases/download/{tag}"@
    } else {
        repo + "/releases/{version}"@
    }
}

pub fn default_artifact_template(repo_url: &str) -> (result: String)
    ensures
        result@ == default_template(repo_url@),
{
    let repo = trim_trailing(repo_url, '/');
    if is_github(&repo) {
        concat(&repo, "/releases/download/{tag}")
    } else {
        concat(&repo, "/releases/{version}")
    }
}

/// What is wrong with an artifact template, if anything. Filling in a version
/// or a tag changes none of this.
pub open spec fn template_fault(value: Seq<char>) -> Option<SettingsError> {
    if !contains_text(value, "{version}"@) && !contains_text(value, "{tag}"@) {
        Some(SettingsError::Template)
    } else {
        base_fault(value, SettingKey::ArtifactBaseUrlTemplate)
    }
}

pub fn validate_artifact_template(value: &str) -> (result: Result<(), SettingsError>)
    ensures
        match result {
            Ok(_) => template_fault(value@) is None,
            Err(error) => template_fault(value@) == Some(error),
        },
{
    if !has_text(value, "{version}") && !has_text(value, "{tag}") {
        return Err(SettingsError::Template);
    }
    validate_base(value, SettingKey::ArtifactBaseUrlTemplate)
}

pub open spec fn filename_character(c: char) -> bool {
    ascii_lower(c) || 'A' <= c <= 'Z' || ascii_digit(c) || c == '.' || c == '_' || c == '-'
}

/// The name of a manifest file.
pub open spec fn manifest_filename(s: Seq<char>) -> bool {
    &&& 0 < s.len() <= 128
    &&& s[0] != '.'
    &&& forall|i: int| 0 <= i < s.len() ==> filename_character(#[trigger] s[i])
}

pub fn validate_filename(value: &str, key: SettingKey) -> (result: Result<(), SettingsError>)
    ensures
        result == if manifest_filename(value@) {
            Ok::<(), SettingsError>(())
        } else {
            Err(SettingsError::Filename { key })
        },
{
    let all = characters(value);
    if all.len() == 0 || all.len() > 128 || all[0] == '.' {
        return Err(SettingsError::Filename { key });
    }
    let mut i: usize = 0;
    while i < all.len()
        invariant
            i <= all.len(),
            all@ == value@,
            forall|j: int| 0 <= j < i ==> filename_character(#[trigger] value@[j]),
        decreases all.len() - i,
    {
        let c = all[i];
        if !(('a' <= c && c <= 'z') || ('A' <= c && c <= 'Z') || ('0' <= c && c <= '9') || c == '.'
            || c == '_' || c == '-') {
            assert(!filename_character(value@[i as int]));
            return Err(SettingsError::Filename { key });
        }
        i += 1;
    }
    Ok(())
}

/// A value that stays on one line.
pub open spec fn single_line(s: Seq<char>) -> bool {
    !s.contains('\n') && !s.contains('\r') && !s.contains('\0')
}

fn is_single_line(value: &str) -> (result: bool)
    ensures
        result == single_line(value@),
{
    !has_character(value, '\n') && !has_character(value, '\r') && !has_character(value, '\0')
}

pub open spec fn base64_character(c: char) -> bool {
    ascii_lower(c) || 'A' <= c <= 'Z' || ascii_digit(c) || c == '+' || c == '/' || c == '='
}

/// What is wrong with a Minisign public key, if anything; it may be empty.
pub open spec fn minisign_key_fault(value: Seq<char>) -> Option<SettingsError> {
    if !single_line(value) {
        Some(SettingsError::PublicValue { key: SettingKey::MinisignPublicKey })
    } else if value.len() > 0 && !("RW"@.is_prefix_of(value) && forall|i: int|
        0 <= i < value.len() ==> base64_character(#[trigger] value[i])) {
        Some(SettingsError::MinisignKey)
    } else {
        None
    }
}

pub fn validate_minisign_public_key(value: &str) -> (result: Result<(), SettingsError>)
    ensures
        match result {
            Ok(_) => minisign_key_fault(value@) is None,
            Err(error) => minisign_key_fault(value@) == Some(error),
        },
{
    if !is_single_line(value) {
        return Err(SettingsError::PublicValue { key: SettingKey::MinisignPublicKey });
    }
    if value.is_empty() {
        return Ok(());
    }
    if !starts_with(value, "RW") {
        return Err(SettingsError::MinisignKey);
    }
    let all = characters(value);
    let mut i: usize = 0;
    while i < all.len()
        invariant
            i <= all.len(),
            all@ == value@,
            value@.len() > 0,
            single_line(value@),
            "RW"@.is_prefix_of(value@),
            forall|j: int| 0 <= j < i ==> base64_character(#[trigger] value@[j]),
        decreases all.len() - i,
    {
        let c = all[i];
        if !(('a' <= c && c <= 'z') || ('A' <= c && c <= 'Z') || ('0' <= c && c <= '9') || c == '+'
            || c == '/' || c == '=') {
            assert(!base64_character(value@[i as int]));
            return Err(SettingsError::MinisignKey);
        }
        i += 1;
    }
    Ok(())
}

/// The channel of a package version: stable without a prerelease, otherwise the
/// first identifier of the prerelease.
pub open spec fn detected_channel(version: Seq<char>) -> Result<Seq<char>, SettingsError> {
    match semver_version(version) {
        None => Err(SettingsError::PackageVersion),
        Some(version) => Ok(channel_of_prerelease(version.pre)),
    }
}

pub open spec fn channel_of_prerelease(pre: Seq<char>) -> Seq<char> {
    if pre.len() == 0 {
        "stable"@
    } else {
        split(pre, '.')[0]
    }
}

/// The channel that a prerelease belongs to.
pub fn prerelease_channel(pre: &str) -> (result: String)
    ensures
        result@ == channel_of_prerelease(pre@),
{
    if pre.is_empty() {
        return "stable".to_owned();
    }
    let identifiers = fields(pre, '.');
    assert(split(pre@, '.')[0] == identifiers@[0]@);
    identifiers[0].clone()
}

/// Detects the channel of a package version.
pub fn detect_channel(package_version: &str) -> (result: Result<String, SettingsError>)
    ensures
        text_view(result) == detected_channel(package_version@),
{
    match Version::parse(package_version) {
        Some(version) => Ok(prerelease_channel(&version.pre)),
        None => Err(SettingsError::PackageVersion),
    }
}

/// The settings of a build.
#[derive(Debug)]
pub struct BuildSettings {
    pub repo_url: String,
    pub update_base_url: String,
    pub cdn_base_url: String,
    pub artifact_base_url_template: String,
    pub release_channel: String,
    pub release_manifest: String,
    pub tauri_update_manifest: String,
    pub tauri_updater_pubkey: String,
    pub minisign_public_key: String,
}

/// What the settings of a build are.
pub struct BuildModel {
    pub repo_url: Seq<char>,
    pub update_base_url: Seq<char>,
    pub cdn_base_url: Seq<char>,
    pub artifact_base_url_template: Seq<char>,
    pub release_channel: Seq<char>,
    pub release_manifest: Seq<char>,
    pub tauri_update_manifest: Seq<char>,
    pub tauri_updater_pubkey: Seq<char>,
    pub minisign_public_key: Seq<char>,
}

impl View for BuildSettings {
    type V = BuildModel;

    open spec fn view(&self) -> BuildModel {
        BuildModel {
            repo_url: self.repo_url@,
            update_base_url: self.update_base_url@,
            cdn_base_url: self.cdn_base_url@,
            artifact_base_url_template: self.artifact_base_url_template@,
            release_channel: self.release_channel@,
            release_manifest: self.release_manifest@,
            tauri_update_manifest: self.tauri_update_manifest@,
            tauri_updater_pubkey: self.tauri_updater_pubkey@,
            minisign_public_key: self.minisign_public_key@,
        }
    }
}

/// The channel of a build: the one that is set, or the package version's.
pub open spec fn build_channel(settings: Settings, package_version: Seq<char>) -> Result<
    Seq<char>,
    SettingsError,
> {
    let channel = if has_value(settings, SettingKey::ReleaseChannel) {
        Ok(setting(settings, SettingKey::ReleaseChannel)->0)
    } else {
        detected_channel(package_version)
    };
    match channel {
        Ok(channel) => if supported_channel(channel) {
            Ok(channel)
        } else {
            Err(SettingsError::Channel)
        },
        Err(error) => Err(error),
    }
}

/// Where a build looks for manifests.
pub open spec fn build_update_base(settings: Settings, repo_url: Seq<char>, channel: Seq<char>) -> Result<
    Seq<char>,
    SettingsError,
> {
    if has_value(settings, SettingKey::UpdateBaseUrl) {
        Ok(setting(settings, SettingKey::UpdateBaseUrl)->0)
    } else {
        default_base(repo_url, channel)
    }
}

/// A key's trimmed value, which may be empty.
pub open spec fn trimmed_setting(settings: Settings, key: SettingKey) -> Seq<char> {
    match setting(settings, key) {
        Some(value) => trim(value),
        None => Seq::empty(),
    }
}

/// The settings that a file and a package version lead to, before the last look
/// at their characters.
pub open spec fn drafted(settings: Settings, package_version: Seq<char>) -> Result<
    BuildModel,
    SettingsError,
> {
    let repo_url = value_or(settings, SettingKey::RepoUrl, DEFAULT_REPO_URL@);
    let cdn = trimmed_setting(settings, SettingKey::CdnBaseUrl);
    let template = value_or(
        settings,
        SettingKey::ArtifactBaseUrlTemplate,
        default_template(repo_url),
    );
    let manifest = value_or(settings, SettingKey::ReleaseManifest, DEFAULT_RELEASE_MANIFEST@);
    let tauri = value_or(settings, SettingKey::TauriUpdateManifest, DEFAULT_TAURI_MANIFEST@);
    let pubkey = trimmed_setting(settings, SettingKey::TauriUpdaterPubkey);
    let minisign = trimmed_setting(settings, SettingKey::MinisignPublicKey);
    match (
        base_fault(repo_url, SettingKey::RepoUrl),
        build_channel(settings, package_version),
    ) {
        (Some(error), _) => Err(error),
        (None, Err(error)) => Err(error),
        (None, Ok(channel)) => match build_update_base(settings, repo_url, channel) {
            Err(error) => Err(error),
            Ok(base) => if base_fault(base, SettingKey::UpdateBaseUrl) is Some {
                Err(base_fault(base, SettingKey::UpdateBaseUrl)->0)
            } else if cdn.len() > 0 && base_fault(cdn, SettingKey::CdnBaseUrl) is Some {
                Err(base_fault(cdn, SettingKey::CdnBaseUrl)->0)
            } else if template_fault(template) is Some {
                Err(template_fault(template)->0)
            } else if !manifest_filename(manifest) {
                Err(SettingsError::Filename { key: SettingKey::ReleaseManifest })
            } else if !manifest_filename(tauri) {
                Err(SettingsError::Filename { key: SettingKey::TauriUpdateManifest })
            } else if !single_line(pubkey) {
                Err(SettingsError::PublicValue { key: SettingKey::TauriUpdaterPubkey })
            } else if minisign_key_fault(minisign) is Some {
                Err(minisign_key_fault(minisign)->0)
            } else {
                Ok(
                    BuildModel {
                        repo_url: without_trailing(repo_url, '/'),
                        update_base_url: without_trailing(base, '/'),
                        cdn_base_url: without_trailing(cdn, '/'),
                        artifact_base_url_template: without_trailing(template, '/'),
                        release_channel: channel,
                        release_manifest: manifest,
                        tauri_update_manifest: tauri,
                        tauri_updater_pubkey: pubkey,
                        minisign_public_key: minisign,
                    },
                )
            },
        },
    }
}

/// The settings of a build: drafted, and every URL on one line.
pub open spec fn build_settings(settings: Settings, package_version: Seq<char>) -> Result<
    BuildModel,
    SettingsError,
> {
    match drafted(settings, package_version) {
        Err(error) => Err(error),
        Ok(build) => if !single_line(build.repo_url) {
            Err(SettingsError::Forbidden { key: SettingKey::RepoUrl })
        } else if !single_line(build.update_base_url) {
            Err(SettingsError::Forbidden { key: SettingKey::UpdateBaseUrl })
        } else if !single_line(build.cdn_base_url) {
            Err(SettingsError::Forbidden { key: SettingKey::CdnBaseUrl })
        } else if !single_line(build.artifact_base_url_template) {
            Err(SettingsError::Forbidden { key: SettingKey::ArtifactBaseUrlTemplate })
        } else {
            Ok(build)
        },
    }
}

fn trimmed_value(values: &Vec<(SettingKey, String)>, key: SettingKey) -> (result: String)
    ensures
        result@ == trimmed_setting(settings_view(values@), key),
{
    match find_setting(values, key) {
        Some(i) => trimmed(&values[i].1),
        None => String::new(),
    }
}

fn draft(values: &Vec<(SettingKey, String)>, package_version: &str) -> (result: Result<
    BuildSettings,
    SettingsError,
>)
    ensures
        match result {
            Ok(build) => drafted(settings_view(values@), package_version@) == Ok::<
                BuildModel,
                SettingsError,
            >(build@),
            Err(error) => drafted(settings_view(values@), package_version@) == Err::<
                BuildModel,
                SettingsError,
            >(error),
        },
{
    let repo_url = chosen_or(values, SettingKey::RepoUrl, DEFAULT_REPO_URL);
    match validate_base(&repo_url, SettingKey::RepoUrl) {
        Ok(()) => {},
        Err(error) => return Err(error),
    }
    let release_channel = match chosen_value(values, SettingKey::ReleaseChannel) {
        Some(channel) => channel,
        None => match detect_channel(package_version) {
            Ok(channel) => channel,
            Err(error) => return Err(error),
        },
    };
    if !is_supported_channel(&release_channel) {
        return Err(SettingsError::Channel);
    }
    let update_base = match chosen_value(values, SettingKey::UpdateBaseUrl) {
        Some(base) => base,
        None => match default_update_base(&repo_url, &release_channel) {
            Ok(base) => base,
            Err(error) => return Err(error),
        },
    };
    match validate_base(&update_base, SettingKey::UpdateBaseUrl) {
        Ok(()) => {},
        Err(error) => return Err(error),
    }
    let cdn = trimmed_value(values, SettingKey::CdnBaseUrl);
    if !cdn.as_str().is_empty() {
        match validate_base(&cdn, SettingKey::CdnBaseUrl) {
            Ok(()) => {},
            Err(error) => return Err(error),
        }
    }
    let template = match chosen_value(values, SettingKey::ArtifactBaseUrlTemplate) {
        Some(template) => template,
        None => default_artifact_template(&repo_url),
    };
    match validate_artifact_template(&template) {
        Ok(()) => {},
        Err(error) => return Err(error),
    }
    let release_manifest = chosen_or(values, SettingKey::ReleaseManifest, DEFAULT_RELEASE_MANIFEST);
    let tauri_update_manifest = chosen_or(
        values,
        SettingKey::TauriUpdateManifest,
        DEFAULT_TAURI_MANIFEST,
    );
    match validate_filename(&release_manifest, SettingKey::ReleaseManifest) {
        Ok(()) => {},
        Err(error) => return Err(error),
    }
    match validate_filename(&tauri_update_manifest, SettingKey::TauriUpdateManifest) {
        Ok(()) => {},
        Err(error) => return Err(error),
    }
    let tauri_updater_pubkey = trimmed_value(values, SettingKey::TauriUpdaterPubkey);
    if !is_single_line(&tauri_updater_pubkey) {
        return Err(SettingsError::PublicValue { key: SettingKey::TauriUpdaterPubkey });
    }
    let minisign_public_key = trimmed_value(values, SettingKey::MinisignPublicKey);
    match validate_minisign_public_key(&minisign_public_key) {
        Ok(()) => {},
        Err(error) => return Err(error),
    }
    Ok(
        BuildSettings {
            repo_url: trim_trailing(&repo_url, '/'),
            update_base_url: trim_trailing(&update_base, '/'),
            cdn_base_url: trim_trailing(&cdn, '/'),
            artifact_base_url_template: trim_trailing(&template, '/'),
            release_channel,
            release_manifest,
            tauri_update_manifest,
            tauri_updater_pubkey,
            minisign_public_key,
        },
    )
}

impl BuildSettings {
    /// The settings of a build from those of the file and the package version.
    pub fn from_values(values: &Vec<(SettingKey, String)>, package_version: &str) -> (result:
        Result<BuildSettings, SettingsError>)
        ensures
            match result {
                Ok(build) => build_settings(settings_view(values@), package_version@) == Ok::<
                    BuildModel,
                    SettingsError,
                >(build@),
                Err(error) => build_settings(settings_view(values@), package_version@) == Err::<
                    BuildModel,
                    SettingsError,
                >(error),
            },
    {
        let build = match draft(values, package_version) {
            Ok(build) => build,
            Err(error) => return Err(error),
        };
        if !is_single_line(&build.repo_url) {
            return Err(SettingsError::Forbidden { key: SettingKey::RepoUrl });
        }
        if !is_single_line(&build.update_base_url) {
            return Err(SettingsError::Forbidden { key: SettingKey::UpdateBaseUrl });
        }
        if !is_single_line(&build.cdn_base_url) {
            return Err(SettingsError::Forbidden { key: SettingKey::CdnBaseUrl });
        }
        if !is_single_line(&build.artifact_base_url_template) {
            return Err(SettingsError::Forbidden { key: SettingKey::ArtifactBaseUrlTemplate });
        }
        Ok(build)
    }
}

/// A build never follows a channel that CentralD does not serve.
pub proof fn build_channel_is_supported(settings: Settings, package_version: Seq<char>)
    ensures
        build_settings(settings, package_version) matches Ok(build) ==> supported_channel(
            build.release_channel,
        ),
{
}

/// No two names set one value, and each name sets its own.
pub proof fn settings_have_their_own_names(left: Seq<char>, right: Seq<char>)
    ensures
        key_named(left) is Some && key_named(left) == key_named(right) ==> left == right,
        key_named("REPO_URL"@) == Some(SettingKey::RepoUrl),
        key_named("UPDATE_BASE_URL"@) == Some(SettingKey::UpdateBaseUrl),
        key_named("ARTIFACT_BASE_URL_TEMPLATE"@) == Some(SettingKey::ArtifactBaseUrlTemplate),
        key_named("CDN_BASE_URL"@) == Some(SettingKey::CdnBaseUrl),
        key_named("RELEASE_CHANNEL"@) == Some(SettingKey::ReleaseChannel),
        key_named("RELEASE_MANIFEST"@) == Some(SettingKey::ReleaseManifest),
        key_named("TAURI_UPDATE_MANIFEST"@) == Some(SettingKey::TauriUpdateManifest),
        key_named("TAURI_UPDATER_PUBKEY"@) == Some(SettingKey::TauriUpdaterPubkey),
        key_named("MINISIGN_PUBLIC_KEY"@) == Some(SettingKey::MinisignPublicKey),
{
    reveal_strlit("REPO_URL");
    reveal_strlit("UPDATE_BASE_URL");
    reveal_strlit("ARTIFACT_BASE_URL_TEMPLATE");
    reveal_strlit("CDN_BASE_URL");
    reveal_strlit("RELEASE_CHANNEL");
    reveal_strlit("RELEASE_MANIFEST");
    reveal_strlit("TAURI_UPDATE_MANIFEST");
    reveal_strlit("TAURI_UPDATER_PUBKEY");
    reveal_strlit("MINISIGN_PUBLIC_KEY");
    assert("REPO_URL"@.len() == 8
        && "UPDATE_BASE_URL"@.len() == 15
        && "ARTIFACT_BASE_URL_TEMPLATE"@.len() == 26
        && "CDN_BASE_URL"@.len() == 12
        && "RELEASE_CHANNEL"@.len() == 15
        && "RELEASE_MANIFEST"@.len() == 16
        && "TAURI_UPDATE_MANIFEST"@.len() == 21
        && "TAURI_UPDATER_PUBKEY"@.len() == 20
        && "MINISIGN_PUBLIC_KEY"@.len() == 19);
    assert("UPDATE_BASE_URL"@[0] == 'U' && "RELEASE_CHANNEL"@[0] == 'R');
}

/// A line sets at most one value, which was not set before, and leaves the others as they are; a
/// blank line or a comment sets none.
pub proof fn lines_set_one_value(settings: Settings, raw_line: Seq<char>, number: int)
    ensures
        with_line(settings, raw_line, number) matches Ok(then) ==> {
            ||| then == settings && (trim(raw_line).len() == 0 || trim(raw_line)[0] == '#')
            ||| {
                &&& then.len() == settings.len() + 1
                &&& then.drop_last() == settings
                &&& setting(settings, then.last().0) is None
                &&& split_first(trim(raw_line), '=') matches Some((name, value))
                &&& key_named(trim(name)) == Some(then.last().0)
                &&& then.last().1 == unquoted(trim(value))
            }
        },
        trim(raw_line).len() == 0 || trim(raw_line)[0] == '#' ==> with_line(
            settings,
            raw_line,
            number,
        ) == Ok::<Settings, SettingsError>(settings),
{
    if with_line(settings, raw_line, number) is Ok {
        let then = with_line(settings, raw_line, number)->Ok_0;
        if then.len() > settings.len() {
            assert(then.drop_last() =~= settings);
        }
    }
}

/// A value in quotes loses them and keeps what is between them; any other value is kept.
pub proof fn quotes_are_taken_off(s: Seq<char>, inner: Seq<char>)
    ensures
        unquoted(seq!['"'] + inner + seq!['"']) == inner,
        unquoted(seq!['\''] + inner + seq!['\'']) == inner,
        s.len() < 2 || (s.first() != '"' && s.first() != '\'') || s.first() != s.last()
            ==> unquoted(s) == s,
{
    assert(unquoted(seq!['"'] + inner + seq!['"']) =~= inner);
    assert(unquoted(seq!['\''] + inner + seq!['\'']) =~= inner);
}

/// What was set is used as it was set, and a default stands only for what was not set or is blank.
pub proof fn set_values_are_used(settings: Settings, key: SettingKey, default: Seq<char>)
    ensures
        setting(settings, key) is Some && trim(setting(settings, key)->0).len() > 0 ==> value_or(
            settings,
            key,
            default,
        ) == setting(settings, key)->0,
        setting(settings, key) is None || trim(setting(settings, key)->0).len() == 0 ==> value_or(
            settings,
            key,
            default,
        ) == default,
{
}

/// A base address is accepted exactly if it is HTTPS with a host and nothing that hides where it
/// leads.
pub proof fn plain_bases_are_accepted(value: Seq<char>, key: SettingKey)
    ensures
        base_fault(value, key) is None <==> {
            let text = trim(value);
            &&& after_prefix(text, "https://"@) is Some
            &&& after_prefix(text, "https://"@)->0.len() > 0
            &&& after_prefix(text, "https://"@)->0[0] != '/'
            &&& !text.contains('@')
            &&& !text.contains('?')
            &&& !text.contains('#')
            &&& forall|i: int| 0 <= i < text.len() ==> !#[trigger] white_space(text[i])
        },
{
}

/// What a build is made with is what was set: its channel, its names, its keys and its addresses,
/// without the slashes behind them.
pub proof fn builds_are_made_as_set(settings: Settings, package_version: Seq<char>)
    ensures
        build_settings(settings, package_version) matches Ok(build) ==> {
            &&& build_channel(settings, package_version) == Ok::<Seq<char>, SettingsError>(
                build.release_channel,
            )
            &&& has_value(settings, SettingKey::ReleaseChannel) ==> build.release_channel
                == setting(settings, SettingKey::ReleaseChannel)->0
            &&& has_value(settings, SettingKey::RepoUrl) ==> build.repo_url == without_trailing(
                setting(settings, SettingKey::RepoUrl)->0,
                '/',
            )
            &&& has_value(settings, SettingKey::UpdateBaseUrl) ==> build.update_base_url
                == without_trailing(setting(settings, SettingKey::UpdateBaseUrl)->0, '/')
            &&& has_value(settings, SettingKey::ArtifactBaseUrlTemplate)
                ==> build.artifact_base_url_template == without_trailing(
                setting(settings, SettingKey::ArtifactBaseUrlTemplate)->0,
                '/',
            )
            &&& has_value(settings, SettingKey::ReleaseManifest) ==> build.release_manifest
                == setting(settings, SettingKey::ReleaseManifest)->0
            &&& has_value(settings, SettingKey::TauriUpdateManifest) ==> build.tauri_update_manifest
                == setting(settings, SettingKey::TauriUpdateManifest)->0
            &&& has_value(settings, SettingKey::MinisignPublicKey) ==> build.minisign_public_key
                == trim(setting(settings, SettingKey::MinisignPublicKey)->0)
            &&& has_value(settings, SettingKey::TauriUpdaterPubkey) ==> build.tauri_updater_pubkey
                == trim(setting(settings, SettingKey::TauriUpdaterPubkey)->0)
            &&& has_value(settings, SettingKey::CdnBaseUrl) ==> build.cdn_base_url
                == without_trailing(trim(setting(settings, SettingKey::CdnBaseUrl)->0), '/')
            &&& manifest_filename(build.release_manifest)
            &&& manifest_filename(build.tauri_update_manifest)
            &&& minisign_key_fault(build.minisign_public_key) is None
            &&& single_line(build.repo_url) && single_line(build.update_base_url) && single_line(
                build.cdn_base_url,
            ) && single_line(build.artifact_base_url_template)
        },
{
}

/// A build follows the channel that was set, or else that of its own version: the first word of a
/// prerelease, and stable for a release.
pub proof fn builds_follow_their_channel(settings: Settings, package_version: Seq<char>)
    ensures
        build_channel(settings, package_version) matches Ok(channel) ==> {
            &&& channel == "stable"@ || channel == "alpha"@ || channel == "beta"@
            &&& !has_value(settings, SettingKey::ReleaseChannel) ==> {
                &&& semver_version(package_version) is Some
                &&& semver_version(package_version)->0.pre.len() == 0 ==> channel == "stable"@
                &&& semver_version(package_version)->0.pre.len() > 0 ==> channel == split(
                    semver_version(package_version)->0.pre,
                    '.',
                )[0]
            }
        },
{
}

} // verus!
