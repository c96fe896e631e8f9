//! Semantic versions.

use vstd::prelude::*;

use crate::text::{
    before, before_is_total, before_is_transitive, decimal, numeral, same_text, split,
};

verus! {

/// A semantic version.
#[derive(Debug)]
pub struct Version {
    pub major: u64,
    pub minor: u64,
    pub patch: u64,
    pub pre: String,
    pub build: String,
}

/// What a semantic version is.
pub struct VersionModel {
    pub major: u64,
    pub minor: u64,
    pub patch: u64,
    pub pre: Seq<char>,
    pub build: Seq<char>,
}

impl View for Version {
    type V = VersionModel;

    open spec fn view(&self) -> VersionModel {
        VersionModel {
            major: self.major,
            minor: self.minor,
            patch: self.patch,
            pre: self.pre@,
            build: self.build@,
        }
    }
}

impl Clone for Version {
    fn clone(&self) -> (result: Version)
        ensures
            result == *self,
    {
        Version {
            major: self.major,
            minor: self.minor,
            patch: self.patch,
            pre: self.pre.clone(),
            build: self.build.clone(),
        }
    }
}

/// The version that `semver::Version::parse` reads from a text, or why it reads
/// none.
pub uninterp spec fn semver_reading(text: Seq<char>) -> Result<VersionModel, Seq<char>>;

/// The version in a text, if there is one.
pub open spec fn semver_version(text: Seq<char>) -> Option<VersionModel> {
    match semver_reading(text) {
        Ok(version) => Some(version),
        Err(_) => None,
    }
}

pub open spec fn is_digit(c: char) -> bool {
    '0' <= c <= '9'
}

/// Whether an identifier of a prerelease is a number.
pub open spec fn is_numeric(s: Seq<char>) -> bool {
    forall|i: int| 0 <= i < s.len() ==> is_digit(#[trigger] s[i])
}

/// Whether a text is an identifier of a prerelease: of letters, digits and
/// hyphens, and without a superfluous zero where it is a number.
pub open spec fn is_identifier(s: Seq<char>) -> bool {
    &&& s.len() > 0
    &&& forall|i: int|
        0 <= i < s.len() ==> is_digit(#[trigger] s[i]) || 'a' <= s[i] <= 'z' || 'A' <= s[i] <= 'Z'
            || s[i] == '-'
    &&& is_numeric(s) && s.len() > 1 ==> s[0] != '0'
}

/// A prerelease: identifiers between dots. What is no prerelease counts as none.
pub open spec fn prerelease(s: Seq<char>) -> Seq<char> {
    if forall|i: int| 0 <= i < split(s, '.').len() ==> is_identifier(#[trigger] split(s, '.')[i]) {
        s
    } else {
        Seq::empty()
    }
}

/// Whether one identifier has a higher precedence than another: numbers by their
/// value, texts by their characters, and texts after numbers.
pub open spec fn identifier_after(left: Seq<char>, right: Seq<char>) -> bool {
    if is_numeric(left) && is_numeric(right) {
        left.len() > right.len() || (left.len() == right.len() && before(right, left))
    } else if is_numeric(left) || is_numeric(right) {
        is_numeric(right)
    } else {
        before(right, left)
    }
}

/// Whether identifiers from a place on have a higher precedence than others: by
/// the first that differs, and more of them after fewer.
pub open spec fn identifiers_after(left: Seq<Seq<char>>, right: Seq<Seq<char>>, from: int) -> bool
    decreases left.len() - from,
{
    if from < 0 || from >= left.len() {
        false
    } else if from >= right.len() {
        true
    } else if left[from] == right[from] {
        identifiers_after(left, right, from + 1)
    } else {
        identifier_after(left[from], right[from])
    }
}

/// Whether one prerelease has a higher precedence than another. None at all comes
/// after any.
pub open spec fn prerelease_after(left: Seq<char>, right: Seq<char>) -> bool {
    if left.len() == 0 || right.len() == 0 {
        left.len() == 0 && right.len() > 0
    } else {
        identifiers_after(split(left, '.'), split(right, '.'), 0)
    }
}

/// Calls `semver::Version::parse`. The contract names the version.
#[verifier::external_body]
fn semver_parse(text: &str) -> (result: Result<Version, String>)
    ensures
        match result {
            Ok(version) => semver_reading(text@) == Ok::<VersionModel, Seq<char>>(version@),
            Err(message) => semver_reading(text@) == Err::<VersionModel, Seq<char>>(message@),
        },
{
    let version = semver::Version::parse(text).map_err(|error| error.to_string())?;
    Ok(Version {
        major: version.major,
        minor: version.minor,
        patch: version.patch,
        pre: version.pre.as_str().to_owned(),
        build: version.build.as_str().to_owned(),
    })
}

/// Whether the numbers of one version come after those of another.
pub open spec fn numbers_after(left: VersionModel, right: VersionModel) -> bool {
    ||| left.major > right.major
    ||| left.major == right.major && left.minor > right.minor
    ||| left.major == right.major && left.minor == right.minor && left.patch > right.patch
}

pub open spec fn same_numbers(left: VersionModel, right: VersionModel) -> bool {
    left.major == right.major && left.minor == right.minor && left.patch == right.patch
}

/// Whether one version has a higher precedence than another: by the numbers,
/// and among equal numbers by the prerelease. Build metadata does not count.
pub open spec fn supersedes(left: VersionModel, right: VersionModel) -> bool {
    numbers_after(left, right) || (same_numbers(left, right) && prerelease_after(
        prerelease(left.pre),
        prerelease(right.pre),
    ))
}

proof fn identifiers_are_asymmetric(left: Seq<Seq<char>>, right: Seq<Seq<char>>, from: int)
    requires
        identifiers_after(left, right, from),
    ensures
        !identifiers_after(right, left, from),
    decreases left.len() - from,
{
    if from < right.len() {
        if left[from] == right[from] {
            identifiers_are_asymmetric(left, right, from + 1);
        } else {
            before_is_total(left[from], right[from]);
        }
    }
}

proof fn identifiers_are_transitive(
    first: Seq<Seq<char>>,
    second: Seq<Seq<char>>,
    third: Seq<Seq<char>>,
    from: int,
)
    requires
        identifiers_after(first, second, from),
        identifiers_after(second, third, from),
    ensures
        identifiers_after(first, third, from),
    decreases first.len() - from,
{
    if from < second.len() && from < third.len() {
        let (a, b, c) = (first[from], second[from], third[from]);
        if a == b && b == c {
            identifiers_are_transitive(first, second, third, from + 1);
        } else if a != b && b != c {
            before_is_total(a, b);
            before_is_total(b, c);
            if before(b, a) && before(c, b) {
                before_is_transitive(c, b, a);
            }
            if a == c {
                assert(identifier_after(a, b) && identifier_after(b, a));
            }
        }
    }
}

/// Of two versions at most one has the higher precedence, and none has a higher
/// one than itself.
pub proof fn newer_is_not_older(left: VersionModel, right: VersionModel)
    requires
        supersedes(left, right),
    ensures
        !supersedes(right, left),
        left != right,
{
    let (l, r) = (prerelease(left.pre), prerelease(right.pre));
    if l.len() > 0 && r.len() > 0 && prerelease_after(l, r) {
        identifiers_are_asymmetric(split(l, '.'), split(r, '.'), 0);
    }
}

/// A version that is newer than a newer one is newer: updates never lead back.
pub proof fn newer_is_transitive(first: VersionModel, second: VersionModel, third: VersionModel)
    requires
        supersedes(first, second),
        supersedes(second, third),
    ensures
        supersedes(first, third),
{
    let (a, b, c) = (prerelease(first.pre), prerelease(second.pre), prerelease(third.pre));
    if same_numbers(first, second) && same_numbers(second, third) && a.len() > 0 && b.len() > 0
        && c.len() > 0 {
        identifiers_are_transitive(split(a, '.'), split(b, '.'), split(c, '.'), 0);
    }
}

/// Build metadata does not make a version newer.
pub proof fn build_metadata_does_not_count(left: VersionModel, right: VersionModel)
    requires
        same_numbers(left, right),
        left.pre == right.pre,
    ensures
        !supersedes(left, right),
{
    if supersedes(left, right) {
        newer_is_not_older(left, VersionModel { build: left.build, ..right });
    }
}

/// Calls `semver::Version::cmp_precedence` and asks whether the first version
/// comes later. It compares the numbers first and the prereleases last, as
/// `semver::Prerelease` orders them; a prerelease that `semver::Prerelease::new`
/// does not accept is left out.
#[verifier::external_body]
fn semver_supersedes(left: &Version, right: &Version) -> (result: bool)
    ensures
        result == supersedes(left@, right@),
{
    let [left, right] = [left, right].map(|version| {
        let mut made = semver::Version::new(version.major, version.minor, version.patch);
        made.pre = semver::Prerelease::new(&version.pre).unwrap_or_default();
        made
    });
    left.cmp_precedence(&right).is_gt()
}

/// How a version is written.
pub open spec fn version_text(version: VersionModel) -> Seq<char> {
    let numbers = numeral(version.major as nat, 10).push('.') + numeral(
        version.minor as nat,
        10,
    ).push('.') + numeral(version.patch as nat, 10);
    let with_pre = if version.pre.len() == 0 {
        numbers
    } else {
        numbers.push('-') + version.pre
    };
    if version.build.len() == 0 {
        with_pre
    } else {
        with_pre.push('+') + version.build
    }
}

impl Version {
    /// Reads a semantic version.
    pub fn parse(text: &str) -> (result: Option<Version>)
        ensures
            match result {
                Some(version) => semver_version(text@) == Some(version@),
                None => semver_version(text@) is None,
            },
    {
        match semver_parse(text) {
            Ok(version) => Some(version),
            Err(_) => None,
        }
    }

    /// Reads a semantic version, or tells why there is none.
    pub fn read(text: &str) -> (result: Result<Version, String>)
        ensures
            match result {
                Ok(version) => semver_reading(text@) == Ok::<VersionModel, Seq<char>>(version@),
                Err(message) => semver_reading(text@) == Err::<VersionModel, Seq<char>>(message@),
            },
    {
        semver_parse(text)
    }

    /// Whether two versions are the same, build metadata included.
    pub fn same(&self, other: &Version) -> (result: bool)
        ensures
            result == (self@ == other@),
    {
        self.major == other.major && self.minor == other.minor && self.patch == other.patch
            && same_text(&self.pre, &other.pre) && same_text(&self.build, &other.build)
    }

    /// Whether this version has a higher precedence than another.
    pub fn comes_after(&self, other: &Version) -> (result: bool)
        ensures
            result == supersedes(self@, other@),
    {
        semver_supersedes(self, other)
    }

    /// Writes the version.
    pub fn text(&self) -> (result: String)
        ensures
            result@ == version_text(self@),
    {
        let mut result = decimal(self.major);
        result.push('.');
        result.append(&decimal(self.minor));
        result.push('.');
        result.append(&decimal(self.patch));
        assert(result@ =~= numeral(self.major as nat, 10).push('.') + numeral(
            self.minor as nat,
            10,
        ).push('.') + numeral(self.patch as nat, 10));
        if !self.pre.as_str().is_empty() {
            result.push('-');
            result.append(&self.pre);
        }
        if !self.build.as_str().is_empty() {
            result.push('+');
            result.append(&self.build);
        }
        result
    }
}

/// A version with a greater number is newer, whatever else it holds; and a release is newer than
/// its own prereleases.
pub proof fn greater_numbers_are_newer(left: VersionModel, right: VersionModel)
    ensures
        left.major > right.major ==> supersedes(left, right),
        left.major < right.major ==> !supersedes(left, right),
        left.major == right.major && left.minor > right.minor ==> supersedes(left, right),
        left.major == right.major && left.minor < right.minor ==> !supersedes(left, right),
        left.major == right.major && left.minor == right.minor && left.patch > right.patch
            ==> supersedes(left, right),
        left.major == right.major && left.minor == right.minor && left.patch < right.patch
            ==> !supersedes(left, right),
        left.major == right.major && left.minor == right.minor && left.patch == right.patch
            && left.pre.len() == 0 && prerelease(right.pre).len() > 0 ==> supersedes(left, right),
        left.major == right.major && left.minor == right.minor && left.patch == right.patch
            && right.pre.len() == 0 ==> !supersedes(left, right),
{
    assert(prerelease(Seq::<char>::empty()).len() == 0);
    if left.pre.len() == 0 {
        assert(left.pre =~= Seq::<char>::empty());
    }
    if right.pre.len() == 0 {
        assert(right.pre =~= Seq::<char>::empty());
    }
}

/// Prereleases are told apart by their first field that differs: numbers by their value, and a
/// number comes before a word. One that goes on is newer than one that ends.
pub proof fn prereleases_are_ordered_by_field(
    left: Seq<Seq<char>>,
    right: Seq<Seq<char>>,
    from: int,
    at: int,
)
    requires
        0 <= from <= at,
        at <= left.len(),
        at <= right.len(),
        forall|i: int| from <= i < at ==> #[trigger] left[i] == right[i],
    ensures
        at < left.len() && at == right.len() ==> identifiers_after(left, right, from),
        at == left.len() ==> !identifiers_after(left, right, from),
        at < left.len() && at < right.len() && left[at] != right[at] ==> {
            &&& identifiers_after(left, right, from) == identifier_after(left[at], right[at])
            &&& is_numeric(right[at]) && !is_numeric(left[at]) ==> identifiers_after(
                left,
                right,
                from,
            )
            &&& is_numeric(left[at]) && !is_numeric(right[at]) ==> !identifiers_after(
                left,
                right,
                from,
            )
            &&& is_numeric(left[at]) && is_numeric(right[at]) && left[at].len() > right[at].len()
                ==> identifiers_after(left, right, from)
            &&& is_numeric(left[at]) && is_numeric(right[at]) && left[at].len() < right[at].len()
                ==> !identifiers_after(left, right, from)
        },
    decreases at - from,
{
    if from < at {
        prereleases_are_ordered_by_field(left, right, from + 1, at);
    }
}

} // verus!
