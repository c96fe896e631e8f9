//! Points in time, in UTC.

use vstd::prelude::*;
use vstd::utf8::encode_utf8;

use crate::codec::quoted;

verus! {

/// The first second that a date can name.
pub const FIRST_SECOND: i64 = -8334601228800;

/// The last second that a date can name.
pub const LAST_SECOND: i64 = 8210266876799;

pub const SECONDS_PER_DAY: i64 = 86_400;

/// A point in time: whole seconds since the Unix epoch and the nanoseconds that
/// follow them. A second that ends a minute may have up to two billion
/// nanoseconds, which is how a leap second is written.
#[derive(Debug, Clone, Copy, PartialEq, Eq, Structural)]
pub struct Timestamp {
    seconds: i64,
    nanos: u32,
}

/// Whether seconds and nanoseconds name a point in time.
pub open spec fn nameable(seconds: int, nanos: int) -> bool {
    &&& FIRST_SECOND <= seconds <= LAST_SECOND
    &&& 0 <= nanos < 2_000_000_000
    &&& nanos >= 1_000_000_000 ==> seconds % 60 == 59
}

/// The point in time is written in RFC 3339 as the text that
/// `chrono::DateTime::to_rfc3339_opts` gives with as many fractional digits as
/// the value needs and `Z` for the offset.
pub uninterp spec fn rfc3339(seconds: i64, nanos: u32) -> Seq<char>;

/// The RFC 3339 text of a point in time with a numeric offset, as
/// `chrono::DateTime::to_rfc3339` gives it.
pub uninterp spec fn rfc3339_with_offset(seconds: i64, nanos: u32) -> Seq<char>;

/// A character that the text of a point in time can have.
pub open spec fn moment_character(c: char) -> bool {
    '0' <= c <= '9' || c == '-' || c == '+' || c == ':' || c == '.' || c == 'T' || c == 'Z'
}

/// Calls `chrono::DateTime::to_rfc3339_opts` with `SecondsFormat::AutoSi` and a
/// `Z` suffix, which is also the text of a serialized `DateTime<Utc>`. The
/// contract names the text, and says which characters it can have.
#[verifier::external_body]
fn chrono_rfc3339(seconds: i64, nanos: u32) -> (result: String)
    requires
        nameable(seconds as int, nanos as int),
    ensures
        result@ == rfc3339(seconds, nanos),
        forall|i: int| 0 <= i < result@.len() ==> moment_character(#[trigger] result@[i]),
{
    let moment = chrono::DateTime::<chrono::Utc>::from_timestamp(seconds, nanos).unwrap();
    moment.to_rfc3339_opts(chrono::SecondsFormat::AutoSi, true)
}

/// Calls `chrono::DateTime::to_rfc3339`. The contract names the text.
#[verifier::external_body]
fn chrono_rfc3339_with_offset(seconds: i64, nanos: u32) -> (result: String)
    requires
        nameable(seconds as int, nanos as int),
    ensures
        result@ == rfc3339_with_offset(seconds, nanos),
{
    chrono::DateTime::<chrono::Utc>::from_timestamp(seconds, nanos).unwrap().to_rfc3339()
}

/// The seconds and nanoseconds of the point in time that a JSON document holds, or
/// why it holds none.
pub uninterp spec fn json_moment_reading(bytes: Seq<u8>) -> Result<(i64, u32), Seq<char>>;

/// Calls `serde_json::from_slice` for a `serde_json::Value` and
/// `serde_json::from_value` on it for a `chrono::DateTime<chrono::Utc>`. The
/// contract names the result, and says that the RFC 3339 text of a point in time is
/// read.
#[verifier::external_body]
fn chrono_json_moment(bytes: &[u8]) -> (result: Result<(i64, u32), String>)
    ensures
        match result {
            Ok(moment) => json_moment_reading(bytes@) == Ok::<(i64, u32), Seq<char>>(moment),
            Err(message) => json_moment_reading(bytes@) == Err::<(i64, u32), Seq<char>>(message@),
        },
        forall|seconds: i64, nanos: u32|
            nameable(seconds as int, nanos as int) && bytes@ == encode_utf8(
                quoted(#[trigger] rfc3339(seconds, nanos)),
            ) ==> result is Ok && result->Ok_0 == (seconds, nanos),
{
    let document: serde_json::Value = serde_json::from_slice(bytes).map_err(|e| e.to_string())?;
    let moment: chrono::DateTime<chrono::Utc> =
        serde_json::from_value(document).map_err(|e| e.to_string())?;
    Ok((moment.timestamp(), moment.timestamp_subsec_nanos()))
}

/// The point in time that a JSON document holds, or why it holds none that can be
/// named.
pub open spec fn json_moment(bytes: Seq<u8>) -> Result<(i64, u32), Seq<char>> {
    match json_moment_reading(bytes) {
        Ok((seconds, nanos)) => if nameable(seconds as int, nanos as int) {
            Ok((seconds, nanos))
        } else {
            Err("input is out of range"@)
        },
        Err(message) => Err(message),
    }
}

/// Reads the point in time that a JSON document holds.
pub(crate) fn read_json_moment(bytes: &[u8]) -> (result: Result<Timestamp, String>)
    ensures
        match result {
            Ok(moment) => json_moment(bytes@) == Ok::<(i64, u32), Seq<char>>(
                (moment.seconds_spec(), moment.nanos_spec()),
            ),
            Err(message) => json_moment(bytes@) == Err::<(i64, u32), Seq<char>>(message@),
        },
        forall|seconds: i64, nanos: u32|
            nameable(seconds as int, nanos as int) && bytes@ == encode_utf8(
                quoted(#[trigger] rfc3339(seconds, nanos)),
            ) ==> json_moment(bytes@) == Ok::<(i64, u32), Seq<char>>((seconds, nanos)),
{
    match chrono_json_moment(bytes) {
        Ok((seconds, nanos)) => match Timestamp::new(seconds, nanos) {
            Some(moment) => Ok(moment),
            None => Err("input is out of range".to_owned()),
        },
        Err(message) => Err(message),
    }
}

impl View for Timestamp {
    type V = int;

    /// The position on the time line: one point comes before another exactly
    /// when its position is smaller.
    open spec fn view(&self) -> int {
        self.seconds_spec() * 2_000_000_000 + self.nanos_spec()
    }
}

impl Timestamp {
    #[verifier::type_invariant]
    spec fn wf(self) -> bool {
        nameable(self.seconds as int, self.nanos as int)
    }

    /// Whole seconds since the Unix epoch.
    pub closed spec fn seconds_spec(self) -> i64 {
        self.seconds
    }

    /// The nanoseconds after the whole seconds.
    pub closed spec fn nanos_spec(self) -> u32 {
        self.nanos
    }

    /// The RFC 3339 text.
    pub open spec fn text_spec(self) -> Seq<char> {
        rfc3339(self.seconds_spec(), self.nanos_spec())
    }

    pub fn new(seconds: i64, nanos: u32) -> (result: Option<Timestamp>)
        ensures
            match result {
                Some(moment) => nameable(seconds as int, nanos as int) && moment.seconds_spec()
                    == seconds && moment.nanos_spec() == nanos,
                None => !nameable(seconds as int, nanos as int),
            },
    {
        if seconds < FIRST_SECOND || seconds > LAST_SECOND || nanos >= 2_000_000_000 {
            return None;
        }
        if nanos >= 1_000_000_000 {
            // Shifted to be positive, so that the remainder is the mathematical one.
            let shifted: i64 = seconds + 8334601228800;
            assert(shifted % 60 == seconds % 60) by {
                assert(8334601228800int % 60 == 0);
                vstd::arithmetic::div_mod::lemma_mod_adds(seconds as int, 8334601228800, 60);
                vstd::arithmetic::div_mod::lemma_mod_bound(seconds as int, 60);
                vstd::arithmetic::div_mod::lemma_mod_bound(shifted as int, 60);
            }
            if shifted % 60 != 59 {
                return None;
            }
        }
        Some(Timestamp { seconds, nanos })
    }

    pub fn seconds(&self) -> (result: i64)
        ensures
            result == self.seconds_spec(),
    {
        self.seconds
    }

    pub fn nanos(&self) -> (result: u32)
        ensures
            result == self.nanos_spec(),
    {
        self.nanos
    }

    /// Every point in time is nameable.
    pub fn check(&self)
        ensures
            nameable(self.seconds_spec() as int, self.nanos_spec() as int),
    {
        proof {
            use_type_invariant(self);
        }
    }

    /// Whether `self` comes before `other`.
    pub fn before(&self, other: &Timestamp) -> (result: bool)
        ensures
            result == (self@ < other@),
    {
        proof {
            use_type_invariant(self);
            use_type_invariant(other);
        }
        self.seconds < other.seconds || (self.seconds == other.seconds && self.nanos < other.nanos)
    }

    /// Whether `self` is `other` or comes before it.
    pub fn at_or_before(&self, other: &Timestamp) -> (result: bool)
        ensures
            result == (self@ <= other@),
    {
        !other.before(self)
    }

    /// Whether `amount` more seconds still give a nameable point in time.
    pub open spec fn can_add(self, amount: int) -> bool {
        self.seconds_spec() + amount <= LAST_SECOND
    }

    /// `self`, a positive number of seconds later. Time leaves a leap second
    /// with the fraction that it had in it.
    pub fn plus_seconds(&self, amount: u32) -> (result: Timestamp)
        requires
            amount > 0,
            self.can_add(amount as int),
        ensures
            result.seconds_spec() == self.seconds_spec() + amount,
            result.nanos_spec() == self.nanos_spec() % 1_000_000_000,
            self@ < result@,
    {
        proof {
            use_type_invariant(self);
        }
        let nanos: u32 = self.nanos % 1_000_000_000;
        Timestamp { seconds: self.seconds + amount as i64, nanos }
    }

    /// The RFC 3339 text, with `Z` for the offset.
    pub fn text(&self) -> (result: String)
        ensures
            result@ == self.text_spec(),
            forall|i: int| 0 <= i < result@.len() ==> moment_character(#[trigger] result@[i]),
    {
        proof {
            use_type_invariant(self);
        }
        chrono_rfc3339(self.seconds, self.nanos)
    }

    /// The RFC 3339 text, with a numeric offset.
    pub fn text_with_offset(&self) -> (result: String)
        ensures
            result@ == rfc3339_with_offset(self.seconds_spec(), self.nanos_spec()),
    {
        proof {
            use_type_invariant(self);
        }
        chrono_rfc3339_with_offset(self.seconds, self.nanos)
    }
}

/// Moments are ordered by their seconds, and within one second by what comes after it.
pub proof fn moments_are_ordered_by_seconds(left: Timestamp, right: Timestamp)
    requires
        nameable(left.seconds_spec() as int, left.nanos_spec() as int),
        nameable(right.seconds_spec() as int, right.nanos_spec() as int),
    ensures
        left@ < right@ <==> left.seconds_spec() < right.seconds_spec() || (left.seconds_spec()
            == right.seconds_spec() && left.nanos_spec() < right.nanos_spec()),
        left@ == right@ <==> left.seconds_spec() == right.seconds_spec() && left.nanos_spec()
            == right.nanos_spec(),
{
}

} // verus!
