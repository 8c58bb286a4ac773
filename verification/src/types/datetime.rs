//! Instants, as the service writes them in its documents.

use vstd::prelude::*;
use crate::decode::Decode;
use crate::json::find;
use crate::json::member;
use crate::json::Json;

verus! {

/// An instant: whole seconds since the first of January 1970 in universal
/// time, and the nanoseconds beyond them.
#[derive(Clone, Copy, Debug, PartialEq, Eq, Structural)]
pub struct DateTime {
    pub seconds: i64,
    pub nanos: u32,
}

/// The instant that a text denotes, as seconds and nanoseconds, if it
/// denotes one.
pub uninterp spec fn instant_of(text: Seq<char>) -> Option<(int, int)>;

/// The instant that a text denotes, as a value of this library.
pub open spec fn moment_of(text: Seq<char>) -> Option<DateTime> {
    match instant_of(text) {
        Some(pair) => if i64::MIN <= pair.0 <= i64::MAX && 0 <= pair.1 <= u32::MAX {
            Some(DateTime { seconds: pair.0 as i64, nanos: pair.1 as u32 })
        } else {
            None
        },
        None => None,
    }
}

/// The instant in the member named `key`, which may be missing or `null`:
/// `Some(None)` for these two, `None` where the member is anything but a
/// text that denotes an instant.
pub open spec fn optional_moment_member(entries: Seq<(String, Json)>, key: Seq<char>) -> Option<
    Option<DateTime>,
> {
    match member(entries, key) {
        None => Some(None),
        Some(Json::Null) => Some(None),
        Some(json) => match DateTime::decoded(json) {
            Some(moment) => Some(Some(moment)),
            None => None,
        },
    }
}

/// Parses a text with the `FromStr` impl of `chrono::DateTime<Utc>` and
/// reads the result with `timestamp` and `timestamp_subsec_nanos`. The
/// contract claims that the outcome depends on the text alone.
#[verifier::external_body]
fn parse_instant(text: &str) -> (r: Option<(i64, u32)>)
    ensures
        r matches Some(pair) ==> instant_of(text@) == Some((pair.0 as int, pair.1 as int)),
        r is None ==> instant_of(text@) is None,
{
    match text.parse::<chrono::DateTime<chrono::Utc>>() {
        Ok(moment) => Some((moment.timestamp(), moment.timestamp_subsec_nanos())),
        Err(_) => None,
    }
}

/// The text that shows the instant at `seconds` and `nanos`, if there is
/// such an instant.
pub uninterp spec fn instant_text(seconds: int, nanos: int) -> Option<Seq<char>>;

/// Makes a `chrono::DateTime<Utc>` with `DateTime::from_timestamp` and
/// writes it with its `Display` impl. The contract claims that the outcome
/// depends on the two numbers alone; there is none where `from_timestamp`
/// finds the numbers out of range.
#[verifier::external_body]
fn show_instant(seconds: i64, nanos: u32) -> (r: Option<String>)
    ensures
        r matches Some(text) ==> instant_text(seconds as int, nanos as int) == Some(text@),
        r is None ==> instant_text(seconds as int, nanos as int) is None,
{
    chrono::DateTime::from_timestamp(seconds, nanos).map(|moment| moment.to_string())
}

impl Default for DateTime {
    fn default() -> (moment: Self)
        ensures
            moment == (DateTime { seconds: 0, nanos: 0 }),
    {
        DateTime { seconds: 0, nanos: 0 }
    }
}

impl DateTime {
    /// The instant as a text: the date, the time of day and `UTC`; `None`
    /// where the calendar does not reach the instant.
    pub fn to_string(&self) -> (r: Option<String>)
        ensures
            r matches Some(text) ==> instant_text(self.seconds as int, self.nanos as int) == Some(
                text@,
            ),
            r is None ==> instant_text(self.seconds as int, self.nanos as int) is None,
    {
        show_instant(self.seconds, self.nanos)
    }

    /// Reads an instant from a text in the form of RFC 3339.
    pub fn parse(text: &str) -> (r: Option<DateTime>)
        ensures
            r == moment_of(text@),
    {
        match parse_instant(text) {
            Some((seconds, nanos)) => Some(DateTime { seconds, nanos }),
            None => None,
        }
    }
}

impl Decode for DateTime {
    type Model = DateTime;

    open spec fn model(&self) -> DateTime {
        *self
    }

    open spec fn decoded(json: Json) -> Option<DateTime> {
        match json {
            Json::Text(t) => moment_of(t@),
            _ => None,
        }
    }

    open spec fn absent() -> DateTime {
        DateTime { seconds: 0, nanos: 0 }
    }

    fn decode(json: &Json) -> (r: Option<Self>) {
        match json {
            Json::Text(t) => DateTime::parse(t.as_str()),
            _ => None,
        }
    }

    fn fallback() -> (value: Self) {
        DateTime { seconds: 0, nanos: 0 }
    }
}

/// Reads the member named `key` as an instant that may be missing or
/// `null`.
pub fn read_optional_moment(entries: &Vec<(String, Json)>, key: &str) -> (r: Option<Option<DateTime>>)
    ensures
        r == optional_moment_member(entries@, key@),
{
    match find(entries, key) {
        None => Some(None),
        Some(Json::Null) => Some(None),
        Some(json) => match DateTime::decode(json) {
            Some(moment) => Some(Some(moment)),
            None => None,
        },
    }
}

} // verus!
