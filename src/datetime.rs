//! How long ago an instant was, as the views show it.

use vstd::prelude::*;
use vstd::string::StringExecFns;
use crate::api::{decimal, decimal_string};
use crate::models::opt_view;

verus! {

/// How long ago something happened, rounded to the nearest whole unit.
#[derive(Debug, Clone, Copy, PartialEq, Eq, Structural)]
pub enum Age {
    /// The instant lies in the future.
    JustNow,
    Seconds(u32),
    Minutes(u32),
    Hours(u32),
    /// A day or more ago: shown as a calendar date.
    OlderThanADay,
}

/// The age of an instant `diff_ms` milliseconds in the past.
pub open spec fn age_of(diff_ms: int) -> Age {
    if diff_ms < 0 {
        Age::JustNow
    } else if diff_ms < 60_000 {
        Age::Seconds(((diff_ms + 500) / 1000) as u32)
    } else if diff_ms < 3_600_000 {
        Age::Minutes(((diff_ms + 30_000) / 60_000) as u32)
    } else if diff_ms < 86_400_000 {
        Age::Hours(((diff_ms + 1_800_000) / 3_600_000) as u32)
    } else {
        Age::OlderThanADay
    }
}

/// The text of an age; an age of a day or more shows `date`, or nothing
/// where there is no date.
pub open spec fn age_text_of(age: Age, date: Option<Seq<char>>) -> Seq<char> {
    match age {
        Age::JustNow => "just now"@,
        Age::Seconds(n) => decimal(n as nat) + "s ago"@,
        Age::Minutes(n) => decimal(n as nat) + "m ago"@,
        Age::Hours(n) => decimal(n as nat) + "h ago"@,
        Age::OlderThanADay => match date {
            Some(d) => d,
            None => Seq::empty(),
        },
    }
}

/// The age, at `now_ms` milliseconds since the Unix epoch, of the instant
/// `ts_seconds` seconds since the Unix epoch.
pub fn age(now_ms: i64, ts_seconds: i64) -> (r: Age)
    ensures
        r == age_of(now_ms - ts_seconds * 1000),
{
    let diff: i128 = (now_ms as i128) - (ts_seconds as i128) * 1000;
    if diff < 0 {
        Age::JustNow
    } else if diff < 60_000 {
        Age::Seconds(((diff + 500) / 1000) as u32)
    } else if diff < 3_600_000 {
        Age::Minutes(((diff + 30_000) / 60_000) as u32)
    } else if diff < 86_400_000 {
        Age::Hours(((diff + 1_800_000) / 3_600_000) as u32)
    } else {
        Age::OlderThanADay
    }
}

/// The text of an age, with `date` standing for an age of a day or more.
pub fn age_text(age: Age, date: Option<String>) -> (r: String)
    ensures
        r@ == age_text_of(age, opt_view(date)),
{
    match age {
        Age::JustNow => String::from_str("just now"),
        Age::Seconds(n) => decimal_string(n).concat("s ago"),
        Age::Minutes(n) => decimal_string(n).concat("m ago"),
        Age::Hours(n) => decimal_string(n).concat("h ago"),
        Age::OlderThanADay => match date {
            Some(d) => d,
            None => String::new(),
        },
    }
}

/// Relies on jiff::Timestamp::now, read as milliseconds since the Unix epoch
/// by Timestamp::as_millisecond: the time of the call.
#[verifier::external_body]
fn now_millisecond() -> (r: i64) {
    jiff::Timestamp::now().as_millisecond()
}

/// Whether jiff represents the instant `s` seconds since the Unix epoch: its
/// `Timestamp` spans the years -9999 to 9999 shrunk by the largest time zone
/// offset, 25:59:59, at each end.
pub open spec fn in_timestamp_range(s: int) -> bool {
    -377705023201 <= s <= 253402207200
}

/// Relies on jiff::Timestamp::from_second, which fails exactly outside
/// `in_timestamp_range`, and Timestamp::to_zoned in jiff::tz::TimeZone::system:
/// the calendar date of the instant in the machine's time zone, as jiff's Date
/// writes it (year, month and day, never empty).
#[verifier::external_body]
fn local_date(ts_seconds: i64) -> (r: Option<String>)
    ensures
        r is Some <==> in_timestamp_range(ts_seconds as int),
        match r {
            Some(d) => d@.len() > 0,
            None => true,
        },
{
    match jiff::Timestamp::from_second(ts_seconds) {
        Ok(t) => Some(t.to_zoned(jiff::tz::TimeZone::system()).date().to_string()),
        Err(_) => None,
    }
}

/// How long ago the instant `ts_seconds` seconds since the Unix epoch was,
/// as of now: "just now" for the future, then seconds, minutes and hours
/// ("42s ago"), and from a day on its date in the machine's time zone, which
/// is empty only for an instant that jiff does not represent.
pub fn format_timestamp(ts_seconds: i64) -> (r: String)
    ensures
        exists|now_ms: i64|
            {
                let a = #[trigger] age_of(now_ms - ts_seconds * 1000);
                &&& !(a is OlderThanADay) ==> r@ == age_text_of(a, None)
                &&& (a is OlderThanADay) && in_timestamp_range(ts_seconds as int) ==> r@.len() > 0
                &&& (a is OlderThanADay) && !in_timestamp_range(ts_seconds as int) ==> r@.len() == 0
            },
{
    let now_ms = now_millisecond();
    let a = age(now_ms, ts_seconds);
    let date = match a {
        Age::OlderThanADay => local_date(ts_seconds),
        _ => None,
    };
    let r = age_text(a, date);
    assert({
        let a2 = age_of(now_ms - ts_seconds * 1000);
        &&& !(a2 is OlderThanADay) ==> r@ == age_text_of(a2, None)
        &&& (a2 is OlderThanADay) && in_timestamp_range(ts_seconds as int) ==> r@.len() > 0
        &&& (a2 is OlderThanADay) && !in_timestamp_range(ts_seconds as int) ==> r@.len() == 0
    });
    r
}

} // verus!
