//! The boundary to `chrono` and `chrono-tz`: parsing a matched substring
//! into an absolute instant (seconds and nanoseconds since the epoch),
//! re-rendering an instant in a destination timezone, and checking a
//! timezone name against the IANA table.  Everything else in the pipeline
//! is ordinary verified code over these names.

use vstd::prelude::*;
use chrono::TimeZone;
use core::fmt::Write;
use std::io::Write as IoWrite;

verus! {

/// The instant `chrono::DateTime::parse_from_str` yields for a text and a
/// format whose offset is read from the text, as (seconds, nanoseconds)
/// since the epoch, or `None` where parsing fails.
pub uninterp spec fn parse_aware_s(text: Seq<char>, fmt: Seq<char>) -> Option<(int, int)>;

/// The instant `chrono::Utc.datetime_from_str` yields for a text and a
/// format, reading the value as a UTC wall clock, or `None` where parsing
/// fails.
pub uninterp spec fn parse_naive_utc_s(text: Seq<char>, fmt: Seq<char>) -> Option<(int, int)>;

/// How `chrono` renders the given instant in the named timezone with the
/// given format.  The timezone table is compiled into `chrono-tz`, so the
/// rendering is a function of these arguments alone; it is `None` where the
/// name is unknown, the instant is out of `chrono`'s range, or the format
/// holds a specifier `chrono` cannot format.
pub uninterp spec fn render_s(secs: int, nanos: int, zone: Seq<char>, fmt: Seq<char>) -> Option<
    Seq<char>,
>;

/// Whether the name is an IANA timezone known to `chrono-tz`.
pub uninterp spec fn tz_valid(name: Seq<char>) -> bool;

/// Relies on `chrono::DateTime::parse_from_str`: a pure function of the two
/// strings; on success the timestamp accessors give the instant.  The error
/// case carries chrono's diagnostic message.
#[verifier::external_body]
pub fn parse_aware(text: &str, fmt: &str) -> (r: Result<(i64, u32), String>)
    ensures
        (r is Ok) <==> parse_aware_s(text@, fmt@) is Some,
        r matches Ok(t) ==> parse_aware_s(text@, fmt@) == Some((t.0 as int, t.1 as int)),
{
    match chrono::DateTime::parse_from_str(text, fmt) {
        Ok(dt) => Ok((dt.timestamp(), dt.timestamp_subsec_nanos())),
        Err(e) => Err(format!("{}", e)),
    }
}

/// Relies on `chrono::TimeZone::datetime_from_str` on `Utc`: a pure
/// function of the two strings, reading the parsed wall clock as UTC.  The
/// error case carries chrono's diagnostic message.
#[verifier::external_body]
#[allow(deprecated)]
pub fn parse_naive_utc(text: &str, fmt: &str) -> (r: Result<(i64, u32), String>)
    ensures
        (r is Ok) <==> parse_naive_utc_s(text@, fmt@) is Some,
        r matches Ok(t) ==> parse_naive_utc_s(text@, fmt@) == Some((t.0 as int, t.1 as int)),
{
    match chrono::Utc.datetime_from_str(text, fmt) {
        Ok(dt) => Ok((dt.timestamp(), dt.timestamp_subsec_nanos())),
        Err(e) => Err(format!("{}", e)),
    }
}

/// Relies on `chrono_tz::Tz`'s `FromStr` (a fixed lookup table),
/// `chrono::DateTime::from_timestamp`, `with_timezone` and `format`: all
/// functions of the arguments alone.  Returns `None` where the zone name is
/// unknown, the instant is out of range, or formatting fails.
#[verifier::external_body]
pub fn render_in_zone(secs: i64, nanos: u32, zone: &str, fmt: &str) -> (r: Option<String>)
    ensures
        (r is Some) <==> render_s(secs as int, nanos as int, zone@, fmt@) is Some,
        r matches Some(t) ==> render_s(secs as int, nanos as int, zone@, fmt@) == Some(t@),
{
    let tz: chrono_tz::Tz = match zone.parse() {
        Ok(t) => t,
        Err(_) => return None,
    };
    let dt = match chrono::DateTime::from_timestamp(secs, nanos) {
        Some(d) => d,
        None => return None,
    };
    let mut out = String::new();
    match write!(out, "{}", dt.with_timezone(&tz).format(fmt)) {
        Ok(_) => Some(out),
        Err(_) => None,
    }
}

/// Relies on the same `chrono` calls as [`render_in_zone`], but in
/// `chrono::Local`: the result depends on the machine's timezone at the
/// time of the call, so nothing is promised of it.
#[verifier::external_body]
pub fn render_in_local(secs: i64, nanos: u32, fmt: &str) -> (r: Option<String>) {
    let dt = match chrono::DateTime::from_timestamp(secs, nanos) {
        Some(d) => d,
        None => return None,
    };
    let mut out = String::new();
    match write!(out, "{}", dt.with_timezone(&chrono::Local).format(fmt)) {
        Ok(_) => Some(out),
        Err(_) => None,
    }
}

/// Relies on `chrono_tz::Tz`'s `FromStr`: a fixed lookup table, a function
/// of the name alone.
#[verifier::external_body]
pub fn timezone_exists(name: &str) -> (b: bool)
    ensures
        b == tz_valid(name@),
{
    name.parse::<chrono_tz::Tz>().is_ok()
}

/// Writes one diagnostic line to the error channel.  Relies on
/// `std::io::Stderr`; the line a conversion returns is never affected.
#[verifier::external_body]
pub fn diag(context: &str, detail: &str) {
    let _ = writeln!(std::io::stderr(), "{}: {}", context, detail);
}

} // verus!
