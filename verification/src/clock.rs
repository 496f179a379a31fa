//! The current time, from the system clock.

use vstd::prelude::*;
use chrono::TimeZone;

verus! {

/// chrono's RFC 3339 text (`to_rfc3339`) of the UTC instant `secs` seconds
/// and `nanos` nanoseconds after the Unix epoch.
pub uninterp spec fn spec_rfc3339(secs: i64, nanos: u32) -> Seq<char>;

/// `DateTime::from_timestamp(secs, nanos)` and its `to_rfc3339()`; `None`
/// when chrono cannot represent the instant, which never happens for a
/// representable second with nanoseconds below one second.
#[verifier::external_body]
pub(crate) fn format_rfc3339(secs: i64, nanos: u32) -> (r: Option<String>)
    ensures
        r matches Some(s) ==> s@ == spec_rfc3339(secs, nanos),
        spec_utc_secs_valid(secs) && nanos < 1_000_000_000 ==> r is Some,
{
    match chrono::DateTime::from_timestamp(secs, nanos) {
        Some(d) => Some(d.to_rfc3339()),
        None => None,
    }
}

/// `true` when `text` is the RFC 3339 text of some instant the clock can
/// read: a representable second and nanoseconds below one second.
pub open spec fn is_clock_rfc3339(text: Seq<char>) -> bool {
    exists|secs: i64, nanos: u32|
        spec_utc_secs_valid(secs) && nanos < 1_000_000_000 && #[trigger] spec_rfc3339(secs, nanos) == text
}

/// The current UTC time in RFC 3339 form, as `Utc::now().to_rfc3339()`
/// gives it: the RFC 3339 text of the clock's reading.
pub(crate) fn now_rfc3339() -> (r: String)
    ensures
        is_clock_rfc3339(r@),
{
    let (secs, nanos) = now_instant();
    match format_rfc3339(secs, nanos) {
        Some(t) => t,
        None => String::new(),
    }
}

/// `chrono::Utc::now().timestamp()`: seconds since the Unix epoch. Nothing is
/// stated of it: it depends on the clock.
#[verifier::external_body]
pub(crate) fn now_timestamp() -> i64 {
    chrono::Utc::now().timestamp()
}

} // verus!

verus! {

/// `std::time::Instant`, an opaque monotonic clock reading.
#[verifier::external_type_specification]
#[verifier::external_body]
pub struct ExInstant(std::time::Instant);

/// `Instant::now()`. Nothing is stated of it: it depends on the clock.
#[verifier::external_body]
pub(crate) fn instant_now() -> std::time::Instant {
    std::time::Instant::now()
}

/// `Instant::elapsed().as_secs()`: whole seconds since `start`. Nothing is
/// stated of it: it depends on the clock.
#[verifier::external_body]
pub(crate) fn elapsed_secs(start: &std::time::Instant) -> u64 {
    start.elapsed().as_secs()
}

/// `Utc::now().timestamp_micros()`: microseconds since the Unix epoch. Nothing
/// is stated of it: it depends on the clock.
#[verifier::external_body]
pub(crate) fn now_micros() -> i64 {
    chrono::Utc::now().timestamp_micros()
}

/// The Unix time (seconds) of an RFC 3339 timestamp, as chrono parses it.
pub uninterp spec fn spec_parse_rfc3339_secs(value: Seq<char>) -> Option<i64>;

/// `true` when chrono represents the UTC date-time at `secs`.
pub uninterp spec fn spec_utc_secs_valid(secs: i64) -> bool;

/// `n` (below 100) as two decimal digits.
pub open spec fn two_digits(n: int) -> Seq<char> {
    seq![('0' as int + n / 10) as char, ('0' as int + n % 10) as char]
}

/// The `%H:%M:%S` time of day, in UTC, at `secs` seconds after the Unix epoch.
pub open spec fn spec_utc_hms(secs: i64) -> Seq<char> {
    let d = secs as int % 86400;
    two_digits(d / 3600) + seq![':'] + two_digits(d % 3600 / 60) + seq![':'] + two_digits(d % 60)
}

/// chrono's `%Y-%m-%d %H:%M:%S UTC` rendering of the UTC date-time at `secs`.
pub uninterp spec fn spec_utc_datetime(secs: i64) -> Seq<char>;

/// `DateTime::parse_from_rfc3339(value)` and its `timestamp()`: the Unix time
/// of the parsed instant, `None` when the text is not RFC 3339. A parsed
/// instant is a date-time chrono represents in UTC.
#[verifier::external_body]
pub(crate) fn parse_rfc3339_secs(value: &str) -> (r: Option<i64>)
    ensures
        r == spec_parse_rfc3339_secs(value@),
        r matches Some(t) ==> spec_utc_secs_valid(t),
{
    match chrono::DateTime::parse_from_rfc3339(value) {
        Ok(t) => Some(t.timestamp()),
        Err(_) => None,
    }
}

/// `Utc.timestamp_opt(secs, 0)` formatted with `%H:%M:%S`: the hour, minute
/// and second of the day, two digits each; `None` when chrono cannot
/// represent that instant.
#[verifier::external_body]
pub(crate) fn format_utc_hms(secs: i64) -> (r: Option<String>)
    ensures
        r is Some == spec_utc_secs_valid(secs),
        r matches Some(s) ==> s@ == spec_utc_hms(secs),
{
    match chrono::Utc.timestamp_opt(secs, 0).single() {
        Some(d) => Some(d.format("%H:%M:%S").to_string()),
        None => None,
    }
}

/// `Utc.timestamp_opt(secs, 0)` formatted with `%Y-%m-%d %H:%M:%S UTC`; `None`
/// when chrono cannot represent that instant.
#[verifier::external_body]
pub(crate) fn format_utc_datetime(secs: i64) -> (r: Option<String>)
    ensures
        r is Some == spec_utc_secs_valid(secs),
        r matches Some(s) ==> s@ == spec_utc_datetime(secs),
{
    match chrono::Utc.timestamp_opt(secs, 0).single() {
        Some(d) => Some(d.format("%Y-%m-%d %H:%M:%S UTC").to_string()),
        None => None,
    }
}

/// The instant of an RFC 3339 timestamp as chrono parses it: seconds since
/// the Unix epoch and the nanoseconds within that second.
pub uninterp spec fn spec_parse_rfc3339_instant(value: Seq<char>) -> Option<(i64, u32)>;

/// `DateTime::parse_from_rfc3339(value)` with its `timestamp()` and
/// `timestamp_subsec_nanos()`; `None` when the text is not RFC 3339.
#[verifier::external_body]
pub(crate) fn parse_rfc3339_instant(value: &str) -> (r: Option<(i64, u32)>)
    ensures
        r == spec_parse_rfc3339_instant(value@),
{
    match chrono::DateTime::parse_from_rfc3339(value) {
        Ok(t) => Some((t.timestamp(), t.timestamp_subsec_nanos())),
        Err(_) => None,
    }
}

/// `Utc::now()` as its `timestamp()` and `timestamp_subsec_nanos()`. Which
/// instant depends on the clock; it is always one chrono represents, with
/// nanoseconds below one second (`Utc::now` reads them from a `Duration`).
#[verifier::external_body]
pub(crate) fn now_instant() -> (r: (i64, u32))
    ensures
        spec_utc_secs_valid(r.0),
        r.1 < 1_000_000_000,
{
    let t = chrono::Utc::now();
    (t.timestamp(), t.timestamp_subsec_nanos())
}

} // verus!
