//! Text formatting for the control deck.

use vstd::prelude::*;
use crate::clock::{
    elapsed_secs, format_utc_datetime, format_utc_hms, now_micros, parse_rfc3339_secs, spec_parse_rfc3339_secs,
    spec_utc_datetime, spec_utc_hms, spec_utc_secs_valid,
};
use crate::db::{Conversation, Role};
use vstd::utf8::encode_utf8;
use crate::text::{chars_of, nat_decimal, push_decimal, string_of_range, trim, trim_str};

verus! {

/// `value` when it has at most `max` characters, otherwise its first
/// `max - 3` characters (none when `max < 3`) followed by `...`.
pub open spec fn spec_shorten(value: Seq<char>, max: usize) -> Seq<char> {
    if value.len() <= max {
        value
    } else {
        value.take(if max < 3 { 0 } else { max - 3 }) + "..."@
    }
}

/// Shortens `value` to at most `max` characters with a trailing `...`.
pub fn shorten(value: &str, max: usize) -> (r: String)
    ensures
        r@ == spec_shorten(value@, max),
{
    let v = chars_of(value);
    if v.len() <= max {
        return value.to_owned();
    }
    let keep: usize = if max < 3 { 0 } else { max - 3 };
    let mut out = string_of_range(&v, 0, keep);
    out.push_str("...");
    assert(v@.subrange(0, keep as int) =~= value@.take(keep as int));
    out
}

/// The first `n` characters of `s` (all of them when it is shorter).
pub open spec fn first_chars(s: Seq<char>, n: nat) -> Seq<char> {
    if s.len() <= n {
        s
    } else {
        s.take(n as int)
    }
}

fn prefix_chars(value: &str, n: usize) -> (r: String)
    ensures
        r@ == first_chars(value@, n as nat),
{
    let v = chars_of(value);
    let end = if v.len() <= n { v.len() } else { n };
    let out = string_of_range(&v, 0, end);
    assert(v@.subrange(0, end as int) =~= first_chars(value@, n as nat));
    out
}

/// How a pending response's thread is shown: its first 40 characters and
/// `...`.
pub fn pending_thread_label(thread_uri: &str) -> (r: String)
    ensures
        r@ == first_chars(thread_uri@, 40) + "..."@,
{
    let mut out = prefix_chars(thread_uri, 40);
    out.push_str("...");
    out
}

/// How a pending response's text is shown: its first 100 characters, and
/// `...` when the text is longer than 100 bytes.
pub fn pending_response_excerpt(content: &str) -> (r: String)
    ensures
        r@ == first_chars(content@, 100) + if encode_utf8(content@).len() > 100 { "..."@ } else { Seq::empty() },
{
    let mut out = prefix_chars(content, 100);
    if content.as_bytes().len() > 100 {
        out.push_str("...");
    } else {
        assert(out@ + Seq::<char>::empty() =~= out@);
    }
    out
}

/// How a blocklist entry's reason is shown: the reason, or `N/A`.
pub fn block_reason_label(reason: &Option<String>) -> (r: String)
    ensures
        r@ == match reason {
            Some(t) => t@,
            None => "N/A"@,
        },
{
    match reason {
        Some(t) => t.clone(),
        None => "N/A".to_owned(),
    }
}

/// The trimmed value, or `(not set)` when nothing is left.
pub fn non_empty_or_missing(value: &str) -> (r: String)
    ensures
        r@ == if trim(value@).len() == 0 { "(not set)"@ } else { trim(value@) },
{
    let trimmed = trim_str(value);
    if trimmed.as_str().is_empty() {
        "(not set)".to_owned()
    } else {
        trimmed
    }
}

/// `missing` for an empty (after trimming) secret, else `set (N chars)`.
pub fn secret_status(value: &str) -> (r: String)
    ensures
        r@ == if trim(value@).len() == 0 {
            "missing"@
        } else {
            "set ("@ + nat_decimal(trim(value@).len()) + " chars)"@
        },
{
    let trimmed = trim_str(value);
    let v = chars_of(trimmed.as_str());
    if v.len() == 0 {
        return "missing".to_owned();
    }
    let mut out = String::new();
    out.push_str("set (");
    push_decimal(&mut out, v.len() as u64);
    out.push_str(" chars)");
    out
}

/// The `%H:%M:%S` time of an RFC 3339 timestamp, or the text itself when it
/// does not parse.
pub open spec fn spec_ftime(value: Seq<char>) -> Seq<char> {
    match spec_parse_rfc3339_secs(value) {
        Some(t) => spec_utc_hms(t),
        None => value,
    }
}

pub fn ftime(value: &str) -> (r: String)
    ensures
        r@ == spec_ftime(value@),
{
    match parse_rfc3339_secs(value) {
        Some(t) => match format_utc_hms(t) {
            Some(s) => s,
            None => value.to_owned(),
        },
        None => value.to_owned(),
    }
}

/// How a message's role is shown.
pub open spec fn role_label(role: Role) -> Seq<char> {
    match role {
        Role::User => "user"@,
        Role::Model => "model"@,
    }
}

/// The cells of a conversation message in the dashboard's table, each with
/// whether it is shown in monospace: time, role, author, thread root and
/// content, the last three shortened.
pub fn conversation_row(row: &Conversation) -> (r: Vec<(String, bool)>)
    ensures
        r@.len() == 5,
        r@[0].0@ == spec_ftime(row.created_at@) && r@[0].1,
        r@[1].0@ == role_label(row.role) && !r@[1].1,
        r@[2].0@ == spec_shorten(row.author_did@, 34) && r@[2].1,
        r@[3].0@ == spec_shorten(row.root_uri@, 56) && r@[3].1,
        r@[4].0@ == spec_shorten(row.content@, 86) && !r@[4].1,
{
    let role = match row.role {
        Role::User => "user".to_owned(),
        Role::Model => "model".to_owned(),
    };
    let mut cells: Vec<(String, bool)> = Vec::new();
    cells.push((ftime(row.created_at.as_str()), true));
    cells.push((role, false));
    cells.push((shorten(row.author_did.as_str(), 34), true));
    cells.push((shorten(row.root_uri.as_str(), 56), true));
    cells.push((shorten(row.content.as_str(), 86), false));
    cells
}

/// Whole seconds (rounded down) of a time in microseconds.
pub open spec fn micros_to_secs(time_us: i64) -> i64 {
    (time_us / 1_000_000) as i64
}

fn floor_secs(time_us: i64) -> (r: i64)
    ensures
        r == micros_to_secs(time_us),
{
    match time_us.checked_div_euclid(1_000_000) {
        Some(s) => s,
        None => 0,
    }
}

/// The UTC date-time of an event timestamp in microseconds, or a notice when
/// there is none to show.
pub fn abs_event(time_us: i64) -> (r: String)
    ensures
        r@ == if spec_utc_secs_valid(micros_to_secs(time_us)) {
            spec_utc_datetime(micros_to_secs(time_us))
        } else {
            "No event timestamp available"@
        },
{
    match format_utc_datetime(floor_secs(time_us)) {
        Some(s) => s,
        None => "No event timestamp available".to_owned(),
    }
}

/// How long ago an event happened, as the dashboard words it, given the
/// current time in microseconds.
pub open spec fn spec_rel_event(time_us: i64, now_us: i64) -> Seq<char> {
    let delta = now_us - time_us;
    let secs: int = if delta < 0 { -1 } else { delta / 1_000_000 };
    if time_us <= 0 {
        "waiting"@
    } else if !spec_utc_secs_valid(micros_to_secs(time_us)) {
        "unknown"@
    } else if secs < 5 {
        "just now"@
    } else if secs < 60 {
        nat_decimal(secs as nat) + "s ago"@
    } else if secs / 60 < 60 {
        nat_decimal((secs / 60) as nat) + "m ago"@
    } else if secs / 3600 < 24 {
        nat_decimal((secs / 3600) as nat) + "h ago"@
    } else {
        nat_decimal((secs / 86400) as nat) + "d ago"@
    }
}

/// How the dashboard words the age of an event with a valid timestamp, by
/// the whole seconds `s` elapsed: under five is "just now"; under a minute
/// the seconds; under an hour the whole minutes (so always below 60); under
/// a day the whole hours (below 24); after that the whole days.
pub proof fn lemma_rel_event_units(time_us: i64, now_us: i64)
    requires
        time_us > 0,
        spec_utc_secs_valid(micros_to_secs(time_us)),
    ensures
        ({
            let s = (now_us - time_us) / 1_000_000;
            let r = spec_rel_event(time_us, now_us);
            &&& now_us - time_us < 5_000_000 ==> r == "just now"@
            &&& 5 <= s < 60 ==> r == nat_decimal(s as nat) + "s ago"@
            &&& 60 <= s < 3600 ==> r == nat_decimal((s / 60) as nat) + "m ago"@ && s / 60 < 60
            &&& 3600 <= s < 86400 ==> r == nat_decimal((s / 3600) as nat) + "h ago"@ && s / 3600 < 24
            &&& 86400 <= s ==> r == nat_decimal((s / 86400) as nat) + "d ago"@
        }),
{
    let d = now_us - time_us;
    let s = d / 1_000_000;
    if d < 0 {
    } else if d < 5_000_000 {
        assert(s < 5);
    } else {
        assert(s >= 5);
        if 60 <= s < 3600 {
            assert(s / 60 < 60);
        }
        if 3600 <= s < 86400 {
            assert(s / 60 >= 60);
            assert(s / 3600 < 24);
        }
        if 86400 <= s {
            assert(s / 60 >= 60);
            assert(s / 3600 >= 24);
        }
    }
}

/// No event timestamp yet reads "waiting"; one chrono cannot represent
/// reads "unknown".
pub proof fn lemma_rel_event_without_time(time_us: i64, now_us: i64)
    ensures
        time_us <= 0 ==> spec_rel_event(time_us, now_us) == "waiting"@,
        time_us > 0 && !spec_utc_secs_valid(micros_to_secs(time_us)) ==> spec_rel_event(time_us, now_us) == "unknown"@,
{
}

/// How long before `now_us` an event at `time_us` happened.
pub fn rel_event_at(time_us: i64, now_us: i64) -> (r: String)
    ensures
        r@ == spec_rel_event(time_us, now_us),
{
    if time_us <= 0 {
        return "waiting".to_owned();
    }
    if format_utc_datetime(floor_secs(time_us)).is_none() {
        return "unknown".to_owned();
    }
    let delta: i128 = now_us as i128 - time_us as i128;
    if delta < 5_000_000 {
        return "just now".to_owned();
    }
    let secs: u64 = (delta / 1_000_000) as u64;
    let mut out = String::new();
    if secs < 60 {
        push_decimal(&mut out, secs);
        out.push_str("s ago");
    } else if secs / 60 < 60 {
        push_decimal(&mut out, secs / 60);
        out.push_str("m ago");
    } else if secs / 3600 < 24 {
        push_decimal(&mut out, secs / 3600);
        out.push_str("h ago");
    } else {
        push_decimal(&mut out, secs / 86400);
        out.push_str("d ago");
    }
    out
}

/// How long ago an event at `time_us` happened, by the system clock.
pub fn rel_event(time_us: i64) -> (r: String)
    ensures
        exists|now: i64| r@ == #[trigger] spec_rel_event(time_us, now),
{
    let now = now_micros();
    rel_event_at(time_us, now)
}

/// Two-digit rendering of `n < 100`.
pub open spec fn pad2(n: nat) -> Seq<char> {
    if n < 10 {
        seq!['0'] + nat_decimal(n)
    } else {
        nat_decimal(n)
    }
}

fn push_pad2(s: &mut String, n: u64)
    requires
        n < 100,
    ensures
        final(s)@ == old(s)@ + pad2(n as nat),
{
    if n < 10 {
        s.push('0');
    }
    push_decimal(s, n);
    assert(s@ =~= old(s)@ + pad2(n as nat));
}

/// `{d}d {hh}h {mm}m` when at least a day has passed, else `{hh}h {mm}m`.
pub open spec fn spec_uptime(total_secs: nat) -> Seq<char> {
    let days = total_secs / 86400;
    let hours = (total_secs % 86400) / 3600;
    let minutes = (total_secs % 3600) / 60;
    if days > 0 {
        nat_decimal(days) + "d "@ + pad2(hours) + "h "@ + pad2(minutes) + "m"@
    } else {
        pad2(hours) + "h "@ + pad2(minutes) + "m"@
    }
}

/// Renders an uptime given in whole seconds.
pub fn format_uptime(total_secs: u64) -> (r: String)
    ensures
        r@ == spec_uptime(total_secs as nat),
{
    let days = total_secs / 86400;
    let hours = (total_secs % 86400) / 3600;
    let minutes = (total_secs % 3600) / 60;
    let mut out = String::new();
    if days > 0 {
        push_decimal(&mut out, days);
        out.push_str("d ");
    }
    push_pad2(&mut out, hours);
    out.push_str("h ");
    push_pad2(&mut out, minutes);
    out.push_str("m");
    out
}

/// Uptime since `started_at`, by the system clock.
pub fn fuptime(started_at: std::time::Instant) -> (r: String)
    ensures
        exists|secs: u64| r@ == #[trigger] spec_uptime(secs as nat),
{
    let secs = elapsed_secs(&started_at);
    format_uptime(secs)
}

} // verus!
