//! Values the dashboard pages are built from.

use vstd::prelude::*;
use vstd::utf8::{decode_utf8, encode_utf8, is_char_boundary, encode_utf8_decode_utf8};
use crate::codec::{b64_encode, spec_b64_encode};
use crate::text::{split_on, split_char, str_eq, lemma_split_on_nonempty};

verus! {

/// The name of a day of the week, counted from Sunday as 0.
pub open spec fn spec_day_name(day_of_week: u8) -> Seq<char> {
    if day_of_week == 0 {
        "Sunday"@
    } else if day_of_week == 1 {
        "Monday"@
    } else if day_of_week == 2 {
        "Tuesday"@
    } else if day_of_week == 3 {
        "Wednesday"@
    } else if day_of_week == 4 {
        "Thursday"@
    } else if day_of_week == 5 {
        "Friday"@
    } else {
        "Saturday"@
    }
}

/// The day a quiet-hours window is shown under (there are seven days).
pub fn day_name(day_of_week: u8) -> (r: &'static str)
    requires
        day_of_week < 7,
    ensures
        r@ == spec_day_name(day_of_week),
{
    match day_of_week {
        0 => "Sunday",
        1 => "Monday",
        2 => "Tuesday",
        3 => "Wednesday",
        4 => "Thursday",
        5 => "Friday",
        _ => "Saturday",
    }
}

/// The sections of the dashboard's navigation.
#[derive(Debug, Clone, Copy, PartialEq, Eq)]
pub enum PageSection {
    Dashboard,
    Chat,
    Threads,
    Broadcast,
    Config,
    Activity,
    Search,
}

pub open spec fn section_path(s: PageSection) -> Seq<char> {
    match s {
        PageSection::Dashboard => "/dashboard"@,
        PageSection::Chat => "/chat"@,
        PageSection::Threads => "/threads"@,
        PageSection::Broadcast => "/admin"@,
        PageSection::Config => "/config"@,
        PageSection::Activity => "/activity"@,
        PageSection::Search => "/search"@,
    }
}

impl PageSection {
    /// The route of the section's page.
    pub fn path(&self) -> (r: &'static str)
        ensures
            r@ == section_path(*self),
    {
        match self {
            PageSection::Dashboard => "/dashboard",
            PageSection::Chat => "/chat",
            PageSection::Threads => "/threads",
            PageSection::Broadcast => "/admin",
            PageSection::Config => "/config",
            PageSection::Activity => "/activity",
            PageSection::Search => "/search",
        }
    }
}

/// Counts shown on the status page.
#[derive(Debug, Clone, Copy)]
pub struct DashboardStats {
    pub conversation_count: i64,
    pub thread_count: i64,
    pub identity_count: i64,
}

/// How a message's author is shown: the bot by name, a user by the last
/// `:`-separated part of their DID.
pub open spec fn author_label(did: Seq<char>, role: Seq<char>) -> Seq<char> {
    if role == "model"@ {
        "ThunderBot"@
    } else {
        "User ("@ + split_on(did, ':').last() + ")"@
    }
}

pub fn format_author(did: &str, role: &str) -> (r: String)
    ensures
        r@ == author_label(did@, role@),
{
    if str_eq(role, "model") {
        return "ThunderBot".to_owned();
    }
    let parts = split_char(did, ':');
    proof {
        lemma_split_on_nonempty(did@, ':');
    }
    let last = parts.len() - 1;
    let mut s = "User (".to_owned();
    s.push_str(parts[last].as_str());
    s.push_str(")");
    s
}

/// A URI of more than 60 bytes cut to its first 60 bytes and `...`.
pub open spec fn truncated_uri(uri: Seq<char>) -> Seq<char> {
    let bytes = encode_utf8(uri);
    if bytes.len() > 60 {
        decode_utf8(bytes.take(60)) + "..."@
    } else {
        uri
    }
}

/// Shortens a long URI for display; the cut must fall between characters.
pub fn truncate_uri(uri: &str) -> (r: String)
    requires
        encode_utf8(uri@).len() > 60 ==> is_char_boundary(encode_utf8(uri@), 60),
    ensures
        r@ == truncated_uri(uri@),
{
    if uri.as_bytes().len() > 60 {
        let (head, _rest) = uri.split_at(60);
        proof {
            encode_utf8_decode_utf8(head@);
            assert(encode_utf8(head@) =~= encode_utf8(uri@).take(60));
            assert(decode_utf8(encode_utf8(uri@).take(60)) == head@);
        }
        let mut s = head.to_owned();
        s.push_str("...");
        s
    } else {
        uri.to_owned()
    }
}

/// The path segment that names a thread: the base64 of its URI's bytes.
pub fn thread_uri_to_id(uri: &str) -> (r: String)
    requires
        crate::codec::b64_len(encode_utf8(uri@).len()) <= usize::MAX,
    ensures
        r@ == spec_b64_encode(encode_utf8(uri@)),
{
    b64_encode(uri.as_bytes())
}

} // verus!
