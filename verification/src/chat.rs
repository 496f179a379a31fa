//! The chat inspector: which threads match a search, how each is summed up,
//! and how its messages are labelled.

use vstd::prelude::*;
use crate::db::{Conversation, Role};
use crate::formatters::{shorten, spec_shorten, rel_event, spec_rel_event};
use crate::text::{contains, contains_seq, lowercase, spec_lowercase, trim, trim_str};

verus! {

/// A search as the inspector uses it: trimmed and lowercased; blank means
/// no search.
pub open spec fn spec_normalized_query(search: Option<Seq<char>>) -> Option<Seq<char>> {
    match search {
        None => None,
        Some(s) => if trim(s).len() == 0 {
            None
        } else {
            Some(spec_lowercase(trim(s)))
        },
    }
}

pub fn normalized_query(search: Option<&str>) -> (r: Option<String>)
    ensures
        r is Some <==> spec_normalized_query(match search { Some(s) => Some(s@), None => None }) is Some,
        r matches Some(q) ==> spec_normalized_query(match search { Some(s) => Some(s@), None => None }) == Some(q@),
{
    match search {
        None => None,
        Some(s) => {
            let t = trim_str(s);
            if t.as_str().unicode_len() == 0 {
                None
            } else {
                Some(lowercase(t.as_str()))
            }
        },
    }
}

/// Index of the last user message, if any.
pub open spec fn last_user_index(messages: Seq<Conversation>) -> Option<int>
    decreases messages.len(),
{
    if messages.len() == 0 {
        None
    } else if messages.last().role == Role::User {
        Some(messages.len() - 1)
    } else {
        last_user_index(messages.drop_last())
    }
}

proof fn lemma_last_user_index_in_range(messages: Seq<Conversation>)
    ensures
        last_user_index(messages) matches Some(i) ==> 0 <= i < messages.len(),
    decreases messages.len(),
{
    if messages.len() > 0 {
        lemma_last_user_index_in_range(messages.drop_last());
    }
}

/// Whose handle a thread is listed under: the author of its last user
/// message, or of its last message when no user wrote in it.
pub open spec fn summary_did(messages: Seq<Conversation>) -> Option<Seq<char>> {
    if messages.len() == 0 {
        None
    } else {
        match last_user_index(messages) {
            Some(i) => Some(messages[i].author_did@),
            None => Some(messages.last().author_did@),
        }
    }
}

pub fn summary_handle_did(messages: &Vec<Conversation>) -> (r: Option<String>)
    ensures
        r is Some <==> summary_did(messages@) is Some,
        r matches Some(d) ==> summary_did(messages@) == Some(d@),
{
    let n = messages.len();
    if n == 0 {
        return None;
    }
    let mut i: usize = n;
    proof {
        assert(messages@.take(n as int) =~= messages@);
    }
    while i > 0
        invariant
            n == messages@.len(),
            n > 0,
            i <= n,
            last_user_index(messages@) == last_user_index(messages@.take(i as int)),
        decreases i,
    {
        proof {
            assert(messages@.take(i as int).drop_last() =~= messages@.take(i - 1));
            assert(messages@.take(i as int).last() == messages@[i - 1]);
        }
        match messages[i - 1].role {
            Role::User => {
                return Some(messages[i - 1].author_did.clone());
            },
            Role::Model => {},
        }
        i = i - 1;
    }
    proof {
        assert(messages@.take(0) =~= Seq::<Conversation>::empty());
    }
    Some(messages[n - 1].author_did.clone())
}

/// How an author is shown: `@handle` when the identity is known, else the
/// DID shortened to 28 characters.
pub open spec fn spec_author_label(handle: Option<Seq<char>>, did: Seq<char>) -> Seq<char> {
    match handle {
        Some(h) => "@"@ + h,
        None => spec_shorten(did, 28),
    }
}

pub fn author_label(handle: Option<&str>, did: &str) -> (r: String)
    ensures
        r@ == spec_author_label(match handle { Some(h) => Some(h@), None => None }, did@),
{
    match handle {
        Some(h) => {
            let mut s = "@".to_owned();
            s.push_str(h);
            s
        },
        None => shorten(did, 28),
    }
}

/// Whether a thread matches a (normalized) search: some message, the
/// listed handle or the root URI contains it, ignoring case.
pub open spec fn thread_matches(messages: Seq<Conversation>, handle: Seq<char>, root_uri: Seq<char>, query: Seq<char>) -> bool {
    ||| exists|i: int| 0 <= i < messages.len() && contains_seq(spec_lowercase(#[trigger] messages[i].content@), query)
    ||| contains_seq(spec_lowercase(handle), query)
    ||| contains_seq(spec_lowercase(root_uri), query)
}

pub fn matches_query(messages: &Vec<Conversation>, handle: &str, root_uri: &str, query: &str) -> (r: bool)
    ensures
        r == thread_matches(messages@, handle@, root_uri@, query@),
{
    let mut i: usize = 0;
    while i < messages.len()
        invariant
            i <= messages@.len(),
            forall|k: int| 0 <= k < i ==> !contains_seq(spec_lowercase(#[trigger] messages@[k].content@), query@),
        decreases messages@.len() - i,
    {
        let lower = lowercase(messages[i].content.as_str());
        if contains(lower.as_str(), query) {
            return true;
        }
        i = i + 1;
    }
    let h = lowercase(handle);
    let u = lowercase(root_uri);
    contains(h.as_str(), query) || contains(u.as_str(), query)
}

/// A thread as the inspector lists it.
#[derive(Debug, Clone)]
pub struct ThreadSummary {
    pub root_uri: String,
    pub handle: String,
    pub preview: String,
    pub last_seen: String,
    pub message_count: usize,
}

/// The listing of a thread: nothing for an empty thread or one the search
/// does not match; else its handle label, its last message shortened to 90
/// characters, when it was last active and how many messages it has.
pub fn summarize_thread(
    root_uri: String,
    last_activity_us: i64,
    messages: &Vec<Conversation>,
    handle: String,
    query: Option<&str>,
) -> (r: Option<ThreadSummary>)
    ensures
        messages@.len() == 0 ==> r is None,
        messages@.len() > 0 ==> (r is Some <==> (query matches Some(q) ==> thread_matches(messages@, handle@, root_uri@, q@))),
        r matches Some(s) ==> {
            &&& s.root_uri == root_uri
            &&& s.handle == handle
            &&& s.preview@ == spec_shorten(messages@.last().content@, 90)
            &&& exists|now: i64| s.last_seen@ == #[trigger] spec_rel_event(last_activity_us, now)
            &&& s.message_count == messages@.len()
        },
{
    let n = messages.len();
    if n == 0 {
        return None;
    }
    match query {
        Some(q) => {
            if !matches_query(messages, handle.as_str(), root_uri.as_str(), q) {
                return None;
            }
        },
        None => {},
    }
    let preview = shorten(messages[n - 1].content.as_str(), 90);
    let last_seen = rel_event(last_activity_us);
    Some(ThreadSummary { root_uri, handle, preview, last_seen, message_count: n })
}

/// The "thinking" time of a model message: milliseconds since the last user
/// message, when both times are known and the model came after.
pub open spec fn spec_thinking_ms(previous_user: Option<(i64, u32)>, model: Option<(i64, u32)>) -> Option<int> {
    match (previous_user, model) {
        (Some(u), Some(m)) => {
            let delta_ns = (m.0 - u.0) * 1_000_000_000 + m.1 - u.1;
            let ms = if delta_ns >= 0 { delta_ns / 1_000_000 } else { -((-delta_ns) / 1_000_000) };
            if ms >= 0 { Some(ms) } else { None }
        },
        _ => None,
    }
}

pub fn thinking_ms(previous_user: Option<(i64, u32)>, model: Option<(i64, u32)>) -> (r: Option<u64>)
    requires
        previous_user matches Some(u) ==> -8_300_000_000_000 <= u.0 <= 8_300_000_000_000 && u.1 < 2_000_000_000,
        model matches Some(m) ==> -8_300_000_000_000 <= m.0 <= 8_300_000_000_000 && m.1 < 2_000_000_000,
    ensures
        match spec_thinking_ms(previous_user, model) {
            Some(ms) => r == Some(ms as u64),
            None => r is None,
        },
{
    match (previous_user, model) {
        (Some(u), Some(m)) => {
            let delta_ns: i128 = (m.0 as i128 - u.0 as i128) * 1_000_000_000 + m.1 as i128 - u.1 as i128;
            let ms: i128 = if delta_ns >= 0 { delta_ns / 1_000_000 } else { -((-delta_ns) / 1_000_000) };
            if ms >= 0 {
                Some(ms as u64)
            } else {
                None
            }
        },
        _ => None,
    }
}

} // verus!
