//! Thread reconstruction: where a post sits in its thread, and how a thread
//! is laid out for a prompt.

use vstd::prelude::*;
use crate::clock::{is_clock_rfc3339, now_rfc3339};
use crate::db::{Conversation, CreateConversationParams, Role};
use crate::jetstream::types::Record;

verus! {

/// The root of the thread a post belongs to: the reply's root URI, else the
/// reply's parent URI, else the post itself.
pub open spec fn spec_root_uri(post_uri: Seq<char>, record: Record) -> Seq<char> {
    match record.reply {
        Some(reply) => {
            if reply.root matches Some(root) && root.uri is Some {
                reply.root->0.uri->0@
            } else if reply.parent matches Some(parent) && parent.uri is Some {
                reply.parent->0.uri->0@
            } else {
                post_uri
            }
        },
        None => post_uri,
    }
}

pub open spec fn opt_view(o: Option<String>) -> Option<Seq<char>> {
    match o {
        Some(s) => Some(s@),
        None => None,
    }
}

pub open spec fn spec_parent_uri(record: Record) -> Option<Seq<char>> {
    match record.reply {
        Some(reply) => match reply.parent {
            Some(r) => opt_view(r.uri),
            None => None,
        },
        None => None,
    }
}

pub open spec fn spec_root_cid(record: Record) -> Option<Seq<char>> {
    match record.reply {
        Some(reply) => match reply.root {
            Some(r) => opt_view(r.cid),
            None => None,
        },
        None => None,
    }
}

pub open spec fn spec_parent_cid(record: Record) -> Option<Seq<char>> {
    match record.reply {
        Some(reply) => match reply.parent {
            Some(r) => opt_view(r.cid),
            None => None,
        },
        None => None,
    }
}

pub open spec fn spec_text(record: Record) -> Seq<char> {
    match record.text {
        Some(t) => t@,
        None => Seq::empty(),
    }
}

fn clone_opt(o: &Option<String>) -> (r: Option<String>)
    ensures
        opt_view(r) == opt_view(*o),
{
    match o {
        Some(s) => Some(s.clone()),
        None => None,
    }
}

/// The root URI of the thread of a post.
pub fn extract_root_uri(post_uri: &str, record: &Record) -> (r: String)
    ensures
        r@ == spec_root_uri(post_uri@, *record),
{
    if let Some(reply) = &record.reply {
        if let Some(root) = &reply.root {
            if let Some(uri) = &root.uri {
                return uri.clone();
            }
        }
        if let Some(parent) = &reply.parent {
            if let Some(uri) = &parent.uri {
                return uri.clone();
            }
        }
    }
    post_uri.to_owned()
}

/// The parent URI of a reply.
pub fn extract_parent_uri(record: &Record) -> (r: Option<String>)
    ensures
        opt_view(r) == spec_parent_uri(*record),
{
    if let Some(reply) = &record.reply {
        if let Some(parent) = &reply.parent {
            return clone_opt(&parent.uri);
        }
    }
    None
}

/// The root CID of a reply.
pub fn extract_root_cid(record: &Record) -> (r: Option<String>)
    ensures
        opt_view(r) == spec_root_cid(*record),
{
    if let Some(reply) = &record.reply {
        if let Some(root) = &reply.root {
            return clone_opt(&root.cid);
        }
    }
    None
}

/// The parent CID of a reply.
pub fn extract_parent_cid(record: &Record) -> (r: Option<String>)
    ensures
        opt_view(r) == spec_parent_cid(*record),
{
    if let Some(reply) = &record.reply {
        if let Some(parent) = &reply.parent {
            return clone_opt(&parent.cid);
        }
    }
    None
}

/// The post text, empty when the record holds none.
pub fn extract_text(record: &Record) -> (r: String)
    ensures
        r@ == spec_text(*record),
{
    match &record.text {
        Some(t) => t.clone(),
        None => String::new(),
    }
}

/// The `createdAt` timestamp of the record.
pub fn extract_created_at(record: &Record) -> (r: Option<String>)
    ensures
        opt_view(r) == opt_view(record.created_at),
{
    clone_opt(&record.created_at)
}

/// The record's `createdAt`, or the current time when it has none.
pub fn created_at_or_now(record: &Record) -> (r: String)
    ensures
        record.created_at matches Some(c) ==> r@ == c@,
        record.created_at is None ==> is_clock_rfc3339(r@),
{
    match extract_created_at(record) {
        Some(c) => c,
        None => now_rfc3339(),
    }
}

/// The URI of a post from its author and record key.
pub open spec fn spec_post_uri(author_did: Seq<char>, rkey: Seq<char>) -> Seq<char> {
    "at://"@ + author_did + "/app.bsky.feed.post/"@ + rkey
}

/// `at://{author_did}/app.bsky.feed.post/{rkey}`.
pub fn post_uri(author_did: &str, rkey: &str) -> (r: String)
    ensures
        r@ == spec_post_uri(author_did@, rkey@),
{
    let mut s = String::new();
    s.push_str("at://");
    s.push_str(author_did);
    s.push_str("/app.bsky.feed.post/");
    s.push_str(rkey);
    s
}

/// What stores an incoming post as a user message of its thread.
pub open spec fn spec_user_message_params(
    p: CreateConversationParams,
    post_uri: Seq<char>,
    author_did: Seq<char>,
    cid: Option<Seq<char>>,
    record: Record,
    created_at: Seq<char>,
) -> bool {
    &&& p.root_uri@ == spec_root_uri(post_uri, record)
    &&& p.post_uri@ == post_uri
    &&& opt_view(p.parent_uri) == spec_parent_uri(record)
    &&& p.author_did@ == author_did
    &&& p.role == Role::User
    &&& p.content@ == spec_text(record)
    &&& opt_view(p.cid) == cid
    &&& p.created_at@ == created_at
}

/// The parameters that store an incoming post as a user message.
pub fn user_message_params(
    post_uri: &str,
    author_did: &str,
    cid: &Option<String>,
    record: &Record,
    created_at: String,
) -> (r: CreateConversationParams)
    ensures
        spec_user_message_params(r, post_uri@, author_did@, opt_view(*cid), *record, created_at@),
{
    CreateConversationParams {
        root_uri: extract_root_uri(post_uri, record),
        post_uri: post_uri.to_owned(),
        parent_uri: extract_parent_uri(record),
        author_did: author_did.to_owned(),
        role: Role::User,
        content: extract_text(record),
        cid: clone_opt(cid),
        created_at,
    }
}

/// A thread as reconstructed from the store.
#[derive(Debug, Clone)]
pub struct ThreadContext {
    pub root_uri: String,
    pub messages: Vec<Conversation>,
    pub is_orphaned: bool,
    pub missing_parent: Option<String>,
}

/// Role of a message in a prompt.
#[derive(Debug, Clone, Copy, PartialEq, Eq)]
pub enum ConversationRole {
    User,
    Model,
}

pub open spec fn prompt_role(r: Role) -> ConversationRole {
    match r {
        Role::User => ConversationRole::User,
        Role::Model => ConversationRole::Model,
    }
}

/// The parent a reply references but the store lacks, when orphans are checked.
/// `parent_exists` is the store's answer, asked only when orphans are checked
/// and the post has a parent.
pub fn missing_parent(check_orphans: bool, parent_uri: &Option<String>, parent_exists: bool) -> (r: Option<String>)
    ensures
        opt_view(r) == if check_orphans && parent_uri is Some && !parent_exists {
            opt_view(*parent_uri)
        } else {
            None
        },
{
    if check_orphans {
        if let Some(parent) = parent_uri {
            if !parent_exists {
                return Some(parent.clone());
            }
        }
    }
    None
}

/// Service for thread reconstruction over a conversation store.
pub struct ThreadReconstructor<R> {
    repo: R,
}

impl<R> ThreadReconstructor<R> {
    pub fn new(repo: R) -> (r: Self)
        ensures
            r.store() == repo,
    {
        ThreadReconstructor { repo }
    }

    pub closed spec fn store(&self) -> R {
        self.repo
    }

    /// The store this reconstructor reads.
    pub fn repo(&self) -> (r: &R)
        ensures
            *r == self.store(),
    {
        &self.repo
    }

    /// The thread's messages in order as (role, author, content), the author
    /// being what `resolve_handles` gives for the message's DID.
    pub fn format_thread_for_prompt<F: Fn(&str) -> String>(&self, thread: &ThreadContext, resolve_handles: F) -> (r: Vec<(ConversationRole, String, String)>)
        requires
            forall|s: &str| call_requires(resolve_handles, (s,)),
        ensures
            r@.len() == thread.messages@.len(),
            forall|i: int| 0 <= i < r@.len() ==> {
                &&& (#[trigger] r@[i]).0 == prompt_role(thread.messages@[i].role)
                &&& r@[i].2@ == thread.messages@[i].content@
                &&& exists|s: &str| s@ == thread.messages@[i].author_did@ && call_ensures(resolve_handles, (s,), r@[i].1)
            },
    {
        let mut out: Vec<(ConversationRole, String, String)> = Vec::new();
        let n = thread.messages.len();
        let mut i: usize = 0;
        while i < n
            invariant
                n == thread.messages@.len(),
                i <= n,
                out@.len() == i,
                forall|s: &str| call_requires(resolve_handles, (s,)),
                forall|k: int| 0 <= k < i ==> {
                    &&& (#[trigger] out@[k]).0 == prompt_role(thread.messages@[k].role)
                    &&& out@[k].2@ == thread.messages@[k].content@
                    &&& exists|s: &str| s@ == thread.messages@[k].author_did@ && call_ensures(resolve_handles, (s,), out@[k].1)
                },
            decreases n - i,
        {
            let msg = &thread.messages[i];
            let role = match msg.role {
                Role::User => ConversationRole::User,
                Role::Model => ConversationRole::Model,
            };
            let did = msg.author_did.as_str();
            let author = resolve_handles(did);
            let ghost author_g = author;
            out.push((role, author, msg.content.clone()));
            proof {
                assert(out@[i as int].1 == author_g);
                assert(did@ == thread.messages@[i as int].author_did@ && call_ensures(resolve_handles, (did,), out@[i as int].1));
            }
            i = i + 1;
        }
        out
    }

    /// `true` when the bot wrote at least one message of the thread.
    pub fn thread_has_bot_participation(thread: &ThreadContext) -> (r: bool)
        ensures
            r == exists|i: int| 0 <= i < thread.messages@.len() && (#[trigger] thread.messages@[i]).role == Role::Model,
    {
        let n = thread.messages.len();
        let mut i: usize = 0;
        while i < n
            invariant
                n == thread.messages@.len(),
                i <= n,
                forall|k: int| 0 <= k < i ==> (#[trigger] thread.messages@[k]).role != Role::Model,
            decreases n - i,
        {
            match thread.messages[i].role {
                Role::Model => {
                    return true;
                },
                Role::User => {},
            }
            i = i + 1;
        }
        false
    }
}

} // verus!
