//! Rows and parameters of the conversation store.

use vstd::prelude::*;

verus! {

/// Who wrote a message of a thread.
#[derive(Debug, Clone, Copy, PartialEq, Eq)]
pub enum Role {
    User,
    Model,
}

/// A stored message of a thread.
#[derive(Debug, Clone)]
pub struct Conversation {
    pub root_uri: String,
    pub post_uri: String,
    pub parent_uri: Option<String>,
    pub author_did: String,
    pub role: Role,
    pub content: String,
    pub cid: Option<String>,
    pub created_at: String,
}

/// What is written to store a new message.
#[derive(Debug, Clone)]
pub struct CreateConversationParams {
    pub root_uri: String,
    pub post_uri: String,
    pub parent_uri: Option<String>,
    pub author_did: String,
    pub role: Role,
    pub content: String,
    pub cid: Option<String>,
    pub created_at: String,
}

/// Row counts of the store.
#[derive(Debug, Clone, Copy)]
pub struct DatabaseStats {
    pub conversation_count: i64,
    pub thread_count: i64,
    pub identity_count: i64,
}

/// What is written to store a resolved identity.
#[derive(Debug, Clone)]
pub struct CreateIdentityParams {
    pub did: String,
    pub handle: String,
    pub display_name: Option<String>,
    pub last_updated: String,
}

/// A cached identity as the resolver reads it.
#[derive(Debug, Clone)]
pub struct CachedIdentity {
    pub did: String,
    pub handle: String,
    pub last_updated: String,
}

} // verus!
