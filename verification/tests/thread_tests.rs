use tnbot_core::db::{Conversation, Role};
use tnbot_core::jetstream::types::{Record, ReplyRef, StrongRef};
use tnbot_core::thread::{
    extract_created_at, extract_parent_cid, extract_parent_uri, extract_root_cid, extract_root_uri, extract_text,
    missing_parent, post_uri, user_message_params, ConversationRole, ThreadContext, ThreadReconstructor,
};

fn strong(uri: &str, cid: &str) -> StrongRef {
    StrongRef { uri: Some(uri.to_string()), cid: Some(cid.to_string()) }
}

fn plain(text: Option<&str>) -> Record {
    Record {
        text: text.map(|t| t.to_string()),
        created_at: Some("2024-01-01T00:00:00Z".to_string()),
        reply: None,
        facets: None,
    }
}

fn reply(root: Option<StrongRef>, parent: Option<StrongRef>) -> Record {
    Record {
        text: Some("Reply text".to_string()),
        created_at: Some("2024-01-01T00:00:00Z".to_string()),
        reply: Some(ReplyRef { root, parent }),
        facets: None,
    }
}

#[test]
fn test_extract_root_uri_from_root_post() {
    let post_uri = "at://did:plc:abc/app.bsky.feed.post/123";
    let record = plain(Some("Hello world"));

    let root_uri = extract_root_uri(post_uri, &record);
    assert_eq!(root_uri, post_uri);
}

#[test]
fn test_extract_root_uri_from_reply() {
    let post_uri = "at://did:plc:abc/app.bsky.feed.post/456";
    let root_uri_expected = "at://did:plc:def/app.bsky.feed.post/123";
    let record = reply(
        Some(strong(root_uri_expected, "bafyrei...")),
        Some(strong("at://did:plc:def/app.bsky.feed.post/123", "bafyrei...")),
    );

    let root_uri = extract_root_uri(post_uri, &record);
    assert_eq!(root_uri, root_uri_expected);
}

#[test]
fn test_extract_parent_uri() {
    let parent_uri = "at://did:plc:def/app.bsky.feed.post/123";
    let record = reply(
        Some(strong("at://did:plc:def/app.bsky.feed.post/111", "bafyrei...")),
        Some(strong(parent_uri, "bafyrei...")),
    );

    assert_eq!(extract_parent_uri(&record), Some(parent_uri.to_string()));
}

#[test]
fn test_extract_root_and_parent_cid() {
    let record = reply(
        Some(strong("at://did:plc:def/app.bsky.feed.post/111", "bafyroot")),
        Some(strong("at://did:plc:def/app.bsky.feed.post/123", "bafyparent")),
    );

    assert_eq!(extract_root_cid(&record), Some("bafyroot".to_string()));
    assert_eq!(extract_parent_cid(&record), Some("bafyparent".to_string()));
}

#[test]
fn test_extract_root_uri_falls_back_to_parent_uri() {
    let post_uri = "at://did:plc:abc/app.bsky.feed.post/456";
    let parent_uri = "at://did:plc:def/app.bsky.feed.post/123";
    let record = reply(None, Some(strong(parent_uri, "bafyrei...")));

    let root_uri = extract_root_uri(post_uri, &record);
    assert_eq!(root_uri, parent_uri);
}

#[test]
fn test_extract_parent_uri_from_root() {
    let record = plain(Some("Root post"));
    assert_eq!(extract_parent_uri(&record), None);
}

#[test]
fn test_extract_text() {
    let record = plain(Some("Hello world"));
    assert_eq!(extract_text(&record), "Hello world");
}

#[test]
fn test_extract_text_missing() {
    let record = plain(None);
    assert_eq!(extract_text(&record), "");
}

#[test]
fn test_extract_created_at() {
    let record = plain(Some("Hello"));
    assert_eq!(extract_created_at(&record), Some("2024-01-01T00:00:00Z".to_string()));
}

#[test]
fn post_uri_format() {
    assert_eq!(post_uri("did:plc:a", "3k"), "at://did:plc:a/app.bsky.feed.post/3k");
}

#[test]
fn user_message_params_from_a_reply() {
    let record = reply(
        Some(strong("at://root", "c1")),
        Some(strong("at://parent", "c2")),
    );
    let p = user_message_params("at://post", "did:plc:u", &Some("cid9".to_string()), &record, "2024-02-02".to_string());
    assert_eq!(p.root_uri, "at://root");
    assert_eq!(p.post_uri, "at://post");
    assert_eq!(p.parent_uri, Some("at://parent".to_string()));
    assert_eq!(p.author_did, "did:plc:u");
    assert_eq!(p.role, Role::User);
    assert_eq!(p.content, "Reply text");
    assert_eq!(p.cid, Some("cid9".to_string()));
    assert_eq!(p.created_at, "2024-02-02");
}

#[test]
fn missing_parent_only_when_checked_and_absent() {
    let parent = Some("at://p".to_string());
    assert_eq!(missing_parent(true, &parent, false), Some("at://p".to_string()));
    assert_eq!(missing_parent(true, &parent, true), None);
    assert_eq!(missing_parent(false, &parent, false), None);
    assert_eq!(missing_parent(true, &None, false), None);
}

fn message(did: &str, role: Role, content: &str) -> Conversation {
    Conversation {
        root_uri: "at://root".to_string(),
        post_uri: format!("at://{content}"),
        parent_uri: None,
        author_did: did.to_string(),
        role,
        content: content.to_string(),
        cid: None,
        created_at: "2024-01-01T00:00:00Z".to_string(),
    }
}

#[test]
fn thread_formatting_and_participation() {
    let thread = ThreadContext {
        root_uri: "at://root".to_string(),
        messages: vec![message("did:plc:u", Role::User, "hi"), message("did:plc:bot", Role::Model, "hello")],
        is_orphaned: false,
        missing_parent: None,
    };
    let recon = ThreadReconstructor::new(7u8);
    assert_eq!(*recon.repo(), 7u8);
    let lines = recon.format_thread_for_prompt(&thread, |did: &str| format!("@{did}"));
    assert_eq!(lines.len(), 2);
    assert_eq!(lines[0], (ConversationRole::User, "@did:plc:u".to_string(), "hi".to_string()));
    assert_eq!(lines[1], (ConversationRole::Model, "@did:plc:bot".to_string(), "hello".to_string()));
    assert!(ThreadReconstructor::<u8>::thread_has_bot_participation(&thread));

    let user_only = ThreadContext {
        root_uri: "at://root".to_string(),
        messages: vec![message("did:plc:u", Role::User, "hi")],
        is_orphaned: false,
        missing_parent: None,
    };
    assert!(!ThreadReconstructor::<u8>::thread_has_bot_participation(&user_only));
}
