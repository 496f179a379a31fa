use tnbot_core::web::handlers::{chat_thread, reply_parent};
use tnbot_core::action::{distinct_authors, reply_step, ReplyStep};
use tnbot_core::chat::{author_label, matches_query, normalized_query, summarize_thread, summary_handle_did, thinking_ms};
use tnbot_core::db::{Conversation, Role};
use tnbot_core::deck::SessionStore;
use tnbot_core::error::BotError;
use tnbot_core::health::{jetstream_state_check, HealthStatus, JetstreamState};
use tnbot_core::vector::{
    backfill_requests, batch_conversation, check_embedding_dim, content_hash, filter_clauses, pending_requests,
    relevant_context, EmbeddingRequest, MemoryMetadata,
};

fn conv(did: &str, role: Role, content: &str) -> Conversation {
    Conversation {
        root_uri: "at://root".to_string(),
        post_uri: "at://p".to_string(),
        parent_uri: None,
        author_did: did.to_string(),
        role,
        content: content.to_string(),
        cid: None,
        created_at: "2024-01-01T00:00:00Z".to_string(),
    }
}

#[test]
fn reply_steps() {
    assert!(matches!(reply_step(0, Ok("at://r".to_string()), 0), ReplyStep::Posted(ref u) if u == "at://r"));
    assert!(matches!(reply_step(0, Err(BotError::XrpcRateLimit("x".to_string())), 7), ReplyStep::Retry(1007)));
    assert!(matches!(reply_step(1, Err(BotError::XrpcServerError("x".to_string())), 0), ReplyStep::Retry(2000)));
    assert!(matches!(reply_step(2, Err(BotError::XrpcServerError("x".to_string())), 0), ReplyStep::Fail(BotError::XrpcServerError(_))));
    assert!(matches!(reply_step(0, Err(BotError::XrpcForbidden("x".to_string())), 0), ReplyStep::Fail(BotError::XrpcForbidden(_))));
}

#[test]
fn authors_listed_once_in_order() {
    let thread = vec![
        conv("did:b", Role::User, "1"),
        conv("did:bot", Role::Model, "2"),
        conv("did:b", Role::User, "3"),
        conv("did:a", Role::User, "4"),
    ];
    assert_eq!(distinct_authors(&thread), vec!["did:b", "did:bot", "did:a"]);
}

#[test]
fn chat_inspector_summaries() {
    assert_eq!(normalized_query(Some("  Rust ")), Some("rust".to_string()));
    assert_eq!(normalized_query(Some("   ")), None);
    assert_eq!(normalized_query(None), None);
    let thread = vec![conv("did:u1", Role::User, "Hello Rust"), conv("did:bot", Role::Model, "hi there")];
    assert_eq!(summary_handle_did(&thread), Some("did:u1".to_string()));
    assert_eq!(summary_handle_did(&vec![conv("did:bot", Role::Model, "x")]), Some("did:bot".to_string()));
    assert_eq!(summary_handle_did(&vec![]), None);
    assert_eq!(author_label(Some("alice.test"), "did:x"), "@alice.test");
    assert_eq!(author_label(None, "did:plc:abcdefghijklmnopqrstuvwxyz"), "did:plc:abcdefghijklmnopq...");
    assert!(matches_query(&thread, "@alice", "at://root", "rust"));
    assert!(matches_query(&thread, "@Alice", "at://root", "alice"));
    assert!(!matches_query(&thread, "@alice", "at://root", "python"));
    let s = summarize_thread("at://root".to_string(), 0, &thread, "@alice".to_string(), Some("rust")).unwrap();
    assert_eq!(s.preview, "hi there");
    assert_eq!(s.message_count, 2);
    assert_eq!(s.last_seen, "waiting");
    assert!(summarize_thread("at://root".to_string(), 0, &thread, "@alice".to_string(), Some("go")).is_none());
    assert!(summarize_thread("at://root".to_string(), 0, &vec![], "@alice".to_string(), None).is_none());
    assert_eq!(thinking_ms(Some((10, 500_000_000)), Some((12, 0))), Some(1500));
    assert_eq!(thinking_ms(Some((12, 0)), Some((10, 0))), None);
    assert_eq!(thinking_ms(None, Some((10, 0))), None);
}

#[test]
fn deck_sign_in_trims_credentials() {
    let mut store = SessionStore::new("admin".to_string(), "pw".to_string());
    assert!(store.sign_in("admin", "wrong", 0).is_none());
    let token = store.sign_in(" admin ", " pw\n", 10).unwrap();
    assert!(store.validate_session(&token, 11));
}

#[test]
fn jetstream_state_tracking() {
    let mut s = JetstreamState::new();
    assert_eq!(s.backlog_alert_threshold, 1000);
    assert_eq!(jetstream_state_check(&s).status, HealthStatus::Fail);
    s.set_connected(true, 500);
    assert_eq!(s.last_event_us, Some(500));
    s.increment_reconnects();
    assert_eq!(jetstream_state_check(&s).output.as_deref(), Some("Connected (1 reconnects)"));
    assert_eq!(s.time_since_last_event(800), Some(300));
    s.set_queue_depth(1000);
    assert!(s.is_backlogged());
    s.set_queue_depth(999);
    assert!(!s.is_backlogged());
    s.set_paused(true);
    assert!(s.is_paused);
    s.set_connected(false, 900);
    assert_eq!(s.last_event_us, Some(500));
}

fn req(conv: &str, text: &str) -> EmbeddingRequest {
    EmbeddingRequest {
        text: text.to_string(),
        conversation_id: conv.to_string(),
        author_did: "did:a".to_string(),
        role: "user".to_string(),
        parent_uri: None,
    }
}

#[test]
fn memory_batches() {
    let batch = vec![req("c1", "a"), req("c1", "b"), req("c1", "c")];
    assert_eq!(batch_conversation(&batch), Some("c1".to_string()));
    assert_eq!(batch_conversation(&vec![req("c1", "a"), req("c2", "b")]), None);
    assert_eq!(batch_conversation(&vec![]), None);
    let existing = vec![content_hash("b")];
    let pending = pending_requests(&batch, &existing);
    assert_eq!(pending, vec![(0, content_hash("a")), (2, content_hash("c"))]);
    let msgs = vec![("hello".to_string(), "did:x".to_string(), "user".to_string())];
    let reqs = backfill_requests("c9", &msgs);
    assert_eq!((reqs[0].text.as_str(), reqs[0].conversation_id.as_str(), reqs[0].author_did.as_str()), ("hello", "c9", "did:x"));
    let meta = |role: &str, did: &str| MemoryMetadata {
        author_did: did.to_string(),
        role: role.to_string(),
        parent_uri: None,
        topics: None,
    };
    let ctx = relevant_context(&vec![(meta("user", "did:a"), "x".to_string()), (meta("model", "did:b"), "y".to_string())]);
    assert_eq!(ctx, "[user from did:a]: x\n[model from did:b]: y");
    assert_eq!(relevant_context(&vec![]), "");
    assert_eq!(
        filter_clauses(Some("did:o'x"), None, Some("2024-01-01T00:00:00+00:00"), None),
        " AND m.author_did = 'did:o''x' AND m.created_at >= '2024-01-01T00:00:00+00:00'"
    );
    assert_eq!(filter_clauses(None, Some("user"), None, Some("z")), " AND m.role = 'user' AND m.created_at <= 'z'");
    assert_eq!(check_embedding_dim(768, 768), Ok(()));
    assert_eq!(check_embedding_dim(768, 3), Err("Embedding dimension mismatch: expected 768, got 3".to_string()));
}

#[test]
fn chat_message_target() {
    assert_eq!(chat_thread(&Some("at://t".to_string())), Some("at://t".to_string()));
    assert_eq!(chat_thread(&Some("  ".to_string())), None);
    assert_eq!(chat_thread(&None), None);
    let uris = vec!["at://a".to_string(), "at://b".to_string(), String::new()];
    assert_eq!(reply_parent(&uris), Some("at://b".to_string()));
    assert_eq!(reply_parent(&vec![String::new()]), None);
    assert_eq!(reply_parent(&vec![]), None);
}
