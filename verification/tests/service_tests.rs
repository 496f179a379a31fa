use tnbot_core::db::CachedIdentity;
use tnbot_core::error::BotError;
use tnbot_core::gemini::{
    decide_gemini, extract_text_from_parts, prompt_contents, start_gemini_request, ChatMessage, GeminiClient,
    GeminiEmbeddingProvider, GeminiErrorDetail, GeminiOutcome, GeminiStep, Part, Prompt, PromptBuilder,
};
use tnbot_core::identity::{
    after_fallback_lookup, after_profile_fetch, identity_for_resolved_handle, IdentityResolver, IDENTITY_TTL_HOURS,
};
use tnbot_core::jetstream::client::{cursor_after, decode_binary_frame, FrameError};
use tnbot_core::jetstream::types::{IdentityData, JetstreamEvent};

#[test]
fn test_client_creation() {
    let client = GeminiClient::new("test-key".to_string(), None);
    assert_eq!(client.api_key(), "test-key");
    assert_eq!(client.model(), "gemini-3.0-pro");
}

#[test]
fn test_extract_text_from_parts() {
    let parts = vec![Part::Text { text: "Hello".to_string() }, Part::Text { text: "World".to_string() }];
    let text = extract_text_from_parts(&parts).unwrap();
    assert_eq!(text, "Hello\nWorld");
}

#[test]
fn test_extract_text_from_empty_parts() {
    let parts = vec![];
    let result = extract_text_from_parts(&parts);
    assert!(result.is_err());
}

#[test]
fn thoughts_are_left_out_of_the_text() {
    let parts = vec![
        Part::Thought { thought: "hmm".to_string() },
        Part::Text { text: "a".to_string() },
        Part::Thought { thought: "x".to_string() },
        Part::Text { text: "b".to_string() },
    ];
    assert_eq!(extract_text_from_parts(&parts), Ok("a\nb".to_string()));
    let only = vec![Part::Thought { thought: "hmm".to_string() }];
    assert_eq!(extract_text_from_parts(&only), Err("No text content in response".to_string()));
}

#[test]
fn test_provider_creation() {
    let provider = GeminiEmbeddingProvider::new("test-key".to_string());
    assert_eq!(provider.api_key(), "test-key");
    assert_eq!(provider.model(), "text-embedding-004");
}

#[test]
fn gemini_urls_and_texts() {
    let client = GeminiClient::new("k".to_string(), Some("m1".to_string()));
    assert_eq!(
        client.generate_url(),
        "https://generativelanguage.googleapis.com/v1beta/models/m1:generateContent?key=k"
    );
    let p = GeminiEmbeddingProvider::new("k".to_string());
    assert_eq!(
        p.embed_url(),
        "https://generativelanguage.googleapis.com/v1beta/models/text-embedding-004:embedContent?key=k"
    );
    assert_eq!(p.request_model(), "models/text-embedding-004");
    assert_eq!(GeminiEmbeddingProvider::clean_text("  hi "), Ok("hi".to_string()));
    assert_eq!(GeminiEmbeddingProvider::clean_text("   "), Err("Cannot embed empty text".to_string()));
    let c = prompt_contents("q", Some("sys".to_string()));
    assert_eq!(c, vec![("system".to_string(), "sys".to_string()), ("user".to_string(), "q".to_string())]);
    assert_eq!(prompt_contents("q", None), vec![("user".to_string(), "q".to_string())]);
}

#[test]
fn gemini_retries_server_errors_three_times() {
    let (s, step) = start_gemini_request();
    assert!(matches!(step, GeminiStep::Send));
    let (s, step) = decide_gemini(s, GeminiOutcome::ServerError { status: "503".to_string(), body: "busy".to_string() }, false);
    assert!(matches!(step, GeminiStep::Sleep(2000)));
    let (s, step) = decide_gemini(s, GeminiOutcome::RequestFailed("reset".to_string()), false);
    assert!(matches!(step, GeminiStep::Sleep(4000)));
    let (_, step) = decide_gemini(s, GeminiOutcome::RequestFailed("reset".to_string()), false);
    assert!(matches!(step, GeminiStep::Fail(ref m) if m == "Request failed: reset"));

    let (s, _) = start_gemini_request();
    let detail = GeminiErrorDetail { code: 400, message: "bad".to_string(), status: "INVALID_ARGUMENT".to_string() };
    let (_, step) = decide_gemini(
        s.clone(),
        GeminiOutcome::ClientError { status: "400 Bad Request".to_string(), detail: Some(detail.clone()), body: String::new() },
        true,
    );
    assert!(matches!(step, GeminiStep::Fail(ref m) if m == "Gemini API error (400 Bad Request): INVALID_ARGUMENT - bad (code: 400)"));
    let (_, step) = decide_gemini(
        s.clone(),
        GeminiOutcome::ClientError { status: "400 Bad Request".to_string(), detail: Some(detail), body: String::new() },
        false,
    );
    assert!(matches!(step, GeminiStep::Fail(ref m) if m == "Gemini API error (400 Bad Request): INVALID_ARGUMENT - bad"));
    let (_, step) = decide_gemini(s, GeminiOutcome::Success, false);
    assert!(matches!(step, GeminiStep::Read));
}

#[test]
fn prompts_prefix_user_messages_with_handles() {
    let b = PromptBuilder::new(None);
    let p = b.build_for_text("hey");
    assert!(p.system_instruction.starts_with("You are a helpful, stateful AI agent on Bluesky."));
    assert_eq!(p.history.len(), 1);
    let m = PromptBuilder::history_message("user", "hello", "did:plc:a", Some("alice.test".to_string()));
    assert_eq!(m.content, "[@alice.test]: hello");
    let m = PromptBuilder::history_message("user", "hello", "did:plc:a", None);
    assert_eq!(m.content, "[@did:plc:a]: hello");
    let m = PromptBuilder::history_message("model", "hi", "did:plc:bot", None);
    assert_eq!(m.content, "hi");
    let prompt = Prompt {
        system_instruction: "S".to_string(),
        history: vec![ChatMessage { role: "user".to_string(), content: "u".to_string() }],
    };
    let contents = PromptBuilder::new(Some("ignored".to_string())).to_gemini_contents(&prompt);
    assert_eq!(contents, vec![("system".to_string(), "S".to_string()), ("user".to_string(), "u".to_string())]);
}

fn cached(last_updated: &str) -> CachedIdentity {
    CachedIdentity { did: "did:plc:a".to_string(), handle: "alice.test".to_string(), last_updated: last_updated.to_string() }
}

#[test]
fn identity_cache_freshness() {
    let r = IdentityResolver::new((), "https://pds.example".to_string());
    assert_eq!(r.ttl_hours(), IDENTITY_TTL_HOURS);
    let now = (1_700_000_000i64, 0u32);
    let fresh = "2023-11-14T22:00:00Z";
    let stale = "2023-11-13T22:00:00Z";
    assert!(!r.is_stale_at(fresh, now));
    assert!(r.is_stale_at(stale, now));
    assert!(r.is_stale_at("not a date", now));
    assert!(matches!(r.after_cache_lookup(Ok(Some(cached(fresh))), now, false), Ok(Some(ref h)) if h == "alice.test"));
    assert!(matches!(r.after_cache_lookup(Ok(Some(cached(fresh))), now, true), Ok(Some(ref d)) if d == "did:plc:a"));
    assert!(matches!(r.after_cache_lookup(Ok(Some(cached(stale))), now, false), Ok(None)));
    assert!(matches!(r.after_cache_lookup(Ok(None), now, false), Ok(None)));
    assert!(matches!(
        r.after_cache_lookup(Err(BotError::Database("x".to_string())), now, false),
        Err(BotError::Database(_))
    ));
    let short = IdentityResolver::with_ttl((), "h".to_string(), 1);
    assert!(short.is_stale_at(fresh, (1_700_000_000 + 7200, 0)));
    assert_eq!(
        r.profile_url("did:plc:a"),
        "https://pds.example/xrpc/app.bsky.actor.getProfile?actor=did:plc:a"
    );
    assert_eq!(
        r.resolve_handle_url("alice.test"),
        "https://pds.example/xrpc/com.atproto.identity.resolveHandle?handle=alice.test"
    );
}

#[test]
fn identity_resolution_steps() {
    let p = after_profile_fetch("did:plc:a", Ok(("alice.test".to_string(), Some("Alice".to_string())))).unwrap();
    assert_eq!((p.did.as_str(), p.handle.as_str(), p.display_name.as_deref()), ("did:plc:a", "alice.test", Some("Alice")));
    assert!(after_profile_fetch("did:plc:a", Err(BotError::Validation("down".to_string()))).is_err());
    let ok = after_fallback_lookup(Ok(Some(cached("x"))), BotError::Validation("down".to_string()), false);
    assert!(matches!(ok, Ok(ref h) if h == "alice.test"));
    let err = after_fallback_lookup(Ok(None), BotError::Validation("down".to_string()), true);
    assert!(matches!(err, Err(BotError::Validation(ref m)) if m == "down"));
    let i = identity_for_resolved_handle("alice.test", "did:plc:a", Err(BotError::Validation("x".to_string())));
    assert_eq!((i.handle.as_str(), i.display_name.is_none()), ("alice.test", true));
}

#[test]
fn frames_decompress_to_text() {
    let text = r#"{"kind":"commit"}"#;
    let data = zstd::bulk::compress(text.as_bytes(), 3).unwrap();
    assert_eq!(decode_binary_frame(&[], &data), Ok(text.to_string()));
    assert_eq!(decode_binary_frame(&[], b"not zstd"), Err(FrameError::Decompress));
    let bad = zstd::bulk::compress(&[0xff, 0xfe], 3).unwrap();
    assert_eq!(decode_binary_frame(&[], &bad), Err(FrameError::InvalidUtf8));
}

#[test]
fn cursor_moves_with_commits_only() {
    let identity = JetstreamEvent::Identity {
        did: "d".to_string(),
        time_us: 99,
        identity: IdentityData { did: "d".to_string(), handle: None, seq: 1, time: "t".to_string() },
    };
    assert_eq!(cursor_after(&identity, 5), 5);
}
