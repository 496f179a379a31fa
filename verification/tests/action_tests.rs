use tnbot_core::action::{
    backoff_with_jitter, calculate_backoff, should_retry_reply, ActionResult, MentionAction, MentionFlow, MentionInput,
    MentionState,
};
use tnbot_core::db::Role;
use tnbot_core::error::BotError;
use tnbot_core::jetstream::filter::EventFilter;
use tnbot_core::jetstream::types::{CommitData, CommitOperation, Facet, FacetFeature, FacetIndex, JetstreamEvent, Record};

#[test]
fn test_backoff_calculation() {
    let b0 = calculate_backoff(0, 1000, 60000);
    assert!((1000..=2000).contains(&b0));

    let b1 = calculate_backoff(1, 1000, 60000);
    assert!((2000..=3000).contains(&b1));

    let b5 = calculate_backoff(5, 1000, 60000);
    assert!(b5 <= 60000 + 1000);
}

#[test]
fn backoff_with_jitter_exact_values() {
    assert_eq!(backoff_with_jitter(0, 1000, 60000, 0), 1000);
    assert_eq!(backoff_with_jitter(3, 1000, 60000, 250), 8250);
    assert_eq!(backoff_with_jitter(10, 1000, 60000, 1000), 61000);
    assert_eq!(backoff_with_jitter(200, 7, u64::MAX, 5), u64::MAX);
    assert_eq!(backoff_with_jitter(200, 0, 60000, 5), 5);
}

#[test]
fn test_action_result_fields() {
    let result = ActionResult {
        post_uri: "at://did:plc:test/app.bsky.feed.post/123".to_string(),
        root_uri: "at://did:plc:test/app.bsky.feed.post/root".to_string(),
        response_text: Some("Hello!".to_string()),
        posted_reply_uri: Some("at://did:plc:bot/app.bsky.feed.post/reply".to_string()),
        silent: false,
        loop_prevented: false,
        error: None,
    };

    assert!(!result.silent);
    assert!(!result.loop_prevented);
    assert!(result.response_text.is_some());
    assert!(result.posted_reply_uri.is_some());
}

#[test]
fn reply_retries_only_transient_errors() {
    assert!(should_retry_reply(0, 3, &BotError::XrpcRateLimit("x".to_string())));
    assert!(should_retry_reply(1, 3, &BotError::XrpcServerError("x".to_string())));
    assert!(!should_retry_reply(2, 3, &BotError::XrpcServerError("x".to_string())));
    assert!(!should_retry_reply(0, 3, &BotError::XrpcForbidden("x".to_string())));
}

fn mention_event(author: &str, text: &str) -> JetstreamEvent {
    JetstreamEvent::Commit {
        did: author.to_string(),
        time_us: 5,
        commit: CommitData {
            rev: "r".to_string(),
            operation: CommitOperation::Create,
            collection: "app.bsky.feed.post".to_string(),
            rkey: "k1".to_string(),
            record: Some(Record {
                text: Some(text.to_string()),
                created_at: Some("2024-03-03T00:00:00Z".to_string()),
                reply: None,
                facets: Some(vec![Some(Facet {
                    index: FacetIndex { byte_start: 0, byte_end: 4 },
                    features: vec![FacetFeature::Mention { did: "did:plc:bot".to_string() }],
                })]),
            }),
            cid: Some("cid1".to_string()),
        },
    }
}

#[test]
fn mention_flow_posts_and_stores_reply() {
    let filter = EventFilter::new("did:plc:bot".to_string());
    let event = filter.filter(mention_event("did:plc:user", "@bot hi")).unwrap();
    let flow = MentionFlow::new("did:plc:bot".to_string());

    let (state, action) = flow.begin(&event);
    match &action {
        MentionAction::StoreMention(p) => {
            assert_eq!(p.post_uri, "at://did:plc:user/app.bsky.feed.post/k1");
            assert_eq!(p.root_uri, "at://did:plc:user/app.bsky.feed.post/k1");
            assert_eq!(p.role, Role::User);
            assert_eq!(p.content, "@bot hi");
        }
        other => panic!("unexpected {other:?}"),
    }
    let (state, action) = flow.step(state, MentionInput::MentionStored(Ok(())));
    assert!(matches!(action, MentionAction::GenerateResponse { ref root_uri } if root_uri == "at://did:plc:user/app.bsky.feed.post/k1"));
    let (state, action) = flow.step(state, MentionInput::ResponseReady(Ok(Some("hello there".to_string()))));
    match &action {
        MentionAction::PostReply { parent_uri, text, parent_cid, .. } => {
            assert_eq!(parent_uri, "at://did:plc:user/app.bsky.feed.post/k1");
            assert_eq!(text, "hello there");
            assert_eq!(parent_cid.as_deref(), Some("cid1"));
        }
        other => panic!("unexpected {other:?}"),
    }
    let (state, action) = flow.step(state, MentionInput::ReplyPosted(Ok("at://did:plc:bot/app.bsky.feed.post/r1".to_string())));
    match &action {
        MentionAction::StoreReply(p) => {
            assert_eq!(p.role, Role::Model);
            assert_eq!(p.author_did, "did:plc:bot");
            assert_eq!(p.parent_uri.as_deref(), Some("at://did:plc:user/app.bsky.feed.post/k1"));
        }
        other => panic!("unexpected {other:?}"),
    }
    let (state, action) = flow.step(state, MentionInput::ReplyStored(Ok(())));
    assert!(matches!(state, MentionState::Finished));
    match action {
        MentionAction::Finish(Ok(res)) => {
            assert_eq!(res.posted_reply_uri.as_deref(), Some("at://did:plc:bot/app.bsky.feed.post/r1"));
            assert_eq!(res.response_text.as_deref(), Some("hello there"));
            assert!(!res.silent);
        }
        other => panic!("unexpected {other:?}"),
    }
}

#[test]
fn mention_flow_silent_and_dry_run_and_empty() {
    let filter = EventFilter::new("did:plc:bot".to_string());
    let flow = MentionFlow::new("did:plc:bot".to_string());
    let event = filter.filter(mention_event("did:plc:user", "@bot hi")).unwrap();
    let (state, _) = flow.begin(&event);
    let (state, _) = flow.step(state, MentionInput::MentionStored(Ok(())));
    let (_, action) = flow.step(state, MentionInput::ResponseReady(Ok(Some("<SILENT_THOUGHT> no".to_string()))));
    assert!(matches!(action, MentionAction::Finish(Ok(ref r)) if r.silent && r.posted_reply_uri.is_none()));

    let dry = MentionFlow::new("did:plc:bot".to_string()).with_dry_run();
    assert!(dry.is_dry_run());
    let event = filter.filter(mention_event("did:plc:user", "@bot hi")).unwrap();
    let (state, _) = dry.begin(&event);
    let (state, _) = dry.step(state, MentionInput::MentionStored(Ok(())));
    let (_, action) = dry.step(state, MentionInput::ResponseReady(Ok(Some("reply".to_string()))));
    assert!(matches!(action, MentionAction::Finish(Ok(ref r)) if !r.silent && r.posted_reply_uri.is_none()));

    let event = filter.filter(mention_event("did:plc:user", "@bot hi")).unwrap();
    let (state, _) = flow.begin(&event);
    let (state, _) = flow.step(state, MentionInput::MentionStored(Ok(())));
    let (_, action) = flow.step(state, MentionInput::ResponseReady(Ok(None)));
    assert!(matches!(action, MentionAction::Finish(Err(BotError::AiResponse(ref m))) if m == "Empty response from model"));
}

#[test]
fn mention_flow_skips_the_bots_own_posts() {
    let filter = EventFilter::new("did:plc:bot".to_string());
    let flow = MentionFlow::new("did:plc:bot".to_string());
    let event = filter.filter(mention_event("did:plc:bot", "@bot me")).unwrap();
    let (state, action) = flow.begin(&event);
    assert!(matches!(state, MentionState::Finished));
    assert!(matches!(action, MentionAction::Finish(Ok(ref r)) if r.loop_prevented));
}
