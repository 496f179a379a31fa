use tnbot_core::jetstream::client::{build_url, get_cursor, next_reconnect_backoff, JetstreamConfig};
use tnbot_core::jetstream::filter::{EventFilter, SharedFilter};
use tnbot_core::jetstream::pipeline::{
    classify_outcome, worker_action, PipelineConfig, PipelineStats, ProcessOutcome, ProcessedEvent, WorkerAction,
};
use tnbot_core::jetstream::types::{
    AccountData, CommitData, CommitOperation, Facet, FacetFeature, FacetIndex, IdentityData, JetstreamEvent, Record,
};

fn mention_facet(did: &str) -> Facet {
    Facet {
        index: FacetIndex { byte_start: 0, byte_end: 4 },
        features: vec![FacetFeature::Mention { did: did.to_string() }],
    }
}

fn mention_record(bot_did: &str) -> Record {
    Record {
        text: Some("@bot hello".to_string()),
        created_at: Some("2024-01-01T00:00:00.000Z".to_string()),
        reply: None,
        facets: Some(vec![Some(mention_facet(bot_did))]),
    }
}

fn create_mention_event(bot_did: &str) -> JetstreamEvent {
    JetstreamEvent::Commit {
        did: "did:plc:user123".to_string(),
        time_us: 1234567890,
        commit: CommitData {
            rev: "test".to_string(),
            operation: CommitOperation::Create,
            collection: "app.bsky.feed.post".to_string(),
            rkey: "test123".to_string(),
            record: Some(mention_record(bot_did)),
            cid: Some("bafyrei...".to_string()),
        },
    }
}

fn create_non_mention_event() -> JetstreamEvent {
    JetstreamEvent::Commit {
        did: "did:plc:user123".to_string(),
        time_us: 1234567890,
        commit: CommitData {
            rev: "test".to_string(),
            operation: CommitOperation::Create,
            collection: "app.bsky.feed.post".to_string(),
            rkey: "test123".to_string(),
            record: Some(Record {
                text: Some("Just a regular post".to_string()),
                created_at: None,
                reply: None,
                facets: None,
            }),
            cid: Some("bafyrei...".to_string()),
        },
    }
}

#[test]
fn test_jetstream_config_default() {
    let config = JetstreamConfig::default();
    assert_eq!(config.host, "wss://jetstream2.us-east.bsky.network");
    assert!(config.compress);
    assert_eq!(config.wanted_collections, vec!["app.bsky.feed.post"]);
}

#[test]
fn test_build_url_basic() {
    let config = JetstreamConfig::default();
    let url = build_url(&config, 0);
    assert!(url.contains("jetstream2.us-east.bsky.network/subscribe"));
    assert!(url.contains("wantedCollections=app.bsky.feed.post"));
    assert!(url.contains("compress=true"));
}

#[test]
fn test_build_url_rewinds_cursor_after_progress() {
    let config = JetstreamConfig::default();
    let url = build_url(&config, 10_000_000);
    assert!(url.contains("cursor=5000000"), "URL should include rewound cursor: {url}");
}

#[test]
fn build_url_exact_default() {
    let config = JetstreamConfig::default();
    assert_eq!(
        build_url(&config, 0),
        "wss://jetstream2.us-east.bsky.network/subscribe?wantedCollections=app.bsky.feed.post&compress=true"
    );
}

#[test]
fn cursor_rewinds_by_five_seconds() {
    let config = JetstreamConfig::default();
    assert_eq!(get_cursor(&config, 0), None);
    assert_eq!(get_cursor(&config, 3_000_000), Some(-2_000_000));
    assert_eq!(get_cursor(&config, 10_000_000), Some(5_000_000));
    let configured = JetstreamConfig { cursor: Some(42), ..JetstreamConfig::default() };
    assert_eq!(get_cursor(&configured, 0), Some(42));
}

#[test]
fn reconnect_backoff_doubles_up_to_a_minute() {
    assert_eq!(next_reconnect_backoff(1), 2);
    assert_eq!(next_reconnect_backoff(16), 32);
    assert_eq!(next_reconnect_backoff(32), 60);
    assert_eq!(next_reconnect_backoff(60), 60);
}

#[test]
fn test_filter_passes_mention() {
    let bot_did = "did:plc:bot123";
    let filter = EventFilter::new(bot_did.to_string());
    let event = create_mention_event(bot_did);

    let result = filter.filter(event);
    assert!(result.is_some());

    let filtered = result.unwrap();
    assert_eq!(filtered.cursor(), 1234567890);
    assert!(!filtered.is_acknowledged());
}

#[test]
fn test_filter_rejects_non_mention() {
    let filter = EventFilter::new("did:plc:bot123".to_string());
    let event = create_non_mention_event();

    let result = filter.filter(event);
    assert!(result.is_none());
}

#[test]
fn test_filter_rejects_identity_event() {
    let filter = EventFilter::new("did:plc:bot123".to_string());
    let event = JetstreamEvent::Identity {
        did: "did:plc:user123".to_string(),
        time_us: 1234567890,
        identity: IdentityData {
            did: "did:plc:user123".to_string(),
            handle: Some("user.bsky.social".to_string()),
            seq: 1,
            time: "2024-01-01T00:00:00.000Z".to_string(),
        },
    };

    let result = filter.filter(event);
    assert!(result.is_none());
}

#[test]
fn filter_rejects_account_event() {
    let filter = EventFilter::new("did:plc:bot123".to_string());
    let event = JetstreamEvent::Account {
        did: "did:plc:user123".to_string(),
        time_us: 7,
        account: AccountData {
            active: true,
            did: "did:plc:user123".to_string(),
            seq: 1,
            time: "2024-01-01T00:00:00.000Z".to_string(),
        },
    };
    assert!(filter.filter(event).is_none());
}

#[test]
fn test_filtered_event_acknowledge() {
    let bot_did = "did:plc:bot123";
    let filter = EventFilter::new(bot_did.to_string());
    let event = create_mention_event(bot_did);

    let mut filtered = filter.filter(event).unwrap();
    assert!(!filtered.is_acknowledged());

    filtered.acknowledge();
    assert!(filtered.is_acknowledged());
}

#[test]
fn test_shared_filter() {
    let bot_did = "did:plc:bot123";
    let filter = EventFilter::new(bot_did.to_string());
    let shared = SharedFilter::new(filter);
    let shared2 = shared.clone();

    let event = create_mention_event(bot_did);
    assert!(shared.filter(event.clone()).is_some());
    assert!(shared2.filter(event).is_some());
}

#[test]
fn shared_filter_keeps_wrapped_settings() {
    let mut filter = EventFilter::new("did:plc:bot123".to_string());
    filter.log_discarded = true;
    let shared = SharedFilter::new(filter);
    assert_eq!(shared.inner().bot_did, "did:plc:bot123");
    assert!(shared.inner().log_discarded);
    let copy = shared.clone();
    assert!(copy.inner().log_discarded);
}

#[test]
fn test_filter_rejects_delete_operation() {
    let bot_did = "did:plc:bot123";
    let filter = EventFilter::new(bot_did.to_string());
    let record = Record { text: None, created_at: None, reply: None, facets: Some(vec![Some(mention_facet(bot_did))]) };

    let event = JetstreamEvent::Commit {
        did: "did:plc:user123".to_string(),
        time_us: 1234567890,
        commit: CommitData {
            rev: "test".to_string(),
            operation: CommitOperation::Delete,
            collection: "app.bsky.feed.post".to_string(),
            rkey: "test123".to_string(),
            record: Some(record),
            cid: None,
        },
    };

    let result = filter.filter(event);
    assert!(result.is_none(), "Should reject delete operations");
}

#[test]
fn test_commit_data_is_mention_of() {
    let record = Record {
        text: None,
        created_at: None,
        reply: None,
        facets: Some(vec![Some(Facet {
            index: FacetIndex { byte_start: 0, byte_end: 8 },
            features: vec![FacetFeature::Mention { did: "did:plc:bot123".to_string() }],
        })]),
    };

    let commit = CommitData {
        rev: "test".to_string(),
        operation: CommitOperation::Create,
        collection: "app.bsky.feed.post".to_string(),
        rkey: "test".to_string(),
        record: Some(record),
        cid: None,
    };

    assert!(commit.is_mention_of("did:plc:bot123"));
    assert!(!commit.is_mention_of("did:plc:other"));
}

#[test]
fn test_commit_data_not_post() {
    let commit = CommitData {
        rev: "test".to_string(),
        operation: CommitOperation::Create,
        collection: "app.bsky.feed.like".to_string(),
        rkey: "test".to_string(),
        record: None,
        cid: None,
    };

    assert!(!commit.is_mention_of("did:plc:bot123"));
}

#[test]
fn mention_among_malformed_facets_still_counts() {
    let record = Record {
        text: None,
        created_at: None,
        reply: None,
        facets: Some(vec![
            None,
            Some(Facet { index: FacetIndex { byte_start: 0, byte_end: 1 }, features: vec![FacetFeature::Tag { tag: "x".to_string() }] }),
            Some(mention_facet("did:plc:bot123")),
        ]),
    };
    let commit = CommitData {
        rev: "r".to_string(),
        operation: CommitOperation::Create,
        collection: "app.bsky.feed.post".to_string(),
        rkey: "k".to_string(),
        record: Some(record),
        cid: None,
    };
    assert!(commit.is_mention_of("did:plc:bot123"));
}

#[test]
fn pipeline_config_default() {
    let c = PipelineConfig::default();
    assert_eq!(c.num_workers, 4);
    assert_eq!(c.channel_buffer_size, 1000);
    assert_eq!(c.max_in_flight, 100);
}

#[test]
fn pipeline_stats_take_and_finish_restore_in_flight() {
    let bot_did = "did:plc:bot123";
    let filter = SharedFilter::new(EventFilter::new(bot_did.to_string()));
    let mut stats = PipelineStats::default();

    assert!(stats.take_event(&filter, create_non_mention_event()).is_none());
    let mut taken = stats.take_event(&filter, create_mention_event(bot_did)).unwrap();
    let s = stats.snapshot();
    assert_eq!((s.events_received, s.events_filtered, s.events_in_flight), (2, 1, 1));

    taken.acknowledge();
    let result: Result<ProcessedEvent, String> = Ok(ProcessedEvent { event: taken, success: true, error: None });
    let outcome = classify_outcome(&result);
    assert_eq!(outcome, ProcessOutcome::Acknowledged);
    stats.finish(outcome);
    let s = stats.snapshot();
    assert_eq!((s.events_processed, s.events_failed, s.events_in_flight), (1, 0, 0));

    let _ = stats.take_event(&filter, create_mention_event(bot_did)).unwrap();
    stats.finish(classify_outcome(&Err("boom".to_string())));
    let s = stats.snapshot();
    assert_eq!((s.events_processed, s.events_failed, s.events_in_flight), (1, 1, 0));
}

#[test]
fn idle_pipeline_counts_every_filtered_event_once() {
    let bot_did = "did:plc:bot123";
    let filter = SharedFilter::new(EventFilter::new(bot_did.to_string()));
    let mut stats = PipelineStats::default();
    let a = stats.take_event(&filter, create_mention_event(bot_did)).unwrap();
    let _ = stats.take_event(&filter, create_non_mention_event());
    let b = stats.take_event(&filter, create_mention_event(bot_did)).unwrap();
    let r: Result<ProcessedEvent, String> = Ok(ProcessedEvent { event: a, success: true, error: None });
    stats.finish(classify_outcome(&r));
    let r: Result<ProcessedEvent, String> = Ok(ProcessedEvent { event: b, success: false, error: None });
    stats.finish(classify_outcome(&r));
    let s = stats.snapshot();
    assert_eq!(s.events_in_flight, 0);
    assert_eq!(s.events_processed + s.events_failed, s.events_filtered);
    assert_eq!((s.events_received, s.events_filtered, s.events_processed, s.events_failed), (3, 2, 0, 2));
}

#[test]
fn classify_outcome_distinguishes_failures() {
    let filter = EventFilter::new("did:plc:bot123".to_string());
    let ev = filter.filter(create_mention_event("did:plc:bot123")).unwrap();
    let r: Result<ProcessedEvent, String> =
        Ok(ProcessedEvent { event: ev, success: false, error: Some("x".to_string()) });
    assert_eq!(classify_outcome(&r), ProcessOutcome::ReportedFailure);
    let ev = filter.filter(create_mention_event("did:plc:bot123")).unwrap();
    let r: Result<ProcessedEvent, String> = Ok(ProcessedEvent { event: ev, success: true, error: None });
    assert_eq!(classify_outcome(&r), ProcessOutcome::Unacknowledged);
}

#[test]
fn worker_actions() {
    assert_eq!(worker_action(true, 0, 10), WorkerAction::Stop);
    assert_eq!(worker_action(true, 3, 10), WorkerAction::Drain);
    assert_eq!(worker_action(false, 10, 10), WorkerAction::Throttle);
    assert_eq!(worker_action(false, 9, 10), WorkerAction::Receive);
}
