use tnbot_core::embedding::{chunk_bounds, first_embedding, BatchStep, EmbedBatch, AttemptOutcome, OllamaEmbeddingProvider, RetryAction, RetryState};
use tnbot_core::error::BotError;
use tnbot_core::formatters::{block_reason_label, conversation_row, pending_response_excerpt, pending_thread_label, format_uptime, ftime, non_empty_or_missing, rel_event_at, secret_status, shorten};
use tnbot_core::health::{
    bluesky_check_result, database_check_result, gemini_check_result, jetstream_check_result, ComponentHealth,
    HealthRegistry, HealthReport, HealthStatus,
};
use tnbot_core::jetstream::filter::EventFilter;
use tnbot_core::jetstream::types::{CommitData, CommitOperation, Facet, FacetFeature, FacetIndex, JetstreamEvent, Record};
use tnbot_core::processor::{create_database_processor, DatabaseEventProcessor, StoreDecision};
use tnbot_core::runtime::{new_shared_runtime, RuntimeState};
use tnbot_core::vector::{consolidate_messages, content_hash, quote_hash_list, MemoryRetrieverConfig, StoredMessage};

#[test]
fn health_report_status_is_the_worst_check() {
    let report = HealthReport::new("1.0".to_string());
    assert_eq!(report.status, HealthStatus::Pass);
    assert_eq!(report.http_status(), 200);
    let report = report
        .with_check("database".to_string(), ComponentHealth::healthy("database".to_string()))
        .with_check("gemini".to_string(), ComponentHealth::degraded("gemini".to_string(), "slow".to_string()));
    assert_eq!(report.status, HealthStatus::Warn);
    assert_eq!(report.http_status(), 503);
    let report = report.with_check("bluesky".to_string(), ComponentHealth::unhealthy("bluesky".to_string(), "down".to_string()));
    assert_eq!(report.status, HealthStatus::Fail);
    let report = report.with_check("bluesky".to_string(), ComponentHealth::healthy("bluesky".to_string()));
    assert_eq!(report.checks.len(), 3);
    assert_eq!(report.status, HealthStatus::Warn);
}

#[test]
fn health_registry_reads_back_what_was_written() {
    let mut reg = HealthRegistry::new();
    assert!(reg.get_component("db").is_none());
    reg.update_component("db".to_string(), ComponentHealth::healthy("db".to_string()).with_latency(12));
    let got = reg.get_component("db").unwrap();
    assert_eq!(got.status, HealthStatus::Pass);
    assert_eq!(got.observed_value, 12);
    reg.update_component("db".to_string(), ComponentHealth::unhealthy("db".to_string(), "gone".to_string()));
    assert_eq!(reg.get_component("db").unwrap().error.as_deref(), Some("gone"));
    assert_eq!(reg.all_components().len(), 1);
    let report = reg.generate_report("2.0".to_string());
    assert_eq!(report.status, HealthStatus::Fail);
    assert_eq!(report.version, "2.0");
}

#[test]
fn component_check_results() {
    let ok = database_check_result(Ok(()), 3);
    assert_eq!((ok.status, ok.observed_value), (HealthStatus::Pass, 3));
    let bad = database_check_result(Err("timeout".to_string()), 9);
    assert_eq!((bad.status, bad.error.as_deref()), (HealthStatus::Fail, Some("timeout")));
    assert_eq!(jetstream_check_result(true, 2).output.as_deref(), Some("Connected (2 reconnects)"));
    assert_eq!(jetstream_check_result(false, 2).error.as_deref(), Some("Not connected"));
    assert_eq!(bluesky_check_result(true).output.as_deref(), Some("Session valid"));
    assert_eq!(gemini_check_result("", None).status, HealthStatus::Fail);
    assert_eq!(gemini_check_result("k", None).status, HealthStatus::Warn);
    assert_eq!(
        gemini_check_result("k", Some("12:00".to_string())).output.as_deref(),
        Some("Last successful call: 12:00")
    );
    assert!(HealthStatus::Pass.is_healthy());
    assert!(HealthStatus::Warn.is_healthy());
    assert!(!HealthStatus::Fail.is_healthy());
}

#[test]
fn formatter_values() {
    assert_eq!(shorten("abcdef", 10), "abcdef");
    assert_eq!(shorten("abcdefghijkl", 8), "abcde...");
    assert_eq!(shorten("abcdef", 2), "...");
    assert_eq!(non_empty_or_missing("  x "), "x");
    assert_eq!(non_empty_or_missing("   "), "(not set)");
    assert_eq!(secret_status(" abc "), "set (3 chars)");
    assert_eq!(secret_status(""), "missing");
    assert_eq!(format_uptime(59), "00h 00m");
    assert_eq!(format_uptime(3 * 86_400 + 5 * 3600 + 7 * 60 + 9), "3d 05h 07m");
    assert_eq!(rel_event_at(0, 10), "waiting");
    assert_eq!(rel_event_at(10_000_000, 12_000_000), "just now");
    assert_eq!(rel_event_at(10_000_000, 40_000_000), "30s ago");
    assert_eq!(rel_event_at(1_000_000, 1_000_000 + 3_600_000_000 * 5), "5h ago");
    assert_eq!(rel_event_at(1_000_000, 1_000_000 + 86_400_000_000 * 2), "2d ago");
}

#[test]
fn runtime_counters() {
    let mut rt = RuntimeState::new();
    assert!(!rt.is_paused());
    rt.set_paused(true);
    assert!(rt.is_paused());
    rt.record_jetstream_event(77);
    assert_eq!(rt.last_jetstream_event_us(), 77);
    rt.begin_processing();
    assert_eq!(rt.events_in_flight(), 1);
    rt.finish_processing(true, Some(120));
    assert_eq!((rt.events_in_flight(), rt.events_processed(), rt.last_model_latency_ms()), (0, 1, 120));
    rt.begin_processing();
    rt.finish_processing(false, Some(5));
    assert_eq!((rt.events_failed(), rt.last_model_latency_ms()), (1, 120));
    let shared = new_shared_runtime();
    assert_eq!(shared.events_processed(), 0);
    let d = RuntimeState::default();
    assert_eq!(d.events_in_flight(), 0);
}

#[test]
fn memory_hash_quote_and_summary() {
    assert_eq!(content_hash("abc"), "ba7816bf8f01cfea414140de5dae2223b00361a396177a9cb410ff61f20015ad");
    assert_eq!(quote_hash_list(&vec!["a".to_string(), "b'c".to_string()]), "'a', 'b''c'");
    assert_eq!(quote_hash_list(&vec![]), "");
    let c = MemoryRetrieverConfig::default();
    assert_eq!((c.top_k, c.rrf_k), (5, 60));

    let msg = |i: usize| StoredMessage {
        content: format!("m{i}"),
        role: "user".to_string(),
        author_did: "did:a".to_string(),
    };
    let three: Vec<StoredMessage> = (0..3).map(msg).collect();
    assert!(consolidate_messages("c1", &three).is_none());
    let four: Vec<StoredMessage> = (0..4).map(msg).collect();
    let m = consolidate_messages("c1", &four).unwrap();
    let text = "[user:did:a] m0 | [user:did:a] m1 | [user:did:a] m2 | [user:did:a] m3";
    assert_eq!(m.content, format!("Summary: {text}"));
    assert_eq!(m.content_hash, content_hash(text));
    assert_eq!(m.metadata.author_did, "system");
    assert_eq!(m.metadata.role, "summary");
    let many: Vec<StoredMessage> = (0..20).map(msg).collect();
    let m = consolidate_messages("c1", &many).unwrap();
    assert_eq!(m.content.matches(" | ").count(), 11);
    assert!(m.content.ends_with("m11"));
}

#[test]
fn batches_are_split_in_order() {
    assert_eq!(chunk_bounds(0, 32), vec![]);
    assert_eq!(chunk_bounds(5, 2), vec![(0, 2), (2, 4), (4, 5)]);
    assert_eq!(chunk_bounds(4, 2), vec![(0, 2), (2, 4)]);
    assert_eq!(chunk_bounds(3, 10), vec![(0, 3)]);
}

fn embed_error(a: &RetryAction) -> Option<String> {
    match a {
        RetryAction::Finish(Err(BotError::Embedding(m))) => Some(m.clone()),
        _ => None,
    }
}

#[test]
fn embedding_retries() {
    let p = OllamaEmbeddingProvider::default_embeddinggemma("http://x".to_string());
    let (state, action) = p.start_request();
    assert!(matches!(action, RetryAction::Send));
    let (state, action) = p.decide(state, AttemptOutcome::Timeout, 10);
    assert_eq!(state.attempt, 1);
    assert!(matches!(action, RetryAction::Sleep(1010)));
    let (state, action) = p.decide(
        state,
        AttemptOutcome::HttpError { status: "500 Internal Server Error".to_string(), body: None },
        5,
    );
    assert!(matches!(action, RetryAction::Sleep(2005)));
    match &state.last_error {
        Some(BotError::Embedding(m)) => assert_eq!(
            m,
            "Ollama API error (attempt 2): 500 Internal Server Error - HTTP 500 Internal Server Error"
        ),
        other => panic!("unexpected {other:?}"),
    }
    let (_, action) = p.decide(state, AttemptOutcome::ConnectFailed("refused".to_string()), 0);
    assert_eq!(embed_error(&action).as_deref(), Some("Ollama connection failed (attempt 3): refused"));

    let (_, action) = p.decide(RetryState { attempt: 0, last_error: None }, AttemptOutcome::Embeddings(vec![768, 768]), 0);
    assert!(matches!(action, RetryAction::Finish(Ok(()))));
    let (_, action) = p.decide(RetryState { attempt: 0, last_error: None }, AttemptOutcome::Embeddings(vec![768, 12, 3]), 0);
    assert_eq!(embed_error(&action).as_deref(), Some("Embedding 1 has 12 dimensions, expected 768"));

    let none = p.clone().with_max_retries(0);
    let (_, action) = none.start_request();
    assert_eq!(embed_error(&action).as_deref(), Some("Max retries exceeded for embedding request"));

    let (_, action) = p.decide_with_jitter(RetryState { attempt: 0, last_error: None }, AttemptOutcome::Timeout);
    assert!(matches!(action, RetryAction::Sleep(ms) if (1000..1500).contains(&ms)));
}

fn event(did: &str, with_record: bool) -> JetstreamEvent {
    JetstreamEvent::Commit {
        did: did.to_string(),
        time_us: 1,
        commit: CommitData {
            rev: "r".to_string(),
            operation: CommitOperation::Create,
            collection: "app.bsky.feed.post".to_string(),
            rkey: "test123".to_string(),
            record: if with_record {
                Some(Record {
                    text: Some("@bot hello".to_string()),
                    created_at: Some("2024-01-01T00:00:00.000Z".to_string()),
                    reply: None,
                    facets: Some(vec![Some(Facet {
                        index: FacetIndex { byte_start: 0, byte_end: 4 },
                        features: vec![FacetFeature::Mention { did: "did:plc:bot123".to_string() }],
                    })]),
                })
            } else {
                None
            },
            cid: Some("bafyrei...".to_string()),
        },
    }
}

#[test]
fn database_processor_prepares_and_completes() {
    let filter = EventFilter::new("did:plc:bot123".to_string());
    let processor = DatabaseEventProcessor::new("repo");
    assert_eq!(*processor.repo(), "repo");
    let filtered = filter.filter(event("did:plc:user456", true)).unwrap();
    match processor.prepare(filtered) {
        StoreDecision::Store(params, ev) => {
            assert_eq!(params.post_uri, "at://did:plc:user456/app.bsky.feed.post/test123");
            assert_eq!(params.author_did, "did:plc:user456");
            assert_eq!(params.content, "@bot hello");
            assert_eq!(params.created_at, "2024-01-01T00:00:00.000Z");
            let done = processor.complete(ev, Ok(true));
            assert!(done.success);
            assert!(done.event.is_acknowledged());
        }
        StoreDecision::Done(_) => panic!("expected a store"),
    }
    let shared = create_database_processor(3u8);
    assert_eq!(*shared.repo(), 3u8);
}

#[test]
fn ftime_shows_utc_time_of_day() {
    assert_eq!(ftime("2024-03-05T07:08:09Z"), "07:08:09");
    assert_eq!(ftime("2024-03-05T23:59:59+02:00"), "21:59:59");
    assert_eq!(ftime("1969-12-31T23:00:01Z"), "23:00:01");
    assert_eq!(ftime("not a time"), "not a time");
}

#[test]
fn conversation_row_cells() {
    let row = tnbot_core::db::Conversation {
        root_uri: "at://did:plc:root/app.bsky.feed.post/abcdefghijklmnopqrstuvwxyz0123456789".to_string(),
        post_uri: "at://did:plc:user/app.bsky.feed.post/1".to_string(),
        parent_uri: None,
        author_did: "did:plc:abcdefghijklmnopqrstuvwxyz0123456789".to_string(),
        role: tnbot_core::db::Role::Model,
        content: "hello".to_string(),
        cid: None,
        created_at: "2024-03-05T07:08:09Z".to_string(),
    };
    let cells = conversation_row(&row);
    assert_eq!(cells.len(), 5);
    assert_eq!(cells[0], ("07:08:09".to_string(), true));
    assert_eq!(cells[1], ("model".to_string(), false));
    assert_eq!(cells[2], ("did:plc:abcdefghijklmnopqrstuvw...".to_string(), true));
    assert_eq!(cells[2].0.chars().count(), 34);
    assert_eq!(cells[3], ("at://did:plc:root/app.bsky.feed.post/abcdefghijklmnop...".to_string(), true));
    assert_eq!(cells[4], ("hello".to_string(), false));
}

#[test]
fn empty_batch_is_done_without_a_request() {
    let (_, step) = EmbedBatch::<u32>::start(0, 32);
    assert!(matches!(step, BatchStep::Done(Ok(ref v)) if v.is_empty()));
    let provider = OllamaEmbeddingProvider::new("http://x".to_string(), "m".to_string(), 3, 2);
    let (_, step) = provider.begin_batch::<u32>(0);
    assert!(matches!(step, BatchStep::Done(Ok(ref v)) if v.is_empty()));
}

#[test]
fn batch_collects_chunk_results_in_order() {
    let provider = OllamaEmbeddingProvider::new("http://x".to_string(), "m".to_string(), 3, 2);
    let (batch, step) = provider.begin_batch::<u32>(5);
    assert!(matches!(step, BatchStep::Embed(0, 2)));
    let (batch, step) = batch.after_chunk(Ok(vec![10, 11]));
    assert!(matches!(step, BatchStep::Embed(2, 4)));
    let (batch, step) = batch.after_chunk(Ok(vec![12, 13]));
    assert!(matches!(step, BatchStep::Embed(4, 5)));
    let (_, step) = batch.after_chunk(Ok(vec![14]));
    match step {
        BatchStep::Done(Ok(all)) => assert_eq!(all, vec![10, 11, 12, 13, 14]),
        _ => panic!("batch should be done"),
    }
}

#[test]
fn batch_stops_at_first_failed_chunk() {
    let (batch, _) = EmbedBatch::<u32>::start(4, 2);
    let (batch, step) = batch.after_chunk(Ok(vec![1, 2]));
    assert!(matches!(step, BatchStep::Embed(2, 4)));
    let (_, step) = batch.after_chunk(Err(BotError::Embedding("down".to_string())));
    match step {
        BatchStep::Done(Err(BotError::Embedding(m))) => assert_eq!(m, "down"),
        _ => panic!("batch should fail"),
    }
}

#[test]
fn single_embedding_of_a_batch() {
    assert_eq!(first_embedding::<u32>(Ok(vec![7, 8])).ok(), Some(7));
    match first_embedding::<u32>(Ok(vec![])) {
        Err(BotError::Embedding(m)) => assert_eq!(m, "No embedding returned"),
        _ => panic!("empty batch has no embedding"),
    }
    assert!(matches!(first_embedding::<u32>(Err(BotError::Embedding("x".to_string()))), Err(BotError::Embedding(_))));
}

#[test]
fn pending_response_labels() {
    let uri = "at://did:plc:abcdefghijklmnop/app.bsky.feed.post/xyz";
    assert_eq!(pending_thread_label(uri), "at://did:plc:abcdefghijklmnop/app.bsky.f...");
    assert_eq!(pending_thread_label("at://short"), "at://short...");
    let long = "a".repeat(120);
    assert_eq!(pending_response_excerpt(&long), format!("{}...", "a".repeat(100)));
    assert_eq!(pending_response_excerpt("fine"), "fine");
    let accented = "\u{e9}".repeat(60);
    assert_eq!(pending_response_excerpt(&accented), format!("{}...", "\u{e9}".repeat(60)));
}

#[test]
fn block_reason_shows_na_when_missing() {
    assert_eq!(block_reason_label(&Some("spam".to_string())), "spam");
    assert_eq!(block_reason_label(&None), "N/A");
}
