//! Storing incoming mentions: the decisions around the store's write.

use vstd::prelude::*;
use crate::jetstream::filter::FilteredEvent;
use crate::jetstream::pipeline::ProcessedEvent;
use crate::jetstream::types::JetstreamEvent;
use crate::db::CreateConversationParams;
use crate::clock::is_clock_rfc3339;
use crate::thread::{created_at_or_now, post_uri, spec_post_uri, spec_user_message_params, opt_view, user_message_params};

verus! {

/// What to do with a filtered event: answer at once, or write a user
/// message to the store and answer after.
pub enum StoreDecision {
    /// The event cannot be stored; this is the processor's answer.
    Done(ProcessedEvent),
    /// Write these parameters, then finish with `complete`.
    Store(CreateConversationParams, FilteredEvent),
}

/// A failure answer for `event` with the message `msg`.
pub open spec fn failed_with(p: ProcessedEvent, event: FilteredEvent, msg: Seq<char>) -> bool {
    &&& p.event == event
    &&& !p.success
    &&& opt_view(p.error) == Some(msg)
}

/// Stores incoming mentions in a conversation store `R`.
pub struct DatabaseEventProcessor<R> {
    repo: R,
}

impl<R> DatabaseEventProcessor<R> {
    pub closed spec fn store(&self) -> R {
        self.repo
    }

    pub fn new(repo: R) -> (r: Self)
        ensures
            r.store() == repo,
    {
        DatabaseEventProcessor { repo }
    }

    /// The store written to.
    pub fn repo(&self) -> (r: &R)
        ensures
            *r == self.store(),
    {
        &self.repo
    }

    /// Refuses what is not a commit with a record; otherwise gives the user
    /// message to store, dated by the record's `createdAt` (or now).
    pub fn prepare(&self, event: FilteredEvent) -> (r: StoreDecision)
        ensures
            !(event.view_event() is Commit) ==> (r matches StoreDecision::Done(p)
                && failed_with(p, event, "Non-commit event received"@)),
            event.view_event() matches JetstreamEvent::Commit { did, commit, .. } ==> {
                &&& commit.record is None ==> (r matches StoreDecision::Done(p)
                    && failed_with(p, event, "No record in commit"@))
                &&& commit.record matches Some(rec) ==> (r matches StoreDecision::Store(params, e)
                    && e == event
                    && (rec.created_at matches Some(c) ==> params.created_at@ == c@)
                    && (rec.created_at is None ==> is_clock_rfc3339(params.created_at@))
                    && spec_user_message_params(
                        params,
                        spec_post_uri(did@, commit.rkey@),
                        did@,
                        opt_view(commit.cid),
                        rec,
                        params.created_at@,
                    ))
            },
    {
        let decision = match event.event() {
            JetstreamEvent::Commit { did, commit, .. } => {
                match &commit.record {
                    None => None,
                    Some(record) => {
                        let uri = post_uri(did.as_str(), commit.rkey.as_str());
                        let created_at = created_at_or_now(record);
                        Some(user_message_params(uri.as_str(), did.as_str(), &commit.cid, record, created_at))
                    },
                }
            },
            _ => None,
        };
        match decision {
            Some(params) => StoreDecision::Store(params, event),
            None => {
                let is_commit = match event.event() {
                    JetstreamEvent::Commit { .. } => true,
                    _ => false,
                };
                let msg = if is_commit {
                    "No record in commit".to_owned()
                } else {
                    "Non-commit event received".to_owned()
                };
                StoreDecision::Done(ProcessedEvent { event, success: false, error: Some(msg) })
            },
        }
    }

    /// The answer once the store has been written: a written (or already
    /// present) message acknowledges the event; a failed write reports the
    /// store's error.
    pub fn complete(&self, event: FilteredEvent, stored: Result<bool, String>) -> (r: ProcessedEvent)
        ensures
            stored is Ok ==> r.success && r.error is None && r.event.is_acked()
                && r.event.view_event() == event.view_event(),
            stored matches Err(e) ==> failed_with(r, event, e@),
    {
        match stored {
            Ok(_) => {
                let mut event = event;
                event.acknowledge();
                ProcessedEvent { event, success: true, error: None }
            },
            Err(e) => ProcessedEvent { event, success: false, error: Some(e) },
        }
    }
}

/// A processor over `repo`, shared.
pub fn create_database_processor<R>(repo: R) -> (r: std::sync::Arc<DatabaseEventProcessor<R>>)
    ensures
        r.store() == repo,
{
    std::sync::Arc::new(DatabaseEventProcessor::new(repo))
}

} // verus!
