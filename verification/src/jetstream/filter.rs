use vstd::prelude::*;
use std::sync::Arc;
use crate::jetstream::types::{JetstreamEvent, spec_is_mention_of};

verus! {

/// `true` when the filter lets `event` through: a commit that creates a post
/// mentioning `bot_did`. Identity and account events never pass.
pub open spec fn passes_filter(event: JetstreamEvent, bot_did: Seq<char>) -> bool {
    event matches JetstreamEvent::Commit { commit, .. } && spec_is_mention_of(commit, bot_did)
}

/// The cursor (`time_us`) of any event.
pub open spec fn event_time_us(event: JetstreamEvent) -> i64 {
    match event {
        JetstreamEvent::Commit { time_us, .. } => time_us,
        JetstreamEvent::Identity { time_us, .. } => time_us,
        JetstreamEvent::Account { time_us, .. } => time_us,
    }
}

/// Filter configuration for Jetstream events.
#[derive(Debug, Clone)]
pub struct EventFilter {
    /// Only events mentioning this DID pass through.
    pub bot_did: String,
    /// Whether discarded events are traced.
    pub log_discarded: bool,
}

impl EventFilter {
    pub fn new(bot_did: String) -> (r: Self)
        ensures
            r.bot_did@ == bot_did@,
            !r.log_discarded,
    {
        EventFilter { bot_did, log_discarded: false }
    }

    /// Lets through exactly the post creations that mention the bot, unacknowledged.
    pub fn filter(&self, event: JetstreamEvent) -> (r: Option<FilteredEvent>)
        ensures
            r is Some <==> passes_filter(event, self.bot_did@),
            r matches Some(f) ==> f.view_event() == event && !f.is_acked(),
    {
        let passes = match &event {
            JetstreamEvent::Commit { commit, .. } => commit.is_mention_of(self.bot_did.as_str()),
            JetstreamEvent::Identity { .. } => false,
            JetstreamEvent::Account { .. } => false,
        };
        if passes {
            Some(FilteredEvent { event, acknowledged: false })
        } else {
            None
        }
    }
}

/// An event that passed the filter, with acknowledgment tracking for
/// at-least-once processing.
#[derive(Debug)]
pub struct FilteredEvent {
    pub event: JetstreamEvent,
    acknowledged: bool,
}

impl FilteredEvent {
    pub closed spec fn is_acked(&self) -> bool {
        self.acknowledged
    }

    pub closed spec fn view_event(&self) -> JetstreamEvent {
        self.event
    }

    /// Marks the event as processed; the event itself is unchanged.
    pub fn acknowledge(&mut self)
        ensures
            final(self).is_acked(),
            final(self).view_event() == old(self).view_event(),
    {
        self.acknowledged = true;
    }

    /// The event that passed the filter.
    pub fn event(&self) -> (r: &JetstreamEvent)
        ensures
            *r == self.view_event(),
    {
        &self.event
    }

    pub fn is_acknowledged(&self) -> (r: bool)
        ensures
            r == self.is_acked(),
    {
        self.acknowledged
    }

    /// The event's `time_us`, whatever its kind.
    pub fn cursor(&self) -> (r: i64)
        ensures
            r == event_time_us(self.view_event()),
    {
        match &self.event {
            JetstreamEvent::Commit { time_us, .. } => *time_us,
            JetstreamEvent::Identity { time_us, .. } => *time_us,
            JetstreamEvent::Account { time_us, .. } => *time_us,
        }
    }
}

/// A filter shared across worker tasks.
#[derive(Debug, Clone)]
pub struct SharedFilter {
    inner: Arc<EventFilter>,
}

impl SharedFilter {
    pub closed spec fn bot_did(&self) -> Seq<char> {
        self.inner.bot_did@
    }

    /// Whether the wrapped filter traces discarded events.
    pub closed spec fn log_discarded(&self) -> bool {
        self.inner.log_discarded
    }

    pub fn new(filter: EventFilter) -> (r: Self)
        ensures
            r.bot_did() == filter.bot_did@,
            r.log_discarded() == filter.log_discarded,
    {
        SharedFilter { inner: Arc::new(filter) }
    }

    /// Same decision as the wrapped filter.
    pub fn filter(&self, event: JetstreamEvent) -> (r: Option<FilteredEvent>)
        ensures
            r is Some <==> passes_filter(event, self.bot_did()),
            r matches Some(f) ==> f.view_event() == event && !f.is_acked(),
    {
        self.inner.filter(event)
    }

    /// The wrapped filter.
    pub fn inner(&self) -> (r: &EventFilter)
        ensures
            r.bot_did@ == self.bot_did(),
            r.log_discarded == self.log_discarded(),
    {
        &self.inner
    }
}

} // verus!
