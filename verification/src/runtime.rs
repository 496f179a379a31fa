//! Runtime counters shown by the control deck.

use vstd::prelude::*;
use crate::clock::instant_now;

verus! {

/// Add one with wrap-around.
pub open spec fn inc64(x: u64) -> u64 {
    if x == u64::MAX {
        0
    } else {
        (x + 1) as u64
    }
}

/// In-flight counter after one more event starts (wrapping).
pub open spec fn inc_usize(x: usize) -> usize {
    if x == usize::MAX {
        0
    } else {
        (x + 1) as usize
    }
}

/// In-flight counter after one event ends (wrapping).
pub open spec fn dec_usize(x: usize) -> usize {
    if x == 0 {
        usize::MAX
    } else {
        (x - 1) as usize
    }
}

/// Live state of the running bot.
#[derive(Debug)]
pub struct RuntimeState {
    started_at: std::time::Instant,
    paused: bool,
    last_jetstream_event_us: i64,
    events_in_flight: usize,
    events_processed: u64,
    events_failed: u64,
    last_model_latency_ms: u64,
}

impl RuntimeState {
    pub closed spec fn spec_started_at(&self) -> std::time::Instant {
        self.started_at
    }

    pub closed spec fn spec_paused(&self) -> bool {
        self.paused
    }

    pub closed spec fn spec_last_event_us(&self) -> i64 {
        self.last_jetstream_event_us
    }

    pub closed spec fn spec_in_flight(&self) -> usize {
        self.events_in_flight
    }

    pub closed spec fn spec_processed(&self) -> u64 {
        self.events_processed
    }

    pub closed spec fn spec_failed(&self) -> u64 {
        self.events_failed
    }

    pub closed spec fn spec_latency_ms(&self) -> u64 {
        self.last_model_latency_ms
    }

    /// Running, with every counter at zero.
    pub open spec fn is_fresh(&self) -> bool {
        &&& !self.spec_paused()
        &&& self.spec_last_event_us() == 0
        &&& self.spec_in_flight() == 0
        &&& self.spec_processed() == 0
        &&& self.spec_failed() == 0
        &&& self.spec_latency_ms() == 0
    }

    /// A fresh state started now: running, with every counter at zero.
    pub fn new() -> (r: Self)
        ensures
            r.is_fresh(),
    {
        RuntimeState {
            started_at: instant_now(),
            paused: false,
            last_jetstream_event_us: 0,
            events_in_flight: 0,
            events_processed: 0,
            events_failed: 0,
            last_model_latency_ms: 0,
        }
    }

    pub fn started_at(&self) -> (r: std::time::Instant)
        ensures
            r == self.spec_started_at(),
    {
        self.started_at
    }

    pub fn is_paused(&self) -> (r: bool)
        ensures
            r == self.spec_paused(),
    {
        self.paused
    }

    /// Pauses or resumes; nothing else changes.
    pub fn set_paused(&mut self, paused: bool)
        ensures
            final(self).spec_paused() == paused,
            final(self).spec_started_at() == old(self).spec_started_at(),
            final(self).spec_last_event_us() == old(self).spec_last_event_us(),
            final(self).spec_in_flight() == old(self).spec_in_flight(),
            final(self).spec_processed() == old(self).spec_processed(),
            final(self).spec_failed() == old(self).spec_failed(),
            final(self).spec_latency_ms() == old(self).spec_latency_ms(),
    {
        self.paused = paused;
    }

    /// Records the time of the latest Jetstream event; nothing else changes.
    pub fn record_jetstream_event(&mut self, time_us: i64)
        ensures
            final(self).spec_last_event_us() == time_us,
            final(self).spec_started_at() == old(self).spec_started_at(),
            final(self).spec_paused() == old(self).spec_paused(),
            final(self).spec_in_flight() == old(self).spec_in_flight(),
            final(self).spec_processed() == old(self).spec_processed(),
            final(self).spec_failed() == old(self).spec_failed(),
            final(self).spec_latency_ms() == old(self).spec_latency_ms(),
    {
        self.last_jetstream_event_us = time_us;
    }

    pub fn last_jetstream_event_us(&self) -> (r: i64)
        ensures
            r == self.spec_last_event_us(),
    {
        self.last_jetstream_event_us
    }

    /// One more event is in flight; nothing else changes.
    pub fn begin_processing(&mut self)
        ensures
            final(self).spec_in_flight() == inc_usize(old(self).spec_in_flight()),
            final(self).spec_started_at() == old(self).spec_started_at(),
            final(self).spec_paused() == old(self).spec_paused(),
            final(self).spec_last_event_us() == old(self).spec_last_event_us(),
            final(self).spec_processed() == old(self).spec_processed(),
            final(self).spec_failed() == old(self).spec_failed(),
            final(self).spec_latency_ms() == old(self).spec_latency_ms(),
    {
        self.events_in_flight = self.events_in_flight.wrapping_add(1);
    }

    /// An event ends: successes count as processed (with their model latency
    /// when given), failures as failed.
    pub fn finish_processing(&mut self, success: bool, latency_ms: Option<u64>)
        ensures
            final(self).spec_in_flight() == dec_usize(old(self).spec_in_flight()),
            final(self).spec_processed() == if success { inc64(old(self).spec_processed()) } else { old(self).spec_processed() },
            final(self).spec_failed() == if success { old(self).spec_failed() } else { inc64(old(self).spec_failed()) },
            final(self).spec_latency_ms() == match (success, latency_ms) {
                (true, Some(ms)) => ms,
                _ => old(self).spec_latency_ms(),
            },
            final(self).spec_started_at() == old(self).spec_started_at(),
            final(self).spec_paused() == old(self).spec_paused(),
            final(self).spec_last_event_us() == old(self).spec_last_event_us(),
    {
        self.events_in_flight = self.events_in_flight.wrapping_sub(1);
        if success {
            self.events_processed = self.events_processed.wrapping_add(1);
            if let Some(ms) = latency_ms {
                self.last_model_latency_ms = ms;
            }
        } else {
            self.events_failed = self.events_failed.wrapping_add(1);
        }
    }

    pub fn events_in_flight(&self) -> (r: usize)
        ensures
            r == self.spec_in_flight(),
    {
        self.events_in_flight
    }

    pub fn events_processed(&self) -> (r: u64)
        ensures
            r == self.spec_processed(),
    {
        self.events_processed
    }

    pub fn events_failed(&self) -> (r: u64)
        ensures
            r == self.spec_failed(),
    {
        self.events_failed
    }

    pub fn last_model_latency_ms(&self) -> (r: u64)
        ensures
            r == self.spec_latency_ms(),
    {
        self.last_model_latency_ms
    }
}

/// Starting then finishing an event leaves the in-flight count where it was.
pub proof fn lemma_begin_finish_restores_in_flight(in_flight: usize)
    ensures
        dec_usize(inc_usize(in_flight)) == in_flight,
{
}

/// The health endpoint reports `degraded` when some event has failed while
/// more than forty are in flight, and `ok` otherwise.
pub fn runtime_health_label(events_failed: u64, events_in_flight: usize) -> (r: &'static str)
    ensures
        r@ == if events_failed > 0 && events_in_flight > 40 { "degraded"@ } else { "ok"@ },
{
    if events_failed > 0 && events_in_flight > 40 {
        "degraded"
    } else {
        "ok"
    }
}

impl Default for RuntimeState {
    fn default() -> (r: Self)
        ensures
            r.is_fresh(),
    {
        RuntimeState::new()
    }
}

/// A fresh state, shared.
pub fn new_shared_runtime() -> (r: std::sync::Arc<RuntimeState>)
    ensures
        r.is_fresh(),
{
    std::sync::Arc::new(RuntimeState::new())
}

} // verus!
