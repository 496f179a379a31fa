use vstd::prelude::*;
use crate::jetstream::filter::{FilteredEvent, SharedFilter, passes_filter};
use crate::jetstream::types::JetstreamEvent;

verus! {

/// Configuration of the event-processing pipeline.
#[derive(Debug, Clone)]
pub struct PipelineConfig {
    /// Number of worker tasks.
    pub num_workers: usize,
    /// Channel buffer size between ingestion and workers.
    pub channel_buffer_size: usize,
    /// Unfinished events a worker may hold before it stops taking new ones.
    pub max_in_flight: usize,
}

impl Default for PipelineConfig {
    fn default() -> (r: Self)
        ensures
            r.num_workers == 4,
            r.channel_buffer_size == 1000,
            r.max_in_flight == 100,
    {
        PipelineConfig { num_workers: 4, channel_buffer_size: 1000, max_in_flight: 100 }
    }
}

/// Counter increment with wrap-around, as an atomic `fetch_add(1)` does.
pub open spec fn inc(x: usize) -> usize {
    if x == usize::MAX {
        0
    } else {
        (x + 1) as usize
    }
}

/// Counter decrement with wrap-around, as an atomic `fetch_sub(1)` does.
pub open spec fn dec(x: usize) -> usize {
    if x == 0 {
        usize::MAX
    } else {
        (x - 1) as usize
    }
}

fn bump(x: usize) -> (r: usize)
    ensures
        r == inc(x),
{
    x.wrapping_add(1)
}

fn drop_one(x: usize) -> (r: usize)
    ensures
        r == dec(x),
{
    x.wrapping_sub(1)
}

/// Counters of the pipeline.
#[derive(Debug)]
pub struct PipelineStats {
    pub events_received: usize,
    pub events_filtered: usize,
    pub events_processed: usize,
    pub events_failed: usize,
    pub events_in_flight: usize,
}

/// A copy of the counters at one moment.
#[derive(Debug, Clone, Copy)]
pub struct PipelineStatsSnapshot {
    pub events_received: usize,
    pub events_filtered: usize,
    pub events_processed: usize,
    pub events_failed: usize,
    pub events_in_flight: usize,
}

/// The result that a processor hands back for a filtered event.
#[derive(Debug)]
pub struct ProcessedEvent {
    pub event: FilteredEvent,
    pub success: bool,
    pub error: Option<String>,
}

/// How one processed event counts.
#[derive(Debug, Clone, Copy, PartialEq, Eq)]
pub enum ProcessOutcome {
    /// The processor returned an error.
    ProcessorError,
    /// The processor reported failure.
    ReportedFailure,
    /// The processor reported success but did not acknowledge the event.
    Unacknowledged,
    /// The processor reported success and acknowledged the event.
    Acknowledged,
}

pub open spec fn spec_outcome(result: Result<ProcessedEvent, String>) -> ProcessOutcome {
    match result {
        Err(_) => ProcessOutcome::ProcessorError,
        Ok(p) => if !p.success {
            ProcessOutcome::ReportedFailure
        } else if p.event.is_acked() {
            ProcessOutcome::Acknowledged
        } else {
            ProcessOutcome::Unacknowledged
        },
    }
}

/// Classifies what a processor returned.
pub fn classify_outcome(result: &Result<ProcessedEvent, String>) -> (r: ProcessOutcome)
    ensures
        r == spec_outcome(*result),
{
    match result {
        Err(_) => ProcessOutcome::ProcessorError,
        Ok(p) => {
            if !p.success {
                ProcessOutcome::ReportedFailure
            } else if p.event.is_acknowledged() {
                ProcessOutcome::Acknowledged
            } else {
                ProcessOutcome::Unacknowledged
            }
        },
    }
}

impl Default for PipelineStats {
    fn default() -> (r: Self)
        ensures
            r.events_received == 0,
            r.events_filtered == 0,
            r.events_processed == 0,
            r.events_failed == 0,
            r.events_in_flight == 0,
            r.balanced(),
    {
        PipelineStats {
            events_received: 0,
            events_filtered: 0,
            events_processed: 0,
            events_failed: 0,
            events_in_flight: 0,
        }
    }
}

impl PipelineStats {
    /// The counters agree with one another: no more events filtered than
    /// received, and each filtered event is processed, failed or in flight.
    pub open spec fn balanced(&self) -> bool {
        &&& self.events_filtered <= self.events_received
        &&& self.events_processed + self.events_failed + self.events_in_flight == self.events_filtered
    }

    /// A copy of all counters.
    pub fn snapshot(&self) -> (r: PipelineStatsSnapshot)
        ensures
            r.events_received == self.events_received,
            r.events_filtered == self.events_filtered,
            r.events_processed == self.events_processed,
            r.events_failed == self.events_failed,
            r.events_in_flight == self.events_in_flight,
    {
        PipelineStatsSnapshot {
            events_received: self.events_received,
            events_filtered: self.events_filtered,
            events_processed: self.events_processed,
            events_failed: self.events_failed,
            events_in_flight: self.events_in_flight,
        }
    }

    /// Counts an event taken from the channel and runs it through the filter;
    /// an event that passes is counted as filtered and in flight.
    pub fn take_event(&mut self, filter: &SharedFilter, event: JetstreamEvent) -> (r: Option<FilteredEvent>)
        ensures
            r is Some <==> passes_filter(event, filter.bot_did()),
            r matches Some(f) ==> f.view_event() == event && !f.is_acked(),
            final(self).events_received == inc(old(self).events_received),
            final(self).events_filtered == if r is Some { inc(old(self).events_filtered) } else { old(self).events_filtered },
            final(self).events_in_flight == if r is Some { inc(old(self).events_in_flight) } else { old(self).events_in_flight },
            final(self).events_processed == old(self).events_processed,
            final(self).events_failed == old(self).events_failed,
            old(self).balanced() && old(self).events_received < usize::MAX ==> final(self).balanced(),
            *final(self) == after_step(*old(self), StatsStep::Take(r is Some)),
    {
        self.events_received = bump(self.events_received);
        let filtered = filter.filter(event);
        if filtered.is_some() {
            self.events_filtered = bump(self.events_filtered);
            self.events_in_flight = bump(self.events_in_flight);
        }
        filtered
    }

    /// Counts the end of an event taken into flight: acknowledged successes as
    /// processed, every other outcome as failed; the event leaves the flight.
    pub fn finish(&mut self, outcome: ProcessOutcome)
        ensures
            final(self).events_in_flight == dec(old(self).events_in_flight),
            final(self).events_processed == if outcome == ProcessOutcome::Acknowledged {
                inc(old(self).events_processed)
            } else {
                old(self).events_processed
            },
            final(self).events_failed == if outcome == ProcessOutcome::Acknowledged {
                old(self).events_failed
            } else {
                inc(old(self).events_failed)
            },
            final(self).events_received == old(self).events_received,
            final(self).events_filtered == old(self).events_filtered,
            old(self).balanced() && old(self).events_in_flight > 0 ==> final(self).balanced(),
            *final(self) == after_step(*old(self), StatsStep::Finish(outcome)),
    {
        match outcome {
            ProcessOutcome::Acknowledged => {
                self.events_processed = bump(self.events_processed);
            },
            _ => {
                self.events_failed = bump(self.events_failed);
            },
        }
        self.events_in_flight = drop_one(self.events_in_flight);
    }
}

/// One counted step of some worker on the shared counters: an event taken
/// from the channel (and whether it passed the filter), or an event in
/// flight finished with an outcome.
#[derive(Debug, Clone, Copy, PartialEq, Eq)]
pub enum StatsStep {
    Take(bool),
    Finish(ProcessOutcome),
}

/// The counters after one step.
pub open spec fn after_step(s: PipelineStats, step: StatsStep) -> PipelineStats {
    match step {
        StatsStep::Take(passed) => PipelineStats {
            events_received: inc(s.events_received),
            events_filtered: if passed { inc(s.events_filtered) } else { s.events_filtered },
            events_processed: s.events_processed,
            events_failed: s.events_failed,
            events_in_flight: if passed { inc(s.events_in_flight) } else { s.events_in_flight },
        },
        StatsStep::Finish(outcome) => PipelineStats {
            events_received: s.events_received,
            events_filtered: s.events_filtered,
            events_processed: if outcome == ProcessOutcome::Acknowledged {
                inc(s.events_processed)
            } else {
                s.events_processed
            },
            events_failed: if outcome == ProcessOutcome::Acknowledged {
                s.events_failed
            } else {
                inc(s.events_failed)
            },
            events_in_flight: dec(s.events_in_flight),
        },
    }
}

/// A step that can happen at `s` without a counter wrapping: a take while
/// fewer than `usize::MAX` events were received, a finish while some event
/// is in flight.
pub open spec fn step_allowed(s: PipelineStats, step: StatsStep) -> bool {
    match step {
        StatsStep::Take(_) => s.events_received < usize::MAX,
        StatsStep::Finish(_) => s.events_in_flight > 0,
    }
}

/// The counters after the steps of all workers, in the order they happened.
pub open spec fn run_steps(s: PipelineStats, steps: Seq<StatsStep>) -> PipelineStats
    decreases steps.len(),
{
    if steps.len() == 0 {
        s
    } else {
        after_step(run_steps(s, steps.drop_last()), steps.last())
    }
}

/// Every step of the schedule can happen where it stands.
pub open spec fn schedule_allowed(s: PipelineStats, steps: Seq<StatsStep>) -> bool
    decreases steps.len(),
{
    steps.len() == 0 || (schedule_allowed(s, steps.drop_last()) && step_allowed(
        run_steps(s, steps.drop_last()),
        steps.last(),
    ))
}

/// Whatever the workers do and in whatever order their steps interleave,
/// counters that start balanced stay balanced; so whenever nothing is in
/// flight, every filtered event has been counted once, as processed or as
/// failed, and none was filtered without being received.
pub proof fn lemma_schedule_keeps_balance(s: PipelineStats, steps: Seq<StatsStep>)
    requires
        s.balanced(),
        schedule_allowed(s, steps),
    ensures
        run_steps(s, steps).balanced(),
        run_steps(s, steps).events_in_flight == 0 ==> run_steps(s, steps).events_processed
            + run_steps(s, steps).events_failed == run_steps(s, steps).events_filtered,
    decreases steps.len(),
{
    if steps.len() > 0 {
        lemma_schedule_keeps_balance(s, steps.drop_last());
    }
}

/// What a worker does next.
#[derive(Debug, Clone, Copy, PartialEq, Eq)]
pub enum WorkerAction {
    /// Shutdown was requested and nothing is in flight: stop.
    Stop,
    /// Shutdown was requested but events are in flight: yield and look again.
    Drain,
    /// Too many events in flight: yield and look again.
    Throttle,
    /// Take the next event from the channel.
    Receive,
}

/// The worker's loop decision.
pub fn worker_action(shutdown_requested: bool, in_flight: usize, max_in_flight: usize) -> (r: WorkerAction)
    ensures
        r == if shutdown_requested {
            if in_flight > 0 { WorkerAction::Drain } else { WorkerAction::Stop }
        } else if in_flight >= max_in_flight {
            WorkerAction::Throttle
        } else {
            WorkerAction::Receive
        },
{
    if shutdown_requested {
        if in_flight > 0 {
            WorkerAction::Drain
        } else {
            WorkerAction::Stop
        }
    } else if in_flight >= max_in_flight {
        WorkerAction::Throttle
    } else {
        WorkerAction::Receive
    }
}

/// When nothing is in flight, every filtered event has been counted once,
/// as processed or as failed, and none was filtered without being received.
pub proof fn lemma_idle_counts_settle(stats: PipelineStats)
    requires
        stats.balanced(),
        stats.events_in_flight == 0,
    ensures
        stats.events_processed + stats.events_failed == stats.events_filtered,
        stats.events_filtered <= stats.events_received,
{
}

/// Taking an event into flight and then finishing it leaves the in-flight
/// count where it was, whatever the count (wrap-around included).
pub proof fn lemma_in_flight_restored(in_flight: usize)
    ensures
        dec(inc(in_flight)) == in_flight,
{
}

} // verus!
