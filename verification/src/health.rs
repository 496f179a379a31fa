//! Health reporting: per-component checks and the overall status.

use vstd::prelude::*;
use std::sync::Arc;
use crate::clock::{is_clock_rfc3339, now_rfc3339};
use crate::text::{str_eq, push_decimal, nat_decimal};

verus! {

/// `serde_json::Value`, carried through report details unread.
#[verifier::external_type_specification]
#[verifier::external_body]
pub struct ExJsonValue(serde_json::Value);

/// Status of a component or of the whole service.
#[derive(Debug, Clone, Copy, PartialEq, Eq)]
pub enum HealthStatus {
    Pass,
    Warn,
    Fail,
}

impl HealthStatus {
    /// Passing and warning components count as healthy.
    pub fn is_healthy(&self) -> (r: bool)
        ensures
            r == (*self == HealthStatus::Pass || *self == HealthStatus::Warn),
    {
        match self {
            HealthStatus::Pass => true,
            HealthStatus::Warn => true,
            HealthStatus::Fail => false,
        }
    }
}

/// Result of one component's health check.
#[derive(Debug)]
pub struct ComponentHealth {
    pub component_id: String,
    pub status: HealthStatus,
    pub output: Option<String>,
    pub error: Option<String>,
    pub time: Option<String>,
    pub observed_unit: String,
    pub observed_value: i64,
}

impl Clone for ComponentHealth {
    fn clone(&self) -> (r: Self)
        ensures
            r == *self,
    {
        ComponentHealth {
            component_id: self.component_id.clone(),
            status: self.status,
            output: match &self.output {
                Some(s) => Some(s.clone()),
                None => None,
            },
            error: match &self.error {
                Some(s) => Some(s.clone()),
                None => None,
            },
            time: match &self.time {
                Some(s) => Some(s.clone()),
                None => None,
            },
            observed_unit: self.observed_unit.clone(),
            observed_value: self.observed_value,
        }
    }
}

/// A check result stamped with the current time, in milliseconds, with no
/// latency observed yet.
pub open spec fn fresh_check(
    h: ComponentHealth,
    component_id: Seq<char>,
    status: HealthStatus,
    output: Option<Seq<char>>,
    error: Option<Seq<char>>,
) -> bool {
    &&& h.component_id@ == component_id
    &&& h.status == status
    &&& crate::thread::opt_view(h.output) == output
    &&& crate::thread::opt_view(h.error) == error
    &&& h.time matches Some(t) && is_clock_rfc3339(t@)
    &&& h.observed_unit@ == "ms"@
    &&& h.observed_value == 0
}

impl ComponentHealth {
    pub fn healthy(component_id: String) -> (r: Self)
        ensures
            fresh_check(r, component_id@, HealthStatus::Pass, None, None),
    {
        ComponentHealth {
            component_id,
            status: HealthStatus::Pass,
            output: None,
            error: None,
            time: Some(now_rfc3339()),
            observed_unit: "ms".to_owned(),
            observed_value: 0,
        }
    }

    pub fn degraded(component_id: String, reason: String) -> (r: Self)
        ensures
            fresh_check(r, component_id@, HealthStatus::Warn, Some(reason@), None),
    {
        ComponentHealth {
            component_id,
            status: HealthStatus::Warn,
            output: Some(reason),
            error: None,
            time: Some(now_rfc3339()),
            observed_unit: "ms".to_owned(),
            observed_value: 0,
        }
    }

    pub fn unhealthy(component_id: String, error: String) -> (r: Self)
        ensures
            fresh_check(r, component_id@, HealthStatus::Fail, None, Some(error@)),
    {
        ComponentHealth {
            component_id,
            status: HealthStatus::Fail,
            output: None,
            error: Some(error),
            time: Some(now_rfc3339()),
            observed_unit: "ms".to_owned(),
            observed_value: 0,
        }
    }

    /// Records the observed latency (converted to `i64` as `as` does).
    pub fn with_latency(self, latency_ms: u64) -> (r: Self)
        ensures
            r == (ComponentHealth { observed_value: latency_ms as i64, ..self }),
    {
        let mut s = self;
        s.observed_value = latency_ms as i64;
        s
    }

    /// Replaces the output text.
    pub fn with_output(self, output: String) -> (r: Self)
        ensures
            r == (ComponentHealth { output: Some(output), ..self }),
    {
        let mut s = self;
        s.output = Some(output);
        s
    }
}

/// `true` when no two entries share a key.
pub open spec fn unique_keys<V>(entries: Seq<(String, V)>) -> bool {
    forall|i: int, j: int| 0 <= i < j < entries.len() ==> (#[trigger] entries[i]).0@ != (#[trigger] entries[j]).0@
}

/// Index of the entry with key `k`, if any.
pub open spec fn has_key<V>(entries: Seq<(String, V)>, k: Seq<char>) -> bool {
    exists|i: int| 0 <= i < entries.len() && (#[trigger] entries[i]).0@ == k
}

/// The entries after inserting `(k, v)`: an existing entry with key `k` takes
/// the new value in place, otherwise the entry is appended.
pub open spec fn spec_insert<V>(entries: Seq<(String, V)>, k: String, v: V) -> Seq<(String, V)> {
    if has_key(entries, k@) {
        let i = choose|i: int| 0 <= i < entries.len() && (#[trigger] entries[i]).0@ == k@;
        entries.update(i, (entries[i].0, v))
    } else {
        entries.push((k, v))
    }
}

/// The worst status among the checks: Fail if any fails, else Warn if any
/// warns, else Pass (also when there are no checks).
pub open spec fn overall_status(checks: Seq<(String, ComponentHealth)>) -> HealthStatus {
    if exists|i: int| 0 <= i < checks.len() && (#[trigger] checks[i]).1.status == HealthStatus::Fail {
        HealthStatus::Fail
    } else if exists|i: int| 0 <= i < checks.len() && (#[trigger] checks[i]).1.status == HealthStatus::Warn {
        HealthStatus::Warn
    } else {
        HealthStatus::Pass
    }
}

/// Inserts or replaces the entry with key `k`.
fn insert_entry<V>(entries: &mut Vec<(String, V)>, k: String, v: V)
    requires
        unique_keys(old(entries)@),
    ensures
        unique_keys(final(entries)@),
        final(entries)@ == spec_insert(old(entries)@, k, v),
{
    let n = entries.len();
    let mut i: usize = 0;
    while i < n
        invariant
            n == entries@.len(),
            entries@ == old(entries)@,
            unique_keys(old(entries)@),
            i <= n,
            forall|j: int| 0 <= j < i ==> (#[trigger] entries@[j]).0@ != k@,
        decreases n - i,
    {
        if str_eq(entries[i].0.as_str(), k.as_str()) {
            let ghost e = entries@;
            proof {
                assert(has_key(e, k@));
                let c = choose|c: int| 0 <= c < e.len() && (#[trigger] e[c]).0@ == k@;
                assert(c == i) by {
                    if c != i {
                        if c < i {
                            assert(e[c].0@ != k@);
                        } else {
                            assert(e[i as int].0@ != e[c].0@);
                        }
                    }
                }
            }
            let key = entries[i].0.clone();
            entries.set(i, (key, v));
            proof {
                assert(entries@ =~= e.update(i as int, (e[i as int].0, v)));
                assert forall|a: int, b: int| 0 <= a < b < entries@.len() implies (#[trigger] entries@[a]).0@ != (#[trigger] entries@[b]).0@ by {
                    assert(entries@[a].0@ == e[a].0@);
                    assert(entries@[b].0@ == e[b].0@);
                }
            }
            return;
        }
        i = i + 1;
    }
    let ghost e = entries@;
    entries.push((k, v));
    proof {
        assert(!has_key(e, k@));
        assert forall|a: int, b: int| 0 <= a < b < entries@.len() implies (#[trigger] entries@[a]).0@ != (#[trigger] entries@[b]).0@ by {
            if b == e.len() {
                assert(entries@[a] == e[a]);
            } else {
                assert(entries@[a] == e[a]);
                assert(entries@[b] == e[b]);
            }
        }
    }
}

/// A service health report.
#[derive(Debug)]
pub struct HealthReport {
    pub status: HealthStatus,
    pub version: String,
    pub release_id: Option<String>,
    pub service_id: Option<String>,
    pub notes: Vec<String>,
    pub output: String,
    /// Check results by component id; no id occurs twice.
    pub checks: Vec<(String, ComponentHealth)>,
    /// Extra details by key; no key occurs twice.
    pub details: Vec<(String, serde_json::Value)>,
}

/// The status of a set of checks.
fn compute_overall_status(checks: &Vec<(String, ComponentHealth)>) -> (r: HealthStatus)
    ensures
        r == overall_status(checks@),
{
    let n = checks.len();
    let mut i: usize = 0;
    let mut warn = false;
    while i < n
        invariant
            n == checks@.len(),
            i <= n,
            forall|j: int| 0 <= j < i ==> (#[trigger] checks@[j]).1.status != HealthStatus::Fail,
            warn == exists|j: int| 0 <= j < i && (#[trigger] checks@[j]).1.status == HealthStatus::Warn,
        decreases n - i,
    {
        match checks[i].1.status {
            HealthStatus::Fail => {
                assert(checks@[i as int].1.status == HealthStatus::Fail);
                return HealthStatus::Fail;
            },
            HealthStatus::Warn => {
                assert(checks@[i as int].1.status == HealthStatus::Warn);
                warn = true;
            },
            HealthStatus::Pass => {},
        }
        i = i + 1;
    }
    if warn {
        HealthStatus::Warn
    } else {
        HealthStatus::Pass
    }
}

impl HealthReport {
    pub closed spec fn well_formed(&self) -> bool {
        unique_keys(self.checks@) && unique_keys(self.details@)
    }

    /// An empty, passing report for `version`.
    pub fn new(version: String) -> (r: Self)
        ensures
            r.well_formed(),
            r.status == HealthStatus::Pass,
            r.version@ == version@,
            r.release_id is None,
            r.service_id is None,
            r.notes@.len() == 0,
            r.output@.len() == 0,
            r.checks@.len() == 0,
            r.details@.len() == 0,
    {
        let checks: Vec<(String, ComponentHealth)> = Vec::new();
        let status = compute_overall_status(&checks);
        HealthReport {
            status,
            version,
            release_id: None,
            service_id: None,
            notes: Vec::new(),
            output: String::new(),
            checks,
            details: Vec::new(),
        }
    }

    /// Adds or replaces the check of `component_id` and recomputes the status.
    pub fn with_check(self, component_id: String, health: ComponentHealth) -> (r: Self)
        requires
            self.well_formed(),
        ensures
            r.well_formed(),
            r.checks@ == spec_insert(self.checks@, component_id, health),
            lookup(r.checks@, component_id@) == Some(health),
            forall|k: Seq<char>| k != component_id@ ==> #[trigger] lookup(r.checks@, k) == lookup(self.checks@, k),
            r.status == overall_status(r.checks@),
            r.version == self.version,
            r.release_id == self.release_id,
            r.service_id == self.service_id,
            r.notes == self.notes,
            r.output == self.output,
            r.details == self.details,
    {
        proof {
            lemma_insert_then_lookup(self.checks@, component_id, health, component_id@);
            assert forall|k: Seq<char>| k != component_id@ implies #[trigger] lookup(spec_insert(self.checks@, component_id, health), k) == lookup(self.checks@, k) by {
                lemma_insert_then_lookup(self.checks@, component_id, health, k);
            }
        }
        let mut s = self;
        insert_entry(&mut s.checks, component_id, health);
        s.status = compute_overall_status(&s.checks);
        s
    }

    pub fn with_service_id(self, service_id: String) -> (r: Self)
        ensures
            r == (HealthReport { service_id: Some(service_id), ..self }),
    {
        let mut s = self;
        s.service_id = Some(service_id);
        s
    }

    pub fn with_notes(self, notes: Vec<String>) -> (r: Self)
        ensures
            r == (HealthReport { notes, ..self }),
    {
        let mut s = self;
        s.notes = notes;
        s
    }

    /// Adds or replaces the detail under `key`.
    pub fn with_details(self, key: String, value: serde_json::Value) -> (r: Self)
        requires
            self.well_formed(),
        ensures
            r.well_formed(),
            r.details@ == spec_insert(self.details@, key, value),
            r.checks == self.checks,
            r.status == self.status,
    {
        let mut s = self;
        insert_entry(&mut s.details, key, value);
        s
    }

    /// 200 for a passing report, 503 otherwise.
    pub fn http_status(&self) -> (r: u16)
        ensures
            r == (if self.status == HealthStatus::Pass { 200u16 } else { 503u16 }),
    {
        match self.status {
            HealthStatus::Pass => 200,
            HealthStatus::Warn => 503,
            HealthStatus::Fail => 503,
        }
    }
}

/// The value stored under key `k`, if any.
pub open spec fn lookup<V>(entries: Seq<(String, V)>, k: Seq<char>) -> Option<V> {
    if has_key(entries, k) {
        let i = choose|i: int| 0 <= i < entries.len() && (#[trigger] entries[i]).0@ == k;
        Some(entries[i].1)
    } else {
        None
    }
}

/// A value read back under the key it was just inserted under is the value
/// inserted, and every other key reads as before.
pub proof fn lemma_insert_then_lookup<V>(entries: Seq<(String, V)>, k: String, v: V, other: Seq<char>)
    requires
        unique_keys(entries),
    ensures
        lookup(spec_insert(entries, k, v), k@) == Some(v),
        other != k@ ==> lookup(spec_insert(entries, k, v), other) == lookup(entries, other),
{
    let e2 = spec_insert(entries, k, v);
    if has_key(entries, k@) {
        let i = choose|i: int| 0 <= i < entries.len() && (#[trigger] entries[i]).0@ == k@;
        assert(e2[i].0@ == k@);
        assert(has_key(e2, k@));
        let j = choose|j: int| 0 <= j < e2.len() && (#[trigger] e2[j]).0@ == k@;
        if j != i {
            assert(entries[j].0@ == e2[j].0@);
            if i < j {
                assert(entries[i].0@ != entries[j].0@);
            } else {
                assert(entries[j].0@ != entries[i].0@);
            }
        }
        if other != k@ {
            if has_key(entries, other) {
                let a = choose|a: int| 0 <= a < entries.len() && (#[trigger] entries[a]).0@ == other;
                assert(e2[a].0@ == other);
                assert(has_key(e2, other));
                let b = choose|b: int| 0 <= b < e2.len() && (#[trigger] e2[b]).0@ == other;
                assert(b != i);
                assert(entries[b].0@ == other);
                if a != b {
                    if a < b {
                        assert(entries[a].0@ != entries[b].0@);
                    } else {
                        assert(entries[b].0@ != entries[a].0@);
                    }
                }
            } else {
                if has_key(e2, other) {
                    let b = choose|b: int| 0 <= b < e2.len() && (#[trigger] e2[b]).0@ == other;
                    assert(b != i);
                    assert(entries[b].0@ == other);
                }
            }
        }
    } else {
        let n = entries.len() as int;
        assert(e2[n].0@ == k@);
        assert(has_key(e2, k@));
        let j = choose|j: int| 0 <= j < e2.len() && (#[trigger] e2[j]).0@ == k@;
        if j != n {
            assert(entries[j].0@ == k@);
        }
        if other != k@ {
            if has_key(entries, other) {
                let a = choose|a: int| 0 <= a < entries.len() && (#[trigger] entries[a]).0@ == other;
                assert(e2[a].0@ == other);
                assert(has_key(e2, other));
                let b = choose|b: int| 0 <= b < e2.len() && (#[trigger] e2[b]).0@ == other;
                assert(b != n);
                assert(entries[b].0@ == other);
                if a != b {
                    if a < b {
                        assert(entries[a].0@ != entries[b].0@);
                    } else {
                        assert(entries[b].0@ != entries[a].0@);
                    }
                }
            } else {
                if has_key(e2, other) {
                    let b = choose|b: int| 0 <= b < e2.len() && (#[trigger] e2[b]).0@ == other;
                    assert(b != n);
                    assert(entries[b].0@ == other);
                }
            }
        }
    }
}

/// Current check results of all components, by component id.
pub struct HealthRegistry {
    checks: Vec<(String, ComponentHealth)>,
}

impl HealthRegistry {
    #[verifier::type_invariant]
    spec fn inv(&self) -> bool {
        unique_keys(self.checks@)
    }

    pub closed spec fn entries(&self) -> Seq<(String, ComponentHealth)> {
        self.checks@
    }

    pub fn new() -> (r: Self)
        ensures
            r.entries().len() == 0,
    {
        HealthRegistry { checks: Vec::new() }
    }

    /// Stores the latest result for `component_id`, replacing an earlier one.
    pub fn update_component(&mut self, component_id: String, health: ComponentHealth)
        ensures
            final(self).entries() == spec_insert(old(self).entries(), component_id, health),
            unique_keys(final(self).entries()),
            lookup(final(self).entries(), component_id@) == Some(health),
            forall|k: Seq<char>| k != component_id@
                ==> #[trigger] lookup(final(self).entries(), k) == lookup(old(self).entries(), k),
    {
        proof {
            use_type_invariant(&*self);
            lemma_insert_then_lookup(self.checks@, component_id, health, component_id@);
            assert forall|k: Seq<char>| k != component_id@ implies #[trigger] lookup(spec_insert(self.checks@, component_id, health), k) == lookup(self.checks@, k) by {
                lemma_insert_then_lookup(self.checks@, component_id, health, k);
            }
        }
        let mut checks = Vec::new();
        std::mem::swap(&mut checks, &mut self.checks);
        insert_entry(&mut checks, component_id, health);
        self.checks = checks;
    }

    /// The latest result for `component_id`.
    pub fn get_component(&self, component_id: &str) -> (r: Option<ComponentHealth>)
        ensures
            r == lookup(self.entries(), component_id@),
    {
        proof {
            use_type_invariant(self);
        }
        let n = self.checks.len();
        let mut i: usize = 0;
        while i < n
            invariant
                n == self.checks@.len(),
                unique_keys(self.checks@),
                i <= n,
                forall|j: int| 0 <= j < i ==> (#[trigger] self.checks@[j]).0@ != component_id@,
            decreases n - i,
        {
            if str_eq(self.checks[i].0.as_str(), component_id) {
                proof {
                    let e = self.checks@;
                    assert(has_key(e, component_id@));
                    let c = choose|c: int| 0 <= c < e.len() && (#[trigger] e[c]).0@ == component_id@;
                    if c != i {
                        if c < i {
                            assert(e[c].0@ != component_id@);
                        } else {
                            assert(e[i as int].0@ != e[c].0@);
                        }
                    }
                }
                return Some(self.checks[i].1.clone());
            }
            i = i + 1;
        }
        None
    }

    /// All stored results, in insertion order.
    pub fn all_components(&self) -> (r: Vec<ComponentHealth>)
        ensures
            r@ == self.entries().map_values(|e: (String, ComponentHealth)| e.1),
    {
        let n = self.checks.len();
        let mut out: Vec<ComponentHealth> = Vec::new();
        let mut i: usize = 0;
        while i < n
            invariant
                n == self.checks@.len(),
                i <= n,
                out@ == self.checks@.take(i as int).map_values(|e: (String, ComponentHealth)| e.1),
            decreases n - i,
        {
            out.push(self.checks[i].1.clone());
            proof {
                assert(self.checks@.take(i + 1) =~= self.checks@.take(i as int).push(self.checks@[i as int]));
                assert(out@ =~= self.checks@.take(i + 1).map_values(|e: (String, ComponentHealth)| e.1));
            }
            i = i + 1;
        }
        assert(self.checks@.take(n as int) =~= self.checks@);
        out
    }

    /// A report for `version` holding every stored result; its status is the
    /// worst of them.
    pub fn generate_report(&self, version: String) -> (r: HealthReport)
        ensures
            r.well_formed(),
            r.checks@ == self.entries(),
            r.status == overall_status(self.entries()),
            r.version@ == version@,
            r.details@.len() == 0,
    {
        proof {
            use_type_invariant(self);
        }
        let n = self.checks.len();
        let mut checks: Vec<(String, ComponentHealth)> = Vec::new();
        let mut i: usize = 0;
        while i < n
            invariant
                n == self.checks@.len(),
                i <= n,
                checks@ == self.checks@.take(i as int),
            decreases n - i,
        {
            let entry = (self.checks[i].0.clone(), self.checks[i].1.clone());
            checks.push(entry);
            proof {
                assert(checks@ =~= self.checks@.take(i + 1));
            }
            i = i + 1;
        }
        assert(self.checks@.take(n as int) =~= self.checks@);
        let report = HealthReport::new(version);
        let status = compute_overall_status(&checks);
        HealthReport { status, checks, ..report }
    }
}

/// Result of the database check: healthy when the ping succeeded, otherwise
/// unhealthy with the ping's error; the latency is recorded either way.
pub fn database_check_result(ping: Result<(), String>, latency_ms: u64) -> (r: ComponentHealth)
    ensures
        ping is Ok ==> fresh_check(ComponentHealth { observed_value: 0, ..r }, "database"@, HealthStatus::Pass, None, None),
        ping matches Err(e) ==> fresh_check(ComponentHealth { observed_value: 0, ..r }, "database"@, HealthStatus::Fail, None, Some(e@)),
        r.observed_value == latency_ms as i64,
{
    match ping {
        Ok(()) => ComponentHealth::healthy("database".to_owned()).with_latency(latency_ms),
        Err(e) => ComponentHealth::unhealthy("database".to_owned(), e).with_latency(latency_ms),
    }
}

/// `Connected ({reconnects} reconnects)`.
pub open spec fn connected_output(reconnects: u32) -> Seq<char> {
    "Connected ("@ + nat_decimal(reconnects as nat) + " reconnects)"@
}

/// Result of the Jetstream check: healthy with the reconnect count while
/// connected, otherwise unhealthy.
pub fn jetstream_check_result(connected: bool, reconnect_count: u32) -> (r: ComponentHealth)
    ensures
        connected ==> fresh_check(r, "jetstream"@, HealthStatus::Pass, Some(connected_output(reconnect_count)), None),
        !connected ==> fresh_check(r, "jetstream"@, HealthStatus::Fail, None, Some("Not connected"@)),
{
    if connected {
        let mut output = String::new();
        output.push_str("Connected (");
        push_decimal(&mut output, reconnect_count as u64);
        output.push_str(" reconnects)");
        ComponentHealth::healthy("jetstream".to_owned()).with_output(output)
    } else {
        ComponentHealth::unhealthy("jetstream".to_owned(), "Not connected".to_owned())
    }
}

/// Result of the Bluesky check: healthy while a session exists.
pub fn bluesky_check_result(has_session: bool) -> (r: ComponentHealth)
    ensures
        has_session ==> fresh_check(r, "bluesky"@, HealthStatus::Pass, Some("Session valid"@), None),
        !has_session ==> fresh_check(r, "bluesky"@, HealthStatus::Fail, None, Some("No active session"@)),
{
    if has_session {
        ComponentHealth::healthy("bluesky".to_owned()).with_output("Session valid".to_owned())
    } else {
        ComponentHealth::unhealthy("bluesky".to_owned(), "No active session".to_owned())
    }
}

/// Result of the Gemini check: unhealthy without an API key, healthy with the
/// time of the last successful call, degraded before any.
pub fn gemini_check_result(api_key: &str, last_call: Option<String>) -> (r: ComponentHealth)
    ensures
        api_key@.len() == 0 ==> fresh_check(r, "gemini"@, HealthStatus::Fail, None, Some("No API key configured"@)),
        api_key@.len() > 0 && last_call is Some ==> fresh_check(
            r,
            "gemini"@,
            HealthStatus::Pass,
            Some("Last successful call: "@ + last_call->0@),
            None,
        ),
        api_key@.len() > 0 && last_call is None ==> fresh_check(r, "gemini"@, HealthStatus::Warn, Some("No successful calls yet"@), None),
{
    if api_key.is_empty() {
        return ComponentHealth::unhealthy("gemini".to_owned(), "No API key configured".to_owned());
    }
    match last_call {
        Some(t) => {
            let mut output = String::new();
            output.push_str("Last successful call: ");
            output.push_str(t.as_str());
            ComponentHealth::healthy("gemini".to_owned()).with_output(output)
        },
        None => ComponentHealth::degraded("gemini".to_owned(), "No successful calls yet".to_owned()),
    }
}

/// A health check over a database handle.
pub struct DatabaseHealthCheck<D> {
    db: Arc<D>,
}

impl<D> DatabaseHealthCheck<D> {
    pub fn new(db: Arc<D>) -> (r: Self)
        ensures
            r.handle() == db,
    {
        DatabaseHealthCheck { db }
    }

    pub closed spec fn handle(&self) -> Arc<D> {
        self.db
    }

    /// The database handle that is pinged.
    pub fn db(&self) -> (r: &Arc<D>)
        ensures
            *r == self.handle(),
    {
        &self.db
    }
}

/// A health check over a Bluesky client.
pub struct BlueskyHealthCheck<C> {
    client: Arc<C>,
}

impl<C> BlueskyHealthCheck<C> {
    pub fn new(client: Arc<C>) -> (r: Self)
        ensures
            r.handle() == client,
    {
        BlueskyHealthCheck { client }
    }

    pub closed spec fn handle(&self) -> Arc<C> {
        self.client
    }

    /// The client whose session is checked.
    pub fn client(&self) -> (r: &Arc<C>)
        ensures
            *r == self.handle(),
    {
        &self.client
    }
}

/// The Jetstream connection as the health check and dashboard see it.
#[derive(Debug, Clone)]
pub struct JetstreamState {
    pub connected: bool,
    /// When the last event (or the connection) was seen, in microseconds
    /// since the Unix epoch.
    pub last_event_us: Option<i64>,
    pub reconnect_count: u32,
    /// Events waiting to be processed.
    pub queue_depth: usize,
    /// Whether event processing is paused.
    pub is_paused: bool,
    /// Queue depth at which the backlog is reported.
    pub backlog_alert_threshold: usize,
}

impl JetstreamState {
    /// Disconnected, nothing seen, alerting from a backlog of 1000.
    pub fn new() -> (r: Self)
        ensures
            !r.connected,
            r.last_event_us is None,
            r.reconnect_count == 0,
            r.queue_depth == 0,
            !r.is_paused,
            r.backlog_alert_threshold == 1000,
    {
        JetstreamState {
            connected: false,
            last_event_us: None,
            reconnect_count: 0,
            queue_depth: 0,
            is_paused: false,
            backlog_alert_threshold: 1000,
        }
    }

    /// Records the connection state; connecting counts as seeing an event at
    /// `now_us`.
    pub fn set_connected(&mut self, connected: bool, now_us: i64)
        ensures
            final(self).connected == connected,
            final(self).last_event_us == if connected { Some(now_us) } else { old(self).last_event_us },
            final(self).reconnect_count == old(self).reconnect_count,
            final(self).queue_depth == old(self).queue_depth,
            final(self).is_paused == old(self).is_paused,
            final(self).backlog_alert_threshold == old(self).backlog_alert_threshold,
    {
        self.connected = connected;
        if connected {
            self.last_event_us = Some(now_us);
        }
    }

    /// Records an event seen at `now_us`.
    pub fn record_event(&mut self, now_us: i64)
        ensures
            final(self).last_event_us == Some(now_us),
            final(self).connected == old(self).connected,
            final(self).reconnect_count == old(self).reconnect_count,
            final(self).queue_depth == old(self).queue_depth,
            final(self).is_paused == old(self).is_paused,
            final(self).backlog_alert_threshold == old(self).backlog_alert_threshold,
    {
        self.last_event_us = Some(now_us);
    }

    /// Counts one more reconnect.
    pub fn increment_reconnects(&mut self)
        requires
            old(self).reconnect_count < u32::MAX,
        ensures
            final(self).reconnect_count == old(self).reconnect_count + 1,
            final(self).connected == old(self).connected,
            final(self).last_event_us == old(self).last_event_us,
            final(self).queue_depth == old(self).queue_depth,
            final(self).is_paused == old(self).is_paused,
            final(self).backlog_alert_threshold == old(self).backlog_alert_threshold,
    {
        self.reconnect_count = self.reconnect_count + 1;
    }

    /// Microseconds since the last event, at `now_us`.
    pub fn time_since_last_event(&self, now_us: i64) -> (r: Option<i128>)
        ensures
            self.last_event_us matches Some(t) ==> r == Some((now_us - t) as i128),
            self.last_event_us is None ==> r is None,
    {
        match self.last_event_us {
            Some(t) => Some(now_us as i128 - t as i128),
            None => None,
        }
    }

    /// Whether the queue has reached the alert threshold.
    pub fn is_backlogged(&self) -> (r: bool)
        ensures
            r == (self.queue_depth >= self.backlog_alert_threshold),
    {
        self.queue_depth >= self.backlog_alert_threshold
    }

    pub fn set_queue_depth(&mut self, depth: usize)
        ensures
            *final(self) == (JetstreamState { queue_depth: depth, ..*old(self) }),
    {
        self.queue_depth = depth;
    }

    pub fn set_paused(&mut self, paused: bool)
        ensures
            *final(self) == (JetstreamState { is_paused: paused, ..*old(self) }),
    {
        self.is_paused = paused;
    }
}

/// The Jetstream check of a connection state.
pub fn jetstream_state_check(state: &JetstreamState) -> (r: ComponentHealth)
    ensures
        state.connected ==> fresh_check(r, "jetstream"@, HealthStatus::Pass, Some(connected_output(state.reconnect_count)), None),
        !state.connected ==> fresh_check(r, "jetstream"@, HealthStatus::Fail, None, Some("Not connected"@)),
{
    jetstream_check_result(state.connected, state.reconnect_count)
}

} // verus!
