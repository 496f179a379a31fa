//! Resolving DIDs and handles with a cache: when a cached entry is fresh
//! enough, and what each step of a resolution does with what the store and
//! the PDS answered.

use vstd::prelude::*;
use crate::clock::{is_clock_rfc3339, now_instant, now_rfc3339, parse_rfc3339_instant, spec_parse_rfc3339_instant};
use crate::db::{CachedIdentity, CreateIdentityParams};
use crate::error::BotError;

verus! {

/// How long (in hours) a cached identity stays fresh by default.
pub const IDENTITY_TTL_HOURS: i64 = 24;

/// Largest time-to-live (in hours, either sign) the resolver computes with.
pub const MAX_TTL_HOURS: i64 = 2_000_000_000;

/// `true` when instant `a` (seconds, nanoseconds) is earlier than `b`.
pub open spec fn instant_before(a: (i64, u32), b: (i64, u32)) -> bool {
    a.0 < b.0 || (a.0 == b.0 && a.1 < b.1)
}

/// The instant `ttl_hours` before `now`.
pub open spec fn threshold_of(now: (i64, u32), ttl_hours: i64) -> (i64, u32) {
    ((now.0 - ttl_hours * 3600) as i64, now.1)
}

/// An entry is stale when its timestamp does not parse, or lies before the
/// threshold.
pub open spec fn is_stale_against(last_updated: Seq<char>, threshold: (i64, u32)) -> bool {
    match spec_parse_rfc3339_instant(last_updated) {
        None => true,
        Some(t) => instant_before(t, threshold),
    }
}

/// Staleness as read at clock reading `now`: stale when the reading is
/// beyond the computable range, else as against the threshold.
pub open spec fn stale_reading(last_updated: Seq<char>, now: (i64, u32), ttl_hours: i64) -> bool {
    !(i64::MIN + 3600 * MAX_TTL_HOURS <= now.0 <= i64::MAX - 3600 * MAX_TTL_HOURS)
        || is_stale_against(last_updated, threshold_of(now, ttl_hours))
}

/// An entry is stale at `now` exactly when its timestamp does not parse or
/// lies more than `ttl_hours` hours (of 3600 seconds) before `now`: an entry
/// whose second is less than `ttl_hours * 3600` seconds before `now` is fresh,
/// one more than that before `now` is stale. With the default time-to-live,
/// an entry updated less than a day (86,400 s) ago is fresh.
pub proof fn lemma_stale_means_older_than_ttl(last_updated: Seq<char>, now: (i64, u32), ttl_hours: i64)
    requires
        -MAX_TTL_HOURS <= ttl_hours <= MAX_TTL_HOURS,
        i64::MIN + 3600 * MAX_TTL_HOURS <= now.0 <= i64::MAX - 3600 * MAX_TTL_HOURS,
    ensures
        spec_parse_rfc3339_instant(last_updated) is None ==> is_stale_against(last_updated, threshold_of(now, ttl_hours)),
        spec_parse_rfc3339_instant(last_updated) matches Some(t) ==> {
            &&& t.0 + ttl_hours * 3600 > now.0 ==> !is_stale_against(last_updated, threshold_of(now, ttl_hours))
            &&& t.0 + ttl_hours * 3600 < now.0 ==> is_stale_against(last_updated, threshold_of(now, ttl_hours))
            &&& t.0 + ttl_hours * 3600 == now.0 ==> (is_stale_against(last_updated, threshold_of(now, ttl_hours))
                <==> t.1 < now.1)
        },
        ttl_hours == IDENTITY_TTL_HOURS ==> (spec_parse_rfc3339_instant(last_updated) matches Some(t)
            && now.0 - t.0 < 86_400 ==> !is_stale_against(last_updated, threshold_of(now, ttl_hours))),
        ttl_hours == IDENTITY_TTL_HOURS ==> (spec_parse_rfc3339_instant(last_updated) matches Some(t)
            && now.0 - t.0 > 86_400 ==> is_stale_against(last_updated, threshold_of(now, ttl_hours))),
{
}

/// Resolves identities through a store `R`, refreshing entries older than
/// its time-to-live from a PDS.
pub struct IdentityResolver<R> {
    repo: R,
    pds_host: String,
    ttl_hours: i64,
}

impl<R> IdentityResolver<R> {
    pub closed spec fn store(&self) -> R {
        self.repo
    }

    pub closed spec fn spec_pds_host(&self) -> Seq<char> {
        self.pds_host@
    }

    pub closed spec fn spec_ttl_hours(&self) -> i64 {
        self.ttl_hours
    }

    /// A resolver with the default time-to-live of a day.
    pub fn new(repo: R, pds_host: String) -> (r: Self)
        ensures
            r.store() == repo,
            r.spec_pds_host() == pds_host@,
            r.spec_ttl_hours() == IDENTITY_TTL_HOURS,
    {
        IdentityResolver { repo, pds_host, ttl_hours: IDENTITY_TTL_HOURS }
    }

    /// A resolver with a time-to-live of `ttl_hours`.
    pub fn with_ttl(repo: R, pds_host: String, ttl_hours: i64) -> (r: Self)
        ensures
            r.store() == repo,
            r.spec_pds_host() == pds_host@,
            r.spec_ttl_hours() == ttl_hours,
    {
        IdentityResolver { repo, pds_host, ttl_hours }
    }

    pub fn ttl_hours(&self) -> (r: i64)
        ensures
            r == self.spec_ttl_hours(),
    {
        self.ttl_hours
    }

    pub fn repo(&self) -> (r: &R)
        ensures
            *r == self.store(),
    {
        &self.repo
    }

    /// The profile lookup URL for `did`.
    pub fn profile_url(&self, did: &str) -> (r: String)
        ensures
            r@ == self.spec_pds_host() + "/xrpc/app.bsky.actor.getProfile?actor="@ + did@,
    {
        let mut s = self.pds_host.clone();
        s.push_str("/xrpc/app.bsky.actor.getProfile?actor=");
        s.push_str(did);
        s
    }

    /// The handle resolution URL for `handle`.
    pub fn resolve_handle_url(&self, handle: &str) -> (r: String)
        ensures
            r@ == self.spec_pds_host() + "/xrpc/com.atproto.identity.resolveHandle?handle="@ + handle@,
    {
        let mut s = self.pds_host.clone();
        s.push_str("/xrpc/com.atproto.identity.resolveHandle?handle=");
        s.push_str(handle);
        s
    }

    /// Whether an entry updated at `last_updated` is stale at `now`.
    pub fn is_stale_at(&self, last_updated: &str, now: (i64, u32)) -> (r: bool)
        requires
            -MAX_TTL_HOURS <= self.spec_ttl_hours() <= MAX_TTL_HOURS,
            i64::MIN + 3600 * MAX_TTL_HOURS <= now.0 <= i64::MAX - 3600 * MAX_TTL_HOURS,
        ensures
            r == is_stale_against(last_updated@, threshold_of(now, self.spec_ttl_hours())),
    {
        let threshold_secs = now.0 - self.ttl_hours * 3600;
        match parse_rfc3339_instant(last_updated) {
            None => true,
            Some((secs, nanos)) => secs < threshold_secs || (secs == threshold_secs && nanos < now.1),
        }
    }

    /// Whether an entry updated at `last_updated` is stale now (an entry
    /// counts as stale when the clock reads beyond the computable range).
    pub fn is_stale(&self, last_updated: &str) -> (r: bool)
        requires
            -MAX_TTL_HOURS <= self.spec_ttl_hours() <= MAX_TTL_HOURS,
        ensures
            exists|now: (i64, u32)| r == #[trigger] stale_reading(last_updated@, now, self.spec_ttl_hours()),
    {
        let now = now_instant();
        let in_range = i64::MIN + 3600 * MAX_TTL_HOURS <= now.0 && now.0 <= i64::MAX - 3600 * MAX_TTL_HOURS;
        let r = if in_range {
            self.is_stale_at(last_updated, now)
        } else {
            true
        };
        assert(r == stale_reading(last_updated@, now, self.spec_ttl_hours()));
        r
    }

    /// After the cache was read (by DID, or by handle with `want_did`): a
    /// fresh entry answers with its handle, or its DID (`Ok(Some(..))`); a
    /// missing or stale one means asking the PDS (`Ok(None)`); a store error
    /// ends the resolution.
    pub fn after_cache_lookup(
        &self,
        cached: Result<Option<CachedIdentity>, BotError>,
        now: (i64, u32),
        want_did: bool,
    ) -> (r: Result<Option<String>, BotError>)
        requires
            -MAX_TTL_HOURS <= self.spec_ttl_hours() <= MAX_TTL_HOURS,
            i64::MIN + 3600 * MAX_TTL_HOURS <= now.0 <= i64::MAX - 3600 * MAX_TTL_HOURS,
        ensures
            cached matches Err(e) ==> r == Err::<Option<String>, BotError>(e),
            cached matches Ok(None) ==> r matches Ok(None),
            cached matches Ok(Some(c)) ==> if is_stale_against(c.last_updated@, threshold_of(now, self.spec_ttl_hours())) {
                r matches Ok(None)
            } else {
                r matches Ok(Some(v)) && v@ == if want_did { c.did@ } else { c.handle@ }
            },
    {
        match cached {
            Err(e) => Err(e),
            Ok(None) => Ok(None),
            Ok(Some(c)) => {
                if self.is_stale_at(c.last_updated.as_str(), now) {
                    Ok(None)
                } else if want_did {
                    Ok(Some(c.did))
                } else {
                    Ok(Some(c.handle))
                }
            },
        }
    }
}

/// A resolver with the default time-to-live, shared.
pub fn create_shared_resolver<R>(repo: R, pds_host: String) -> (r: std::sync::Arc<IdentityResolver<R>>)
    ensures
        r.store() == repo,
        r.spec_pds_host() == pds_host@,
        r.spec_ttl_hours() == IDENTITY_TTL_HOURS,
{
    std::sync::Arc::new(IdentityResolver::new(repo, pds_host))
}

/// The identity written after a profile was fetched: the DID with the
/// fetched handle and display name, updated at `now`.
pub fn fetched_identity(did: &str, handle: String, display_name: Option<String>, now: String) -> (r: CreateIdentityParams)
    ensures
        r.did@ == did@,
        r.handle == handle,
        r.display_name == display_name,
        r.last_updated == now,
{
    CreateIdentityParams { did: did.to_owned(), handle, display_name, last_updated: now }
}

/// After the PDS was asked for a DID's profile: the identity to write, or
/// the fetch error, kept for the fallback.
pub fn after_profile_fetch(did: &str, fetched: Result<(String, Option<String>), BotError>) -> (r: Result<CreateIdentityParams, BotError>)
    ensures
        fetched matches Err(e) ==> r == Err::<CreateIdentityParams, BotError>(e),
        fetched matches Ok((h, dn)) ==> (r matches Ok(p) && p.did@ == did@ && p.handle == h && p.display_name == dn
            && is_clock_rfc3339(p.last_updated@)),
{
    match fetched {
        Err(e) => Err(e),
        Ok((handle, display_name)) => Ok(fetched_identity(did, handle, display_name, now_rfc3339())),
    }
}

/// The fallback after a failed fetch: the cached entry, stale or not,
/// answers; without one the fetch error stands; a store error ends it.
pub fn after_fallback_lookup(
    cached: Result<Option<CachedIdentity>, BotError>,
    fetch_error: BotError,
    want_did: bool,
) -> (r: Result<String, BotError>)
    ensures
        cached matches Err(e) ==> r == Err::<String, BotError>(e),
        cached matches Ok(None) ==> r == Err::<String, BotError>(fetch_error),
        cached matches Ok(Some(c)) ==> (r matches Ok(v) && v@ == if want_did { c.did@ } else { c.handle@ }),
{
    match cached {
        Err(e) => Err(e),
        Ok(None) => Err(fetch_error),
        Ok(Some(c)) => if want_did {
            Ok(c.did)
        } else {
            Ok(c.handle)
        },
    }
}

/// After the PDS resolved a handle to `did` and was asked for that DID's
/// profile: the identity to write, with the fetched handle when the profile
/// came, else the handle asked for and no display name.
pub fn identity_for_resolved_handle(
    handle: &str,
    did: &str,
    profile: Result<(String, Option<String>), BotError>,
) -> (r: CreateIdentityParams)
    ensures
        r.did@ == did@,
        profile matches Ok((h, dn)) ==> r.handle == h && r.display_name == dn,
        profile is Err ==> r.handle@ == handle@ && r.display_name is None,
        is_clock_rfc3339(r.last_updated@),
{
    match profile {
        Ok((h, dn)) => fetched_identity(did, h, dn, now_rfc3339()),
        Err(_) => fetched_identity(did, handle.to_owned(), None, now_rfc3339()),
    }
}

} // verus!
