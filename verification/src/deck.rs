//! The control deck: its navigation, the bot identity it shows, and the
//! sign-in sessions it keeps.

use vstd::prelude::*;
use crate::config::Settings;
use crate::text::{trim, trim_str, str_eq};

verus! {

/// The control deck's navigation entries.
#[derive(Debug, Clone, Copy, PartialEq, Eq)]
pub enum NavItem {
    Dashboard,
    Logs,
    Chat,
    Config,
}

impl NavItem {
    /// The entries, in the order the navigation shows them.
    pub fn items() -> (r: Vec<NavItem>)
        ensures
            r@ == seq![NavItem::Dashboard, NavItem::Logs, NavItem::Chat, NavItem::Config],
    {
        let mut v = Vec::new();
        v.push(NavItem::Dashboard);
        v.push(NavItem::Logs);
        v.push(NavItem::Chat);
        v.push(NavItem::Config);
        v
    }
}

/// The bot's DID as the deck shows it: `did:unknown` when the configured
/// one is blank.
pub fn bot_did_or_fallback(settings: &Settings) -> (r: String)
    ensures
        trim(settings.bot.did@).len() == 0 ==> r@ == "did:unknown"@,
        trim(settings.bot.did@).len() != 0 ==> r@ == settings.bot.did@,
{
    let t = trim_str(settings.bot.did.as_str());
    if t.as_str().unicode_len() == 0 {
        "did:unknown".to_owned()
    } else {
        settings.bot.did.clone()
    }
}

/// How long a deck session lives: twelve hours, in seconds.
pub const SESSION_TTL_SECS: u64 = 43200;

/// A session entry as a plain value: the token's characters and its expiry.
pub open spec fn entry_view(p: (String, u64)) -> (Seq<char>, u64) {
    (p.0@, p.1)
}

/// The map from token to expiry time that `entries` hold, later entries
/// overriding earlier ones.
pub open spec fn entries_map(entries: Seq<(Seq<char>, u64)>) -> Map<Seq<char>, u64>
    decreases entries.len(),
{
    if entries.len() == 0 {
        Map::empty()
    } else {
        entries_map(entries.drop_last()).insert(entries.last().0, entries.last().1)
    }
}

/// No token occurs twice.
pub open spec fn distinct_tokens(entries: Seq<(Seq<char>, u64)>) -> bool
    decreases entries.len(),
{
    if entries.len() == 0 {
        true
    } else {
        distinct_tokens(entries.drop_last()) && !entries_map(entries.drop_last()).contains_key(entries.last().0)
    }
}

/// The entries that satisfy `keep`, in order.
pub open spec fn kept(entries: Seq<(Seq<char>, u64)>, keep: spec_fn((Seq<char>, u64)) -> bool) -> Seq<(Seq<char>, u64)>
    decreases entries.len(),
{
    if entries.len() == 0 {
        Seq::empty()
    } else if keep(entries.last()) {
        kept(entries.drop_last(), keep).push(entries.last())
    } else {
        kept(entries.drop_last(), keep)
    }
}

/// The part of `m` whose entries satisfy `keep`.
pub open spec fn restricted(m: Map<Seq<char>, u64>, keep: spec_fn((Seq<char>, u64)) -> bool) -> Map<Seq<char>, u64> {
    Map::new(|k: Seq<char>| m.contains_key(k) && keep((k, m[k])), |k: Seq<char>| m[k])
}

proof fn lemma_kept(entries: Seq<(Seq<char>, u64)>, keep: spec_fn((Seq<char>, u64)) -> bool)
    requires
        distinct_tokens(entries),
    ensures
        distinct_tokens(kept(entries, keep)),
        entries_map(kept(entries, keep)) == restricted(entries_map(entries), keep),
    decreases entries.len(),
{
    if entries.len() == 0 {
        assert(restricted(entries_map(entries), keep) =~= Map::empty());
    } else {
        let rest = entries.drop_last();
        let e = entries.last();
        lemma_kept(rest, keep);
        let m = entries_map(rest);
        assert(!m.contains_key(e.0));
        assert(!entries_map(kept(rest, keep)).contains_key(e.0));
        if keep(e) {
            assert(kept(entries, keep).drop_last() =~= kept(rest, keep));
            assert(entries_map(kept(entries, keep)) =~= restricted(entries_map(entries), keep));
        } else {
            assert(entries_map(kept(entries, keep)) =~= restricted(entries_map(entries), keep));
        }
    }
}

/// The sessions of `m` still alive at `now`.
pub open spec fn live_sessions(m: Map<Seq<char>, u64>, now: u64) -> Map<Seq<char>, u64> {
    restricted(m, |e: (Seq<char>, u64)| e.1 > now)
}

/// The token's expiry time, scanning from the most recent entry.
fn lookup(v: &Vec<(String, u64)>, token: &str) -> (r: Option<u64>)
    ensures
        r is Some <==> entries_map(v@.map_values(|p: (String, u64)| entry_view(p))).contains_key(token@),
        r matches Some(e) ==> entries_map(v@.map_values(|p: (String, u64)| entry_view(p)))[token@] == e,
{
    let ghost all = v@.map_values(|p: (String, u64)| entry_view(p));
    let mut i: usize = v.len();
    proof {
        assert(all.take(i as int) =~= all);
    }
    while i > 0
        invariant
            all == v@.map_values(|p: (String, u64)| entry_view(p)),
            i <= v@.len(),
            entries_map(all).contains_key(token@) == entries_map(all.take(i as int)).contains_key(token@),
            entries_map(all).contains_key(token@) ==> entries_map(all)[token@] == entries_map(all.take(i as int))[token@],
        decreases i,
    {
        proof {
            assert(all.take(i as int).drop_last() =~= all.take(i - 1));
            assert(all.take(i as int).last() == entry_view(v@[i - 1]));
        }
        if str_eq(v[i - 1].0.as_str(), token) {
            return Some(v[i - 1].1);
        }
        i = i - 1;
    }
    proof {
        assert(all.take(0) =~= Seq::<(Seq<char>, u64)>::empty());
    }
    None
}

/// Entries of a token other than `t`.
pub open spec fn other_than(t: Seq<char>) -> spec_fn((Seq<char>, u64)) -> bool {
    |e: (Seq<char>, u64)| e.0 != t
}

/// Entries that expire after `now`.
pub open spec fn alive_at(now: u64) -> spec_fn((Seq<char>, u64)) -> bool {
    |e: (Seq<char>, u64)| e.1 > now
}

/// The entries of `v` of a token other than `drop` (when given) that
/// expire after `now` (when given).
fn kept_entries(v: &Vec<(String, u64)>, drop: Option<&str>, now: Option<u64>) -> (r: Vec<(String, u64)>)
    requires
        drop is Some != now is Some,
    ensures
        drop matches Some(d) ==> r@.map_values(|p: (String, u64)| entry_view(p)) == kept(
            v@.map_values(|p: (String, u64)| entry_view(p)), other_than(d@)),
        now matches Some(n) ==> r@.map_values(|p: (String, u64)| entry_view(p)) == kept(
            v@.map_values(|p: (String, u64)| entry_view(p)), alive_at(n)),
{
    let ghost keep = match drop {
        Some(d) => other_than(d@),
        None => alive_at(now->Some_0),
    };
    let ghost all = v@.map_values(|p: (String, u64)| entry_view(p));
    let mut out: Vec<(String, u64)> = Vec::new();
    let mut i: usize = 0;
    proof {
        assert(all.take(0) =~= Seq::<(Seq<char>, u64)>::empty());
        assert(out@.map_values(|p: (String, u64)| entry_view(p)) =~= Seq::<(Seq<char>, u64)>::empty());
    }
    while i < v.len()
        invariant
            drop is Some != now is Some,
            all == v@.map_values(|p: (String, u64)| entry_view(p)),
            keep == (match drop {
                Some(d) => other_than(d@),
                None => alive_at(now->Some_0),
            }),
            i <= v@.len(),
            out@.map_values(|p: (String, u64)| entry_view(p)) == kept(all.take(i as int), keep),
        decreases v@.len() - i,
    {
        proof {
            assert(all.take(i + 1).drop_last() =~= all.take(i as int));
            assert(all.take(i + 1).last() == entry_view(v@[i as int]));
        }
        let keep_it = match drop {
            Some(d) => !str_eq(v[i].0.as_str(), d),
            None => match now {
                Some(n) => v[i].1 > n,
                None => true,
            },
        };
        proof {
            assert(keep_it == keep(entry_view(v@[i as int])));
        }
        if keep_it {
            let ghost before = out@;
            out.push((v[i].0.clone(), v[i].1));
            proof {
                assert(out@.map_values(|p: (String, u64)| entry_view(p)) =~= before.map_values(
                    |p: (String, u64)| entry_view(p),
                ).push(entry_view(v@[i as int])));
            }
        }
        i = i + 1;
    }
    proof {
        assert(all.take(v@.len() as int) =~= all);
    }
    out
}

/// The lowercase hexadecimal digit of a value below 16.
pub open spec fn hex_char(v: nat) -> char {
    if v < 10 {
        ((48 + v) as u32) as char
    } else {
        ((87 + v) as u32) as char
    }
}

/// `x` in exactly `n` lowercase hexadecimal digits (keeping the low ones).
pub open spec fn hex_fixed(x: nat, n: nat) -> Seq<char>
    decreases n,
{
    if n == 0 {
        Seq::empty()
    } else {
        hex_fixed(x / 16, (n - 1) as nat).push(hex_char(x % 16))
    }
}

/// A token made of two 128-bit numbers, each in 32 hexadecimal digits.
pub open spec fn token_text(a: u128, b: u128) -> Seq<char> {
    hex_fixed(a as nat, 32) + hex_fixed(b as nat, 32)
}

fn hex_char_exec(v: u8) -> (r: char)
    requires
        v < 16,
    ensures
        r == hex_char(v as nat),
{
    if v < 10 {
        let b: u8 = 48u8 + v;
        b as char
    } else {
        let b: u8 = 87u8 + v;
        b as char
    }
}

proof fn lemma_hex_fixed_len(x: nat, n: nat)
    ensures
        hex_fixed(x, n).len() == n,
    decreases n,
{
    if n > 0 {
        lemma_hex_fixed_len(x / 16, (n - 1) as nat);
    }
}

fn push_hex_fixed(s: &mut String, x: u128, n: u32)
    ensures
        final(s)@ == old(s)@ + hex_fixed(x as nat, n as nat),
    decreases n,
{
    if n > 0 {
        push_hex_fixed(s, x / 16, n - 1);
        s.push(hex_char_exec((x % 16) as u8));
        proof {
            assert(final(s)@ =~= old(s)@ + hex_fixed(x as nat, n as nat)) by {
                assert(hex_fixed(x as nat, n as nat) == hex_fixed((x / 16) as nat, (n - 1) as nat).push(hex_char((x % 16) as nat)));
            }
        }
    } else {
        proof {
            assert(final(s)@ =~= old(s)@ + hex_fixed(x as nat, n as nat));
        }
    }
}

/// `a` and `b`, each as 32 lowercase hexadecimal digits.
pub fn format_token(a: u128, b: u128) -> (r: String)
    ensures
        r@ == token_text(a, b),
        r@.len() == 64,
{
    let mut s = String::new();
    push_hex_fixed(&mut s, a, 32);
    push_hex_fixed(&mut s, b, 32);
    proof {
        lemma_hex_fixed_len(a as nat, 32);
        lemma_hex_fixed_len(b as nat, 32);
        assert(s@ =~= token_text(a, b));
    }
    s
}

/// `rand::random::<u128>()`: a uniformly random 128-bit number; nothing is
/// stated of it.
#[verifier::external_body]
fn random_u128() -> u128 {
    rand::random::<u128>()
}

/// A fresh random token: 64 lowercase hexadecimal digits.
pub fn random_token() -> (r: String)
    ensures
        exists|a: u128, b: u128| r@ == #[trigger] token_text(a, b),
        r@.len() == 64,
{
    let a = random_u128();
    let b = random_u128();
    format_token(a, b)
}

/// The deck account: its username, its password, and whether the password
/// was generated because none was configured.
#[derive(Debug, Clone)]
pub struct WebCredentials {
    pub username: String,
    pub password: String,
    pub generated_password: bool,
}

/// The deck account from the configured username and password: the
/// username defaults to `admin`; a missing or blank password is replaced by
/// a random one.
pub fn web_credentials(username: Option<&str>, password: Option<&str>) -> (r: WebCredentials)
    ensures
        username is None ==> r.username@ == "admin"@,
        username matches Some(u) ==> r.username@ == u@,
        (password matches Some(p) && trim(p@).len() > 0) ==> r.password@ == password->Some_0@
            && !r.generated_password,
        !(password matches Some(p) && trim(p@).len() > 0) ==> r.generated_password
            && (exists|a: u128, b: u128| r.password@ == #[trigger] token_text(a, b)),
{
    let user = match username {
        Some(u) => u.to_owned(),
        None => "admin".to_owned(),
    };
    let configured = match password {
        Some(p) => {
            let t = trim_str(p);
            if t.as_str().unicode_len() > 0 {
                Some(p.to_owned())
            } else {
                None
            }
        },
        None => None,
    };
    match configured {
        Some(p) => WebCredentials { username: user, password: p, generated_password: false },
        None => WebCredentials { username: user, password: random_token(), generated_password: true },
    }
}

/// Signed-in deck sessions, each a token with the time (in seconds on the
/// deck's clock) at which it expires.
#[derive(Debug)]
pub struct SessionStore {
    username: String,
    password: String,
    sessions: Vec<(String, u64)>,
    ttl_secs: u64,
}

impl SessionStore {
    #[verifier::type_invariant]
    spec fn well_formed(self) -> bool {
        distinct_tokens(self.sessions@.map_values(|p: (String, u64)| entry_view(p)))
    }

    /// The sessions, live or expired, by token.
    pub closed spec fn view_sessions(&self) -> Map<Seq<char>, u64> {
        entries_map(self.sessions@.map_values(|p: (String, u64)| entry_view(p)))
    }

    pub closed spec fn spec_ttl(&self) -> u64 {
        self.ttl_secs
    }

    pub closed spec fn spec_username(&self) -> Seq<char> {
        self.username@
    }

    pub closed spec fn spec_password(&self) -> Seq<char> {
        self.password@
    }

    /// A store for the one deck account, with no sessions and a twelve-hour
    /// session lifetime.
    pub fn new(username: String, password: String) -> (r: Self)
        ensures
            r.view_sessions() == Map::<Seq<char>, u64>::empty(),
            r.spec_ttl() == SESSION_TTL_SECS,
            r.spec_username() == username@,
            r.spec_password() == password@,
    {
        let sessions: Vec<(String, u64)> = Vec::new();
        proof {
            assert(sessions@.map_values(|p: (String, u64)| entry_view(p)) =~= Seq::<(Seq<char>, u64)>::empty());
        }
        SessionStore { username, password, sessions, ttl_secs: SESSION_TTL_SECS }
    }

    /// `true` exactly for the account's username and password.
    pub fn verify_credentials(&self, username: &str, password: &str) -> (r: bool)
        ensures
            r == (username@ == self.spec_username() && password@ == self.spec_password()),
    {
        str_eq(username, self.username.as_str()) && str_eq(password, self.password.as_str())
    }

    /// Records a session for `token`, issued at `now`: it expires one
    /// lifetime later, replacing any earlier session of the same token.
    pub fn record_session(&mut self, token: String, now: u64)
        requires
            now + old(self).spec_ttl() <= u64::MAX,
        ensures
            final(self).view_sessions() == old(self).view_sessions().insert(token@, (now + old(self).spec_ttl()) as u64),
            final(self).spec_ttl() == old(self).spec_ttl(),
            final(self).spec_username() == old(self).spec_username(),
            final(self).spec_password() == old(self).spec_password(),
    {
        proof {
            use_type_invariant(&*self);
        }
        let expires_at = now + self.ttl_secs;
        let mut current: Vec<(String, u64)> = Vec::new();
        std::mem::swap(&mut current, &mut self.sessions);
        let ghost all = current@.map_values(|p: (String, u64)| entry_view(p));
        let ghost keep = other_than(token@);
        let mut next = kept_entries(&current, Some(token.as_str()), None);
        proof {
            lemma_kept(all, keep);
            assert(!entries_map(kept(all, keep)).contains_key(token@));
        }
        let ghost before = next@;
        next.push((token, expires_at));
        proof {
            let nv = next@.map_values(|p: (String, u64)| entry_view(p));
            assert(nv.drop_last() =~= before.map_values(|p: (String, u64)| entry_view(p)));
            assert(entries_map(nv) =~= entries_map(all).insert(nv.last().0, expires_at));
        }
        self.sessions = next;
    }

    /// Issues a fresh random session token at `now` and records it.
    pub fn issue_session(&mut self, now: u64) -> (r: String)
        requires
            now + old(self).spec_ttl() <= u64::MAX,
        ensures
            exists|a: u128, b: u128| r@ == #[trigger] token_text(a, b),
            r@.len() == 64,
            final(self).view_sessions() == old(self).view_sessions().insert(r@, (now + old(self).spec_ttl()) as u64),
            final(self).spec_ttl() == old(self).spec_ttl(),
            final(self).spec_username() == old(self).spec_username(),
            final(self).spec_password() == old(self).spec_password(),
    {
        let token = random_token();
        let r = token.clone();
        self.record_session(token, now);
        r
    }

    /// A sign-in attempt: the credentials (without surrounding whitespace)
    /// must be the account's; then a fresh session is issued at `now`.
    pub fn sign_in(&mut self, username: &str, password: &str, now: u64) -> (r: Option<String>)
        requires
            now + old(self).spec_ttl() <= u64::MAX,
        ensures
            r is Some <==> (trim(username@) == old(self).spec_username() && trim(password@) == old(self).spec_password()),
            r is None ==> final(self).view_sessions() == old(self).view_sessions(),
            r matches Some(t) ==> final(self).view_sessions() == old(self).view_sessions().insert(t@, (now + old(self).spec_ttl()) as u64)
                && t@.len() == 64,
            final(self).spec_ttl() == old(self).spec_ttl(),
            final(self).spec_username() == old(self).spec_username(),
            final(self).spec_password() == old(self).spec_password(),
    {
        let u = trim_str(username);
        let p = trim_str(password);
        if self.verify_credentials(u.as_str(), p.as_str()) {
            Some(self.issue_session(now))
        } else {
            None
        }
    }

    /// Whether `token` names a session alive at `now`; sessions expired by
    /// `now` are dropped.
    pub fn validate_session(&mut self, token: &str, now: u64) -> (r: bool)
        ensures
            r == (old(self).view_sessions().contains_key(token@) && old(self).view_sessions()[token@] > now),
            final(self).view_sessions() == live_sessions(old(self).view_sessions(), now),
            final(self).spec_ttl() == old(self).spec_ttl(),
            final(self).spec_username() == old(self).spec_username(),
            final(self).spec_password() == old(self).spec_password(),
    {
        proof {
            use_type_invariant(&*self);
        }
        let mut current: Vec<(String, u64)> = Vec::new();
        std::mem::swap(&mut current, &mut self.sessions);
        let ghost all = current@.map_values(|p: (String, u64)| entry_view(p));
        let ghost keep = alive_at(now);
        let next = kept_entries(&current, None, Some(now));
        proof {
            lemma_kept(all, keep);
            assert(restricted(entries_map(all), keep) =~= live_sessions(entries_map(all), now));
        }
        let found = lookup(&next, token);
        self.sessions = next;
        match found {
            Some(e) => e > now,
            None => false,
        }
    }
}

/// A session recorded at `issued` is valid exactly until one lifetime has
/// passed: validating at `now` succeeds iff `now < issued + ttl`.
pub proof fn lemma_session_valid_until_expiry(
    sessions: Map<Seq<char>, u64>,
    token: Seq<char>,
    issued: u64,
    ttl: u64,
    now: u64,
)
    requires
        issued + ttl <= u64::MAX,
    ensures
        ({
            let after = sessions.insert(token, (issued + ttl) as u64);
            (after.contains_key(token) && after[token] > now) <==> now < issued + ttl
        }),
        live_sessions(sessions.insert(token, (issued + ttl) as u64), now).contains_key(token) <==> now < issued + ttl,
{
}

/// Validating never brings an expired session back: after a validation at
/// `now`, every remaining session expires after `now`, and no session is
/// added.
pub proof fn lemma_validation_only_prunes(sessions: Map<Seq<char>, u64>, now: u64, token: Seq<char>)
    ensures
        live_sessions(sessions, now).contains_key(token) ==> sessions.contains_key(token)
            && live_sessions(sessions, now)[token] == sessions[token] && sessions[token] > now,
{
}

} // verus!
