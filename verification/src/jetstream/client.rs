use vstd::prelude::*;
use vstd::utf8::{encode_utf8, valid_utf8};
use crate::text::{int_decimal, push_signed_decimal};
use crate::jetstream::types::JetstreamEvent;

verus! {

/// How far back (in microseconds) a reconnect rewinds the last seen cursor.
pub const CURSOR_REWIND_US: i64 = 5_000_000;

/// Longest wait between reconnect attempts, in seconds.
pub const MAX_RECONNECT_BACKOFF_SECS: u64 = 60;

/// Subscription settings of the Jetstream connection.
#[derive(Debug, Clone)]
pub struct JetstreamConfig {
    pub host: String,
    pub wanted_collections: Vec<String>,
    pub wanted_dids: Vec<String>,
    pub compress: bool,
    pub cursor: Option<i64>,
    pub max_message_size_bytes: Option<i64>,
}

impl Default for JetstreamConfig {
    fn default() -> (r: Self)
        ensures
            r.host@ == "wss://jetstream2.us-east.bsky.network"@,
            r.wanted_collections@.len() == 1,
            r.wanted_collections@[0]@ == "app.bsky.feed.post"@,
            r.wanted_dids@.len() == 0,
            r.compress,
            r.cursor is None,
            r.max_message_size_bytes is None,
    {
        let mut wanted_collections: Vec<String> = Vec::new();
        wanted_collections.push("app.bsky.feed.post".to_owned());
        JetstreamConfig {
            host: "wss://jetstream2.us-east.bsky.network".to_owned(),
            wanted_collections,
            wanted_dids: Vec::new(),
            compress: true,
            cursor: None,
            max_message_size_bytes: None,
        }
    }
}

/// Bytes that percent-encoding leaves as they are: ASCII alphanumerics and `-._~`.
pub open spec fn url_safe_byte(b: u8) -> bool {
    (48 <= b <= 57) || (65 <= b <= 90) || (97 <= b <= 122) || b == 45 || b == 46 || b == 95 || b == 126
}

/// Upper-case hexadecimal digit of `d < 16`.
pub open spec fn hex_upper_digit(d: u8) -> char {
    if d < 10 {
        ((48 + d) as u32) as char
    } else {
        ((55 + d) as u32) as char
    }
}

pub open spec fn url_encode_byte(b: u8) -> Seq<char> {
    if url_safe_byte(b) {
        seq![(b as u32) as char]
    } else {
        seq!['%', hex_upper_digit(b / 16), hex_upper_digit(b % 16)]
    }
}

/// Percent-encoding of a byte string, byte by byte.
pub open spec fn spec_url_encode(bytes: Seq<u8>) -> Seq<char>
    decreases bytes.len(),
{
    if bytes.len() == 0 {
        Seq::empty()
    } else {
        url_encode_byte(bytes[0]) + spec_url_encode(bytes.drop_first())
    }
}

/// `urlencoding::encode`: percent-encodes every byte of the UTF-8 text except
/// ASCII alphanumerics and `-`, `_`, `.`, `~`, with upper-case hex digits.
#[verifier::external_body]
fn url_encode(s: &str) -> (r: String)
    ensures
        r@ == spec_url_encode(encode_utf8(s@)),
{
    urlencoding::encode(s).into_owned()
}

/// Joins `parts` with `sep` between consecutive parts.
pub open spec fn join(parts: Seq<Seq<char>>, sep: Seq<char>) -> Seq<char>
    decreases parts.len(),
{
    if parts.len() == 0 {
        Seq::empty()
    } else if parts.len() == 1 {
        parts[0]
    } else {
        join(parts.drop_last(), sep) + sep + parts.last()
    }
}

/// The query part of a URL: empty without parameters, otherwise `?` and the
/// parameters joined by `&`.
pub open spec fn query_suffix(params: Seq<Seq<char>>) -> Seq<char> {
    if params.len() == 0 {
        Seq::empty()
    } else {
        seq!['?'] + join(params, "&"@)
    }
}

pub open spec fn views(v: Seq<String>) -> Seq<Seq<char>> {
    v.map_values(|s: String| s@)
}

/// The cursor a (re)connection resumes from: the last seen commit time rewound
/// by five seconds once progress was made, else the configured cursor.
pub open spec fn spec_get_cursor(configured: Option<i64>, last_cursor: i64) -> Option<i64> {
    if last_cursor > 0 {
        Some((last_cursor - CURSOR_REWIND_US) as i64)
    } else {
        configured
    }
}

pub open spec fn named_params(name: Seq<char>, values: Seq<String>) -> Seq<Seq<char>> {
    values.map_values(|v: String| name + spec_url_encode(encode_utf8(v@)))
}

/// The query parameters of the subscription URL, in order.
pub open spec fn url_params(c: JetstreamConfig, last_cursor: i64) -> Seq<Seq<char>> {
    named_params("wantedCollections="@, c.wanted_collections@)
        + named_params("wantedDids="@, c.wanted_dids@)
        + (if c.compress { seq!["compress=true"@] } else { Seq::empty() })
        + (match spec_get_cursor(c.cursor, last_cursor) {
            Some(x) => seq!["cursor="@ + int_decimal(x as int)],
            None => Seq::empty(),
        })
        + (match c.max_message_size_bytes {
            Some(m) => seq!["maxMessageSizeBytes="@ + int_decimal(m as int)],
            None => Seq::empty(),
        })
}

/// The full subscription URL.
pub open spec fn spec_build_url(c: JetstreamConfig, last_cursor: i64) -> Seq<char> {
    c.host@ + "/subscribe"@ + query_suffix(url_params(c, last_cursor))
}

/// Once an event was seen (a positive last cursor), a reconnection resumes
/// five seconds (5,000,000 µs) before it, whatever cursor was configured;
/// only before any event does the configured cursor (or none) apply.
pub proof fn lemma_resume_cursor(configured: Option<i64>, last_cursor: i64)
    ensures
        last_cursor > 0 ==> spec_get_cursor(configured, last_cursor) == Some((last_cursor - 5_000_000) as i64),
        last_cursor > 0 ==> spec_get_cursor(configured, last_cursor) == spec_get_cursor(None, last_cursor),
        last_cursor <= 0 ==> spec_get_cursor(configured, last_cursor) == configured,
{
}

/// Once an event was seen, the subscription URL does not depend on the
/// configured start cursor, and it asks for the stream from five seconds
/// before the last event seen.
pub proof fn lemma_url_resumes_after_progress(c: JetstreamConfig, last_cursor: i64)
    requires
        last_cursor > 0,
    ensures
        spec_build_url(c, last_cursor) == spec_build_url(JetstreamConfig { cursor: None, ..c }, last_cursor),
        url_params(c, last_cursor).contains("cursor="@ + int_decimal(last_cursor - 5_000_000)),
{
    let c0 = JetstreamConfig { cursor: None, ..c };
    assert(url_params(c, last_cursor) =~= url_params(c0, last_cursor));
    let head = named_params("wantedCollections="@, c.wanted_collections@)
        + named_params("wantedDids="@, c.wanted_dids@)
        + (if c.compress { seq!["compress=true"@] } else { Seq::<Seq<char>>::empty() });
    let ps = url_params(c, last_cursor);
    assert(ps[head.len() as int] == "cursor="@ + int_decimal(last_cursor - 5_000_000));
}

/// Cursor to resume from, given the last commit time seen (0 before any).
pub fn get_cursor(config: &JetstreamConfig, last_cursor: i64) -> (r: Option<i64>)
    ensures
        r == spec_get_cursor(config.cursor, last_cursor),
        last_cursor > 0 ==> r == Some((last_cursor - 5_000_000) as i64),
        last_cursor <= 0 ==> r == config.cursor,
{
    if last_cursor > 0 {
        Some(last_cursor - CURSOR_REWIND_US)
    } else {
        config.cursor
    }
}

fn push_named_params(params: &mut Vec<String>, name: &str, values: &Vec<String>)
    ensures
        views(final(params)@) == views(old(params)@) + named_params(name@, values@),
{
    let ghost start = views(params@);
    let n = values.len();
    let mut i: usize = 0;
    while i < n
        invariant
            n == values@.len(),
            i <= n,
            views(params@) == start + named_params(name@, values@.take(i as int)),
        decreases n - i,
    {
        let mut p = String::new();
        p.push_str(name);
        let enc = url_encode(values[i].as_str());
        p.push_str(enc.as_str());
        let ghost before = views(params@);
        params.push(p);
        proof {
            assert(values@.take(i + 1) =~= values@.take(i as int).push(values@[i as int]));
            assert(named_params(name@, values@.take(i + 1)) =~= named_params(name@, values@.take(i as int)).push(
                name@ + spec_url_encode(encode_utf8(values@[i as int]@)),
            ));
            assert(views(params@) =~= before.push(p@));
        }
        i = i + 1;
    }
    assert(values@.take(n as int) =~= values@);
}

proof fn lemma_query_step(ps: Seq<Seq<char>>, k: int)
    requires
        0 <= k < ps.len(),
    ensures
        query_suffix(ps.take(k + 1)) == query_suffix(ps.take(k)) + (if k == 0 { "?"@ } else { "&"@ }) + ps[k],
{
    let t = ps.take(k + 1);
    if k == 0 {
        assert(query_suffix(t) =~= query_suffix(ps.take(k)) + "?"@ + ps[k]) by {
            assert(t.len() == 1);
            assert(t[0] == ps[0]);
            reveal_strlit("?");
        }
    } else {
        assert(t.drop_last() =~= ps.take(k));
        assert(t.last() == ps[k]);
        assert(join(t, "&"@) == join(ps.take(k), "&"@) + "&"@ + ps[k]);
        assert(query_suffix(t) =~= query_suffix(ps.take(k)) + "&"@ + ps[k]);
    }
}

/// Appends `?p1&p2&...` to `url`, or nothing when there are no parameters.
fn append_query(url: &mut String, params: &Vec<String>)
    ensures
        final(url)@ == old(url)@ + query_suffix(views(params@)),
{
    let n = params.len();
    let mut i: usize = 0;
    let ghost ps = views(params@);
    assert(query_suffix(ps.take(0)) =~= Seq::<char>::empty());
    assert(url@ =~= old(url)@ + query_suffix(ps.take(0)));
    while i < n
        invariant
            n == params@.len(),
            ps == views(params@),
            i <= n,
            url@ == old(url)@ + query_suffix(ps.take(i as int)),
        decreases n - i,
    {
        if i == 0 {
            url.push_str("?");
        } else {
            url.push_str("&");
        }
        url.push_str(params[i].as_str());
        proof {
            lemma_query_step(ps, i as int);
            assert(ps[i as int] == params@[i as int]@);
            assert(url@ =~= old(url)@ + query_suffix(ps.take(i + 1)));
        }
        i = i + 1;
    }
    assert(ps.take(n as int) =~= ps);
}

/// The subscription URL: the host's `/subscribe` endpoint with the wanted
/// collections and DIDs (percent-encoded), compression, the resume cursor and
/// the message size limit as query parameters, in that order.
pub fn build_url(config: &JetstreamConfig, last_cursor: i64) -> (r: String)
    ensures
        r@ == spec_build_url(*config, last_cursor),
{
    let mut url = String::new();
    url.push_str(config.host.as_str());
    url.push_str("/subscribe");
    let mut params: Vec<String> = Vec::new();
    push_named_params(&mut params, "wantedCollections=", &config.wanted_collections);
    push_named_params(&mut params, "wantedDids=", &config.wanted_dids);
    let ghost after_names = views(params@);
    if config.compress {
        params.push("compress=true".to_owned());
    }
    let ghost after_compress = views(params@);
    assert(after_compress =~= after_names + (if config.compress { seq!["compress=true"@] } else { Seq::empty() }));
    match get_cursor(config, last_cursor) {
        Some(c) => {
            let mut p = String::new();
            p.push_str("cursor=");
            push_signed_decimal(&mut p, c);
            params.push(p);
        },
        None => {},
    }
    let ghost after_cursor = views(params@);
    assert(after_cursor =~= after_compress + (match spec_get_cursor(config.cursor, last_cursor) {
        Some(x) => seq!["cursor="@ + int_decimal(x as int)],
        None => Seq::empty(),
    }));
    match config.max_message_size_bytes {
        Some(m) => {
            let mut p = String::new();
            p.push_str("maxMessageSizeBytes=");
            push_signed_decimal(&mut p, m);
            params.push(p);
        },
        None => {},
    }
    assert(views(params@) =~= url_params(*config, last_cursor));
    append_query(&mut url, &params);
    url
}

/// The wait before the next reconnect after a failed connection: the current
/// wait doubled, capped at sixty seconds (jitter is added by the caller).
pub fn next_reconnect_backoff(current_secs: u64) -> (r: u64)
    ensures
        r == if 2 * current_secs > MAX_RECONNECT_BACKOFF_SECS { MAX_RECONNECT_BACKOFF_SECS as int } else { 2 * current_secs },
{
    if current_secs > MAX_RECONNECT_BACKOFF_SECS / 2 {
        MAX_RECONNECT_BACKOFF_SECS
    } else {
        current_secs * 2
    }
}

} // verus!

verus! {

/// Largest decompressed frame accepted: ten mebibytes.
pub const MAX_FRAME_BYTES: usize = 10485760;

/// What zstd decompression of `data` with `dictionary` gives, at most
/// `capacity` bytes; `None` when it fails.
pub uninterp spec fn spec_zstd_decompress(dictionary: Seq<u8>, data: Seq<u8>, capacity: usize) -> Option<Seq<u8>>;

/// `zstd::bulk::Decompressor::with_dictionary(dictionary)` then
/// `decompress(data, capacity)`: the output never exceeds `capacity` bytes.
#[verifier::external_body]
fn zstd_decompress(dictionary: &[u8], data: &[u8], capacity: usize) -> (r: Option<Vec<u8>>)
    ensures
        r is Some <==> spec_zstd_decompress(dictionary@, data@, capacity) is Some,
        r matches Some(b) ==> spec_zstd_decompress(dictionary@, data@, capacity) == Some(b@) && b@.len() <= capacity,
{
    match zstd::bulk::Decompressor::with_dictionary(dictionary) {
        Ok(mut d) => d.decompress(data, capacity).ok(),
        Err(_) => None,
    }
}

/// `String::from_utf8`: succeeds exactly on valid UTF-8, keeping the bytes.
#[verifier::external_body]
fn utf8_string(bytes: Vec<u8>) -> (r: Option<String>)
    ensures
        r is Some <==> valid_utf8(bytes@),
        r matches Some(s) ==> encode_utf8(s@) == bytes@,
{
    String::from_utf8(bytes).ok()
}

/// Why a binary frame could not be read.
#[derive(Debug, Clone, Copy, PartialEq, Eq)]
pub enum FrameError {
    /// The frame did not decompress (or exceeded the size limit).
    Decompress,
    /// The decompressed frame is not UTF-8 text.
    InvalidUtf8,
}

/// The text of a zstd-compressed frame.
pub fn decode_binary_frame(dictionary: &[u8], data: &[u8]) -> (r: Result<String, FrameError>)
    ensures
        spec_zstd_decompress(dictionary@, data@, MAX_FRAME_BYTES) is None ==> r == Err::<String, FrameError>(FrameError::Decompress),
        spec_zstd_decompress(dictionary@, data@, MAX_FRAME_BYTES) matches Some(b) ==> {
            &&& !valid_utf8(b) ==> r == Err::<String, FrameError>(FrameError::InvalidUtf8)
            &&& valid_utf8(b) ==> (r matches Ok(s) && encode_utf8(s@) == b)
        },
{
    match zstd_decompress(dictionary, data, MAX_FRAME_BYTES) {
        None => Err(FrameError::Decompress),
        Some(bytes) => match utf8_string(bytes) {
            None => Err(FrameError::InvalidUtf8),
            Some(s) => Ok(s),
        },
    }
}

/// The resume cursor after an event: a commit moves it to its time, other
/// events leave it.
pub fn cursor_after(event: &JetstreamEvent, last_cursor: i64) -> (r: i64)
    ensures
        event matches JetstreamEvent::Commit { time_us, .. } ==> r == time_us,
        !(event is Commit) ==> r == last_cursor,
{
    match event {
        JetstreamEvent::Commit { time_us, .. } => *time_us,
        _ => last_cursor,
    }
}

} // verus!
