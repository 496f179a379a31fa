//! Long-term memory records: their metadata, the hash that identifies their
//! content, and the summary that consolidates a conversation.

use vstd::prelude::*;
use sha2::Digest;
use vstd::utf8::encode_utf8;

verus! {

/// Who wrote a memory and where it sits in its thread.
#[derive(Debug, Clone)]
pub struct MemoryMetadata {
    pub author_did: String,
    pub role: String,
    pub parent_uri: Option<String>,
    pub topics: Option<Vec<String>>,
}

/// A text to embed and store as a memory.
#[derive(Debug, Clone)]
pub struct EmbeddingRequest {
    pub text: String,
    pub conversation_id: String,
    pub author_did: String,
    pub role: String,
    pub parent_uri: Option<String>,
}

/// How many memories retrieval returns, and the rank-fusion constant.
#[derive(Debug, Clone, Copy)]
pub struct MemoryRetrieverConfig {
    pub top_k: usize,
    pub rrf_k: usize,
}

impl Default for MemoryRetrieverConfig {
    fn default() -> (r: Self)
        ensures
            r.top_k == 5,
            r.rrf_k == 60,
    {
        MemoryRetrieverConfig { top_k: 5, rrf_k: 60 }
    }
}

/// The SHA-256 digest of `data`.
pub uninterp spec fn spec_sha256(data: Seq<u8>) -> Seq<u8>;

/// `Sha256::digest(data)`: 32 bytes.
#[verifier::external_body]
fn sha256(data: &[u8]) -> (r: Vec<u8>)
    ensures
        r@ == spec_sha256(data@),
        r@.len() == 32,
{
    sha2::Sha256::digest(data).to_vec()
}

/// The lowercase hexadecimal digit of a value below 16.
pub open spec fn hex_digit(v: u8) -> char {
    if v < 10 {
        (('0' as u8) + v) as char
    } else {
        (('a' as u8) + v - 10) as char
    }
}

/// Two lowercase hexadecimal digits per byte, high digit first.
pub open spec fn hex_lower(bytes: Seq<u8>) -> Seq<char>
    decreases bytes.len(),
{
    if bytes.len() == 0 {
        Seq::empty()
    } else {
        hex_lower(bytes.drop_last()) + seq![hex_digit(bytes.last() / 16), hex_digit(bytes.last() % 16)]
    }
}

/// `hex::encode(bytes)`: two lowercase hexadecimal digits per byte.
#[verifier::external_body]
fn hex_encode(bytes: &[u8]) -> (r: String)
    ensures
        r@ == hex_lower(bytes@),
{
    hex::encode(bytes)
}

/// The hash that identifies a memory's content: SHA-256 of its UTF-8
/// bytes, in lowercase hexadecimal.
pub open spec fn spec_content_hash(content: Seq<char>) -> Seq<char> {
    hex_lower(spec_sha256(encode_utf8(content)))
}

pub fn content_hash(content: &str) -> (r: String)
    ensures
        r@ == spec_content_hash(content@),
{
    let digest = sha256(content.as_bytes());
    hex_encode(digest.as_slice())
}

/// `s` with each `'` doubled, as SQL quotes it inside a string literal.
pub open spec fn sql_escaped(s: Seq<char>) -> Seq<char>
    decreases s.len(),
{
    if s.len() == 0 {
        Seq::empty()
    } else if s.last() == '\'' {
        sql_escaped(s.drop_last()) + seq!['\'', '\'']
    } else {
        sql_escaped(s.drop_last()).push(s.last())
    }
}

/// Quoting works character by character: the quoted text of two pieces is
/// the quoted pieces one after the other, a `'` becomes `''`, and every
/// other character stands for itself.
pub proof fn lemma_sql_escaped_by_char(a: Seq<char>, b: Seq<char>, c: char)
    ensures
        sql_escaped(a + b) == sql_escaped(a) + sql_escaped(b),
        sql_escaped(seq![c]) == if c == '\'' { seq!['\'', '\''] } else { seq![c] },
    decreases b.len(),
{
    assert(seq![c].drop_last() =~= Seq::<char>::empty());
    assert(sql_escaped(Seq::<char>::empty()) =~= Seq::<char>::empty());
    assert(seq![c].last() == c);
    if c == '\'' {
        assert(sql_escaped(seq![c]) =~= seq!['\'', '\'']);
    } else {
        assert(sql_escaped(seq![c]) =~= seq![c]);
    }
    if b.len() == 0 {
        assert(a + b =~= a);
        assert(sql_escaped(b) =~= Seq::<char>::empty());
        assert(sql_escaped(a) + sql_escaped(b) =~= sql_escaped(a));
    } else {
        lemma_sql_escaped_by_char(a, b.drop_last(), c);
        assert((a + b).drop_last() =~= a + b.drop_last());
        assert((a + b).last() == b.last());
        if b.last() == '\'' {
            assert(sql_escaped(a) + sql_escaped(b) =~= sql_escaped(a) + sql_escaped(b.drop_last()) + seq!['\'', '\'']);
        } else {
            assert(sql_escaped(a) + sql_escaped(b) =~= (sql_escaped(a) + sql_escaped(b.drop_last())).push(b.last()));
        }
    }
}

/// `s` as an SQL string literal.
pub open spec fn sql_literal(s: Seq<char>) -> Seq<char> {
    seq!['\''] + sql_escaped(s) + seq!['\'']
}

/// The literals of `items`, separated by `, `.
pub open spec fn sql_literal_list(items: Seq<Seq<char>>) -> Seq<char>
    decreases items.len(),
{
    if items.len() == 0 {
        Seq::empty()
    } else if items.len() == 1 {
        sql_literal(items[0])
    } else {
        sql_literal_list(items.drop_last()) + seq![',', ' '] + sql_literal(items.last())
    }
}

fn push_sql_literal(out: &mut String, s: &str)
    ensures
        final(out)@ == old(out)@ + sql_literal(s@),
{
    let chars = crate::text::chars_of(s);
    out.push('\'');
    let ghost start = out@;
    let mut i: usize = 0;
    while i < chars.len()
        invariant
            chars@ == s@,
            i <= chars@.len(),
            out@ == start + sql_escaped(s@.take(i as int)),
        decreases chars@.len() - i,
    {
        let c = chars[i];
        proof {
            assert(s@.take(i + 1).drop_last() =~= s@.take(i as int));
            assert(s@.take(i + 1).last() == c);
        }
        if c == '\'' {
            out.push('\'');
            out.push('\'');
            proof {
                assert(out@ =~= start + sql_escaped(s@.take(i + 1)));
            }
        } else {
            out.push(c);
            proof {
                assert(out@ =~= start + sql_escaped(s@.take(i + 1)));
            }
        }
        i = i + 1;
    }
    proof {
        assert(s@.take(chars@.len() as int) =~= s@);
    }
    out.push('\'');
    proof {
        assert(out@ =~= old(out)@ + sql_literal(s@));
    }
}

/// The `IN (...)` list of content hashes to look up.
pub fn quote_hash_list(hashes: &Vec<String>) -> (r: String)
    ensures
        r@ == sql_literal_list(hashes@.map_values(|h: String| h@)),
{
    let ghost items = hashes@.map_values(|h: String| h@);
    let mut out = String::new();
    let mut i: usize = 0;
    while i < hashes.len()
        invariant
            items == hashes@.map_values(|h: String| h@),
            i <= hashes@.len(),
            out@ == sql_literal_list(items.take(i as int)),
        decreases hashes@.len() - i,
    {
        proof {
            assert(items.take(i + 1).drop_last() =~= items.take(i as int));
            assert(items.take(i + 1).last() == hashes@[i as int]@);
        }
        if i > 0 {
            out.push_str(", ");
        }
        push_sql_literal(&mut out, hashes[i].as_str());
        proof {
            if i == 0 {
                assert(out@ =~= sql_literal_list(items.take(1)));
            } else {
                reveal_strlit(", ");
                assert(out@ =~= sql_literal_list(items.take(i + 1)));
            }
        }
        i = i + 1;
    }
    proof {
        assert(items.take(hashes@.len() as int) =~= items);
    }
    out
}

/// A stored message as the consolidation sees it.
#[derive(Debug, Clone)]
pub struct StoredMessage {
    pub content: String,
    pub role: String,
    pub author_did: String,
}

/// One message in a summary: `[role:author] content`.
pub open spec fn summary_line(m: StoredMessage) -> Seq<char> {
    "["@ + m.role@ + ":"@ + m.author_did@ + "] "@ + m.content@
}

/// The lines joined by ` | `.
pub open spec fn joined_lines(lines: Seq<Seq<char>>) -> Seq<char>
    decreases lines.len(),
{
    if lines.len() == 0 {
        Seq::empty()
    } else if lines.len() == 1 {
        lines[0]
    } else {
        joined_lines(lines.drop_last()) + " | "@ + lines.last()
    }
}

/// The summary text of a conversation's messages (oldest first): the
/// first twelve lines joined, or nothing for fewer than four messages.
pub open spec fn summary_text(messages: Seq<StoredMessage>) -> Option<Seq<char>> {
    if messages.len() < 4 {
        None
    } else {
        let n = if messages.len() > 12 { 12 } else { messages.len() as int };
        Some(joined_lines(messages.take(n).map_values(|m: StoredMessage| summary_line(m))))
    }
}

/// The memory that consolidates a conversation.
#[derive(Debug, Clone)]
pub struct ConsolidatedMemory {
    pub conversation_id: String,
    /// `Summary: ` and the summary text.
    pub content: String,
    /// The content hash of the summary text (without the `Summary: ` prefix).
    pub content_hash: String,
    pub metadata: MemoryMetadata,
}

/// The summary memory of a conversation, or `None` for fewer than four
/// messages; its author is `system`, its role `summary`.
pub fn consolidate_messages(conversation_id: &str, messages: &Vec<StoredMessage>) -> (r: Option<ConsolidatedMemory>)
    ensures
        r is Some <==> summary_text(messages@) is Some,
        r matches Some(m) ==> {
            let t = summary_text(messages@)->Some_0;
            &&& m.conversation_id@ == conversation_id@
            &&& m.content@ == "Summary: "@ + t
            &&& m.content_hash@ == spec_content_hash(t)
            &&& m.metadata.author_did@ == "system"@
            &&& m.metadata.role@ == "summary"@
            &&& m.metadata.parent_uri is None
            &&& m.metadata.topics is None
        },
{
    if messages.len() < 4 {
        return None;
    }
    let n: usize = if messages.len() > 12 { 12 } else { messages.len() };
    let ghost lines = messages@.take(n as int).map_values(|m: StoredMessage| summary_line(m));
    let mut text = String::new();
    let mut i: usize = 0;
    while i < n
        invariant
            n <= messages@.len(),
            lines == messages@.take(n as int).map_values(|m: StoredMessage| summary_line(m)),
            i <= n,
            text@ == joined_lines(lines.take(i as int)),
        decreases n - i,
    {
        proof {
            assert(lines.take(i + 1).drop_last() =~= lines.take(i as int));
            assert(lines.take(i + 1).last() == summary_line(messages@[i as int]));
        }
        if i > 0 {
            text.push_str(" | ");
        }
        let m = &messages[i];
        text.push_str("[");
        text.push_str(m.role.as_str());
        text.push_str(":");
        text.push_str(m.author_did.as_str());
        text.push_str("] ");
        text.push_str(m.content.as_str());
        proof {
            assert(text@ =~= joined_lines(lines.take(i + 1)));
        }
        i = i + 1;
    }
    proof {
        assert(lines.take(n as int) =~= lines);
    }
    let hash = content_hash(text.as_str());
    let mut content = "Summary: ".to_owned();
    content.push_str(text.as_str());
    Some(ConsolidatedMemory {
        conversation_id: conversation_id.to_owned(),
        content,
        content_hash: hash,
        metadata: MemoryMetadata {
            author_did: "system".to_owned(),
            role: "summary".to_owned(),
            parent_uri: None,
            topics: None,
        },
    })
}

/// The conversation a batch belongs to when every request names the same
/// one; `None` for an empty or mixed batch.
pub open spec fn batch_conversation_of(requests: Seq<EmbeddingRequest>) -> Option<Seq<char>> {
    if requests.len() > 0 && forall|i: int| 0 <= i < requests.len()
        ==> (#[trigger] requests[i]).conversation_id@ == requests[0].conversation_id@ {
        Some(requests[0].conversation_id@)
    } else {
        None
    }
}

/// The single conversation of a batch, whose stored hashes are looked up;
/// a mixed batch looks up none.
pub fn batch_conversation(requests: &Vec<EmbeddingRequest>) -> (r: Option<String>)
    ensures
        r is Some <==> batch_conversation_of(requests@) is Some,
        r matches Some(c) ==> batch_conversation_of(requests@) == Some(c@),
{
    if requests.len() == 0 {
        return None;
    }
    let first = requests[0].conversation_id.as_str();
    let mut i: usize = 0;
    while i < requests.len()
        invariant
            requests@.len() > 0,
            first@ == requests@[0].conversation_id@,
            i <= requests@.len(),
            forall|k: int| 0 <= k < i ==> (#[trigger] requests@[k]).conversation_id@ == requests@[0].conversation_id@,
        decreases requests@.len() - i,
    {
        if !crate::text::str_eq(requests[i].conversation_id.as_str(), first) {
            return None;
        }
        i = i + 1;
    }
    Some(requests[0].conversation_id.clone())
}

/// The requests (by index, with their content hash) whose hash is not
/// already stored, in order.
pub open spec fn pending_of(requests: Seq<EmbeddingRequest>, existing: Seq<Seq<char>>) -> Seq<(int, Seq<char>)>
    decreases requests.len(),
{
    if requests.len() == 0 {
        Seq::empty()
    } else {
        let rest = pending_of(requests.drop_last(), existing);
        let h = spec_content_hash(requests.last().text@);
        if existing.contains(h) {
            rest
        } else {
            rest.push((requests.len() - 1, h))
        }
    }
}

/// The requests of a batch that still need an embedding: those whose
/// content hash is not among the stored ones, each with its hash.
pub fn pending_requests(requests: &Vec<EmbeddingRequest>, existing: &Vec<String>) -> (r: Vec<(usize, String)>)
    ensures
        r@.len() == pending_of(requests@, existing@.map_values(|h: String| h@)).len(),
        forall|k: int| 0 <= k < r@.len() ==> {
            let p = pending_of(requests@, existing@.map_values(|h: String| h@))[k];
            (#[trigger] r@[k]).0 == p.0 && r@[k].1@ == p.1
        },
{
    let ghost ex = existing@.map_values(|h: String| h@);
    let mut out: Vec<(usize, String)> = Vec::new();
    let mut i: usize = 0;
    proof {
        assert(requests@.take(0) =~= Seq::<EmbeddingRequest>::empty());
    }
    while i < requests.len()
        invariant
            ex == existing@.map_values(|h: String| h@),
            i <= requests@.len(),
            out@.len() == pending_of(requests@.take(i as int), ex).len(),
            forall|k: int| 0 <= k < out@.len() ==> {
                let p = pending_of(requests@.take(i as int), ex)[k];
                (#[trigger] out@[k]).0 == p.0 && out@[k].1@ == p.1
            },
        decreases requests@.len() - i,
    {
        proof {
            assert(requests@.take(i + 1).drop_last() =~= requests@.take(i as int));
            assert(requests@.take(i + 1).last() == requests@[i as int]);
        }
        let h = content_hash(requests[i].text.as_str());
        let mut found = false;
        let mut j: usize = 0;
        while j < existing.len()
            invariant
                ex == existing@.map_values(|h: String| h@),
                j <= existing@.len(),
                found == exists|m: int| 0 <= m < j && ex[m] == h@,
            decreases existing@.len() - j,
        {
            if crate::text::str_eq(existing[j].as_str(), h.as_str()) {
                found = true;
            }
            proof {
                assert(ex[j as int] == existing@[j as int]@);
            }
            j = j + 1;
        }
        proof {
            if found {
                let m = choose|m: int| 0 <= m < existing@.len() && ex[m] == h@;
                assert(ex.contains(h@));
            } else {
                assert(!ex.contains(h@));
            }
        }
        if !found {
            out.push((i, h));
        }
        i = i + 1;
    }
    proof {
        assert(requests@.take(requests@.len() as int) =~= requests@);
    }
    out
}

/// The requests that backfill a conversation from its (content, author,
/// role) messages, in order.
pub fn backfill_requests(conversation_id: &str, messages: &Vec<(String, String, String)>) -> (r: Vec<EmbeddingRequest>)
    ensures
        r@.len() == messages@.len(),
        forall|i: int| 0 <= i < r@.len() ==> {
            &&& (#[trigger] r@[i]).text@ == messages@[i].0@
            &&& r@[i].conversation_id@ == conversation_id@
            &&& r@[i].author_did@ == messages@[i].1@
            &&& r@[i].role@ == messages@[i].2@
            &&& r@[i].parent_uri is None
        },
{
    let mut out: Vec<EmbeddingRequest> = Vec::new();
    let mut i: usize = 0;
    while i < messages.len()
        invariant
            i <= messages@.len(),
            out@.len() == i,
            forall|k: int| 0 <= k < i ==> {
                &&& (#[trigger] out@[k]).text@ == messages@[k].0@
                &&& out@[k].conversation_id@ == conversation_id@
                &&& out@[k].author_did@ == messages@[k].1@
                &&& out@[k].role@ == messages@[k].2@
                &&& out@[k].parent_uri is None
            },
        decreases messages@.len() - i,
    {
        let m = &messages[i];
        out.push(EmbeddingRequest {
            text: m.0.clone(),
            conversation_id: conversation_id.to_owned(),
            author_did: m.1.clone(),
            role: m.2.clone(),
            parent_uri: None,
        });
        i = i + 1;
    }
    out
}

/// One retrieved memory as context: `[role from author]: content`.
pub open spec fn context_line(m: MemoryMetadata, content: Seq<char>) -> Seq<char> {
    "["@ + m.role@ + " from "@ + m.author_did@ + "]: "@ + content
}

/// The lines joined by newlines.
pub open spec fn newline_joined(lines: Seq<Seq<char>>) -> Seq<char>
    decreases lines.len(),
{
    if lines.len() == 0 {
        Seq::empty()
    } else if lines.len() == 1 {
        lines[0]
    } else {
        newline_joined(lines.drop_last()) + seq!['\n'] + lines.last()
    }
}

/// The context text of retrieved memories (metadata and content), one line
/// each; empty when there are none.
pub fn relevant_context(memories: &Vec<(MemoryMetadata, String)>) -> (r: String)
    ensures
        r@ == newline_joined(memories@.map_values(|m: (MemoryMetadata, String)| context_line(m.0, m.1@))),
{
    let ghost lines = memories@.map_values(|m: (MemoryMetadata, String)| context_line(m.0, m.1@));
    let mut out = String::new();
    let mut i: usize = 0;
    while i < memories.len()
        invariant
            lines == memories@.map_values(|m: (MemoryMetadata, String)| context_line(m.0, m.1@)),
            i <= memories@.len(),
            out@ == newline_joined(lines.take(i as int)),
        decreases memories@.len() - i,
    {
        proof {
            assert(lines.take(i + 1).drop_last() =~= lines.take(i as int));
            assert(lines.take(i + 1).last() == lines[i as int]);
        }
        if i > 0 {
            out.push('\n');
        }
        let m = &memories[i];
        out.push_str("[");
        out.push_str(m.0.role.as_str());
        out.push_str(" from ");
        out.push_str(m.0.author_did.as_str());
        out.push_str("]: ");
        out.push_str(m.1.as_str());
        proof {
            assert(out@ =~= newline_joined(lines.take(i + 1)));
        }
        i = i + 1;
    }
    proof {
        assert(lines.take(memories@.len() as int) =~= lines);
    }
    out
}

/// The conditions a search filter adds to a memory query: author and role
/// as quoted literals, the time bounds (RFC 3339 text) as given.
pub open spec fn filter_sql(
    author_did: Option<Seq<char>>,
    role: Option<Seq<char>>,
    start_time: Option<Seq<char>>,
    end_time: Option<Seq<char>>,
) -> Seq<char> {
    (match author_did { Some(a) => " AND m.author_did = "@ + sql_literal(a), None => Seq::empty() })
        + (match role { Some(r) => " AND m.role = "@ + sql_literal(r), None => Seq::empty() })
        + (match start_time { Some(t) => " AND m.created_at >= '"@ + t + "'"@, None => Seq::empty() })
        + (match end_time { Some(t) => " AND m.created_at <= '"@ + t + "'"@, None => Seq::empty() })
}

/// A search filter is the conjunction of its fields' conditions: each field
/// adds its own clause, introduced by ` AND `, whatever the other fields are,
/// and an absent field adds nothing.
pub proof fn lemma_filter_is_conjunction(
    author_did: Option<Seq<char>>,
    role: Option<Seq<char>>,
    start_time: Option<Seq<char>>,
    end_time: Option<Seq<char>>,
)
    ensures
        filter_sql(author_did, role, start_time, end_time) == filter_sql(author_did, None, None, None)
            + filter_sql(None, role, None, None) + filter_sql(None, None, start_time, None)
            + filter_sql(None, None, None, end_time),
        filter_sql(None, None, None, None).len() == 0,
        author_did matches Some(a) ==> filter_sql(author_did, None, None, None) == " AND "@ + "m.author_did = "@ + sql_literal(a),
        role matches Some(x) ==> filter_sql(None, role, None, None) == " AND "@ + "m.role = "@ + sql_literal(x),
        start_time matches Some(t) ==> filter_sql(None, None, start_time, None) == " AND "@ + "m.created_at >= '"@ + t + "'"@,
        end_time matches Some(t) ==> filter_sql(None, None, None, end_time) == " AND "@ + "m.created_at <= '"@ + t + "'"@,
{
    reveal_strlit(" AND ");
    reveal_strlit("m.author_did = ");
    reveal_strlit(" AND m.author_did = ");
    reveal_strlit("m.role = ");
    reveal_strlit(" AND m.role = ");
    reveal_strlit("m.created_at >= '");
    reveal_strlit(" AND m.created_at >= '");
    reveal_strlit("m.created_at <= '");
    reveal_strlit(" AND m.created_at <= '");
    let e = Seq::<char>::empty();
    let a = match author_did { Some(x) => " AND m.author_did = "@ + sql_literal(x), None => e };
    let b = match role { Some(x) => " AND m.role = "@ + sql_literal(x), None => e };
    let c = match start_time { Some(t) => " AND m.created_at >= '"@ + t + "'"@, None => e };
    let d = match end_time { Some(t) => " AND m.created_at <= '"@ + t + "'"@, None => e };
    assert(filter_sql(author_did, None, None, None) =~= a);
    assert(filter_sql(None, role, None, None) =~= b);
    assert(filter_sql(None, None, start_time, None) =~= c);
    assert(filter_sql(None, None, None, end_time) =~= d);
    assert(filter_sql(None, None, None, None) =~= e);
    if let Some(x) = author_did {
        assert(" AND m.author_did = "@ =~= " AND "@ + "m.author_did = "@);
        assert(a =~= " AND "@ + "m.author_did = "@ + sql_literal(x));
    }
    if let Some(x) = role {
        assert(" AND m.role = "@ =~= " AND "@ + "m.role = "@);
        assert(b =~= " AND "@ + "m.role = "@ + sql_literal(x));
    }
    if let Some(t) = start_time {
        assert(" AND m.created_at >= '"@ =~= " AND "@ + "m.created_at >= '"@);
        assert(c =~= " AND "@ + "m.created_at >= '"@ + t + "'"@);
    }
    if let Some(t) = end_time {
        assert(" AND m.created_at <= '"@ =~= " AND "@ + "m.created_at <= '"@);
        assert(d =~= " AND "@ + "m.created_at <= '"@ + t + "'"@);
    }
}

/// The `AND ...` conditions of a memory search filter.
pub fn filter_clauses(
    author_did: Option<&str>,
    role: Option<&str>,
    start_time: Option<&str>,
    end_time: Option<&str>,
) -> (r: String)
    ensures
        r@ == filter_sql(
            match author_did { Some(s) => Some(s@), None => None },
            match role { Some(s) => Some(s@), None => None },
            match start_time { Some(s) => Some(s@), None => None },
            match end_time { Some(s) => Some(s@), None => None },
        ),
{
    let mut sql = String::new();
    match author_did {
        Some(a) => {
            sql.push_str(" AND m.author_did = ");
            push_sql_literal(&mut sql, a);
        },
        None => {},
    }
    let ghost s1 = sql@;
    match role {
        Some(r) => {
            sql.push_str(" AND m.role = ");
            push_sql_literal(&mut sql, r);
        },
        None => {},
    }
    let ghost s2 = sql@;
    match start_time {
        Some(t) => {
            sql.push_str(" AND m.created_at >= '");
            sql.push_str(t);
            sql.push_str("'");
        },
        None => {},
    }
    let ghost s3 = sql@;
    match end_time {
        Some(t) => {
            sql.push_str(" AND m.created_at <= '");
            sql.push_str(t);
            sql.push_str("'");
        },
        None => {},
    }
    proof {
        let a = match author_did { Some(s) => Some(s@), None => None };
        let b = match role { Some(s) => Some(s@), None => None };
        let c = match start_time { Some(s) => Some(s@), None => None };
        let d = match end_time { Some(s) => Some(s@), None => None };
        assert(sql@ =~= filter_sql(a, b, c, d));
    }
    sql
}

/// The message refusing an embedding of the wrong length.
pub open spec fn dimension_mismatch(expected: nat, got: nat) -> Seq<char> {
    "Embedding dimension mismatch: expected "@ + crate::text::nat_decimal(expected) + ", got "@
        + crate::text::nat_decimal(got)
}

/// A memory's embedding must have the store's dimension.
pub fn check_embedding_dim(expected: usize, got: usize) -> (r: Result<(), String>)
    ensures
        r is Ok <==> expected == got,
        r matches Err(m) ==> m@ == dimension_mismatch(expected as nat, got as nat),
{
    if expected == got {
        Ok(())
    } else {
        let mut m = "Embedding dimension mismatch: expected ".to_owned();
        crate::text::push_decimal(&mut m, expected as u64);
        m.push_str(", got ");
        crate::text::push_decimal(&mut m, got as u64);
        Err(m)
    }
}

} // verus!
