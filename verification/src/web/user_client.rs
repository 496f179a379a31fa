//! Posting to Bluesky as a signed-in dashboard user: composing the text and
//! the mention facet of a post.

use vstd::prelude::*;
use vstd::utf8::encode_utf8;
use crate::jetstream::types::{Facet, FacetFeature, FacetIndex};
use crate::text::{trim, trim_str};

verus! {

/// A reply to post as the user, with the thread it belongs to and the bot
/// it addresses.
pub struct ReplyContext {
    pub text: String,
    pub parent_uri: String,
    pub parent_cid: String,
    pub root_uri: String,
    pub root_cid: String,
    pub bot_did: String,
    pub bot_handle: String,
}

/// `true` when the bytes `pat` occur in `s` at byte `i`.
pub open spec fn bytes_at(s: Seq<u8>, pat: Seq<u8>, i: int) -> bool {
    0 <= i && i + pat.len() <= s.len() && s.subrange(i, i + pat.len()) == pat
}

/// The text that mentions a handle: `@` and the handle.
pub open spec fn mention_of(handle: Seq<char>) -> Seq<char> {
    "@"@ + handle
}

/// What the facet list for a post says: empty when the text does not
/// mention the handle; otherwise one mention of `did` over the byte range of
/// the first occurrence of the mention.
pub open spec fn mention_facets_of(text: Seq<char>, did: Seq<char>, handle: Seq<char>, r: Seq<Facet>) -> bool {
    let t = encode_utf8(text);
    let p = encode_utf8(mention_of(handle));
    &&& r.len() == 0 <==> forall|i: int| !bytes_at(t, p, i)
    &&& r.len() <= 1
    &&& r.len() == 1 ==> {
        let f = r[0];
        &&& bytes_at(t, p, f.index.byte_start as int)
        &&& forall|j: int| 0 <= j < f.index.byte_start ==> !bytes_at(t, p, j)
        &&& f.index.byte_end == f.index.byte_start + p.len()
        &&& f.features@.len() == 1
        &&& f.features@[0] matches FacetFeature::Mention { did: d } && d@ == did
    }
}

fn bytes_at_exec(s: &[u8], pat: &[u8], i: usize) -> (r: bool)
    requires
        i + pat@.len() <= s@.len(),
    ensures
        r == bytes_at(s@, pat@, i as int),
{
    let m = pat.len();
    let n = s.len();
    let mut j: usize = 0;
    while j < m
        invariant
            m == pat@.len(),
            n == s@.len(),
            i + m <= n,
            j <= m,
            forall|k: int| 0 <= k < j ==> s@[i + k] == pat@[k],
        decreases m - j,
    {
        if s[i + j] != pat[j] {
            assert(s@.subrange(i as int, i + m)[j as int] != pat@[j as int]);
            return false;
        }
        j = j + 1;
    }
    assert(s@.subrange(i as int, i + m) =~= pat@);
    true
}

/// The mention facet for `@bot_handle` in `text`, if the text has it.
pub fn create_mention_facets(text: &str, bot_did: &str, bot_handle: &str) -> (r: Vec<Facet>)
    requires
        encode_utf8(text@).len() + encode_utf8(mention_of(bot_handle@)).len() <= i64::MAX,
    ensures
        mention_facets_of(text@, bot_did@, bot_handle@, r@),
{
    let mut mention = "@".to_owned();
    mention.push_str(bot_handle);
    let t = text.as_bytes();
    let p = mention.as_str().as_bytes();
    let n = t.len();
    let m = p.len();
    proof {
        reveal_strlit("@");
        assert(mention_of(bot_handle@).len() >= 1);
        assert(m >= 1);
    }
    if m <= n {
        let mut i: usize = 0;
        while i <= n - m
            invariant
                t@ == encode_utf8(text@),
                p@ == encode_utf8(mention_of(bot_handle@)),
                n == t@.len(),
                m == p@.len(),
                1 <= m <= n,
                n + m <= i64::MAX,
                i <= n - m + 1,
                forall|j: int| 0 <= j < i ==> !bytes_at(t@, p@, j),
            decreases n - m + 1 - i,
        {
            if bytes_at_exec(t, p, i) {
                let facet = Facet {
                    index: FacetIndex { byte_start: i as i64, byte_end: (i + m) as i64 },
                    features: vec![FacetFeature::Mention { did: bot_did.to_owned() }],
                };
                let v = vec![facet];
                proof {
                    assert(v@[0] == facet);
                }
                return v;
            }
            i = i + 1;
        }
        proof {
            assert forall|j: int| !bytes_at(t@, p@, j) by {
                if 0 <= j && j + m <= n {
                    assert(j < i);
                }
            }
        }
    }
    Vec::new()
}

/// The text of a post addressed to the bot: `@handle`, a space, and the
/// message without surrounding whitespace.
pub open spec fn addressed_text(bot_handle: Seq<char>, text: Seq<char>) -> Seq<char> {
    mention_of(bot_handle) + " "@ + trim(text)
}

/// The text and mention facets of a post that addresses `text` to the bot.
pub fn compose_mention_post(text: &str, bot_did: &str, bot_handle: &str) -> (r: (String, Vec<Facet>))
    requires
        encode_utf8(addressed_text(bot_handle@, text@)).len() + encode_utf8(mention_of(bot_handle@)).len()
            <= i64::MAX,
    ensures
        r.0@ == addressed_text(bot_handle@, text@),
        mention_facets_of(r.0@, bot_did@, bot_handle@, r.1@),
{
    let mut s = "@".to_owned();
    s.push_str(bot_handle);
    s.push_str(" ");
    let body = trim_str(text);
    s.push_str(body.as_str());
    let facets = create_mention_facets(s.as_str(), bot_did, bot_handle);
    (s, facets)
}

} // verus!
