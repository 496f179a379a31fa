use vstd::prelude::*;
use crate::text::str_eq;

verus! {

pub open spec fn post_collection() -> Seq<char> {
    "app.bsky.feed.post"@
}

/// One event of the Jetstream firehose.
#[derive(Debug, Clone)]
pub enum JetstreamEvent {
    Commit { did: String, time_us: i64, commit: CommitData },
    Identity { did: String, time_us: i64, identity: IdentityData },
    Account { did: String, time_us: i64, account: AccountData },
}

/// A repository commit: the record written, updated or deleted.
#[derive(Debug, Clone)]
pub struct CommitData {
    pub rev: String,
    pub operation: CommitOperation,
    pub collection: String,
    pub rkey: String,
    /// The record's fields that the bot reads, when the commit carries a record.
    pub record: Option<Record>,
    pub cid: Option<String>,
}

/// The operation a commit performs.
#[derive(Debug, Clone, Copy, PartialEq, Eq)]
pub enum CommitOperation {
    Create,
    Update,
    Delete,
}

/// What an identity event carries.
#[derive(Debug, Clone)]
pub struct IdentityData {
    pub did: String,
    pub handle: Option<String>,
    pub seq: i64,
    pub time: String,
}

/// What an account event carries.
#[derive(Debug, Clone)]
pub struct AccountData {
    pub active: bool,
    pub did: String,
    pub seq: i64,
    pub time: String,
}

/// A rich-text facet: a byte range of the post text and its features.
#[derive(Debug, Clone)]
pub struct Facet {
    pub index: FacetIndex,
    pub features: Vec<FacetFeature>,
}

/// Byte range of a facet within the post text.
#[derive(Debug, Clone, Copy)]
pub struct FacetIndex {
    pub byte_start: i64,
    pub byte_end: i64,
}

/// The kinds of facet feature.
#[derive(Debug, Clone)]
pub enum FacetFeature {
    Mention { did: String },
    Link { uri: String },
    Tag { tag: String },
}

/// A strong reference (`uri`, `cid`) inside a reply structure; each field is
/// present only when the record holds it as a string.
#[derive(Debug, Clone)]
pub struct StrongRef {
    pub uri: Option<String>,
    pub cid: Option<String>,
}

/// The `reply` structure of a post record.
#[derive(Debug, Clone)]
pub struct ReplyRef {
    pub root: Option<StrongRef>,
    pub parent: Option<StrongRef>,
}

/// The fields of a post record that the bot reads. `text` and `created_at`
/// are present only when the record holds them as strings; `facets` is present
/// only when the record holds an array under that key, and each element is
/// `None` when it is not a well-formed facet.
#[derive(Debug, Clone)]
pub struct Record {
    pub text: Option<String>,
    pub created_at: Option<String>,
    pub reply: Option<ReplyRef>,
    pub facets: Option<Vec<Option<Facet>>>,
}

/// `true` when the facet has a mention feature naming `target`.
pub open spec fn facet_mentions(f: Facet, target: Seq<char>) -> bool {
    exists|j: int|
        0 <= j < f.features@.len() && (#[trigger] f.features@[j] matches FacetFeature::Mention { did }
            && did@ == target)
}

/// `true` when some well-formed facet of the record mentions `target`.
pub open spec fn record_mentions(r: Record, target: Seq<char>) -> bool {
    r.facets matches Some(fs) && exists|i: int|
        0 <= i < fs@.len() && (#[trigger] fs@[i] matches Some(f) && facet_mentions(f, target))
}

/// `true` when the commit creates a post whose record mentions `target`.
pub open spec fn spec_is_mention_of(c: CommitData, target: Seq<char>) -> bool {
    &&& c.collection@ == post_collection()
    &&& c.operation == CommitOperation::Create
    &&& c.record matches Some(r)
    &&& record_mentions(r, target)
}

fn facet_mentions_exec(f: &Facet, target: &str) -> (r: bool)
    ensures
        r == facet_mentions(*f, target@),
{
    let n = f.features.len();
    let mut j: usize = 0;
    while j < n
        invariant
            n == f.features@.len(),
            j <= n,
            forall|k: int| 0 <= k < j ==> !(#[trigger] f.features@[k] matches FacetFeature::Mention { did }
                && did@ == target@),
        decreases n - j,
    {
        match &f.features[j] {
            FacetFeature::Mention { did } => {
                if str_eq(did.as_str(), target) {
                    return true;
                }
            },
            _ => {},
        }
        j = j + 1;
    }
    false
}

impl CommitData {
    /// `true` when this commit creates a post that mentions `target_did`.
    pub fn is_mention_of(&self, target_did: &str) -> (r: bool)
        ensures
            r == spec_is_mention_of(*self, target_did@),
    {
        if !str_eq(self.collection.as_str(), "app.bsky.feed.post") {
            return false;
        }
        match self.operation {
            CommitOperation::Create => {},
            _ => {
                return false;
            },
        }
        let record = match &self.record {
            Some(r) => r,
            None => {
                return false;
            },
        };
        let facets = match &record.facets {
            Some(fs) => fs,
            None => {
                return false;
            },
        };
        let n = facets.len();
        let mut i: usize = 0;
        while i < n
            invariant
                n == facets@.len(),
                i <= n,
                self.record == Some(*record),
                record.facets == Some(*facets),
                self.collection@ == post_collection(),
                self.operation == CommitOperation::Create,
                forall|k: int| 0 <= k < i ==> !(#[trigger] facets@[k] matches Some(f) && facet_mentions(f, target_did@)),
            decreases n - i,
        {
            match &facets[i] {
                Some(f) => {
                    if facet_mentions_exec(f, target_did) {
                        assert(facets@[i as int] matches Some(ff) && facet_mentions(ff, target_did@));
                        return true;
                    }
                },
                None => {},
            }
            i = i + 1;
        }
        false
    }
}

} // verus!
