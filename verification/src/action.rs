//! The mention-handling flow: from an incoming mention to a stored reply,
//! as a sequence of decisions between the store, the model and Bluesky.

use vstd::prelude::*;
use rand::RngExt;
use crate::clock::{is_clock_rfc3339, now_rfc3339};
use crate::db::{Conversation, CreateConversationParams, Role};
use crate::error::BotError;
use crate::jetstream::filter::FilteredEvent;
use crate::jetstream::types::{CommitData, JetstreamEvent, Record};
use crate::text::{contains, contains_seq, str_eq};
use crate::thread::{
    created_at_or_now, extract_parent_uri, extract_root_uri, extract_text, opt_view, post_uri, spec_parent_uri,
    spec_post_uri, spec_root_uri, spec_text,
};

verus! {

/// What handling a mention led to.
#[derive(Debug, Clone)]
pub struct ActionResult {
    pub post_uri: String,
    pub root_uri: String,
    pub response_text: Option<String>,
    pub posted_reply_uri: Option<String>,
    pub silent: bool,
    pub loop_prevented: bool,
    pub error: Option<String>,
}

/// The marker a model answers with when it chooses not to reply.
pub open spec fn silent_marker() -> Seq<char> {
    "<SILENT_THOUGHT>"@
}

/// What is known of a mention once it has been read.
#[derive(Debug, Clone)]
pub struct MentionContext {
    pub author_did: String,
    pub post_uri: String,
    pub root_uri: String,
    pub parent_uri: Option<String>,
    pub content: String,
    pub cid: Option<String>,
    pub created_at: String,
}

/// Where the handling of one mention stands.
#[derive(Debug)]
pub enum MentionState {
    /// The mention is being stored.
    StoringMention(MentionContext),
    /// The thread is being read and the model asked for a response.
    AwaitingResponse(MentionContext),
    /// The response is being posted as a reply.
    PostingReply(MentionContext, String),
    /// The posted reply is being stored; the second string is its URI.
    StoringReply(MentionContext, String, String),
    /// Nothing is left to do.
    Finished,
}

/// What the caller reports back after performing an action.
#[derive(Debug)]
pub enum MentionInput {
    MentionStored(Result<(), BotError>),
    /// The model's response (`None` when it was empty), or the error of reading
    /// the thread, resolving identities or calling the model.
    ResponseReady(Result<Option<String>, BotError>),
    ReplyPosted(Result<String, BotError>),
    ReplyStored(Result<(), BotError>),
}

/// What the caller does next.
#[derive(Debug)]
pub enum MentionAction {
    StoreMention(CreateConversationParams),
    /// Read the thread under `root_uri`, build the prompt and ask the model.
    GenerateResponse { root_uri: String },
    /// Post `text` as a reply to `parent_uri` (retrying as `should_retry_reply` decides).
    PostReply { parent_uri: String, root_uri: String, parent_cid: Option<String>, text: String },
    StoreReply(CreateConversationParams),
    /// Handling is over, with this outcome.
    Finish(Result<ActionResult, BotError>),
}

/// The context read from a commit and its record.
pub open spec fn context_of(ctx: MentionContext, did: Seq<char>, commit: CommitData, rec: Record) -> bool {
    &&& ctx.author_did@ == did
    &&& ctx.post_uri@ == spec_post_uri(did, commit.rkey@)
    &&& ctx.root_uri@ == spec_root_uri(ctx.post_uri@, rec)
    &&& opt_view(ctx.parent_uri) == spec_parent_uri(rec)
    &&& ctx.content@ == spec_text(rec)
    &&& opt_view(ctx.cid) == opt_view(commit.cid)
    &&& (rec.created_at matches Some(c) ==> ctx.created_at@ == c@)
    &&& (rec.created_at is None ==> is_clock_rfc3339(ctx.created_at@))
}

/// The parameters that store the mention of `ctx` as a user message.
pub open spec fn mention_params_of(p: CreateConversationParams, ctx: MentionContext) -> bool {
    &&& p.root_uri@ == ctx.root_uri@
    &&& p.post_uri@ == ctx.post_uri@
    &&& opt_view(p.parent_uri) == opt_view(ctx.parent_uri)
    &&& p.author_did@ == ctx.author_did@
    &&& p.role == Role::User
    &&& p.content@ == ctx.content@
    &&& opt_view(p.cid) == opt_view(ctx.cid)
    &&& p.created_at@ == ctx.created_at@
}

/// The parameters that store the bot's reply `text`, posted as `reply_uri`.
pub open spec fn reply_params_of(p: CreateConversationParams, ctx: MentionContext, bot_did: Seq<char>, text: Seq<char>, reply_uri: Seq<char>) -> bool {
    &&& p.root_uri@ == ctx.root_uri@
    &&& p.post_uri@ == reply_uri
    &&& opt_view(p.parent_uri) == Some(ctx.post_uri@)
    &&& p.author_did@ == bot_did
    &&& p.role == Role::Model
    &&& p.content@ == text
    &&& p.cid is None
    &&& is_clock_rfc3339(p.created_at@)
}

pub open spec fn finished(r: (MentionState, MentionAction)) -> bool {
    r.0 matches MentionState::Finished && r.1 is Finish
}

pub open spec fn finished_with(r: (MentionState, MentionAction), out: Result<ActionResult, BotError>) -> bool {
    finished(r) && r.1 == MentionAction::Finish(out)
}

pub open spec fn validation_error(e: BotError, msg: Seq<char>) -> bool {
    e matches BotError::Validation(m) && m@ == msg
}

/// The outcome of a mention answered with `text`, posted as `reply` if at all.
pub open spec fn answered(ctx: MentionContext, text: String, reply: Option<String>, silent: bool) -> ActionResult {
    ActionResult {
        post_uri: ctx.post_uri,
        root_uri: ctx.root_uri,
        response_text: Some(text),
        posted_reply_uri: reply,
        silent,
        loop_prevented: false,
        error: None,
    }
}

/// The decisions of mention handling for one bot account.
#[derive(Debug, Clone)]
pub struct MentionFlow {
    pub bot_did: String,
    pub dry_run: bool,
}

fn clone_opt(o: &Option<String>) -> (r: Option<String>)
    ensures
        r == *o,
{
    match o {
        Some(s) => Some(s.clone()),
        None => None,
    }
}

impl MentionFlow {
    pub fn new(bot_did: String) -> (r: Self)
        ensures
            r.bot_did@ == bot_did@,
            !r.dry_run,
    {
        MentionFlow { bot_did, dry_run: false }
    }

    /// Process but never post.
    pub fn with_dry_run(self) -> (r: Self)
        ensures
            r.bot_did == self.bot_did,
            r.dry_run,
    {
        MentionFlow { dry_run: true, ..self }
    }

    pub fn is_dry_run(&self) -> (r: bool)
        ensures
            r == self.dry_run,
    {
        self.dry_run
    }

    /// First decision on a filtered event: refuse what is not a commit with a
    /// record, skip the bot's own posts, otherwise store the mention.
    pub fn begin(&self, event: &FilteredEvent) -> (r: (MentionState, MentionAction))
        ensures
            !(event.view_event() is Commit) ==> finished(r) && (r.1 matches MentionAction::Finish(Err(e))
                && validation_error(e, "Non-commit event received"@)),
            event.view_event() matches JetstreamEvent::Commit { did, commit, .. } ==> {
                &&& commit.record is None ==> finished(r) && (r.1 matches MentionAction::Finish(Err(e))
                    && validation_error(e, "No record in commit"@))
                &&& commit.record matches Some(rec) ==> {
                    &&& did@ == self.bot_did@ ==> finished(r) && (r.1 matches MentionAction::Finish(Ok(res)) && {
                        &&& res.post_uri@ == spec_post_uri(did@, commit.rkey@)
                        &&& res.root_uri@ == spec_root_uri(res.post_uri@, rec)
                        &&& res.response_text is None
                        &&& res.posted_reply_uri is None
                        &&& !res.silent
                        &&& res.loop_prevented
                        &&& res.error is None
                    })
                    &&& did@ != self.bot_did@ ==> (r.0 matches MentionState::StoringMention(ctx)
                        && context_of(ctx, did@, commit, rec)
                        && (r.1 matches MentionAction::StoreMention(p) && mention_params_of(p, ctx)))
                }
            },
    {
        let (did, commit) = match event.event() {
            JetstreamEvent::Commit { did, commit, .. } => (did, commit),
            _ => {
                return (
                    MentionState::Finished,
                    MentionAction::Finish(Err(BotError::Validation("Non-commit event received".to_owned()))),
                );
            },
        };
        let record = match &commit.record {
            Some(r) => r,
            None => {
                return (
                    MentionState::Finished,
                    MentionAction::Finish(Err(BotError::Validation("No record in commit".to_owned()))),
                );
            },
        };
        let post = post_uri(did.as_str(), commit.rkey.as_str());
        let root = extract_root_uri(post.as_str(), record);
        if str_eq(did.as_str(), self.bot_did.as_str()) {
            let res = ActionResult {
                post_uri: post,
                root_uri: root,
                response_text: None,
                posted_reply_uri: None,
                silent: false,
                loop_prevented: true,
                error: None,
            };
            return (MentionState::Finished, MentionAction::Finish(Ok(res)));
        }
        let ctx = MentionContext {
            author_did: did.clone(),
            post_uri: post,
            root_uri: root,
            parent_uri: extract_parent_uri(record),
            content: extract_text(record),
            cid: clone_opt(&commit.cid),
            created_at: created_at_or_now(record),
        };
        let params = CreateConversationParams {
            root_uri: ctx.root_uri.clone(),
            post_uri: ctx.post_uri.clone(),
            parent_uri: clone_opt(&ctx.parent_uri),
            author_did: ctx.author_did.clone(),
            role: Role::User,
            content: ctx.content.clone(),
            cid: clone_opt(&ctx.cid),
            created_at: ctx.created_at.clone(),
        };
        (MentionState::StoringMention(ctx), MentionAction::StoreMention(params))
    }

    /// The next decision, given where handling stands and what the last action
    /// brought. Any error ends handling with that error; an empty response
    /// ends it with an error; a response holding the silent marker ends it
    /// without a reply; in dry-run mode a response ends it unposted; otherwise
    /// the response is posted and then stored.
    pub fn step(&self, state: MentionState, input: MentionInput) -> (r: (MentionState, MentionAction))
        requires
            match (state, input) {
                (MentionState::StoringMention(_), MentionInput::MentionStored(_)) => true,
                (MentionState::AwaitingResponse(_), MentionInput::ResponseReady(_)) => true,
                (MentionState::PostingReply(_, _), MentionInput::ReplyPosted(_)) => true,
                (MentionState::StoringReply(_, _, _), MentionInput::ReplyStored(_)) => true,
                _ => false,
            },
        ensures
            state matches MentionState::StoringMention(ctx) ==> match input {
                MentionInput::MentionStored(Ok(())) => r.0 == MentionState::AwaitingResponse(ctx)
                    && (r.1 matches MentionAction::GenerateResponse { root_uri } && root_uri@ == ctx.root_uri@),
                MentionInput::MentionStored(Err(e)) => finished_with(r, Err(e)),
                _ => true,
            },
            state matches MentionState::AwaitingResponse(ctx) ==> match input {
                MentionInput::ResponseReady(Err(e)) => finished_with(r, Err(e)),
                MentionInput::ResponseReady(Ok(None)) => finished(r) && (r.1 matches MentionAction::Finish(Err(e))
                    && e matches BotError::AiResponse(m) && m@ == "Empty response from model"@),
                MentionInput::ResponseReady(Ok(Some(text))) => if contains_seq(text@, silent_marker()) {
                    finished_with(r, Ok(answered(ctx, text, None, true)))
                } else if self.dry_run {
                    finished_with(r, Ok(answered(ctx, text, None, false)))
                } else {
                    r.0 == MentionState::PostingReply(ctx, text)
                        && (r.1 matches MentionAction::PostReply { parent_uri, root_uri, parent_cid, text: t }
                        && parent_uri@ == ctx.post_uri@ && root_uri@ == ctx.root_uri@
                        && opt_view(parent_cid) == opt_view(ctx.cid) && t@ == text@)
                },
                _ => true,
            },
            state matches MentionState::PostingReply(ctx, text) ==> match input {
                MentionInput::ReplyPosted(Ok(uri)) => r.0 == MentionState::StoringReply(ctx, text, uri)
                    && (r.1 matches MentionAction::StoreReply(p) && reply_params_of(p, ctx, self.bot_did@, text@, uri@)),
                MentionInput::ReplyPosted(Err(e)) => finished_with(r, Err(e)),
                _ => true,
            },
            state matches MentionState::StoringReply(ctx, text, uri) ==> match input {
                MentionInput::ReplyStored(Ok(())) => finished_with(r, Ok(answered(ctx, text, Some(uri), false))),
                MentionInput::ReplyStored(Err(e)) => finished_with(r, Err(e)),
                _ => true,
            },
    {
        match state {
            MentionState::StoringMention(ctx) => match input {
                MentionInput::MentionStored(Ok(())) => {
                    let root_uri = ctx.root_uri.clone();
                    (MentionState::AwaitingResponse(ctx), MentionAction::GenerateResponse { root_uri })
                },
                MentionInput::MentionStored(Err(e)) => (MentionState::Finished, MentionAction::Finish(Err(e))),
                _ => (MentionState::Finished, MentionAction::Finish(Err(BotError::Validation(String::new())))),
            },
            MentionState::AwaitingResponse(ctx) => match input {
                MentionInput::ResponseReady(Err(e)) => (MentionState::Finished, MentionAction::Finish(Err(e))),
                MentionInput::ResponseReady(Ok(None)) => (
                    MentionState::Finished,
                    MentionAction::Finish(Err(BotError::AiResponse("Empty response from model".to_owned()))),
                ),
                MentionInput::ResponseReady(Ok(Some(text))) => {
                    if contains(text.as_str(), "<SILENT_THOUGHT>") {
                        let res = ActionResult {
                            post_uri: ctx.post_uri,
                            root_uri: ctx.root_uri,
                            response_text: Some(text),
                            posted_reply_uri: None,
                            silent: true,
                            loop_prevented: false,
                            error: None,
                        };
                        (MentionState::Finished, MentionAction::Finish(Ok(res)))
                    } else if self.dry_run {
                        let res = ActionResult {
                            post_uri: ctx.post_uri,
                            root_uri: ctx.root_uri,
                            response_text: Some(text),
                            posted_reply_uri: None,
                            silent: false,
                            loop_prevented: false,
                            error: None,
                        };
                        (MentionState::Finished, MentionAction::Finish(Ok(res)))
                    } else {
                        let action = MentionAction::PostReply {
                            parent_uri: ctx.post_uri.clone(),
                            root_uri: ctx.root_uri.clone(),
                            parent_cid: clone_opt(&ctx.cid),
                            text: text.clone(),
                        };
                        (MentionState::PostingReply(ctx, text), action)
                    }
                },
                _ => (MentionState::Finished, MentionAction::Finish(Err(BotError::Validation(String::new())))),
            },
            MentionState::PostingReply(ctx, text) => match input {
                MentionInput::ReplyPosted(Ok(uri)) => {
                    let params = CreateConversationParams {
                        root_uri: ctx.root_uri.clone(),
                        post_uri: uri.clone(),
                        parent_uri: Some(ctx.post_uri.clone()),
                        author_did: self.bot_did.clone(),
                        role: Role::Model,
                        content: text.clone(),
                        cid: None,
                        created_at: now_rfc3339(),
                    };
                    (MentionState::StoringReply(ctx, text, uri), MentionAction::StoreReply(params))
                },
                MentionInput::ReplyPosted(Err(e)) => (MentionState::Finished, MentionAction::Finish(Err(e))),
                _ => (MentionState::Finished, MentionAction::Finish(Err(BotError::Validation(String::new())))),
            },
            MentionState::StoringReply(ctx, text, uri) => match input {
                MentionInput::ReplyStored(Ok(())) => {
                    let res = ActionResult {
                        post_uri: ctx.post_uri,
                        root_uri: ctx.root_uri,
                        response_text: Some(text),
                        posted_reply_uri: Some(uri),
                        silent: false,
                        loop_prevented: false,
                        error: None,
                    };
                    (MentionState::Finished, MentionAction::Finish(Ok(res)))
                },
                MentionInput::ReplyStored(Err(e)) => (MentionState::Finished, MentionAction::Finish(Err(e))),
                _ => (MentionState::Finished, MentionAction::Finish(Err(BotError::Validation(String::new())))),
            },
            MentionState::Finished => (MentionState::Finished, MentionAction::Finish(Err(BotError::Validation(String::new())))),
        }
    }
}

/// Attempts at posting a reply before giving up.
pub const REPLY_MAX_RETRIES: usize = 3;
/// First backoff between reply attempts, in milliseconds.
pub const REPLY_INITIAL_BACKOFF_MS: u64 = 1000;
/// Longest backoff between reply attempts, in milliseconds (before jitter).
pub const REPLY_MAX_BACKOFF_MS: u64 = 60000;

/// Whether a failed reply attempt (0-based) is retried: only rate limits and
/// server errors are, and only while attempts remain.
pub fn should_retry_reply(attempt: usize, max_retries: usize, error: &BotError) -> (r: bool)
    ensures
        r == ((error is XrpcRateLimit || error is XrpcServerError) && attempt + 1 < max_retries),
{
    let retryable = match error {
        BotError::XrpcRateLimit(_) => true,
        BotError::XrpcServerError(_) => true,
        _ => false,
    };
    retryable && attempt < max_retries && attempt + 1 < max_retries
}

/// Two to the power `n`.
pub open spec fn pow2(n: nat) -> nat
    decreases n,
{
    if n == 0 {
        1
    } else {
        2 * pow2((n - 1) as nat)
    }
}

proof fn lemma_pow2_monotonic(a: nat, b: nat)
    requires
        a <= b,
    ensures
        pow2(a) <= pow2(b),
        pow2(a) >= 1,
    decreases b,
{
    if b > a {
        lemma_pow2_monotonic(a, (b - 1) as nat);
    } else if a > 0 {
        lemma_pow2_monotonic((a - 1) as nat, (a - 1) as nat);
    }
}

proof fn lemma_pow2_64()
    ensures
        pow2(64) == 0x1_0000_0000_0000_0000nat,
{
    reveal_with_fuel(pow2, 65);
}

/// `initial_ms * 2^exponent`, saturated at `u64::MAX`, capped at `max_ms`.
pub open spec fn capped_backoff(exponent: u32, initial_ms: u64, max_ms: u64) -> u64 {
    let base = if initial_ms * pow2(exponent as nat) > u64::MAX { u64::MAX as int } else { initial_ms * pow2(exponent as nat) };
    if base > max_ms { max_ms } else { base as u64 }
}

/// The backoff for a 0-based attempt with the given jitter.
pub open spec fn spec_backoff(attempt: usize, initial_ms: u64, max_ms: u64, jitter_ms: u64) -> u64 {
    if capped_backoff(attempt as u32, initial_ms, max_ms) + jitter_ms > u64::MAX {
        u64::MAX
    } else {
        (capped_backoff(attempt as u32, initial_ms, max_ms) + jitter_ms) as u64
    }
}

/// `initial_ms * 2^exponent`, saturated at `u64::MAX`.
pub open spec fn saturated_doubling(initial_ms: u64, exponent: u32) -> u64 {
    if initial_ms * pow2(exponent as nat) > u64::MAX {
        u64::MAX
    } else {
        (initial_ms * pow2(exponent as nat)) as u64
    }
}

/// `initial_ms` doubled `exponent` times, saturating at `u64::MAX`.
pub fn doubled(initial_ms: u64, exponent: u32) -> (r: u64)
    ensures
        r == saturated_doubling(initial_ms, exponent),
{
    let steps: u32 = if exponent > 64 { 64 } else { exponent };
    let mut base: u64 = initial_ms;
    let mut k: u32 = 0;
    assert(pow2(0) == 1);
    assert(initial_ms * pow2(0) == initial_ms);
    while k < steps
        invariant
            k <= steps,
            steps <= 64,
            base == if initial_ms * pow2(k as nat) > u64::MAX { u64::MAX as int } else { initial_ms * pow2(k as nat) },
        decreases steps - k,
    {
        proof {
            assert(pow2((k + 1) as nat) == 2 * pow2(k as nat));
            assert(initial_ms * pow2((k + 1) as nat) == 2 * (initial_ms * pow2(k as nat))) by (nonlinear_arith)
                requires
                    pow2((k + 1) as nat) == 2 * pow2(k as nat),
            ;
        }
        base = match base.checked_mul(2) {
            Some(v) => v,
            None => u64::MAX,
        };
        k = k + 1;
    }
    proof {
        if exponent > 64 {
            lemma_pow2_monotonic(64, exponent as nat);
            lemma_pow2_64();
            if initial_ms >= 1 {
                assert(initial_ms * pow2(64) >= pow2(64)) by (nonlinear_arith)
                    requires
                        initial_ms >= 1,
                ;
                assert(initial_ms * pow2(exponent as nat) >= initial_ms * pow2(64)) by (nonlinear_arith)
                    requires
                        pow2(exponent as nat) >= pow2(64),
                ;
            }
        }
    }
    assert(base == if initial_ms * pow2(exponent as nat) > u64::MAX { u64::MAX as int } else { initial_ms * pow2(exponent as nat) }) by {
        if exponent > 64 {
            if initial_ms == 0 {
                assert(initial_ms * pow2(exponent as nat) == 0);
                assert(initial_ms * pow2(64) == 0);
            }
        }
    }
    base
}

/// Exponential backoff for a 0-based attempt with the given jitter: the
/// initial delay doubled per attempt (saturating), capped at `max_ms`, plus
/// the jitter (saturating).
pub fn backoff_with_jitter(attempt: usize, initial_ms: u64, max_ms: u64, jitter_ms: u64) -> (r: u64)
    ensures
        r == spec_backoff(attempt, initial_ms, max_ms, jitter_ms),
{
    let base = doubled(initial_ms, attempt as u32);
    let capped = if base > max_ms { max_ms } else { base };
    match capped.checked_add(jitter_ms) {
        Some(v) => v,
        None => u64::MAX,
    }
}

/// `rand::rng().random_range(0..=1000)`: a random jitter of at most one second.
#[verifier::external_body]
fn random_jitter_ms() -> (r: u64)
    ensures
        r <= 1000,
{
    rand::rng().random_range(0..=1000u64)
}

/// Exponential backoff with a random jitter of up to one second.
pub fn calculate_backoff(attempt: usize, initial_ms: u64, max_ms: u64) -> (r: u64)
    ensures
        exists|j: u64| j <= 1000 && r == #[trigger] spec_backoff(attempt, initial_ms, max_ms, j),
{
    let j = random_jitter_ms();
    backoff_with_jitter(attempt, initial_ms, max_ms, j)
}

/// The reply backoff never exceeds the cap by more than the jitter: for a
/// jitter of at most one second it lies between the capped exponential delay
/// and that delay plus one second, and so never above the cap plus a second.
pub proof fn lemma_backoff_bounds(attempt: usize, initial_ms: u64, max_ms: u64, jitter_ms: u64)
    requires
        jitter_ms <= 1000,
    ensures
        capped_backoff(attempt as u32, initial_ms, max_ms) <= spec_backoff(attempt, initial_ms, max_ms, jitter_ms),
        spec_backoff(attempt, initial_ms, max_ms, jitter_ms) <= capped_backoff(attempt as u32, initial_ms, max_ms) + 1000,
        spec_backoff(attempt, initial_ms, max_ms, jitter_ms) <= max_ms + 1000,
{
}

/// What follows one attempt to post a reply.
#[derive(Debug)]
pub enum ReplyStep {
    /// The reply was posted under this URI.
    Posted(String),
    /// Wait this many milliseconds, then try again.
    Retry(u64),
    /// Give up with this error.
    Fail(BotError),
}

/// The step after reply attempt `attempt` (0-based) came to `result`, with
/// `jitter_ms` the jitter of the backoff: a posted reply ends it; a rate
/// limit or server error is retried while attempts remain; any other error
/// ends it.
pub fn reply_step(attempt: usize, result: Result<String, BotError>, jitter_ms: u64) -> (r: ReplyStep)
    ensures
        result matches Ok(uri) ==> r == ReplyStep::Posted(uri),
        result matches Err(e) ==> if (e is XrpcRateLimit || e is XrpcServerError) && attempt + 1 < REPLY_MAX_RETRIES {
            r == ReplyStep::Retry(spec_backoff(attempt, REPLY_INITIAL_BACKOFF_MS, REPLY_MAX_BACKOFF_MS, jitter_ms))
        } else {
            r == ReplyStep::Fail(e)
        },
{
    match result {
        Ok(uri) => ReplyStep::Posted(uri),
        Err(e) => {
            if should_retry_reply(attempt, REPLY_MAX_RETRIES, &e) {
                ReplyStep::Retry(backoff_with_jitter(attempt, REPLY_INITIAL_BACKOFF_MS, REPLY_MAX_BACKOFF_MS, jitter_ms))
            } else {
                ReplyStep::Fail(e)
            }
        },
    }
}

/// The step after a reply attempt, drawing the jitter at random.
pub fn next_reply_step(attempt: usize, result: Result<String, BotError>) -> (r: ReplyStep)
    ensures
        result matches Ok(uri) ==> r == ReplyStep::Posted(uri),
        result matches Err(e) ==> if (e is XrpcRateLimit || e is XrpcServerError) && attempt + 1 < REPLY_MAX_RETRIES {
            exists|j: u64| j <= 1000 && r == ReplyStep::Retry(
                #[trigger] spec_backoff(attempt, REPLY_INITIAL_BACKOFF_MS, REPLY_MAX_BACKOFF_MS, j))
        } else {
            r == ReplyStep::Fail(e)
        },
{
    let j = random_jitter_ms();
    reply_step(attempt, result, j)
}

/// The distinct authors of a thread, in order of their first message.
pub open spec fn distinct_authors_of(messages: Seq<Conversation>) -> Seq<Seq<char>>
    decreases messages.len(),
{
    if messages.len() == 0 {
        Seq::empty()
    } else {
        let rest = distinct_authors_of(messages.drop_last());
        if rest.contains(messages.last().author_did@) {
            rest
        } else {
            rest.push(messages.last().author_did@)
        }
    }
}

/// The DIDs whose handles a thread's prompt needs, each once.
pub fn distinct_authors(messages: &Vec<Conversation>) -> (r: Vec<String>)
    ensures
        r@.map_values(|s: String| s@) == distinct_authors_of(messages@),
{
    let mut out: Vec<String> = Vec::new();
    let mut i: usize = 0;
    proof {
        assert(messages@.take(0) =~= Seq::<Conversation>::empty());
        assert(out@.map_values(|s: String| s@) =~= Seq::<Seq<char>>::empty());
    }
    while i < messages.len()
        invariant
            i <= messages@.len(),
            out@.map_values(|s: String| s@) == distinct_authors_of(messages@.take(i as int)),
        decreases messages@.len() - i,
    {
        proof {
            assert(messages@.take(i + 1).drop_last() =~= messages@.take(i as int));
            assert(messages@.take(i + 1).last() == messages@[i as int]);
        }
        let did = messages[i].author_did.as_str();
        let ghost seen = out@.map_values(|s: String| s@);
        let mut found = false;
        let mut j: usize = 0;
        while j < out.len()
            invariant
                seen == out@.map_values(|s: String| s@),
                j <= out@.len(),
                found == exists|m: int| 0 <= m < j && seen[m] == did@,
            decreases out@.len() - j,
        {
            if crate::text::str_eq(out[j].as_str(), did) {
                found = true;
            }
            proof {
                assert(seen[j as int] == out@[j as int]@);
            }
            j = j + 1;
        }
        proof {
            if found {
                let m = choose|m: int| 0 <= m < out@.len() && seen[m] == did@;
                assert(seen.contains(did@));
            } else {
                assert(!seen.contains(did@));
            }
        }
        if !found {
            let ghost before = out@;
            out.push(did.to_owned());
            proof {
                assert(out@.map_values(|s: String| s@) =~= before.map_values(|s: String| s@).push(did@));
            }
        }
        i = i + 1;
    }
    proof {
        assert(messages@.take(messages@.len() as int) =~= messages@);
    }
    out
}

} // verus!
