//! Embedding generation through an Ollama server: the provider's settings,
//! how a batch is split into requests, and the retry decisions around each
//! request.

use vstd::prelude::*;
use crate::action::{pow2, doubled};
use crate::config::EmbeddingConfig;
use crate::error::BotError;
use crate::text::{nat_decimal, push_decimal, str_eq};

verus! {

/// Request body of Ollama's single-text embedding endpoint.
#[derive(Debug, Clone)]
pub struct OllamaSingleEmbedRequest {
    pub model: String,
    pub prompt: String,
}

/// Messages to the embedding pipeline's worker.
#[derive(Debug, Clone)]
pub enum EmbeddingPipelineMessage {
    /// Create an embedding job for a conversation.
    CreateJob { conversation_id: i64, content: String, root_uri: String, author_did: String },
    /// Process the pending jobs now.
    ProcessPending,
    /// Stop the worker.
    Shutdown,
}

/// Settings of an Ollama embedding provider.
#[derive(Debug, Clone)]
pub struct OllamaEmbeddingProvider {
    base_url: String,
    model: String,
    dimensions: usize,
    batch_size: usize,
    max_retries: u32,
    base_delay_ms: u64,
}

impl OllamaEmbeddingProvider {
    pub closed spec fn spec_base_url(&self) -> Seq<char> {
        self.base_url@
    }

    pub closed spec fn spec_model(&self) -> Seq<char> {
        self.model@
    }

    pub closed spec fn spec_dimensions(&self) -> usize {
        self.dimensions
    }

    pub closed spec fn spec_batch_size(&self) -> usize {
        self.batch_size
    }

    pub closed spec fn spec_max_retries(&self) -> u32 {
        self.max_retries
    }

    pub closed spec fn spec_base_delay_ms(&self) -> u64 {
        self.base_delay_ms
    }

    /// A provider for `model` at `base_url`, expecting `dimensions`-long
    /// embeddings and sending at most `batch_size` texts per request; three
    /// attempts per request, backing off from one second.
    pub fn new(base_url: String, model: String, dimensions: usize, batch_size: usize) -> (r: Self)
        ensures
            r.spec_base_url() == base_url@,
            r.spec_model() == model@,
            r.spec_dimensions() == dimensions,
            r.spec_batch_size() == batch_size,
            r.spec_max_retries() == 3,
            r.spec_base_delay_ms() == 1000,
    {
        OllamaEmbeddingProvider { base_url, model, dimensions, batch_size, max_retries: 3, base_delay_ms: 1000 }
    }

    /// `embeddinggemma`: 768 dimensions, 32 texts per request.
    pub fn default_embeddinggemma(base_url: String) -> (r: Self)
        ensures
            r.spec_base_url() == base_url@,
            r.spec_model() == "embeddinggemma"@,
            r.spec_dimensions() == 768,
            r.spec_batch_size() == 32,
            r.spec_max_retries() == 3,
            r.spec_base_delay_ms() == 1000,
    {
        OllamaEmbeddingProvider::new(base_url, "embeddinggemma".to_owned(), 768, 32)
    }

    /// `nomic-embed-text`: 768 dimensions, 32 texts per request.
    pub fn default_nomic(base_url: String) -> (r: Self)
        ensures
            r.spec_base_url() == base_url@,
            r.spec_model() == "nomic-embed-text"@,
            r.spec_dimensions() == 768,
            r.spec_batch_size() == 32,
            r.spec_max_retries() == 3,
            r.spec_base_delay_ms() == 1000,
    {
        OllamaEmbeddingProvider::new(base_url, "nomic-embed-text".to_owned(), 768, 32)
    }

    /// The same provider with `retries` attempts per request.
    pub fn with_max_retries(self, retries: u32) -> (r: Self)
        ensures
            r.spec_max_retries() == retries,
            r.spec_base_url() == self.spec_base_url(),
            r.spec_model() == self.spec_model(),
            r.spec_dimensions() == self.spec_dimensions(),
            r.spec_batch_size() == self.spec_batch_size(),
            r.spec_base_delay_ms() == self.spec_base_delay_ms(),
    {
        let mut p = self;
        p.max_retries = retries;
        p
    }

    /// The same provider backing off from `delay_ms`.
    pub fn with_base_delay(self, delay_ms: u64) -> (r: Self)
        ensures
            r.spec_base_delay_ms() == delay_ms,
            r.spec_base_url() == self.spec_base_url(),
            r.spec_model() == self.spec_model(),
            r.spec_dimensions() == self.spec_dimensions(),
            r.spec_batch_size() == self.spec_batch_size(),
            r.spec_max_retries() == self.spec_max_retries(),
    {
        let mut p = self;
        p.base_delay_ms = delay_ms;
        p
    }

    pub fn dimensions(&self) -> (r: usize)
        ensures
            r == self.spec_dimensions(),
    {
        self.dimensions
    }

    pub fn model(&self) -> (r: &str)
        ensures
            r@ == self.spec_model(),
    {
        self.model.as_str()
    }

    pub fn base_url(&self) -> (r: &str)
        ensures
            r@ == self.spec_base_url(),
    {
        self.base_url.as_str()
    }

    pub fn batch_size(&self) -> (r: usize)
        ensures
            r == self.spec_batch_size(),
    {
        self.batch_size
    }

    pub fn max_retries(&self) -> (r: u32)
        ensures
            r == self.spec_max_retries(),
    {
        self.max_retries
    }

    pub fn base_delay_ms(&self) -> (r: u64)
        ensures
            r == self.spec_base_delay_ms(),
    {
        self.base_delay_ms
    }

    /// The batch endpoint: the base URL and `/api/embed`.
    pub fn embed_url(&self) -> (r: String)
        ensures
            r@ == self.spec_base_url() + "/api/embed"@,
    {
        let mut s = self.base_url.clone();
        s.push_str("/api/embed");
        s
    }
}

impl EmbeddingConfig {
    /// The provider this configuration names; an unknown provider falls back
    /// to `embeddinggemma` at the configured URL.
    pub fn create_provider(&self) -> (r: OllamaEmbeddingProvider)
        ensures
            self.provider@ == "ollama"@ ==> r.spec_base_url() == self.base_url@ && r.spec_model() == self.model@
                && r.spec_dimensions() == self.dimensions && r.spec_batch_size() == self.batch_size,
            self.provider@ != "ollama"@ ==> r.spec_base_url() == self.base_url@
                && r.spec_model() == "embeddinggemma"@ && r.spec_dimensions() == 768 && r.spec_batch_size() == 32,
            r.spec_max_retries() == 3,
            r.spec_base_delay_ms() == 1000,
    {
        if str_eq(self.provider.as_str(), "ollama") {
            OllamaEmbeddingProvider::new(self.base_url.clone(), self.model.clone(), self.dimensions, self.batch_size)
        } else {
            OllamaEmbeddingProvider::default_embeddinggemma(self.base_url.clone())
        }
    }
}

/// The `[start, end)` ranges that split `len` items into consecutive
/// chunks of `size` (the last one possibly shorter).
pub open spec fn is_chunking(r: Seq<(usize, usize)>, len: nat, size: nat) -> bool {
    &&& r.len() * size >= len
    &&& r.len() > 0 ==> (r.len() - 1) * size < len
    &&& forall|k: int| 0 <= k < r.len() ==> {
        &&& (#[trigger] r[k]).0 == k * size
        &&& r[k].1 == if k * size + size <= len { k * size + size } else { len as int }
    }
}

/// The chunks of a non-empty batch send each text once, in order: the first
/// starts at the first text, none is empty, each starts where the one before
/// ended, and the last ends with the last text.
pub proof fn lemma_chunks_cover(chunks: Seq<(usize, usize)>, len: nat, size: nat)
    requires
        size > 0,
        len > 0,
        is_chunking(chunks, len, size),
    ensures
        chunks.len() > 0,
        chunks[0].0 == 0,
        chunks.last().1 == len,
        forall|k: int| 0 <= k < chunks.len() ==> (#[trigger] chunks[k]).0 < chunks[k].1,
        forall|k: int| 0 <= k < chunks.len() - 1 ==> (#[trigger] chunks[k]).1 == chunks[k + 1].0,
{
    let n = chunks.len();
    if n == 0 {
        assert(n * size == 0) by (nonlinear_arith)
            requires
                n == 0,
        ;
    }
    assert(chunks[0].0 == 0 * size);
    assert(0 * size == 0) by (nonlinear_arith);
    assert forall|k: int| 0 <= k < n - 1 implies (#[trigger] chunks[k]).1 == chunks[k + 1].0 by {
        assert(k * size + size == (k + 1) * size) by (nonlinear_arith);
        assert((k + 1) * size <= (n - 1) * size) by (nonlinear_arith)
            requires
                k + 1 <= n - 1,
                size > 0,
        ;
        assert(chunks[k + 1].0 == (k + 1) * size);
    }
    assert forall|k: int| 0 <= k < n implies (#[trigger] chunks[k]).0 < chunks[k].1 by {
        assert(k * size <= (n - 1) * size) by (nonlinear_arith)
            requires
                k <= n - 1,
                size > 0,
        ;
    }
    let last = n - 1;
    assert(last * size + size == n * size) by (nonlinear_arith)
        requires
            last == n - 1,
    ;
    assert(chunks[last].1 == len);
}

/// How a batch of `len` texts is sent, `size` texts per request.
pub fn chunk_bounds(len: usize, size: usize) -> (r: Vec<(usize, usize)>)
    requires
        size > 0,
    ensures
        is_chunking(r@, len as nat, size as nat),
{
    let mut r: Vec<(usize, usize)> = Vec::new();
    let mut start: usize = 0;
    assert(r@.len() * size == 0) by (nonlinear_arith)
        requires
            r@.len() == 0,
    ;
    while start < len
        invariant
            size > 0,
            start == r@.len() * size,
            r@.len() > 0 ==> (r@.len() - 1) * size < len,
            start <= len || r@.len() > 0,
            forall|k: int| 0 <= k < r@.len() ==> {
                &&& (#[trigger] r@[k]).0 == k * size
                &&& r@[k].1 == if k * size + size <= len { k * size + size } else { len as int }
            },
        decreases len - start,
    {
        let end = if len - start > size { start + size } else { len };
        let ghost k = r@.len();
        r.push((start, end));
        proof {
            assert((k + 1) * size == k * size + size) by (nonlinear_arith);
        }
        if end == len {
            return r;
        }
        start = end;
    }
    r
}

/// A batch of texts being embedded chunk by chunk: the chunks to send, how
/// many of them have been answered, and the embeddings received so far.
pub struct EmbedBatch<E> {
    chunks: Vec<(usize, usize)>,
    answered: usize,
    collected: Vec<E>,
}

/// What to do next for a batch.
pub enum BatchStep<E> {
    /// Embed the texts in `[start, end)` (one request, with its retries) and
    /// report the result.
    Embed(usize, usize),
    /// The batch is over: all embeddings in order, or the first error.
    Done(Result<Vec<E>, BotError>),
}

impl<E> EmbedBatch<E> {
    pub closed spec fn chunks(&self) -> Seq<(usize, usize)> {
        self.chunks@
    }

    pub closed spec fn answered(&self) -> nat {
        self.answered as nat
    }

    pub closed spec fn collected(&self) -> Seq<E> {
        self.collected@
    }

    /// How a batch of `len` texts starts, `size` texts per request: an empty
    /// batch is done at once with no embeddings and no request; otherwise
    /// the first chunk is sent.
    pub fn start(len: usize, size: usize) -> (r: (Self, BatchStep<E>))
        requires
            len > 0 ==> size > 0,
        ensures
            r.0.answered() == 0,
            r.0.collected().len() == 0,
            len == 0 ==> r.0.chunks().len() == 0 && (r.1 matches BatchStep::Done(Ok(v)) && v@.len() == 0),
            len > 0 ==> is_chunking(r.0.chunks(), len as nat, size as nat) && r.0.chunks().len() > 0
                && r.1 == BatchStep::<E>::Embed(r.0.chunks()[0].0, r.0.chunks()[0].1),
    {
        if len == 0 {
            return (EmbedBatch { chunks: Vec::new(), answered: 0, collected: Vec::new() }, BatchStep::Done(Ok(Vec::new())));
        }
        let chunks = chunk_bounds(len, size);
        proof {
            if chunks@.len() == 0 {
                assert(chunks@.len() * size == 0) by (nonlinear_arith)
                    requires
                        chunks@.len() == 0,
                ;
            }
        }
        let (a, b) = chunks[0];
        (EmbedBatch { chunks, answered: 0, collected: Vec::new() }, BatchStep::Embed(a, b))
    }

    /// Takes the result of the chunk in flight: an error ends the batch with
    /// it; embeddings are appended in order, and then the next chunk is sent,
    /// or, after the last one, the batch is done with all of them.
    pub fn after_chunk(self, result: Result<Vec<E>, BotError>) -> (r: (Self, BatchStep<E>))
        requires
            self.answered() < self.chunks().len(),
        ensures
            result matches Err(e) ==> r.1 == BatchStep::<E>::Done(Err(e)),
            self.answered() + 1 < self.chunks().len() ==> (result matches Ok(v) ==> {
                &&& r.0.chunks() == self.chunks()
                &&& r.0.answered() == self.answered() + 1
                &&& r.0.collected() == self.collected() + v@
                &&& r.1 == BatchStep::<E>::Embed(
                    self.chunks()[self.answered() + 1int].0,
                    self.chunks()[self.answered() + 1int].1,
                )
            }),
            self.answered() + 1 == self.chunks().len() ==> (result matches Ok(v) ==> (
                r.1 matches BatchStep::Done(Ok(all)) && all@ == self.collected() + v@)),
    {
        let n = self.chunks.len();
        let mut batch = self;
        match result {
            Err(e) => (batch, BatchStep::Done(Err(e))),
            Ok(v) => {
                let mut v = v;
                batch.collected.append(&mut v);
                batch.answered = batch.answered + 1;
                if batch.answered < n {
                    let (a, b) = batch.chunks[batch.answered];
                    (batch, BatchStep::Embed(a, b))
                } else {
                    let mut all: Vec<E> = Vec::new();
                    std::mem::swap(&mut all, &mut batch.collected);
                    (batch, BatchStep::Done(Ok(all)))
                }
            },
        }
    }
}

impl OllamaEmbeddingProvider {
    /// How embedding `len` texts starts: an empty batch is done at once with
    /// no embeddings and no request; otherwise the texts go out in order,
    /// `batch_size` per request, starting with the first chunk.
    pub fn begin_batch<E>(&self, len: usize) -> (r: (EmbedBatch<E>, BatchStep<E>))
        requires
            len > 0 ==> self.spec_batch_size() > 0,
        ensures
            r.0.answered() == 0,
            r.0.collected().len() == 0,
            len == 0 ==> r.0.chunks().len() == 0 && (r.1 matches BatchStep::Done(Ok(v)) && v@.len() == 0),
            len > 0 ==> is_chunking(r.0.chunks(), len as nat, self.spec_batch_size() as nat)
                && r.0.chunks().len() > 0
                && r.1 == BatchStep::<E>::Embed(r.0.chunks()[0].0, r.0.chunks()[0].1),
    {
        EmbedBatch::start(len, self.batch_size)
    }
}

/// The single embedding of a one-text batch: its first embedding, or an
/// error when the batch came back empty.
pub fn first_embedding<E>(batch: Result<Vec<E>, BotError>) -> (r: Result<E, BotError>)
    ensures
        batch matches Err(e) ==> r == Err::<E, BotError>(e),
        batch matches Ok(v) ==> if v@.len() > 0 {
            r == Ok::<E, BotError>(v@[0])
        } else {
            r matches Err(e) && embedding_error(e, "No embedding returned"@)
        },
{
    match batch {
        Err(e) => Err(e),
        Ok(v) => {
            let mut v = v;
            if v.len() > 0 {
                Ok(v.remove(0))
            } else {
                Err(BotError::Embedding("No embedding returned".to_owned()))
            }
        },
    }
}

/// What one request to the embedding endpoint came to.
#[derive(Debug, Clone)]
pub enum AttemptOutcome {
    /// The response parsed; the lengths of the embeddings it held.
    Embeddings(Vec<usize>),
    /// The response body did not parse; the parser's message.
    ParseFailed(String),
    /// The server answered with an error status (rendered), and its body
    /// when it could be read.
    HttpError { status: String, body: Option<String> },
    /// The request timed out.
    Timeout,
    /// The connection failed; the client's message.
    ConnectFailed(String),
    /// The request failed otherwise; the client's message.
    RequestFailed(String),
}

/// Where a request with retries stands.
#[derive(Debug, Clone)]
pub struct RetryState {
    /// The 0-based number of the attempt in flight.
    pub attempt: u32,
    /// The error of the last failed attempt.
    pub last_error: Option<BotError>,
}

/// What to do next for a request with retries.
#[derive(Debug)]
pub enum RetryAction {
    /// Send the request.
    Send,
    /// Wait this many milliseconds, then send the request again.
    Sleep(u64),
    /// Stop: the embeddings are accepted, or this is the error.
    Finish(Result<(), BotError>),
}

pub open spec fn embedding_error(e: BotError, msg: Seq<char>) -> bool {
    e matches BotError::Embedding(m) && m@ == msg
}

/// The message of a failed attempt numbered `n` (1-based).
pub open spec fn attempt_message(outcome: AttemptOutcome, n: nat) -> Seq<char> {
    match outcome {
        AttemptOutcome::Embeddings(_) => Seq::empty(),
        AttemptOutcome::ParseFailed(e) => "Failed to parse embedding response: "@ + e@,
        AttemptOutcome::HttpError { status, body } => "Ollama API error (attempt "@ + nat_decimal(n) + "): "@
            + status@ + " - "@ + match body {
            Some(b) => b@,
            None => "HTTP "@ + status@,
        },
        AttemptOutcome::Timeout => "Ollama connection timeout (attempt "@ + nat_decimal(n) + ")"@,
        AttemptOutcome::ConnectFailed(e) => "Ollama connection failed (attempt "@ + nat_decimal(n) + "): "@ + e@,
        AttemptOutcome::RequestFailed(e) => "Ollama request failed (attempt "@ + nat_decimal(n) + "): "@ + e@,
    }
}

/// The message for an embedding of the wrong length.
pub open spec fn dimension_message(index: nat, len: nat, expected: nat) -> Seq<char> {
    "Embedding "@ + nat_decimal(index) + " has "@ + nat_decimal(len) + " dimensions, expected "@
        + nat_decimal(expected)
}

/// The index of the first length that differs from `expected`, if any.
pub open spec fn first_mismatch(lens: Seq<usize>, expected: usize) -> Option<int> {
    if exists|i: int| 0 <= i < lens.len() && lens[i] != expected {
        Some(choose|i: int| 0 <= i < lens.len() && lens[i] != expected
            && forall|j: int| 0 <= j < i ==> lens[j] == expected)
    } else {
        None
    }
}

/// The wait before attempt `attempt + 1`: the base delay doubled per
/// attempt, plus `random` reduced below half of that.
pub open spec fn retry_wait(base_delay_ms: u64, attempt: u32, random: u64) -> int {
    let delay = base_delay_ms * pow2(attempt as nat);
    delay + (random as int) % (delay / 2)
}

/// Whether the wait after attempt `attempt` can be computed: its delay is
/// at least 2 ms and half as much again fits in `u64`.
pub open spec fn retry_wait_fits(base_delay_ms: u64, attempt: u32) -> bool {
    let delay = base_delay_ms * pow2(attempt as nat);
    2 <= delay && delay + delay / 2 <= u64::MAX
}

/// `rand::random::<u64>()`: a uniformly random 64-bit number; nothing is
/// stated of it.
#[verifier::external_body]
fn random_u64() -> u64 {
    rand::random::<u64>()
}

/// The wait before the retry that follows attempt `attempt`.
pub fn retry_wait_ms(base_delay_ms: u64, attempt: u32, random: u64) -> (r: u64)
    requires
        2 <= base_delay_ms * pow2(attempt as nat),
        base_delay_ms * pow2(attempt as nat) + base_delay_ms * pow2(attempt as nat) / 2 <= u64::MAX,
    ensures
        r == retry_wait(base_delay_ms, attempt, random),
{
    let delay = doubled(base_delay_ms, attempt);
    assert(delay == base_delay_ms * pow2(attempt as nat));
    let half = delay / 2;
    delay + random % half
}

fn push_attempt_number(s: &mut String, n: u32)
    ensures
        final(s)@ == old(s)@ + nat_decimal(n as nat),
{
    push_decimal(s, n as u64);
}

/// The error of a failed attempt numbered `n` (1-based).
fn attempt_error(outcome: &AttemptOutcome, n: u32) -> (r: BotError)
    requires
        !(outcome is Embeddings),
    ensures
        embedding_error(r, attempt_message(*outcome, n as nat)),
{
    let mut s = String::new();
    match outcome {
        AttemptOutcome::Embeddings(_) => {},
        AttemptOutcome::ParseFailed(e) => {
            s.push_str("Failed to parse embedding response: ");
            s.push_str(e.as_str());
        },
        AttemptOutcome::HttpError { status, body } => {
            s.push_str("Ollama API error (attempt ");
            push_attempt_number(&mut s, n);
            s.push_str("): ");
            s.push_str(status.as_str());
            s.push_str(" - ");
            match body {
                Some(b) => s.push_str(b.as_str()),
                None => {
                    s.push_str("HTTP ");
                    s.push_str(status.as_str());
                },
            }
        },
        AttemptOutcome::Timeout => {
            s.push_str("Ollama connection timeout (attempt ");
            push_attempt_number(&mut s, n);
            s.push_str(")");
        },
        AttemptOutcome::ConnectFailed(e) => {
            s.push_str("Ollama connection failed (attempt ");
            push_attempt_number(&mut s, n);
            s.push_str("): ");
            s.push_str(e.as_str());
        },
        AttemptOutcome::RequestFailed(e) => {
            s.push_str("Ollama request failed (attempt ");
            push_attempt_number(&mut s, n);
            s.push_str("): ");
            s.push_str(e.as_str());
        },
    }
    assert(s@ =~= attempt_message(*outcome, n as nat));
    BotError::Embedding(s)
}

/// The first embedding whose length is not `expected`, as (index, length).
fn find_mismatch(lens: &Vec<usize>, expected: usize) -> (r: Option<(usize, usize)>)
    ensures
        match first_mismatch(lens@, expected) {
            None => r is None,
            Some(i) => r matches Some((j, l)) && j == i && l == lens@[i],
        },
{
    let mut i: usize = 0;
    while i < lens.len()
        invariant
            i <= lens@.len(),
            forall|j: int| 0 <= j < i ==> lens@[j] == expected,
        decreases lens@.len() - i,
    {
        if lens[i] != expected {
            proof {
                let w = choose|k: int| 0 <= k < lens@.len() && lens@[k] != expected
                    && forall|j: int| 0 <= j < k ==> lens@[j] == expected;
                assert(0 <= i < lens@.len() && lens@[i as int] != expected
                    && forall|j: int| 0 <= j < i ==> lens@[j] == expected);
                if w < i {
                } else if w > i {
                }
                assert(w == i);
            }
            return Some((i, lens[i]));
        }
        i = i + 1;
    }
    None
}

impl OllamaEmbeddingProvider {
    /// How a request starts: with no attempts allowed it fails at once.
    pub fn start_request(&self) -> (r: (RetryState, RetryAction))
        ensures
            r.0.attempt == 0,
            r.0.last_error is None,
            self.spec_max_retries() == 0 ==> (r.1 matches RetryAction::Finish(Err(e))
                && embedding_error(e, "Max retries exceeded for embedding request"@)),
            self.spec_max_retries() > 0 ==> r.1 is Send,
    {
        let state = RetryState { attempt: 0, last_error: None };
        if self.max_retries == 0 {
            (state, RetryAction::Finish(Err(BotError::Embedding("Max retries exceeded for embedding request".to_owned()))))
        } else {
            (state, RetryAction::Send)
        }
    }

    /// The decision after attempt `wait.attempt` came to `outcome`, with
    /// `random` the number the jitter is drawn from: parsed embeddings are
    /// accepted when each has the expected length, refused at the first that
    /// has not; any other outcome is retried after a wait, unless it was the
    /// last attempt, which fails with that outcome's error.
    pub fn decide(&self, state: RetryState, outcome: AttemptOutcome, random: u64) -> (r: (RetryState, RetryAction))
        requires
            state.attempt < self.spec_max_retries(),
            state.attempt + 1 < self.spec_max_retries() ==> retry_wait_fits(self.spec_base_delay_ms(), state.attempt),
        ensures
            outcome matches AttemptOutcome::Embeddings(lens) ==> match first_mismatch(lens@, self.spec_dimensions()) {
                None => r.1 matches RetryAction::Finish(Ok(())),
                Some(i) => r.1 matches RetryAction::Finish(Err(e)) && embedding_error(
                    e,
                    dimension_message(i as nat, lens@[i] as nat, self.spec_dimensions() as nat),
                ),
            },
            !(outcome is Embeddings) && state.attempt + 1 < self.spec_max_retries() ==> {
                &&& r.0.attempt == state.attempt + 1
                &&& r.0.last_error matches Some(e)
                    && embedding_error(e, attempt_message(outcome, (state.attempt + 1) as nat))
                &&& r.1 == RetryAction::Sleep(
                    retry_wait(self.spec_base_delay_ms(), state.attempt, random) as u64)
            },
            !(outcome is Embeddings) && state.attempt + 1 == self.spec_max_retries() ==> (
                r.1 matches RetryAction::Finish(Err(e))
                    && embedding_error(e, attempt_message(outcome, (state.attempt + 1) as nat))),
    {
        match &outcome {
            AttemptOutcome::Embeddings(lens) => {
                match find_mismatch(lens, self.dimensions) {
                    None => (state, RetryAction::Finish(Ok(()))),
                    Some((i, len)) => {
                        let mut s = "Embedding ".to_owned();
                        push_decimal(&mut s, i as u64);
                        s.push_str(" has ");
                        push_decimal(&mut s, len as u64);
                        s.push_str(" dimensions, expected ");
                        push_decimal(&mut s, self.dimensions as u64);
                        (state, RetryAction::Finish(Err(BotError::Embedding(s))))
                    },
                }
            },
            _ => {
                let n = state.attempt + 1;
                let e = attempt_error(&outcome, n);
                if n < self.max_retries {
                    let wait = retry_wait_ms(self.base_delay_ms, state.attempt, random);
                    (RetryState { attempt: n, last_error: Some(e) }, RetryAction::Sleep(wait))
                } else {
                    (RetryState { attempt: state.attempt, last_error: Some(e.clone()) }, RetryAction::Finish(Err(e)))
                }
            },
        }
    }

    /// The decision after an attempt, drawing the jitter at random.
    pub fn decide_with_jitter(&self, state: RetryState, outcome: AttemptOutcome) -> (r: (RetryState, RetryAction))
        requires
            state.attempt < self.spec_max_retries(),
            state.attempt + 1 < self.spec_max_retries() ==> retry_wait_fits(self.spec_base_delay_ms(), state.attempt),
        ensures
            outcome matches AttemptOutcome::Embeddings(lens) ==> match first_mismatch(lens@, self.spec_dimensions()) {
                None => r.1 matches RetryAction::Finish(Ok(())),
                Some(i) => r.1 matches RetryAction::Finish(Err(e)) && embedding_error(
                    e,
                    dimension_message(i as nat, lens@[i] as nat, self.spec_dimensions() as nat),
                ),
            },
            !(outcome is Embeddings) && state.attempt + 1 < self.spec_max_retries() ==> {
                &&& r.0.attempt == state.attempt + 1
                &&& r.0.last_error matches Some(e)
                    && embedding_error(e, attempt_message(outcome, (state.attempt + 1) as nat))
                &&& exists|random: u64| r.1 == RetryAction::Sleep(
                    #[trigger] retry_wait(self.spec_base_delay_ms(), state.attempt, random) as u64)
            },
            !(outcome is Embeddings) && state.attempt + 1 == self.spec_max_retries() ==> (
                r.1 matches RetryAction::Finish(Err(e))
                    && embedding_error(e, attempt_message(outcome, (state.attempt + 1) as nat))),
    {
        let random = random_u64();
        self.decide(state, outcome, random)
    }
}

/// The chunks of a batch cover it exactly once, in order: the first starts
/// at 0, each starts where the previous ended, the last ends at the batch's
/// end, and none is empty or longer than the chunk size.
pub proof fn lemma_chunks_partition(r: Seq<(usize, usize)>, len: nat, size: nat)
    requires
        size > 0,
        is_chunking(r, len, size),
    ensures
        len == 0 <==> r.len() == 0,
        r.len() > 0 ==> r[0].0 == 0 && r[r.len() - 1].1 == len,
        forall|k: int| 0 <= k < r.len() - 1 ==> #[trigger] r[k].1 == r[k + 1].0,
        forall|k: int| 0 <= k < r.len() ==> (#[trigger] r[k]).0 < r[k].1 <= r[k].0 + size,
{
    if r.len() > 0 {
        let n = r.len();
        assert(r[0].0 == 0 * size);
        assert((n - 1) * size < len);
        assert(r[n - 1].0 == (n - 1) * size);
        assert(n * size == (n - 1) * size + size) by (nonlinear_arith);
        assert forall|k: int| 0 <= k < n - 1 implies #[trigger] r[k].1 == r[k + 1].0 by {
            assert((k + 1) * size == k * size + size) by (nonlinear_arith);
            assert((k + 1) * size <= (n - 1) * size) by (nonlinear_arith)
                requires
                    k + 1 <= n - 1,
                    size > 0,
            ;
        }
        assert forall|k: int| 0 <= k < n implies (#[trigger] r[k]).0 < r[k].1 <= r[k].0 + size by {
            assert(k * size <= (n - 1) * size) by (nonlinear_arith)
                requires
                    k <= n - 1,
                    size > 0,
            ;
        }
    } else {
        assert(r.len() * size == 0);
    }
}

} // verus!
