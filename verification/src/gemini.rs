//! Calls to the Gemini API: the client's settings, what a response's parts
//! come to, and the retry decisions around each request (shared by text
//! generation and embeddings).

use vstd::prelude::*;
use crate::action::pow2;
use crate::text::{int_decimal, push_signed_decimal, trim, trim_str};

verus! {

/// Attempts per Gemini request.
pub const GEMINI_MAX_RETRIES: u32 = 3;

/// A part of a model response: text, or a thought that is not shown.
#[derive(Debug, Clone)]
pub enum Part {
    Text { text: String },
    Thought { thought: String },
}

/// The texts of the parts, in order.
pub open spec fn part_texts(parts: Seq<Part>) -> Seq<Seq<char>>
    decreases parts.len(),
{
    if parts.len() == 0 {
        Seq::empty()
    } else {
        let rest = part_texts(parts.drop_last());
        match parts.last() {
            Part::Text { text } => rest.push(text@),
            Part::Thought { .. } => rest,
        }
    }
}

/// The texts joined by newlines.
pub open spec fn joined_by_newline(texts: Seq<Seq<char>>) -> Seq<char>
    decreases texts.len(),
{
    if texts.len() == 0 {
        Seq::empty()
    } else if texts.len() == 1 {
        texts[0]
    } else {
        joined_by_newline(texts.drop_last()) + seq!['\n'] + texts.last()
    }
}

/// The text of a response's parts: the text parts joined by newlines; an
/// error when there are none.
pub fn extract_text_from_parts(parts: &Vec<Part>) -> (r: Result<String, String>)
    ensures
        r is Err <==> part_texts(parts@).len() == 0,
        r matches Ok(t) ==> t@ == joined_by_newline(part_texts(parts@)),
        r matches Err(e) ==> e@ == "No text content in response"@,
{
    let mut out = String::new();
    let mut any = false;
    let mut i: usize = 0;
    while i < parts.len()
        invariant
            i <= parts@.len(),
            any == (part_texts(parts@.take(i as int)).len() > 0),
            out@ == joined_by_newline(part_texts(parts@.take(i as int))),
        decreases parts@.len() - i,
    {
        proof {
            assert(parts@.take(i + 1).drop_last() =~= parts@.take(i as int));
            assert(parts@.take(i + 1).last() == parts@[i as int]);
        }
        match &parts[i] {
            Part::Text { text } => {
                if any {
                    out.push('\n');
                }
                out.push_str(text.as_str());
                proof {
                    let ts = part_texts(parts@.take(i + 1));
                    assert(ts.drop_last() == part_texts(parts@.take(i as int)));
                    assert(out@ =~= joined_by_newline(ts));
                }
                any = true;
            },
            Part::Thought { .. } => {},
        }
        i = i + 1;
    }
    proof {
        assert(parts@.take(parts@.len() as int) =~= parts@);
    }
    if !any {
        Err("No text content in response".to_owned())
    } else {
        Ok(out)
    }
}

/// The error body Gemini sends with a client error.
#[derive(Debug, Clone)]
pub struct GeminiErrorDetail {
    pub code: i32,
    pub message: String,
    pub status: String,
}

/// What one request to the Gemini API came to.
#[derive(Debug, Clone)]
pub enum GeminiOutcome {
    /// A successful status.
    Success,
    /// A client error (rendered status), with the error body when it parsed
    /// as Gemini's error document, and the raw body text.
    ClientError { status: String, detail: Option<GeminiErrorDetail>, body: String },
    /// A server error (rendered status) and the body text.
    ServerError { status: String, body: String },
    /// The request itself failed; the client's message.
    RequestFailed(String),
}

/// Where a Gemini request with retries stands.
#[derive(Debug, Clone)]
pub struct GeminiRetryState {
    /// The 1-based number of the attempt in flight.
    pub attempt: u32,
    /// The message of the last failure that is retried.
    pub last_error: Option<String>,
}

/// What to do next for a Gemini request.
#[derive(Debug, Clone)]
pub enum GeminiStep {
    /// Send the request.
    Send,
    /// Wait this many milliseconds, then send the request again.
    Sleep(u64),
    /// The response is good: read it.
    Read,
    /// Stop with this error message.
    Fail(String),
}

/// The message of a client error; with `with_code` the error document's
/// code is named too.
pub open spec fn client_error_message(status: Seq<char>, detail: Option<GeminiErrorDetail>, body: Seq<char>, with_code: bool) -> Seq<char> {
    match detail {
        Some(d) => if with_code {
            "Gemini API error ("@ + status + "): "@ + d.status@ + " - "@ + d.message@ + " (code: "@
                + int_decimal(d.code as int) + ")"@
        } else {
            "Gemini API error ("@ + status + "): "@ + d.status@ + " - "@ + d.message@
        },
        None => "Gemini API error ("@ + status + "): "@ + body,
    }
}

/// The message of a failure that is retried.
pub open spec fn retried_message(outcome: GeminiOutcome) -> Seq<char> {
    match outcome {
        GeminiOutcome::ServerError { status, body } => "Server error ("@ + status@ + "): "@ + body@,
        GeminiOutcome::RequestFailed(e) => "Request failed: "@ + e@,
        _ => Seq::empty(),
    }
}

/// The wait before attempt `attempt + 1`: one second doubled per attempt.
pub open spec fn gemini_wait(attempt: u32) -> int {
    (1000 * pow2(attempt as nat)) as int
}

/// How a Gemini request starts.
pub fn start_gemini_request() -> (r: (GeminiRetryState, GeminiStep))
    ensures
        r.0.attempt == 1,
        r.0.last_error is None,
        r.1 is Send,
{
    (GeminiRetryState { attempt: 1, last_error: None }, GeminiStep::Send)
}

/// The decision after an attempt: success is read; a client error fails at
/// once; a server error or a failed request is retried after a wait until
/// the third attempt, which fails with its message.
pub fn decide_gemini(state: GeminiRetryState, outcome: GeminiOutcome, with_code: bool) -> (r: (GeminiRetryState, GeminiStep))
    requires
        1 <= state.attempt <= GEMINI_MAX_RETRIES,
    ensures
        outcome is Success ==> r.1 is Read,
        outcome matches GeminiOutcome::ClientError { status, detail, body } ==> (r.1 matches GeminiStep::Fail(m)
            && m@ == client_error_message(status@, detail, body@, with_code)),
        (outcome is ServerError || outcome is RequestFailed) && state.attempt < GEMINI_MAX_RETRIES ==> {
            &&& r.0.attempt == state.attempt + 1
            &&& r.0.last_error matches Some(m) && m@ == retried_message(outcome)
            &&& r.1 == GeminiStep::Sleep(gemini_wait(state.attempt) as u64)
        },
        (outcome is ServerError || outcome is RequestFailed) && state.attempt == GEMINI_MAX_RETRIES ==> (
            r.1 matches GeminiStep::Fail(m) && m@ == retried_message(outcome)),
{
    match outcome {
        GeminiOutcome::Success => (state, GeminiStep::Read),
        GeminiOutcome::ClientError { status, detail, body } => {
            let mut m = "Gemini API error (".to_owned();
            m.push_str(status.as_str());
            m.push_str("): ");
            match detail {
                Some(d) => {
                    m.push_str(d.status.as_str());
                    m.push_str(" - ");
                    m.push_str(d.message.as_str());
                    if with_code {
                        m.push_str(" (code: ");
                        push_signed_decimal(&mut m, d.code as i64);
                        m.push_str(")");
                    }
                },
                None => {
                    m.push_str(body.as_str());
                },
            }
            (state, GeminiStep::Fail(m))
        },
        _ => {
            let mut m = String::new();
            match &outcome {
                GeminiOutcome::ServerError { status, body } => {
                    m.push_str("Server error (");
                    m.push_str(status.as_str());
                    m.push_str("): ");
                    m.push_str(body.as_str());
                },
                GeminiOutcome::RequestFailed(e) => {
                    m.push_str("Request failed: ");
                    m.push_str(e.as_str());
                },
                _ => {},
            }
            proof {
                assert(m@ =~= retried_message(outcome));
            }
            if state.attempt < GEMINI_MAX_RETRIES {
                let wait: u64 = if state.attempt == 1 { 2000 } else { 4000 };
                proof {
                    reveal_with_fuel(pow2, 3);
                }
                (GeminiRetryState { attempt: state.attempt + 1, last_error: Some(m) }, GeminiStep::Sleep(wait))
            } else {
                let last = m.clone();
                (GeminiRetryState { attempt: state.attempt, last_error: Some(last) }, GeminiStep::Fail(m))
            }
        },
    }
}

pub open spec fn gemini_api_base() -> Seq<char> {
    "https://generativelanguage.googleapis.com/v1beta/models/"@
}

/// Settings of the Gemini text-generation client.
#[derive(Debug, Clone)]
pub struct GeminiClient {
    api_key: String,
    model: String,
}

impl GeminiClient {
    pub closed spec fn spec_api_key(&self) -> Seq<char> {
        self.api_key@
    }

    pub closed spec fn spec_model(&self) -> Seq<char> {
        self.model@
    }

    /// A client for `model`, `gemini-3.0-pro` when none is given.
    pub fn new(api_key: String, model: Option<String>) -> (r: Self)
        ensures
            r.spec_api_key() == api_key@,
            model is None ==> r.spec_model() == "gemini-3.0-pro"@,
            model matches Some(m) ==> r.spec_model() == m@,
    {
        let model = match model {
            Some(m) => m,
            None => "gemini-3.0-pro".to_owned(),
        };
        GeminiClient { api_key, model }
    }

    pub fn api_key(&self) -> (r: &str)
        ensures
            r@ == self.spec_api_key(),
    {
        self.api_key.as_str()
    }

    pub fn model(&self) -> (r: &str)
        ensures
            r@ == self.spec_model(),
    {
        self.model.as_str()
    }

    /// The generation endpoint of the client's model.
    pub fn generate_url(&self) -> (r: String)
        ensures
            r@ == gemini_api_base() + self.spec_model() + ":generateContent?key="@ + self.spec_api_key(),
    {
        let mut s = "https://generativelanguage.googleapis.com/v1beta/models/".to_owned();
        s.push_str(self.model.as_str());
        s.push_str(":generateContent?key=");
        s.push_str(self.api_key.as_str());
        s
    }
}

/// The (role, text) contents of a one-shot prompt: the system instruction
/// first when there is one, then the user's text.
pub fn prompt_contents(text: &str, system_instruction: Option<String>) -> (r: Vec<(String, String)>)
    ensures
        system_instruction matches Some(s) ==> r@.len() == 2 && r@[0].0@ == "system"@ && r@[0].1@ == s@
            && r@[1].0@ == "user"@ && r@[1].1@ == text@,
        system_instruction is None ==> r@.len() == 1 && r@[0].0@ == "user"@ && r@[0].1@ == text@,
{
    let mut contents: Vec<(String, String)> = Vec::new();
    match system_instruction {
        Some(s) => contents.push(("system".to_owned(), s)),
        None => {},
    }
    contents.push(("user".to_owned(), text.to_owned()));
    contents
}

/// Settings of the Gemini embedding provider.
#[derive(Debug, Clone)]
pub struct GeminiEmbeddingProvider {
    api_key: String,
    model: String,
}

impl GeminiEmbeddingProvider {
    pub closed spec fn spec_api_key(&self) -> Seq<char> {
        self.api_key@
    }

    pub closed spec fn spec_model(&self) -> Seq<char> {
        self.model@
    }

    /// A provider of `text-embedding-004` embeddings.
    pub fn new(api_key: String) -> (r: Self)
        ensures
            r.spec_api_key() == api_key@,
            r.spec_model() == "text-embedding-004"@,
    {
        GeminiEmbeddingProvider { api_key, model: "text-embedding-004".to_owned() }
    }

    pub fn api_key(&self) -> (r: &str)
        ensures
            r@ == self.spec_api_key(),
    {
        self.api_key.as_str()
    }

    pub fn model(&self) -> (r: &str)
        ensures
            r@ == self.spec_model(),
    {
        self.model.as_str()
    }

    /// The embedding endpoint of the provider's model.
    pub fn embed_url(&self) -> (r: String)
        ensures
            r@ == gemini_api_base() + self.spec_model() + ":embedContent?key="@ + self.spec_api_key(),
    {
        let mut s = "https://generativelanguage.googleapis.com/v1beta/models/".to_owned();
        s.push_str(self.model.as_str());
        s.push_str(":embedContent?key=");
        s.push_str(self.api_key.as_str());
        s
    }

    /// The model name the request body carries: `models/` and the model.
    pub fn request_model(&self) -> (r: String)
        ensures
            r@ == "models/"@ + self.spec_model(),
    {
        let mut s = "models/".to_owned();
        s.push_str(self.model.as_str());
        s
    }

    /// The text to embed: the input without surrounding whitespace; empty
    /// text is refused.
    pub fn clean_text(text: &str) -> (r: Result<String, String>)
        ensures
            trim(text@).len() == 0 ==> (r matches Err(e) && e@ == "Cannot embed empty text"@),
            trim(text@).len() > 0 ==> (r matches Ok(t) && t@ == trim(text@)),
    {
        let t = trim_str(text);
        if t.as_str().unicode_len() == 0 {
            Err("Cannot embed empty text".to_owned())
        } else {
            Ok(t)
        }
    }
}

/// One message of a prompt's history.
#[derive(Debug, Clone)]
pub struct ChatMessage {
    pub role: String,
    pub content: String,
}

/// A system instruction and the conversation so far.
#[derive(Debug, Clone)]
pub struct Prompt {
    pub system_instruction: String,
    pub history: Vec<ChatMessage>,
}

pub open spec fn default_system_instruction() -> Seq<char> {
    "You are a helpful, stateful AI agent on Bluesky. You are persistent, friendly, and engage in meaningful conversations. Keep your responses concise (under 280 characters when possible). If you choose not to respond, use <SILENT_THOUGHT> as your entire response."@
}

/// How a history message reads in a prompt: the model's own words as they
/// are, anyone else's prefixed with `[@handle]: `.
pub open spec fn history_content(role: Seq<char>, content: Seq<char>, handle: Seq<char>) -> Seq<char> {
    if role == "model"@ {
        content
    } else {
        "[@"@ + handle + "]: "@ + content
    }
}

/// Builds prompts around one system instruction.
#[derive(Debug, Clone)]
pub struct PromptBuilder {
    system_instruction: String,
}

impl PromptBuilder {
    pub closed spec fn spec_instruction(&self) -> Seq<char> {
        self.system_instruction@
    }

    /// A builder with the given instruction, or the default one.
    pub fn new(system_instruction: Option<String>) -> (r: Self)
        ensures
            system_instruction matches Some(s) ==> r.spec_instruction() == s@,
            system_instruction is None ==> r.spec_instruction() == default_system_instruction(),
    {
        match system_instruction {
            Some(s) => PromptBuilder { system_instruction: s },
            None => PromptBuilder { system_instruction: "You are a helpful, stateful AI agent on Bluesky. You are persistent, friendly, and engage in meaningful conversations. Keep your responses concise (under 280 characters when possible). If you choose not to respond, use <SILENT_THOUGHT> as your entire response.".to_owned() },
        }
    }

    /// A prompt of one user message.
    pub fn build_for_text(&self, text: &str) -> (r: Prompt)
        ensures
            r.system_instruction@ == self.spec_instruction(),
            r.history@.len() == 1,
            r.history@[0].role@ == "user"@,
            r.history@[0].content@ == text@,
    {
        let mut history = Vec::new();
        history.push(ChatMessage { role: "user".to_owned(), content: text.to_owned() });
        Prompt { system_instruction: self.system_instruction.clone(), history }
    }

    /// A history message for a stored message; `resolved` is the author's
    /// handle as resolved, the DID standing in when resolution failed.
    pub fn history_message(role: &str, content: &str, author_did: &str, resolved: Option<String>) -> (r: ChatMessage)
        ensures
            r.role@ == role@,
            r.content@ == history_content(role@, content@, match resolved {
                Some(h) => h@,
                None => author_did@,
            }),
    {
        let handle = match resolved {
            Some(h) => h,
            None => author_did.to_owned(),
        };
        let text = if crate::text::str_eq(role, "model") {
            content.to_owned()
        } else {
            let mut t = "[@".to_owned();
            t.push_str(handle.as_str());
            t.push_str("]: ");
            t.push_str(content);
            t
        };
        ChatMessage { role: role.to_owned(), content: text }
    }

    /// The (role, text) contents sent for a prompt: the system instruction,
    /// then the history in order.
    pub fn to_gemini_contents(&self, prompt: &Prompt) -> (r: Vec<(String, String)>)
        ensures
            r@.len() == prompt.history@.len() + 1,
            r@[0].0@ == "system"@,
            r@[0].1@ == prompt.system_instruction@,
            forall|i: int| 0 <= i < prompt.history@.len() ==> (#[trigger] r@[i + 1]).0@ == prompt.history@[i].role@
                && r@[i + 1].1@ == prompt.history@[i].content@,
    {
        let mut contents: Vec<(String, String)> = Vec::new();
        contents.push(("system".to_owned(), prompt.system_instruction.clone()));
        let mut i: usize = 0;
        while i < prompt.history.len()
            invariant
                i <= prompt.history@.len(),
                contents@.len() == i + 1,
                contents@[0].0@ == "system"@,
                contents@[0].1@ == prompt.system_instruction@,
                forall|k: int| 0 <= k < i ==> (#[trigger] contents@[k + 1]).0@ == prompt.history@[k].role@
                    && contents@[k + 1].1@ == prompt.history@[k].content@,
            decreases prompt.history@.len() - i,
        {
            let m = &prompt.history[i];
            contents.push((m.role.clone(), m.content.clone()));
            i = i + 1;
        }
        contents
    }
}

} // verus!
