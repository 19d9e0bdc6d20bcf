//! The model's answers and failures.
//!
//! An answer holds the model's thinking and the action it asks for, either
//! in the tags `<think>` and `<answer>` or as plain text that ends with the
//! action.

use crate::json::{
    json_error_text, json_member, json_string_at, json_string_value, member, parse_error,
    parse_string, string_at, Step,
};
use crate::number::{decimal, push_decimal};
use crate::text::{
    contains, contains_str, copy_range, find, from_chars, index_of, lowercase, push_str,
    remove_all, remove_all_str, to_chars, to_lowercase, trim, trim_chars, trim_range,
};
use vstd::prelude::*;

verus! {

/// How often a failed request is tried again where nothing else is
/// configured.
pub const DEFAULT_MAX_RETRIES: u32 = 3;

/// How many seconds pass between two tries where nothing else is
/// configured.
pub const DEFAULT_RETRY_DELAY_SECS: u64 = 2;

/// An answer of the model.
#[derive(Debug, Clone, PartialEq, Eq)]
pub struct ModelResponse {
    /// What the model thought.
    pub thinking: String,
    /// The action it asks for, as text.
    pub action: String,
    /// The answer as it came.
    pub raw_content: String,
}

/// What an answer is split into: the thinking and the action.
///
/// Where the answer holds `<answer>`, the thinking is what stands before
/// the first one, without the tags `<think>` and `</think>`, and the action
/// what stands behind it, without `</answer>`; both are trimmed. Otherwise
/// the answer is trimmed and split before its first `do(`, or else before
/// its first `finish(`, and both parts are trimmed. An answer with none of
/// these is the action as it stands, with no thinking.
pub open spec fn split_response(content: Seq<char>) -> (Seq<char>, Seq<char>) {
    let tag = index_of(content, "<answer>"@);
    if tag >= 0 {
        (
            trim(remove_all(remove_all(content.take(tag), "<think>"@), "</think>"@)),
            trim(remove_all(content.skip(tag + "<answer>"@.len()), "</answer>"@)),
        )
    } else {
        let t = trim(content);
        let at_do = index_of(t, "do("@);
        let at_finish = index_of(t, "finish("@);
        if at_do >= 0 {
            (trim(t.take(at_do)), trim(t.skip(at_do)))
        } else if at_finish >= 0 {
            (trim(t.take(at_finish)), trim(t.skip(at_finish)))
        } else {
            (Seq::empty(), content)
        }
    }
}

/// Splits a trimmed answer before the index `at`.
fn split_at(t: &Vec<char>, at: usize) -> (r: (String, String))
    requires
        at <= t.len(),
    ensures
        r.0@ == trim(t@.take(at as int)),
        r.1@ == trim(t@.skip(at as int)),
{
    assert(t@.take(at as int) == t@.subrange(0, at as int));
    assert(t@.skip(at as int) == t@.subrange(at as int, t.len() as int));
    let (a, b) = trim_range(t, 0, at);
    let (c, d) = trim_range(t, at, t.len());
    (crate::text::slice_to_string(t, a, b), crate::text::slice_to_string(t, c, d))
}

/// Splits an answer into the thinking and the action.
pub fn parse_response(content: &str) -> (r: (String, String))
    ensures
        (r.0@, r.1@) == split_response(content@),
{
    let v = to_chars(content);
    let tag = to_chars("<answer>");
    match find(&v, &tag) {
        Some(at) => {
            proof {
                crate::text::lemma_index_from(v@, tag@, 0);
            }
            assert(v@.take(at as int) == v@.subrange(0, at as int));
            assert(v@.skip(at + tag.len()) == v@.subrange(at + tag.len(), v.len() as int));
            let head = remove_all_str(&v, 0, at, "<think>");
            let head = remove_all_str(&head, 0, head.len(), "</think>");
            assert(head@ == remove_all(remove_all(v@.take(at as int), "<think>"@), "</think>"@))
                by {
                let inner = remove_all(v@.take(at as int), "<think>"@);
                assert(inner.subrange(0, inner.len() as int) == inner);
            }
            let tail = remove_all_str(&v, at + tag.len(), v.len(), "</answer>");
            (from_chars(&trim_chars(&head)), from_chars(&trim_chars(&tail)))
        },
        None => {
            let t = trim_chars(&v);
            let open_do = to_chars("do(");
            let open_finish = to_chars("finish(");
            match find(&t, &open_do) {
                Some(at) => {
                    proof {
                        crate::text::lemma_index_from(t@, open_do@, 0);
                    }
                    split_at(&t, at)
                },
                None => match find(&t, &open_finish) {
                    Some(at) => {
                        proof {
                            crate::text::lemma_index_from(t@, open_finish@, 0);
                        }
                        split_at(&t, at)
                    },
                    None => (String::new(), String::from_str(content)),
                },
            }
        },
    }
}

/// Why the model gave no answer.
#[derive(Debug, Clone, PartialEq, Eq)]
pub enum ModelError {
    /// The request did not get through.
    RequestFailed(String),
    /// The answer could not be read.
    ParseError(String),
    /// The service refused.
    ApiError(String),
    /// The request failed as often as it may be tried.
    MaxRetriesExceeded(u32, String),
}

/// The mathematical value of a [`ModelError`].
pub enum ModelErrorView {
    RequestFailed(Seq<char>),
    ParseError(Seq<char>),
    ApiError(Seq<char>),
    MaxRetriesExceeded(u32, Seq<char>),
}

impl View for ModelError {
    type V = ModelErrorView;

    open spec fn view(&self) -> ModelErrorView {
        match self {
            ModelError::RequestFailed(t) => ModelErrorView::RequestFailed(t@),
            ModelError::ParseError(t) => ModelErrorView::ParseError(t@),
            ModelError::ApiError(t) => ModelErrorView::ApiError(t@),
            ModelError::MaxRetriesExceeded(n, t) => ModelErrorView::MaxRetriesExceeded(*n, t@),
        }
    }
}

/// The text of an error, as it is shown to a reader.
pub open spec fn model_error_text(e: ModelErrorView) -> Seq<char> {
    match e {
        ModelErrorView::RequestFailed(t) => "HTTP request failed: "@ + t,
        ModelErrorView::ParseError(t) => "Failed to parse response: "@ + t,
        ModelErrorView::ApiError(t) => "API error: "@ + t,
        ModelErrorView::MaxRetriesExceeded(n, t) => "Max retries exceeded after "@ + decimal(
            n as nat,
        ) + " attempts: "@ + t,
    }
}

/// Whether a failure may pass, so that the request is worth another try: a
/// request that did not get through, and a refusal of the service that
/// speaks of a server error, of too many requests, of a timeout or of a
/// rate limit. An answer that could not be read is not.
pub open spec fn retryable(e: ModelErrorView) -> bool {
    match e {
        ModelErrorView::RequestFailed(_) => true,
        ModelErrorView::ApiError(t) => contains(t, "500"@) || contains(t, "502"@) || contains(
            t,
            "503"@,
        ) || contains(t, "504"@) || contains(t, "429"@) || contains(lowercase(t), "timeout"@)
            || contains(lowercase(t), "rate limit"@),
        ModelErrorView::ParseError(_) => false,
        ModelErrorView::MaxRetriesExceeded(_, _) => false,
    }
}

/// What is done after a failed try.
#[derive(Debug, Clone, PartialEq, Eq)]
pub enum RetryNext {
    /// Wait this many seconds and try again.
    Retry { delay_secs: u64 },
    /// Give up with this error.
    GiveUp(ModelError),
}

/// The mathematical value of a [`RetryNext`].
pub enum RetryNextView {
    Retry { delay_secs: u64 },
    GiveUp(ModelErrorView),
}

impl View for RetryNext {
    type V = RetryNextView;

    open spec fn view(&self) -> RetryNextView {
        match self {
            RetryNext::Retry { delay_secs } => RetryNextView::Retry { delay_secs: *delay_secs },
            RetryNext::GiveUp(e) => RetryNextView::GiveUp(e@),
        }
    }
}

/// How often and how fast a failed request is tried again.
#[derive(Debug, Clone, Copy, PartialEq, Eq, Structural)]
pub struct RetryPolicy {
    /// How often a failed request is tried again.
    pub max_retries: u32,
    /// How many seconds pass between two tries.
    pub retry_delay_secs: u64,
}

impl Default for RetryPolicy {
    fn default() -> (r: Self)
        ensures
            r == (RetryPolicy {
                max_retries: DEFAULT_MAX_RETRIES,
                retry_delay_secs: DEFAULT_RETRY_DELAY_SECS,
            }),
    {
        RetryPolicy { max_retries: DEFAULT_MAX_RETRIES, retry_delay_secs: DEFAULT_RETRY_DELAY_SECS }
    }
}

impl RetryPolicy {
    /// What is done after the `attempt`-th try failed with `error`, the
    /// first try being the first attempt: a failure that cannot pass is
    /// handed on at once; one that may pass leads to another try as long as
    /// the request was tried no more often than it may be tried again, and
    /// to the error that says so afterwards.
    pub open spec fn decision(self, attempt: u32, error: ModelErrorView) -> RetryNextView {
        if !retryable(error) {
            RetryNextView::GiveUp(error)
        } else if attempt <= self.max_retries {
            RetryNextView::Retry { delay_secs: self.retry_delay_secs }
        } else {
            RetryNextView::GiveUp(
                ModelErrorView::MaxRetriesExceeded(self.max_retries, model_error_text(error)),
            )
        }
    }

    /// What is done after the `attempt`-th try failed with `error`.
    pub fn after_failure(&self, attempt: u32, error: ModelError) -> (r: RetryNext)
        ensures
            r@ == self.decision(attempt, error@),
    {
        if !ModelClient::is_retryable_error(&error) {
            RetryNext::GiveUp(error)
        } else if attempt <= self.max_retries {
            RetryNext::Retry { delay_secs: self.retry_delay_secs }
        } else {
            RetryNext::GiveUp(ModelError::MaxRetriesExceeded(self.max_retries, error.message()))
        }
    }
}

impl ModelError {
    /// The text of the error, as it is shown to a reader.
    pub fn message(&self) -> (r: String)
        ensures
            r@ == model_error_text(self@),
    {
        let mut out: Vec<char> = Vec::new();
        match self {
            ModelError::RequestFailed(t) => {
                push_str(&mut out, "HTTP request failed: ");
                push_str(&mut out, t.as_str());
            },
            ModelError::ParseError(t) => {
                push_str(&mut out, "Failed to parse response: ");
                push_str(&mut out, t.as_str());
            },
            ModelError::ApiError(t) => {
                push_str(&mut out, "API error: ");
                push_str(&mut out, t.as_str());
            },
            ModelError::MaxRetriesExceeded(n, t) => {
                push_str(&mut out, "Max retries exceeded after ");
                push_decimal(&mut out, *n as u128);
                push_str(&mut out, " attempts: ");
                push_str(&mut out, t.as_str());
            },
        }
        assert(out@ =~= model_error_text(self@));
        from_chars(&out)
    }
}

/// The reader of the model's answers.
pub struct ModelClient;

impl ModelClient {
    /// Whether a failure may pass, so that the request is worth another
    /// try.
    pub fn is_retryable_error(error: &ModelError) -> (r: bool)
        ensures
            r == retryable(error@),
    {
        match error {
            ModelError::RequestFailed(_) => true,
            ModelError::ApiError(msg) => {
                let text = to_chars(msg.as_str());
                let lower = to_chars(to_lowercase(msg.as_str()).as_str());
                contains_str(&text, "500") || contains_str(&text, "502") || contains_str(
                    &text,
                    "503",
                ) || contains_str(&text, "504") || contains_str(&text, "429") || contains_str(
                    &lower,
                    "timeout",
                ) || contains_str(&lower, "rate limit")
            },
            ModelError::ParseError(_) => false,
            ModelError::MaxRetriesExceeded(_, _) => false,
        }
    }

    /// Splits an answer into the thinking and the action.
    pub fn parse_response(content: &str) -> (r: (String, String))
        ensures
            (r.0@, r.1@) == split_response(content@),
    {
        parse_response(content)
    }
}

/// The first of two options that holds something.
pub open spec fn or_else(first: Option<Seq<char>>, second: Option<Seq<char>>) -> Option<
    Seq<char>,
> {
    match first {
        Some(t) => Some(t),
        None => second,
    }
}

/// The text of an answer, wherever the service put it: under
/// `choices[0].message.content`, `choices[0].text`, `message.content`,
/// `content`, `output`, `outputs[0].text`, `content[0].text`,
/// `response.text`, or under `result` as `text` or else `content`; the
/// first of these that is a string counts.
pub open spec fn answer_content(json: Seq<char>) -> Option<Seq<char>> {
    or_else(
        json_string_at(
            json,
            seq![Step::Key("choices"), Step::Index(0), Step::Key("message"), Step::Key("content")],
        ),
        or_else(
            json_string_at(json, seq![Step::Key("choices"), Step::Index(0), Step::Key("text")]),
            or_else(
                json_string_at(json, seq![Step::Key("message"), Step::Key("content")]),
                or_else(
                    json_string_at(json, seq![Step::Key("content")]),
                    or_else(
                        json_string_at(json, seq![Step::Key("output")]),
                        or_else(
                            json_string_at(
                                json,
                                seq![Step::Key("outputs"), Step::Index(0), Step::Key("text")],
                            ),
                            or_else(
                                json_string_at(
                                    json,
                                    seq![Step::Key("content"), Step::Index(0), Step::Key("text")],
                                ),
                                or_else(
                                    json_string_at(
                                        json,
                                        seq![Step::Key("response"), Step::Key("text")],
                                    ),
                                    result_content(json),
                                ),
                            ),
                        ),
                    ),
                ),
            ),
        ),
    )
}

/// The text under `result`: its member `text`, or else its member
/// `content`, where that one is a string.
pub open spec fn result_content(json: Seq<char>) -> Option<Seq<char>> {
    match json_member(json, "result"@) {
        Some(result) => match or_else(
            json_member(result, "text"@),
            json_member(result, "content"@),
        ) {
            Some(inner) => json_string_value(inner),
            None => None,
        },
        None => None,
    }
}

/// The characters of an optional string.
pub open spec fn text_view(s: Option<String>) -> Option<Seq<char>> {
    crate::actions::parser::option_view(s)
}

/// Looks for a string along a path of three or four steps.
fn look(json: &str, a: Step, b: Option<Step>, c: Option<Step>, d: Option<Step>) -> (r: Option<
    String,
>)
    requires
        b is None ==> c is None,
        c is None ==> d is None,
    ensures
        text_view(r) == json_string_at(
            json@,
            seq![a] + (match b {
                Some(s) => seq![s],
                None => Seq::empty(),
            }) + (match c {
                Some(s) => seq![s],
                None => Seq::empty(),
            }) + (match d {
                Some(s) => seq![s],
                None => Seq::empty(),
            }),
        ),
{
    let mut path: Vec<Step> = Vec::new();
    path.push(a);
    match b {
        Some(s) => path.push(s),
        None => {},
    }
    match c {
        Some(s) => path.push(s),
        None => {},
    }
    match d {
        Some(s) => path.push(s),
        None => {},
    }
    assert(path@ =~= seq![a] + (match b {
        Some(s) => seq![s],
        None => Seq::empty(),
    }) + (match c {
        Some(s) => seq![s],
        None => Seq::empty(),
    }) + (match d {
        Some(s) => seq![s],
        None => Seq::empty(),
    }));
    string_at(json, &path)
}

impl ModelClient {
    /// The text under `result` of an answer.
    fn extract_result(json: &str) -> (r: Option<String>)
        ensures
            text_view(r) == result_content(json@),
    {
        match member(json, "result") {
            Some(result) => {
                let inner = match member(result.as_str(), "text") {
                    Some(t) => Some(t),
                    None => member(result.as_str(), "content"),
                };
                match inner {
                    Some(t) => parse_string(t.as_str()),
                    None => None,
                }
            },
            None => None,
        }
    }

    /// The text of an answer, wherever the service put it.
    pub fn extract_content(json: &str) -> (r: Option<String>)
        ensures
            text_view(r) == answer_content(json@),
    {
        let none: Option<Step> = None;
        let r = look(
            json,
            Step::Key("choices"),
            Some(Step::Index(0)),
            Some(Step::Key("message")),
            Some(Step::Key("content")),
        );
        assert(seq![Step::Key("choices")] + seq![Step::Index(0)] + seq![Step::Key("message")]
            + seq![Step::Key("content")] =~= seq![
            Step::Key("choices"),
            Step::Index(0),
            Step::Key("message"),
            Step::Key("content"),
        ]);
        if r.is_some() {
            return r;
        }
        let r = look(json, Step::Key("choices"), Some(Step::Index(0)), Some(Step::Key("text")), none);
        assert(seq![Step::Key("choices")] + seq![Step::Index(0)] + seq![Step::Key("text")]
            + Seq::<Step>::empty() =~= seq![
            Step::Key("choices"),
            Step::Index(0),
            Step::Key("text"),
        ]);
        if r.is_some() {
            return r;
        }
        let r = look(json, Step::Key("message"), Some(Step::Key("content")), none, none);
        assert(seq![Step::Key("message")] + seq![Step::Key("content")] + Seq::<Step>::empty()
            + Seq::<Step>::empty() =~= seq![Step::Key("message"), Step::Key("content")]);
        if r.is_some() {
            return r;
        }
        let r = look(json, Step::Key("content"), none, none, none);
        assert(seq![Step::Key("content")] + Seq::<Step>::empty() + Seq::<Step>::empty()
            + Seq::<Step>::empty() =~= seq![Step::Key("content")]);
        if r.is_some() {
            return r;
        }
        let r = look(json, Step::Key("output"), none, none, none);
        assert(seq![Step::Key("output")] + Seq::<Step>::empty() + Seq::<Step>::empty()
            + Seq::<Step>::empty() =~= seq![Step::Key("output")]);
        if r.is_some() {
            return r;
        }
        let r = look(json, Step::Key("outputs"), Some(Step::Index(0)), Some(Step::Key("text")), none);
        assert(seq![Step::Key("outputs")] + seq![Step::Index(0)] + seq![Step::Key("text")]
            + Seq::<Step>::empty() =~= seq![
            Step::Key("outputs"),
            Step::Index(0),
            Step::Key("text"),
        ]);
        if r.is_some() {
            return r;
        }
        let r = look(json, Step::Key("content"), Some(Step::Index(0)), Some(Step::Key("text")), none);
        assert(seq![Step::Key("content")] + seq![Step::Index(0)] + seq![Step::Key("text")]
            + Seq::<Step>::empty() =~= seq![
            Step::Key("content"),
            Step::Index(0),
            Step::Key("text"),
        ]);
        if r.is_some() {
            return r;
        }
        let r = look(json, Step::Key("response"), Some(Step::Key("text")), none, none);
        assert(seq![Step::Key("response")] + seq![Step::Key("text")] + Seq::<Step>::empty()
            + Seq::<Step>::empty() =~= seq![Step::Key("response"), Step::Key("text")]);
        if r.is_some() {
            return r;
        }
        Self::extract_result(json)
    }
}

/// `text`, cut after five hundred characters and marked as cut where it is
/// longer.
pub open spec fn cut_for_error(text: Seq<char>) -> Seq<char> {
    if text.len() > 500 {
        text.take(500) + "...(truncated)"@
    } else {
        text
    }
}

/// What a chunk of a streamed answer adds to the text: the string under
/// `choices[0].delta.content`, or else under `choices[0].message.content`,
/// of the JSON that the chunk holds after the mark `data: `, where it has
/// one. A chunk that is the mark of the end, or holds none of these, adds
/// nothing.
pub open spec fn chunk_content(chunk: Seq<char>) -> Seq<char> {
    let json = if crate::text::has_prefix(chunk, "data: "@) {
        chunk.skip("data: "@.len() as int)
    } else {
        chunk
    };
    if chunk == "[DONE]"@ || json.len() == 0 || json == "[DONE]"@ {
        Seq::empty()
    } else {
        match or_else(
            json_string_at(
                json,
                seq![Step::Key("choices"), Step::Index(0), Step::Key("delta"), Step::Key("content")],
            ),
            json_string_at(
                json,
                seq![
                    Step::Key("choices"),
                    Step::Index(0),
                    Step::Key("message"),
                    Step::Key("content"),
                ],
            ),
        ) {
            Some(t) => t,
            None => Seq::empty(),
        }
    }
}

/// What the chunks add to the text, one after the other.
pub open spec fn chunks_content(chunks: Seq<Seq<char>>) -> Seq<char>
    decreases chunks.len(),
{
    if chunks.len() == 0 {
        Seq::empty()
    } else {
        chunks_content(chunks.drop_last()) + chunk_content(chunks.last())
    }
}

/// The chunks of a streamed answer: its lines that are not empty, once
/// objects that stand back to back are put on lines of their own.
pub open spec fn stream_chunks(text: Seq<char>) -> Seq<Seq<char>> {
    crate::text::filled_lines(crate::text::replace_all(text, "}{"@, "}\n{"@))
}

/// The text of a streamed answer.
pub open spec fn streamed_content(text: Seq<char>) -> Seq<char> {
    chunks_content(stream_chunks(text))
}

/// Whether an answer looks streamed: objects stand back to back in it, or
/// it speaks of chunks.
pub open spec fn looks_streamed(text: Seq<char>) -> bool {
    contains(text, "}{"@) || contains(text, "chat.completion.chunk"@)
}

/// What is made of the service's answer to a request: the status says
/// whether it is a refusal; an answer that looks streamed is put together
/// from its chunks; any other must be JSON and hold the text somewhere.
pub open spec fn response_of(success: bool, status: Seq<char>, body: Seq<char>) -> Result<
    (Seq<char>, Seq<char>, Seq<char>),
    ModelErrorView,
> {
    if !success {
        Err(ModelErrorView::ApiError("HTTP "@ + status + ": "@ + body))
    } else if looks_streamed(body) {
        if streamed_content(body).len() == 0 {
            Err(
                ModelErrorView::ParseError(
                    "No content found in streaming response. Chunks: "@ + cut_for_error(body),
                ),
            )
        } else {
            Ok(
                (
                    split_response(streamed_content(body)).0,
                    split_response(streamed_content(body)).1,
                    streamed_content(body),
                ),
            )
        }
    } else {
        match json_error_text(body) {
            Some(e) => Err(
                ModelErrorView::ParseError(
                    "Failed to parse JSON: "@ + e + ". Response: "@ + cut_for_error(body),
                ),
            ),
            None => match answer_content(body) {
                Some(content) => Ok(
                    (split_response(content).0, split_response(content).1, content),
                ),
                None => Err(
                    ModelErrorView::ParseError(
                        "Could not find content in response. Structure: "@ + cut_for_error(body),
                    ),
                ),
            },
        }
    }
}

/// The answer or the error of `r`, as mathematical values.
pub open spec fn response_view(r: Result<ModelResponse, ModelError>) -> Result<
    (Seq<char>, Seq<char>, Seq<char>),
    ModelErrorView,
> {
    match r {
        Ok(answer) => Ok((answer.thinking@, answer.action@, answer.raw_content@)),
        Err(e) => Err(e@),
    }
}

impl ModelClient {
    /// `text`, cut for an error message.
    pub fn truncate_for_error(text: &str) -> (r: String)
        ensures
            r@ == cut_for_error(text@),
    {
        let chars = to_chars(text);
        if chars.len() > 500 {
            let mut out = copy_range(&chars, 0, 500);
            assert(chars@.take(500) == chars@.subrange(0, 500));
            push_str(&mut out, "...(truncated)");
            from_chars(&out)
        } else {
            String::from_str(text)
        }
    }

    /// What a chunk of a streamed answer adds to the text.
    fn read_chunk(chunk: &Vec<char>) -> (r: String)
        ensures
            r@ == chunk_content(chunk@),
    {
        proof {
            reveal_strlit("data: ");
        }
        let done = to_chars("[DONE]");
        let json = if crate::text::starts_with_str(chunk, "data: ") {
            assert(chunk@.skip(6) == chunk@.subrange(6, chunk.len() as int));
            crate::text::slice_to_string(chunk, 6, chunk.len())
        } else {
            from_chars(chunk)
        };
        if crate::text::chars_eq(chunk, &done) || json.as_str().is_empty() || crate::text::str_eq(
            json.as_str(),
            "[DONE]",
        ) {
            return String::new();
        }
        let none: Option<Step> = None;
        let delta = look(
            json.as_str(),
            Step::Key("choices"),
            Some(Step::Index(0)),
            Some(Step::Key("delta")),
            Some(Step::Key("content")),
        );
        assert(seq![Step::Key("choices")] + seq![Step::Index(0)] + seq![Step::Key("delta")]
            + seq![Step::Key("content")] =~= seq![
            Step::Key("choices"),
            Step::Index(0),
            Step::Key("delta"),
            Step::Key("content"),
        ]);
        match delta {
            Some(t) => t,
            None => {
                let message = look(
                    json.as_str(),
                    Step::Key("choices"),
                    Some(Step::Index(0)),
                    Some(Step::Key("message")),
                    Some(Step::Key("content")),
                );
                assert(seq![Step::Key("choices")] + seq![Step::Index(0)] + seq![
                    Step::Key("message"),
                ] + seq![Step::Key("content")] =~= seq![
                    Step::Key("choices"),
                    Step::Index(0),
                    Step::Key("message"),
                    Step::Key("content"),
                ]);
                match message {
                    Some(t) => t,
                    None => String::new(),
                }
            },
        }
    }

    /// The text of a streamed answer; the error that says so where it
    /// holds none.
    pub fn parse_streaming_response(response_text: &str) -> (r: Result<String, ModelError>)
        ensures
            match r {
                Ok(content) => content@ == streamed_content(response_text@) && content@.len() > 0,
                Err(e) => streamed_content(response_text@).len() == 0 && e@
                    == ModelErrorView::ParseError(
                    "No content found in streaming response. Chunks: "@ + cut_for_error(
                        response_text@,
                    ),
                ),
            },
    {
        proof {
            reveal_strlit("}{");
        }
        let text = to_chars(response_text);
        let fixed = crate::text::replace_all_str(&text, "}{", "}\n{");
        let chunks = crate::text::nonempty_lines(&fixed);
        let ghost all = crate::text::lines_view(chunks@);
        let mut combined: Vec<char> = Vec::new();
        let mut i: usize = 0;
        assert(all.take(0) =~= Seq::empty());
        while i < chunks.len()
            invariant
                i <= chunks.len(),
                all == crate::text::lines_view(chunks@),
                combined@ == chunks_content(all.take(i as int)),
            decreases chunks.len() - i,
        {
            assert(all.take(i + 1).drop_last() == all.take(i as int));
            assert(all.take(i + 1).last() == chunks@[i as int]@);
            let part = Self::read_chunk(&chunks[i]);
            push_str(&mut combined, part.as_str());
            i += 1;
        }
        assert(all.take(chunks.len() as int) == all);
        if combined.len() == 0 {
            let mut message = to_chars("No content found in streaming response. Chunks: ");
            push_str(&mut message, Self::truncate_for_error(response_text).as_str());
            Err(ModelError::ParseError(from_chars(&message)))
        } else {
            Ok(from_chars(&combined))
        }
    }

    /// What is made of the service's answer to a request. `success` says
    /// whether the status `status` is one of success; `body` is what came.
    pub fn read_response(success: bool, status: &str, body: &str) -> (r: Result<
        ModelResponse,
        ModelError,
    >)
        ensures
            response_view(r) == response_of(success, status@, body@),
    {
        if !success {
            let mut message = to_chars("HTTP ");
            push_str(&mut message, status);
            push_str(&mut message, ": ");
            push_str(&mut message, body);
            return Err(ModelError::ApiError(from_chars(&message)));
        }
        let chars = to_chars(body);
        let content = if contains_str(&chars, "}{") || contains_str(
            &chars,
            "chat.completion.chunk",
        ) {
            match Self::parse_streaming_response(body) {
                Ok(content) => content,
                Err(e) => {
                    return Err(e);
                },
            }
        } else {
            match parse_error(body) {
                Some(e) => {
                    let mut message = to_chars("Failed to parse JSON: ");
                    push_str(&mut message, e.as_str());
                    push_str(&mut message, ". Response: ");
                    push_str(&mut message, Self::truncate_for_error(body).as_str());
                    return Err(ModelError::ParseError(from_chars(&message)));
                },
                None => {},
            }
            match Self::extract_content(body) {
                Some(content) => content,
                None => {
                    let mut message = to_chars("Could not find content in response. Structure: ");
                    push_str(&mut message, Self::truncate_for_error(body).as_str());
                    return Err(ModelError::ParseError(from_chars(&message)));
                },
            }
        };
        let (thinking, action) = parse_response(content.as_str());
        Ok(ModelResponse { thinking, action, raw_content: content })
    }
}

} // verus!
