//! The messages exchanged with the worker, one JSON document per line.
//!
//! Outbound messages are turned into documents whose shape is stated field by
//! field; inbound lines are decoded into [`Response`], and a line that does not
//! decode is reported, never fatal.

use vstd::prelude::*;
use crate::cli::RequestConfig;
use crate::cli::RequestConfigView;
use crate::json::json_parse;
use crate::json::json_text;
use crate::json::lemma_lookup_at;
use crate::json::list_view;
use crate::json::put;
use crate::json::Json;
use crate::json::JsonValue;
use crate::text::same_text;

verus! {

/// The protocol version that requests carry.
pub const PROTOCOL_VERSION: &'static str = "v1";

/// The message that opens a run; it is the first line the worker reads.
#[derive(Debug, PartialEq)]
pub struct Request {
    pub version: &'static str,
    pub run_id: String,
    pub query: String,
    pub config: RequestConfig,
}

/// The value of a [`Request`].
pub ghost struct RequestView {
    pub version: Seq<char>,
    pub run_id: Seq<char>,
    pub query: Seq<char>,
    pub config: RequestConfigView,
}

impl View for Request {
    type V = RequestView;

    open spec fn view(&self) -> RequestView {
        RequestView {
            version: self.version@,
            run_id: self.run_id@,
            query: self.query@,
            config: self.config@,
        }
    }
}

/// One question that the worker asks before it starts.
#[derive(Debug, PartialEq)]
pub struct ClarifyingQuestion {
    pub label: String,
    pub question: String,
}

/// The value of a [`ClarifyingQuestion`].
pub ghost struct ClarifyingQuestionView {
    pub label: Seq<char>,
    pub question: Seq<char>,
}

impl View for ClarifyingQuestion {
    type V = ClarifyingQuestionView;

    open spec fn view(&self) -> ClarifyingQuestionView {
        ClarifyingQuestionView { label: self.label@, question: self.question@ }
    }
}

impl DeepView for ClarifyingQuestion {
    type V = ClarifyingQuestionView;

    open spec fn deep_view(&self) -> ClarifyingQuestionView {
        self@
    }
}

impl Clone for ClarifyingQuestion {
    fn clone(&self) -> (r: Self)
        ensures
            r@ == self@,
    {
        ClarifyingQuestion { label: self.label.clone(), question: self.question.clone() }
    }
}

/// The answers to one round of questions, in the order of the questions.
#[derive(Clone, Debug, PartialEq)]
pub struct ClarifyingAnswers {
    pub answers: Vec<String>,
}

/// How many tokens one agent call used.
#[derive(Clone, Copy, Debug, PartialEq, Eq)]
pub struct TokenUsage {
    pub prompt_tokens: u32,
    pub completion_tokens: u32,
    pub total_tokens: u32,
}

/// What the user may ask of a running worker.
#[derive(Clone, Copy, Debug, PartialEq, Eq)]
pub enum InterruptCommand {
    Stop,
    Pause,
    ForceWrite,
}

/// A control message to a running worker.
#[derive(Debug, PartialEq)]
pub struct Interrupt {
    pub msg_type: &'static str,
    pub command: InterruptCommand,
}

/// One event from the worker.
#[derive(Clone, Debug, PartialEq)]
pub enum Response {
    Status { message: String },
    Trace { trace_id: String, trace_url: String },
    ClarifyingQuestions { questions: Vec<ClarifyingQuestion> },
    Prompt { agent: String, sequence: u32, content: String },
    AgentOutput { agent: String, sequence: u32, content: String, token_usage: Option<TokenUsage> },
    Decision { action: String, reason: String, remaining_searches: u32, remaining_iterations: u32 },
    Report { short_summary: String, markdown_report: String, follow_up_questions: Vec<String> },
    Metadata { model: String, total_tokens: Option<u32>, duration_ms: u64 },
    Error { message: String, code: Option<String> },
    Done { success: bool },
}

/// The value of a [`Response`].
pub ghost enum ResponseView {
    Status { message: Seq<char> },
    Trace { trace_id: Seq<char>, trace_url: Seq<char> },
    ClarifyingQuestions { questions: Seq<ClarifyingQuestionView> },
    Prompt { agent: Seq<char>, sequence: u32, content: Seq<char> },
    AgentOutput {
        agent: Seq<char>,
        sequence: u32,
        content: Seq<char>,
        token_usage: Option<TokenUsage>,
    },
    Decision {
        action: Seq<char>,
        reason: Seq<char>,
        remaining_searches: u32,
        remaining_iterations: u32,
    },
    Report {
        short_summary: Seq<char>,
        markdown_report: Seq<char>,
        follow_up_questions: Seq<Seq<char>>,
    },
    Metadata { model: Seq<char>, total_tokens: Option<u32>, duration_ms: u64 },
    Error { message: Seq<char>, code: Option<Seq<char>> },
    Done { success: bool },
}

impl View for Response {
    type V = ResponseView;

    open spec fn view(&self) -> ResponseView {
        match self {
            Response::Status { message } => ResponseView::Status { message: message@ },
            Response::Trace { trace_id, trace_url } => ResponseView::Trace {
                trace_id: trace_id@,
                trace_url: trace_url@,
            },
            Response::ClarifyingQuestions { questions } => ResponseView::ClarifyingQuestions {
                questions: questions.deep_view(),
            },
            Response::Prompt { agent, sequence, content } => ResponseView::Prompt {
                agent: agent@,
                sequence: *sequence,
                content: content@,
            },
            Response::AgentOutput {
                agent,
                sequence,
                content,
                token_usage,
            } => ResponseView::AgentOutput {
                agent: agent@,
                sequence: *sequence,
                content: content@,
                token_usage: *token_usage,
            },
            Response::Decision {
                action,
                reason,
                remaining_searches,
                remaining_iterations,
            } => ResponseView::Decision {
                action: action@,
                reason: reason@,
                remaining_searches: *remaining_searches,
                remaining_iterations: *remaining_iterations,
            },
            Response::Report {
                short_summary,
                markdown_report,
                follow_up_questions,
            } => ResponseView::Report {
                short_summary: short_summary@,
                markdown_report: markdown_report@,
                follow_up_questions: follow_up_questions.deep_view(),
            },
            Response::Metadata { model, total_tokens, duration_ms } => ResponseView::Metadata {
                model: model@,
                total_tokens: *total_tokens,
                duration_ms: *duration_ms,
            },
            Response::Error { message, code } => ResponseView::Error {
                message: message@,
                code: code.deep_view(),
            },
            Response::Done { success } => ResponseView::Done { success: *success },
        }
    }
}

/// What is known of a run when it ends.
#[derive(Clone, Debug, PartialEq)]
pub struct RunMetadata {
    pub run_id: String,
    pub model: Option<String>,
    pub total_tokens: Option<u32>,
    pub duration_ms: u64,
    pub trace_id: Option<String>,
    pub trace_url: Option<String>,
}

/// The value of a [`RunMetadata`].
pub ghost struct RunMetadataView {
    pub run_id: Seq<char>,
    pub model: Option<Seq<char>>,
    pub total_tokens: Option<u32>,
    pub duration_ms: u64,
    pub trace_id: Option<Seq<char>>,
    pub trace_url: Option<Seq<char>>,
}

impl View for RunMetadata {
    type V = RunMetadataView;

    open spec fn view(&self) -> RunMetadataView {
        RunMetadataView {
            run_id: self.run_id@,
            model: self.model.deep_view(),
            total_tokens: self.total_tokens,
            duration_ms: self.duration_ms,
            trace_id: self.trace_id.deep_view(),
            trace_url: self.trace_url.deep_view(),
        }
    }
}

/// A list of texts as a JSON list.
pub open spec fn texts_json(texts: Seq<Seq<char>>) -> JsonValue {
    JsonValue::List(Seq::new(texts.len(), |i: int| JsonValue::Text(texts[i])))
}

/// A text that may be missing: the text, or `null`.
pub open spec fn optional_text_json(text: Option<Seq<char>>) -> JsonValue {
    match text {
        Some(t) => JsonValue::Text(t),
        None => JsonValue::Null,
    }
}

/// A number that may be missing: the number, or `null`.
pub open spec fn optional_u32_json(n: Option<u32>) -> JsonValue {
    match n {
        Some(n) => JsonValue::Integer(n as u64),
        None => JsonValue::Null,
    }
}

/// The settings as they stand in a request.
pub open spec fn config_json(c: RequestConfigView) -> JsonValue {
    JsonValue::Record(
        seq![
            ("model"@, JsonValue::Text(c.model)),
            ("search_count"@, JsonValue::Integer(c.search_count as u64)),
            ("max_iterations"@, JsonValue::Integer(c.max_iterations as u64)),
            ("max_searches"@, JsonValue::Integer(c.max_searches as u64)),
            ("auto_decide"@, JsonValue::Bool(c.auto_decide)),
        ],
    )
}

/// The document of a request: `version`, `run_id`, `query`, `config`.
pub open spec fn request_json(r: RequestView) -> JsonValue {
    JsonValue::Record(
        seq![
            ("version"@, JsonValue::Text(r.version)),
            ("run_id"@, JsonValue::Text(r.run_id)),
            ("query"@, JsonValue::Text(r.query)),
            ("config"@, config_json(r.config)),
        ],
    )
}

/// The document of a round of answers: the one field `answers`.
pub open spec fn answers_json(answers: Seq<Seq<char>>) -> JsonValue {
    JsonValue::Record(seq![("answers"@, texts_json(answers))])
}

/// The wire name of a command.
pub open spec fn command_name(command: InterruptCommand) -> Seq<char> {
    match command {
        InterruptCommand::Stop => "stop"@,
        InterruptCommand::Pause => "pause"@,
        InterruptCommand::ForceWrite => "force_write"@,
    }
}

/// The document of a control message: `type`, then `command`.
pub open spec fn interrupt_json(msg_type: Seq<char>, command: InterruptCommand) -> JsonValue {
    JsonValue::Record(
        seq![
            ("type"@, JsonValue::Text(msg_type)),
            ("command"@, JsonValue::Text(command_name(command))),
        ],
    )
}

/// The document of a token count.
pub open spec fn usage_json(u: TokenUsage) -> JsonValue {
    JsonValue::Record(
        seq![
            ("prompt_tokens"@, JsonValue::Integer(u.prompt_tokens as u64)),
            ("completion_tokens"@, JsonValue::Integer(u.completion_tokens as u64)),
            ("total_tokens"@, JsonValue::Integer(u.total_tokens as u64)),
        ],
    )
}

/// The document of a run's metadata; what is missing stands as `null`.
pub open spec fn metadata_json(m: RunMetadataView) -> JsonValue {
    JsonValue::Record(
        seq![
            ("run_id"@, JsonValue::Text(m.run_id)),
            ("model"@, optional_text_json(m.model)),
            ("total_tokens"@, optional_u32_json(m.total_tokens)),
            ("duration_ms"@, JsonValue::Integer(m.duration_ms)),
            ("trace_id"@, optional_text_json(m.trace_id)),
            ("trace_url"@, optional_text_json(m.trace_url)),
        ],
    )
}

/// The text of a document, or the empty text where it has none.
pub open spec fn text_or_empty(text: Option<Seq<char>>) -> Seq<char> {
    match text {
        Some(t) => t,
        None => Seq::empty(),
    }
}

/// A list of texts as a JSON list.
pub fn texts_to_json(texts: &Vec<String>) -> (r: Json)
    ensures
        r@ == texts_json(texts.deep_view()),
{
    let mut items: Vec<Json> = Vec::new();
    let mut i: usize = 0;
    while i < texts.len()
        invariant
            i <= texts.len(),
            items@.len() == i,
            forall|j: int| 0 <= j < i ==> (#[trigger] items@[j])@ == JsonValue::Text(texts@[j]@),
        decreases texts.len() - i,
    {
        items.push(Json::Text(texts[i].clone()));
        i += 1;
    }
    let r = Json::list(items);
    assert(r@->List_0 =~= texts_json(texts.deep_view())->List_0);
    r
}

fn optional_text_to_json(text: &Option<String>) -> (r: Json)
    ensures
        r@ == optional_text_json(text.deep_view()),
{
    match text {
        Some(t) => Json::Text(t.clone()),
        None => Json::Null,
    }
}

fn optional_u32_to_json(n: Option<u32>) -> (r: Json)
    ensures
        r@ == optional_u32_json(n),
{
    match n {
        Some(n) => Json::Integer(n as u64),
        None => Json::Null,
    }
}

impl RequestConfig {
    /// The settings as a document.
    pub fn to_json(&self) -> (r: Json)
        ensures
            r@ == config_json(self@),
    {
        let mut fields: Vec<(String, Json)> = Vec::new();
        put(&mut fields, "model", Json::Text(self.model.clone()));
        put(&mut fields, "search_count", Json::Integer(self.search_count as u64));
        put(&mut fields, "max_iterations", Json::Integer(self.max_iterations as u64));
        put(&mut fields, "max_searches", Json::Integer(self.max_searches as u64));
        put(&mut fields, "auto_decide", Json::Bool(self.auto_decide));
        let r = Json::record(fields);
        assert(r@->Record_0 =~= config_json(self@)->Record_0);
        r
    }
}

impl Request {
    /// The request as a document.
    pub fn to_json(&self) -> (r: Json)
        ensures
            r@ == request_json(self@),
    {
        let mut fields: Vec<(String, Json)> = Vec::new();
        put(&mut fields, "version", Json::text(self.version));
        put(&mut fields, "run_id", Json::Text(self.run_id.clone()));
        put(&mut fields, "query", Json::Text(self.query.clone()));
        put(&mut fields, "config", self.config.to_json());
        let r = Json::record(fields);
        assert(r@->Record_0 =~= request_json(self@)->Record_0);
        r
    }
}

impl ClarifyingAnswers {
    /// The answers as a document.
    pub fn to_json(&self) -> (r: Json)
        ensures
            r@ == answers_json(self.answers.deep_view()),
    {
        let mut fields: Vec<(String, Json)> = Vec::new();
        put(&mut fields, "answers", texts_to_json(&self.answers));
        let r = Json::record(fields);
        assert(r@->Record_0 =~= answers_json(self.answers.deep_view())->Record_0);
        r
    }
}

impl TokenUsage {
    /// The token count as a document.
    pub fn to_json(&self) -> (r: Json)
        ensures
            r@ == usage_json(*self),
    {
        let mut fields: Vec<(String, Json)> = Vec::new();
        put(&mut fields, "prompt_tokens", Json::Integer(self.prompt_tokens as u64));
        put(&mut fields, "completion_tokens", Json::Integer(self.completion_tokens as u64));
        put(&mut fields, "total_tokens", Json::Integer(self.total_tokens as u64));
        let r = Json::record(fields);
        assert(r@->Record_0 =~= usage_json(*self)->Record_0);
        r
    }
}

impl InterruptCommand {
    /// The wire name of the command.
    pub fn name(&self) -> (r: &'static str)
        ensures
            r@ == command_name(*self),
    {
        match self {
            InterruptCommand::Stop => "stop",
            InterruptCommand::Pause => "pause",
            InterruptCommand::ForceWrite => "force_write",
        }
    }
}

impl Interrupt {
    /// A control message that carries `command`.
    pub fn new(command: InterruptCommand) -> (r: Self)
        ensures
            r.msg_type@ == "interrupt"@,
            r.command == command,
    {
        Interrupt { msg_type: "interrupt", command }
    }

    /// The message as a document.
    pub fn to_document(&self) -> (r: Json)
        ensures
            r@ == interrupt_json(self.msg_type@, self.command),
    {
        let mut fields: Vec<(String, Json)> = Vec::new();
        put(&mut fields, "type", Json::text(self.msg_type));
        put(&mut fields, "command", Json::text(self.command.name()));
        let r = Json::record(fields);
        assert(r@->Record_0 =~= interrupt_json(self.msg_type@, self.command)->Record_0);
        r
    }

    /// The message on one line, without the line end; empty where the
    /// document cannot be written.
    pub fn to_json(&self) -> (r: String)
        ensures
            r@ == text_or_empty(json_text(interrupt_json(self.msg_type@, self.command))),
    {
        match self.to_document().to_text() {
            Ok(s) => s,
            Err(_) => String::new(),
        }
    }
}

impl RunMetadata {
    /// The metadata as a document.
    pub fn to_json(&self) -> (r: Json)
        ensures
            r@ == metadata_json(self@),
    {
        let mut fields: Vec<(String, Json)> = Vec::new();
        put(&mut fields, "run_id", Json::Text(self.run_id.clone()));
        put(&mut fields, "model", optional_text_to_json(&self.model));
        put(&mut fields, "total_tokens", optional_u32_to_json(self.total_tokens));
        put(&mut fields, "duration_ms", Json::Integer(self.duration_ms));
        put(&mut fields, "trace_id", optional_text_to_json(&self.trace_id));
        put(&mut fields, "trace_url", optional_text_to_json(&self.trace_url));
        let r = Json::record(fields);
        assert(r@->Record_0 =~= metadata_json(self@)->Record_0);
        r
    }
}

/// Why a line from the worker is no event.
#[derive(Clone, Debug, PartialEq)]
pub enum DecodeError {
    /// The line is not one JSON document.
    Syntax { message: String },
    /// The document has no text field `type`.
    MissingTag,
    /// The field `type` names no known kind of event.
    UnknownTag { tag: String },
    /// The kind is known, but a field that it needs is missing or of the wrong type.
    InvalidFields { tag: String },
}

/// The value of a [`DecodeError`]; the parser's message is left out.
pub ghost enum DecodeErrorView {
    Syntax,
    MissingTag,
    UnknownTag { tag: Seq<char> },
    InvalidFields { tag: Seq<char> },
}

impl View for DecodeError {
    type V = DecodeErrorView;

    open spec fn view(&self) -> DecodeErrorView {
        match self {
            DecodeError::Syntax { .. } => DecodeErrorView::Syntax,
            DecodeError::MissingTag => DecodeErrorView::MissingTag,
            DecodeError::UnknownTag { tag } => DecodeErrorView::UnknownTag { tag: tag@ },
            DecodeError::InvalidFields { tag } => DecodeErrorView::InvalidFields { tag: tag@ },
        }
    }
}

/// A question as a document holds it: two text fields, `label` and `question`.
pub open spec fn question_of(j: JsonValue) -> Option<ClarifyingQuestionView> {
    match (j.text_at("label"@), j.text_at("question"@)) {
        (Some(label), Some(question)) => Some(ClarifyingQuestionView { label, question }),
        _ => None,
    }
}

/// A list of questions, where every item is one.
pub open spec fn questions_of(items: Seq<JsonValue>) -> Option<Seq<ClarifyingQuestionView>> {
    if forall|i: int| 0 <= i < items.len() ==> (#[trigger] question_of(items[i])) is Some {
        Some(Seq::new(items.len(), |i: int| question_of(items[i])->0))
    } else {
        None
    }
}

/// A list of texts, where every item is one.
pub open spec fn texts_of(items: Seq<JsonValue>) -> Option<Seq<Seq<char>>> {
    if forall|i: int| 0 <= i < items.len() ==> (#[trigger] items[i].as_text()) is Some {
        Some(Seq::new(items.len(), |i: int| items[i].as_text()->0))
    } else {
        None
    }
}

/// A token count as a document holds it: three numbers.
pub open spec fn usage_of(j: JsonValue) -> Option<TokenUsage> {
    match (j.u32_at("prompt_tokens"@), j.u32_at("completion_tokens"@), j.u32_at("total_tokens"@)) {
        (Some(prompt_tokens), Some(completion_tokens), Some(total_tokens)) => Some(
            TokenUsage { prompt_tokens, completion_tokens, total_tokens },
        ),
        _ => None,
    }
}

/// A field that may be missing or `null`: then the outcome is `Some(None)`;
/// where it is present, it has to decode, else the outcome is `None`.
pub open spec fn optional_usage_at(j: JsonValue, key: Seq<char>) -> Option<Option<TokenUsage>> {
    match j.present(key) {
        None => Some(None),
        Some(u) => match usage_of(u) {
            Some(usage) => Some(Some(usage)),
            None => None,
        },
    }
}

/// A number that may be missing or `null`; where it is present, it has to be one.
pub open spec fn optional_u32_at(j: JsonValue, key: Seq<char>) -> Option<Option<u32>> {
    match j.present(key) {
        None => Some(None),
        Some(n) => match n.as_u32() {
            Some(n) => Some(Some(n)),
            None => None,
        },
    }
}

/// A text that may be missing or `null`; where it is present, it has to be one.
pub open spec fn optional_text_at(j: JsonValue, key: Seq<char>) -> Option<Option<Seq<char>>> {
    match j.present(key) {
        None => Some(None),
        Some(t) => match t.as_text() {
            Some(t) => Some(Some(t)),
            None => None,
        },
    }
}

/// A `status` event: `message`.
pub open spec fn status_of(j: JsonValue) -> Option<ResponseView> {
    match j.text_at("message"@) {
        Some(message) => Some(ResponseView::Status { message }),
        None => None,
    }
}

/// A `trace` event: `trace_id` and `trace_url`.
pub open spec fn trace_of(j: JsonValue) -> Option<ResponseView> {
    match (j.text_at("trace_id"@), j.text_at("trace_url"@)) {
        (Some(trace_id), Some(trace_url)) => Some(ResponseView::Trace { trace_id, trace_url }),
        _ => None,
    }
}

/// A `clarifying_questions` event: `questions`, a list of questions.
pub open spec fn clarifying_of(j: JsonValue) -> Option<ResponseView> {
    match j.list_at("questions"@) {
        Some(items) => match questions_of(items) {
            Some(questions) => Some(ResponseView::ClarifyingQuestions { questions }),
            None => None,
        },
        None => None,
    }
}

/// A `prompt` event: `agent`, `sequence` and `content`.
pub open spec fn prompt_of(j: JsonValue) -> Option<ResponseView> {
    match (j.text_at("agent"@), j.u32_at("sequence"@), j.text_at("content"@)) {
        (Some(agent), Some(sequence), Some(content)) => Some(
            ResponseView::Prompt { agent, sequence, content },
        ),
        _ => None,
    }
}

/// A `raw_response` event: `agent`, `sequence`, `content` and, optionally, `token_usage`.
pub open spec fn agent_output_of(j: JsonValue) -> Option<ResponseView> {
    match (
        j.text_at("agent"@),
        j.u32_at("sequence"@),
        j.text_at("content"@),
        optional_usage_at(j, "token_usage"@),
    ) {
        (Some(agent), Some(sequence), Some(content), Some(token_usage)) => Some(
            ResponseView::AgentOutput { agent, sequence, content, token_usage },
        ),
        _ => None,
    }
}

/// A `decision` event: `action`, `reason`, `remaining_searches` and `remaining_iterations`.
pub open spec fn decision_of(j: JsonValue) -> Option<ResponseView> {
    match (
        j.text_at("action"@),
        j.text_at("reason"@),
        j.u32_at("remaining_searches"@),
        j.u32_at("remaining_iterations"@),
    ) {
        (Some(action), Some(reason), Some(remaining_searches), Some(remaining_iterations)) => Some(
            ResponseView::Decision { action, reason, remaining_searches, remaining_iterations },
        ),
        _ => None,
    }
}

/// A `report` event: `short_summary`, `markdown_report` and `follow_up_questions`, a list of texts.
pub open spec fn report_of(j: JsonValue) -> Option<ResponseView> {
    match (j.text_at("short_summary"@), j.text_at("markdown_report"@), j.list_at("follow_up_questions"@)) {
        (Some(short_summary), Some(markdown_report), Some(items)) => match texts_of(items) {
            Some(follow_up_questions) => Some(
                ResponseView::Report { short_summary, markdown_report, follow_up_questions },
            ),
            None => None,
        },
        _ => None,
    }
}

/// A `metadata` event: `model`, `duration_ms` and, optionally, `total_tokens`.
pub open spec fn metadata_of(j: JsonValue) -> Option<ResponseView> {
    match (j.text_at("model"@), optional_u32_at(j, "total_tokens"@), j.u64_at("duration_ms"@)) {
        (Some(model), Some(total_tokens), Some(duration_ms)) => Some(
            ResponseView::Metadata { model, total_tokens, duration_ms },
        ),
        _ => None,
    }
}

/// An `error` event: `message` and, optionally, `code`.
pub open spec fn error_of(j: JsonValue) -> Option<ResponseView> {
    match (j.text_at("message"@), optional_text_at(j, "code"@)) {
        (Some(message), Some(code)) => Some(ResponseView::Error { message, code }),
        _ => None,
    }
}

/// A `done` event: `success`.
pub open spec fn done_of(j: JsonValue) -> Option<ResponseView> {
    match j.bool_at("success"@) {
        Some(success) => Some(ResponseView::Done { success }),
        None => None,
    }
}

/// Whether `tag` names a kind of event.
pub open spec fn known_tag(tag: Seq<char>) -> bool {
    ||| tag == "status"@
    ||| tag == "trace"@
    ||| tag == "clarifying_questions"@
    ||| tag == "prompt"@
    ||| tag == "raw_response"@
    ||| tag == "decision"@
    ||| tag == "report"@
    ||| tag == "metadata"@
    ||| tag == "error"@
    ||| tag == "done"@
}

/// The event of kind `tag` that a document holds, where its fields fit.
pub open spec fn fields_of(tag: Seq<char>, j: JsonValue) -> Option<ResponseView> {
    if tag == "status"@ {
        status_of(j)
    } else if tag == "trace"@ {
        trace_of(j)
    } else if tag == "clarifying_questions"@ {
        clarifying_of(j)
    } else if tag == "prompt"@ {
        prompt_of(j)
    } else if tag == "raw_response"@ {
        agent_output_of(j)
    } else if tag == "decision"@ {
        decision_of(j)
    } else if tag == "report"@ {
        report_of(j)
    } else if tag == "metadata"@ {
        metadata_of(j)
    } else if tag == "error"@ {
        error_of(j)
    } else if tag == "done"@ {
        done_of(j)
    } else {
        None
    }
}

/// What a document decodes to: the event named by its field `type`, or the
/// reason why it is none. Fields that the kind does not know are ignored.
pub open spec fn response_of(j: JsonValue) -> Result<ResponseView, DecodeErrorView> {
    match j.text_at("type"@) {
        None => Err(DecodeErrorView::MissingTag),
        Some(tag) => if !known_tag(tag) {
            Err(DecodeErrorView::UnknownTag { tag })
        } else {
            match fields_of(tag, j) {
                Some(r) => Ok(r),
                None => Err(DecodeErrorView::InvalidFields { tag }),
            }
        },
    }
}

/// What a line decodes to.
pub open spec fn line_response(line: Seq<char>) -> Result<ResponseView, DecodeErrorView> {
    match json_parse(line) {
        None => Err(DecodeErrorView::Syntax),
        Some(j) => response_of(j),
    }
}

/// The outcome of a decoding step against what the specification gives.
pub open spec fn decoded_as(
    r: Result<Response, DecodeError>,
    expected: Result<ResponseView, DecodeErrorView>,
) -> bool {
    match r {
        Ok(response) => expected == Ok::<ResponseView, DecodeErrorView>(response@),
        Err(e) => expected == Err::<ResponseView, DecodeErrorView>(e@),
    }
}

fn decode_question(j: &Json) -> (r: Option<ClarifyingQuestion>)
    ensures
        r.deep_view() == question_of(j@),
{
    match (j.text_at("label"), j.text_at("question")) {
        (Some(label), Some(question)) => Some(ClarifyingQuestion { label, question }),
        _ => None,
    }
}

fn decode_questions(items: &Vec<Json>) -> (r: Option<Vec<ClarifyingQuestion>>)
    ensures
        r.deep_view() == questions_of(list_view(items@)),
{
    let ghost all = list_view(items@);
    let mut questions: Vec<ClarifyingQuestion> = Vec::new();
    let mut i: usize = 0;
    while i < items.len()
        invariant
            i <= items.len(),
            all == list_view(items@),
            questions@.len() == i,
            forall|j: int| 0 <= j < i ==> question_of(all[j]) == Some((#[trigger] questions@[j])@),
        decreases items.len() - i,
    {
        assert(all[i as int] == items@[i as int]@);
        match decode_question(&items[i]) {
            Some(q) => {
                questions.push(q);
            },
            None => {
                assert(question_of(all[i as int]) is None);
                return None;
            },
        }
        i += 1;
    }
    proof {
        assert forall|j: int| 0 <= j < all.len() implies (#[trigger] question_of(all[j]))
            == Some(questions.deep_view()[j]) by {
            assert(question_of(all[j]) == Some(questions@[j]@));
        }
        assert(questions.deep_view() =~= questions_of(all)->0);
    }
    Some(questions)
}

fn decode_texts(items: &Vec<Json>) -> (r: Option<Vec<String>>)
    ensures
        r.deep_view() == texts_of(list_view(items@)),
{
    let ghost all = list_view(items@);
    let mut texts: Vec<String> = Vec::new();
    let mut i: usize = 0;
    while i < items.len()
        invariant
            i <= items.len(),
            all == list_view(items@),
            texts@.len() == i,
            forall|j: int| 0 <= j < i ==> all[j].as_text() == Some((#[trigger] texts@[j])@),
        decreases items.len() - i,
    {
        assert(all[i as int] == items@[i as int]@);
        match &items[i] {
            Json::Text(t) => {
                texts.push(t.clone());
            },
            _ => {
                assert(all[i as int].as_text() is None);
                return None;
            },
        }
        i += 1;
    }
    proof {
        assert forall|j: int| 0 <= j < all.len() implies (#[trigger] all[j].as_text()) == Some(
            texts.deep_view()[j],
        ) by {
            assert(all[j].as_text() == Some(texts@[j]@));
        }
        assert(texts.deep_view() =~= texts_of(all)->0);
    }
    Some(texts)
}

fn decode_usage(j: &Json) -> (r: Option<TokenUsage>)
    ensures
        r == usage_of(j@),
{
    match (j.u32_at("prompt_tokens"), j.u32_at("completion_tokens"), j.u32_at("total_tokens")) {
        (Some(prompt_tokens), Some(completion_tokens), Some(total_tokens)) => Some(
            TokenUsage { prompt_tokens, completion_tokens, total_tokens },
        ),
        _ => None,
    }
}

fn decode_optional_usage(j: &Json, key: &str) -> (r: Option<Option<TokenUsage>>)
    ensures
        r == optional_usage_at(j@, key@),
{
    match j.present(key) {
        None => Some(None),
        Some(u) => match decode_usage(u) {
            Some(usage) => Some(Some(usage)),
            None => None,
        },
    }
}

fn decode_optional_u32(j: &Json, key: &str) -> (r: Option<Option<u32>>)
    ensures
        r == optional_u32_at(j@, key@),
{
    match j.present(key) {
        None => Some(None),
        Some(Json::Integer(n)) => if *n <= u32::MAX as u64 {
            Some(Some(*n as u32))
        } else {
            None
        },
        Some(_) => None,
    }
}

fn decode_optional_text(j: &Json, key: &str) -> (r: Option<Option<String>>)
    ensures
        r.deep_view() == optional_text_at(j@, key@),
{
    match j.present(key) {
        None => Some(None),
        Some(Json::Text(t)) => Some(Some(t.clone())),
        Some(_) => None,
    }
}

/// The list held by the field `key`.
fn list_at<'a>(j: &'a Json, key: &str) -> (r: Option<&'a Vec<Json>>)
    ensures
        match r {
            Some(items) => j@.list_at(key@) == Some(list_view(items@)),
            None => j@.list_at(key@) is None,
        },
{
    match j.get(key) {
        Some(Json::List(items)) => {
            assert(Json::List(*items)@->List_0 =~= list_view(items@));
            Some(items)
        },
        _ => None,
    }
}

fn decode_fields(tag: &str, j: &Json) -> (r: Option<Response>)
    requires
        known_tag(tag@),
    ensures
        match r {
            Some(response) => fields_of(tag@, j@) == Some(response@),
            None => fields_of(tag@, j@) is None,
        },
{
    if same_text(tag, "status") {
        match j.text_at("message") {
            Some(message) => Some(Response::Status { message }),
            None => None,
        }
    } else if same_text(tag, "trace") {
        match (j.text_at("trace_id"), j.text_at("trace_url")) {
            (Some(trace_id), Some(trace_url)) => Some(Response::Trace { trace_id, trace_url }),
            _ => None,
        }
    } else if same_text(tag, "clarifying_questions") {
        match list_at(j, "questions") {
            Some(items) => match decode_questions(items) {
                Some(questions) => Some(Response::ClarifyingQuestions { questions }),
                None => None,
            },
            None => None,
        }
    } else if same_text(tag, "prompt") {
        match (j.text_at("agent"), j.u32_at("sequence"), j.text_at("content")) {
            (Some(agent), Some(sequence), Some(content)) => Some(
                Response::Prompt { agent, sequence, content },
            ),
            _ => None,
        }
    } else if same_text(tag, "raw_response") {
        match (
            j.text_at("agent"),
            j.u32_at("sequence"),
            j.text_at("content"),
            decode_optional_usage(j, "token_usage"),
        ) {
            (Some(agent), Some(sequence), Some(content), Some(token_usage)) => Some(
                Response::AgentOutput { agent, sequence, content, token_usage },
            ),
            _ => None,
        }
    } else if same_text(tag, "decision") {
        match (
            j.text_at("action"),
            j.text_at("reason"),
            j.u32_at("remaining_searches"),
            j.u32_at("remaining_iterations"),
        ) {
            (
                Some(action),
                Some(reason),
                Some(remaining_searches),
                Some(remaining_iterations),
            ) => Some(
                Response::Decision { action, reason, remaining_searches, remaining_iterations },
            ),
            _ => None,
        }
    } else if same_text(tag, "report") {
        match (
            j.text_at("short_summary"),
            j.text_at("markdown_report"),
            list_at(j, "follow_up_questions"),
        ) {
            (Some(short_summary), Some(markdown_report), Some(items)) => match decode_texts(
                items,
            ) {
                Some(follow_up_questions) => Some(
                    Response::Report { short_summary, markdown_report, follow_up_questions },
                ),
                None => None,
            },
            _ => None,
        }
    } else if same_text(tag, "metadata") {
        match (
            j.text_at("model"),
            decode_optional_u32(j, "total_tokens"),
            j.u64_at("duration_ms"),
        ) {
            (Some(model), Some(total_tokens), Some(duration_ms)) => Some(
                Response::Metadata { model, total_tokens, duration_ms },
            ),
            _ => None,
        }
    } else if same_text(tag, "error") {
        match (j.text_at("message"), decode_optional_text(j, "code")) {
            (Some(message), Some(code)) => Some(Response::Error { message, code }),
            _ => None,
        }
    } else {
        match j.bool_at("success") {
            Some(success) => Some(Response::Done { success }),
            None => None,
        }
    }
}

fn is_known_tag(tag: &str) -> (r: bool)
    ensures
        r == known_tag(tag@),
{
    same_text(tag, "status") || same_text(tag, "trace") || same_text(tag, "clarifying_questions")
        || same_text(tag, "prompt") || same_text(tag, "raw_response") || same_text(
        tag,
        "decision",
    ) || same_text(tag, "report") || same_text(tag, "metadata") || same_text(tag, "error")
        || same_text(tag, "done")
}

/// Decodes one document into the event it holds.
pub fn decode_response(j: &Json) -> (r: Result<Response, DecodeError>)
    ensures
        decoded_as(r, response_of(j@)),
{
    match j.text_at("type") {
        None => Err(DecodeError::MissingTag),
        Some(tag) => {
            if !is_known_tag(tag.as_str()) {
                Err(DecodeError::UnknownTag { tag })
            } else {
                match decode_fields(tag.as_str(), j) {
                    Some(response) => Ok(response),
                    None => Err(DecodeError::InvalidFields { tag }),
                }
            }
        },
    }
}

/// Decodes one line of worker output.
pub fn decode_line(line: &str) -> (r: Result<Response, DecodeError>)
    ensures
        decoded_as(r, line_response(line@)),
{
    match Json::parse(line) {
        Err(e) => Err(DecodeError::Syntax { message: e.message }),
        Ok(j) => decode_response(&j),
    }
}

/// The settings that a document holds: the five fields of [`config_json`].
pub open spec fn config_of(j: JsonValue) -> Option<RequestConfigView> {
    match (
        j.text_at("model"@),
        j.u32_at("search_count"@),
        j.u32_at("max_iterations"@),
        j.u32_at("max_searches"@),
        j.bool_at("auto_decide"@),
    ) {
        (
            Some(model),
            Some(search_count),
            Some(max_iterations),
            Some(max_searches),
            Some(auto_decide),
        ) => Some(
            RequestConfigView { model, search_count, max_iterations, max_searches, auto_decide },
        ),
        _ => None,
    }
}

/// The request that a document holds: the four fields of [`request_json`],
/// with the version of this protocol.
pub open spec fn request_of(j: JsonValue) -> Option<RequestView> {
    match (j.text_at("version"@), j.text_at("run_id"@), j.text_at("query"@), j.get("config"@)) {
        (Some(version), Some(run_id), Some(query), Some(c)) => match config_of(c) {
            Some(config) => if version == PROTOCOL_VERSION@ {
                Some(RequestView { version, run_id, query, config })
            } else {
                None
            },
            None => None,
        },
        _ => None,
    }
}

impl RequestConfig {
    /// Reads the settings back from a document.
    pub fn from_json(j: &Json) -> (r: Option<RequestConfig>)
        ensures
            match r {
                Some(c) => config_of(j@) == Some(c@),
                None => config_of(j@) is None,
            },
    {
        match (
            j.text_at("model"),
            j.u32_at("search_count"),
            j.u32_at("max_iterations"),
            j.u32_at("max_searches"),
            j.bool_at("auto_decide"),
        ) {
            (
                Some(model),
                Some(search_count),
                Some(max_iterations),
                Some(max_searches),
                Some(auto_decide),
            ) => Some(
                RequestConfig { model, search_count, max_iterations, max_searches, auto_decide },
            ),
            _ => None,
        }
    }
}

impl Request {
    /// Reads a request back from a document.
    pub fn from_json(j: &Json) -> (r: Option<Request>)
        ensures
            match r {
                Some(request) => request_of(j@) == Some(request@),
                None => request_of(j@) is None,
            },
    {
        match (j.text_at("version"), j.text_at("run_id"), j.text_at("query"), j.get("config")) {
            (Some(version), Some(run_id), Some(query), Some(c)) => match RequestConfig::from_json(
                c,
            ) {
                Some(config) => if same_text(version.as_str(), PROTOCOL_VERSION) {
                    Some(Request { version: PROTOCOL_VERSION, run_id, query, config })
                } else {
                    None
                },
                None => None,
            },
            _ => None,
        }
    }
}

/// Reading the settings back from their document gives the same settings.
pub proof fn lemma_config_round_trip(c: RequestConfigView)
    ensures
        config_of(config_json(c)) == Some(c),
{
    reveal_strlit("model");
    reveal_strlit("search_count");
    reveal_strlit("max_iterations");
    reveal_strlit("max_searches");
    reveal_strlit("auto_decide");
    let fields = config_json(c)->Record_0;
    assert("model"@.len() == 5 && "search_count"@.len() == 12 && "max_iterations"@.len() == 14);
    assert("max_searches"@.len() == 12 && "auto_decide"@.len() == 11);
    assert("search_count"@[0] != "max_searches"@[0]);
    lemma_lookup_at(fields, "model"@, 0);
    lemma_lookup_at(fields, "search_count"@, 1);
    lemma_lookup_at(fields, "max_iterations"@, 2);
    lemma_lookup_at(fields, "max_searches"@, 3);
    lemma_lookup_at(fields, "auto_decide"@, 4);
}

/// Reading a request back from its document gives the same request: every
/// field keeps its name and its value.
pub proof fn lemma_request_round_trip(r: RequestView)
    requires
        r.version == PROTOCOL_VERSION@,
    ensures
        request_of(request_json(r)) == Some(r),
{
    reveal_strlit("version");
    reveal_strlit("run_id");
    reveal_strlit("query");
    reveal_strlit("config");
    let fields = request_json(r)->Record_0;
    assert("version"@.len() == 7 && "run_id"@.len() == 6 && "query"@.len() == 5);
    assert("config"@.len() == 6);
    assert("run_id"@[0] != "config"@[0]);
    lemma_lookup_at(fields, "version"@, 0);
    lemma_lookup_at(fields, "run_id"@, 1);
    lemma_lookup_at(fields, "query"@, 2);
    lemma_lookup_at(fields, "config"@, 3);
    lemma_config_round_trip(r.config);
}

/// Decoding is idempotent over re-encoding: a request that was decoded,
/// written as a document again and decoded once more is the request of the
/// first decoding.
pub proof fn lemma_request_decode_idempotent(j: JsonValue)
    requires
        request_of(j) is Some,
    ensures
        request_of(request_json(request_of(j)->0)) == request_of(j),
{
    lemma_request_round_trip(request_of(j)->0);
}

/// The message that carries the answers holds them all: its field
/// `answers` is a list with one text for each answer, in their order.
pub proof fn lemma_answers_message_holds_every_answer(answers: Seq<Seq<char>>)
    ensures
        answers_json(answers).list_at("answers"@) matches Some(items) && items.len()
            == answers.len() && texts_of(items) == Some(answers),
{
    let fields = answers_json(answers)->Record_0;
    lemma_lookup_at(fields, "answers"@, 0);
    let items = texts_json(answers)->List_0;
    assert(texts_of(items)->0 =~= answers);
}

} // verus!
