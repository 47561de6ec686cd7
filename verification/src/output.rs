//! What a single-query run reports on the console.
//!
//! Nothing is printed here. Each report is a list of [`Emission`]s, one per
//! printed line, for the caller to print: plain text for people, one JSON
//! document per line for programs, or next to nothing in quiet mode.

use vstd::prelude::*;
use crate::cli::RequestConfig;
use crate::cli::RequestConfigView;
use crate::json::fields_view;
use crate::json::json_text;
use crate::json::put;
use crate::json::Json;
use crate::json::JsonValue;
use crate::protocol::texts_json;
use crate::protocol::texts_to_json;
use crate::protocol::ClarifyingQuestion;
use crate::protocol::ClarifyingQuestionView;
use crate::protocol::DecodeError;
use crate::protocol::Response;
use crate::protocol::ResponseView;
use crate::session::Persist;
use crate::session::Routed;
use crate::text::decimal;
use crate::text::decimal_string;
use crate::text::trim;
use crate::text::trimmed;
use crate::tui::clone_questions;
use crate::tui::leading;
use crate::tui::question_line;
use crate::tui::ClarifyingState;
use crate::tui::ClarifyingStateView;

verus! {

/// How a run reports.
#[derive(Clone, Copy, PartialEq, Eq, Structural, Debug)]
pub enum OutputMode {
    Human,
    Quiet,
    Json,
}

/// Where a line goes.
#[derive(Clone, Copy, PartialEq, Eq, Structural, Debug)]
pub enum Stream {
    Stdout,
    Stderr,
}

/// One line to print; the line end is the printer's.
#[derive(Clone, Debug, PartialEq)]
pub struct Emission {
    pub stream: Stream,
    pub text: String,
}

/// The value of an [`Emission`].
pub ghost struct EmissionView {
    pub stream: Stream,
    pub text: Seq<char>,
}

impl View for Emission {
    type V = EmissionView;

    open spec fn view(&self) -> EmissionView {
        EmissionView { stream: self.stream, text: self.text@ }
    }
}

impl DeepView for Emission {
    type V = EmissionView;

    open spec fn deep_view(&self) -> EmissionView {
        self@
    }
}

/// The reporter of a single-query run.
#[derive(Clone, Copy, Debug)]
pub struct Output {
    pub mode: OutputMode,
}

/// One line on the error stream.
pub open spec fn on_stderr(text: Seq<char>) -> EmissionView {
    EmissionView { stream: Stream::Stderr, text }
}

/// One line on the output stream.
pub open spec fn on_stdout(text: Seq<char>) -> EmissionView {
    EmissionView { stream: Stream::Stdout, text }
}

/// A document as one line on the output stream; nothing where the document
/// cannot be written.
pub open spec fn json_report(document: JsonValue) -> Seq<EmissionView> {
    match json_text(document) {
        Some(text) => seq![on_stdout(text)],
        None => Seq::empty(),
    }
}

/// The mode that the two flags ask for; the JSON flag wins.
pub open spec fn mode_for(json: bool, quiet: bool) -> OutputMode {
    if json {
        OutputMode::Json
    } else if quiet {
        OutputMode::Quiet
    } else {
        OutputMode::Human
    }
}

/// The document that reports the start of a run.
pub open spec fn start_json(
    run_id: Seq<char>,
    artifacts_dir: Seq<char>,
    config: RequestConfigView,
) -> JsonValue {
    JsonValue::Record(
        seq![
            ("type"@, JsonValue::Text("start"@)),
            ("version"@, JsonValue::Text("v1"@)),
            ("run_id"@, JsonValue::Text(run_id)),
            ("artifacts_dir"@, JsonValue::Text(artifacts_dir)),
            ("model"@, JsonValue::Text(config.model)),
            ("search_count"@, JsonValue::Integer(config.search_count as u64)),
            ("max_iterations"@, JsonValue::Integer(config.max_iterations as u64)),
            ("max_searches"@, JsonValue::Integer(config.max_searches as u64)),
            ("auto_decide"@, JsonValue::Bool(config.auto_decide)),
        ],
    )
}

/// The settings of a run in one line.
pub open spec fn settings_text(config: RequestConfigView) -> Seq<char> {
    "Model: "@ + config.model + ", Searches: "@ + decimal(config.search_count as nat) + " (max: "@
        + decimal(config.max_searches as nat) + "), Iterations: "@ + decimal(
        config.max_iterations as nat,
    )
}

/// What is printed at the start of a run.
pub open spec fn start_report(
    mode: OutputMode,
    run_id: Seq<char>,
    artifacts_dir: Seq<char>,
    config: RequestConfigView,
) -> Seq<EmissionView> {
    match mode {
        OutputMode::Human => seq![
            on_stderr("Starting research run: "@ + run_id),
            on_stderr(settings_text(config)),
            on_stderr("Artifacts: "@ + artifacts_dir),
        ],
        OutputMode::Quiet => Seq::empty(),
        OutputMode::Json => json_report(start_json(run_id, artifacts_dir, config)),
    }
}

/// A document of a type and one text: `type`, then the field `key`.
pub open spec fn message_json(kind: Seq<char>, key: Seq<char>, text: Seq<char>) -> JsonValue {
    JsonValue::Record(seq![("type"@, JsonValue::Text(kind)), (key, JsonValue::Text(text))])
}

/// What is printed for a status message.
pub open spec fn status_report(mode: OutputMode, message: Seq<char>) -> Seq<EmissionView> {
    match mode {
        OutputMode::Human => seq![on_stderr("\u{2192} "@ + message)],
        OutputMode::Quiet => Seq::empty(),
        OutputMode::Json => json_report(message_json("status"@, "message"@, message)),
    }
}

/// The document that reports the trace of a run.
pub open spec fn trace_json(trace_id: Seq<char>, trace_url: Seq<char>) -> JsonValue {
    JsonValue::Record(
        seq![
            ("type"@, JsonValue::Text("trace"@)),
            ("trace_id"@, JsonValue::Text(trace_id)),
            ("trace_url"@, JsonValue::Text(trace_url)),
        ],
    )
}

/// What is printed for the trace of a run: its address, behind the first eight characters of its identifier.
pub open spec fn trace_report(mode: OutputMode, trace_id: Seq<char>, trace_url: Seq<char>) -> Seq<
    EmissionView,
> {
    match mode {
        OutputMode::Human => seq![
            on_stderr("\u{1F4CA} Trace ["@ + leading(trace_id, 8) + "]: "@ + trace_url),
        ],
        OutputMode::Quiet => Seq::empty(),
        OutputMode::Json => json_report(trace_json(trace_id, trace_url)),
    }
}

/// A document of a type, an agent and a step.
pub open spec fn step_json(kind: Seq<char>, agent: Seq<char>, sequence: u32) -> JsonValue {
    JsonValue::Record(
        seq![
            ("type"@, JsonValue::Text(kind)),
            ("agent"@, JsonValue::Text(agent)),
            ("sequence"@, JsonValue::Integer(sequence as u64)),
        ],
    )
}

/// A label, the agent, and the step in brackets.
pub open spec fn step_text(label: Seq<char>, agent: Seq<char>, sequence: u32) -> Seq<char> {
    label + agent + " ("@ + decimal(sequence as nat) + ")"@
}

/// What is printed when a prompt goes to an agent.
pub open spec fn prompt_report(mode: OutputMode, agent: Seq<char>, sequence: u32) -> Seq<
    EmissionView,
> {
    match mode {
        OutputMode::Human => seq![on_stderr(step_text("\u{1F4DD} Prompt: "@, agent, sequence))],
        OutputMode::Quiet => Seq::empty(),
        OutputMode::Json => json_report(step_json("prompt"@, agent, sequence)),
    }
}

/// What is printed when an agent answers.
pub open spec fn response_report(mode: OutputMode, agent: Seq<char>, sequence: u32) -> Seq<
    EmissionView,
> {
    match mode {
        OutputMode::Human => seq![on_stderr(step_text("\u{1F4E5} Response: "@, agent, sequence))],
        OutputMode::Quiet => Seq::empty(),
        OutputMode::Json => json_report(step_json("response"@, agent, sequence)),
    }
}

/// The document that reports a decision.
pub open spec fn decision_json(
    action: Seq<char>,
    reason: Seq<char>,
    remaining_searches: u32,
    remaining_iterations: u32,
) -> JsonValue {
    JsonValue::Record(
        seq![
            ("type"@, JsonValue::Text("decision"@)),
            ("action"@, JsonValue::Text(action)),
            ("reason"@, JsonValue::Text(reason)),
            ("remaining_searches"@, JsonValue::Integer(remaining_searches as u64)),
            ("remaining_iterations"@, JsonValue::Integer(remaining_iterations as u64)),
        ],
    )
}

/// A decision with what is left of the budget.
pub open spec fn decision_line(
    action: Seq<char>,
    remaining_searches: u32,
    remaining_iterations: u32,
) -> Seq<char> {
    "\u{1F914} Decision: "@ + action + " (searches: "@ + decimal(remaining_searches as nat)
        + ", iterations: "@ + decimal(remaining_iterations as nat) + ")"@
}

/// What is printed for a decision: the decision, then its reason.
pub open spec fn decision_report(
    mode: OutputMode,
    action: Seq<char>,
    reason: Seq<char>,
    remaining_searches: u32,
    remaining_iterations: u32,
) -> Seq<EmissionView> {
    match mode {
        OutputMode::Human => seq![
            on_stderr(decision_line(action, remaining_searches, remaining_iterations)),
            on_stderr("   Reason: "@ + reason),
        ],
        OutputMode::Quiet => Seq::empty(),
        OutputMode::Json => json_report(
            decision_json(action, reason, remaining_searches, remaining_iterations),
        ),
    }
}

/// The document that holds the report.
pub open spec fn report_json(
    short_summary: Seq<char>,
    markdown_report: Seq<char>,
    follow_up_questions: Seq<Seq<char>>,
) -> JsonValue {
    JsonValue::Record(
        seq![
            ("type"@, JsonValue::Text("report"@)),
            ("short_summary"@, JsonValue::Text(short_summary)),
            ("markdown_report"@, JsonValue::Text(markdown_report)),
            ("follow_up_questions"@, texts_json(follow_up_questions)),
        ],
    )
}

/// A rule of sixty `=`, with a line feed before and after it.
pub open spec fn rule_text() -> Seq<char> {
    seq!['\n'] + Seq::new(60, |i: int| '=') + seq!['\n']
}

/// The follow-up questions as printed: a heading, then one line for each;
/// nothing where there is none.
pub open spec fn follow_up_lines(questions: Seq<Seq<char>>) -> Seq<EmissionView> {
    if questions.len() == 0 {
        Seq::empty()
    } else {
        seq![on_stdout("\nFollow-up questions:"@)] + Seq::new(
            questions.len(),
            |i: int| on_stdout("  - "@ + questions[i]),
        )
    }
}

/// What is printed for the report: a rule, the summary, the report and the follow-up questions.
pub open spec fn report_report(
    mode: OutputMode,
    short_summary: Seq<char>,
    markdown_report: Seq<char>,
    follow_up_questions: Seq<Seq<char>>,
) -> Seq<EmissionView> {
    match mode {
        OutputMode::Json => json_report(
            report_json(short_summary, markdown_report, follow_up_questions),
        ),
        _ => seq![
            on_stdout(rule_text()),
            on_stdout("SUMMARY: "@ + short_summary + seq!['\n']),
            on_stdout(markdown_report),
        ] + follow_up_lines(follow_up_questions),
    }
}

/// The document that reports an error; a missing code is left out.
pub open spec fn error_json(code: Option<Seq<char>>, message: Seq<char>) -> JsonValue {
    match code {
        Some(c) => JsonValue::Record(
            seq![
                ("type"@, JsonValue::Text("error"@)),
                ("code"@, JsonValue::Text(c)),
                ("message"@, JsonValue::Text(message)),
            ],
        ),
        None => message_json("error"@, "message"@, message),
    }
}

/// What is printed for an error.
pub open spec fn error_report(mode: OutputMode, code: Option<Seq<char>>, message: Seq<char>) -> Seq<
    EmissionView,
> {
    match mode {
        OutputMode::Json => json_report(error_json(code, message)),
        _ => seq![on_stderr(crate::tui::error_text(message, code))],
    }
}

/// What is printed for a warning.
pub open spec fn warning_report(mode: OutputMode, message: Seq<char>) -> Seq<EmissionView> {
    match mode {
        OutputMode::Human => seq![on_stderr("Warning: "@ + message)],
        OutputMode::Quiet => Seq::empty(),
        OutputMode::Json => json_report(message_json("warning"@, "message"@, message)),
    }
}

/// The document that reports the end of a run.
pub open spec fn complete_json(success: bool, run_id: Seq<char>, artifacts_dir: Seq<char>) -> JsonValue {
    JsonValue::Record(
        seq![
            ("type"@, JsonValue::Text("complete"@)),
            ("success"@, JsonValue::Bool(success)),
            ("run_id"@, JsonValue::Text(run_id)),
            ("artifacts_dir"@, JsonValue::Text(artifacts_dir)),
        ],
    )
}

/// What is printed at the end of a run.
pub open spec fn complete_report(
    mode: OutputMode,
    success: bool,
    run_id: Seq<char>,
    artifacts_dir: Seq<char>,
) -> Seq<EmissionView> {
    match mode {
        OutputMode::Human => seq![
            on_stderr("Run complete. Artifacts saved to: "@ + artifacts_dir),
        ],
        OutputMode::Quiet => Seq::empty(),
        OutputMode::Json => json_report(complete_json(success, run_id, artifacts_dir)),
    }
}

fn nothing() -> (r: Vec<Emission>)
    ensures
        r.deep_view() == Seq::<EmissionView>::empty(),
{
    let r: Vec<Emission> = Vec::new();
    assert(r.deep_view() =~= Seq::<EmissionView>::empty());
    r
}

fn emit(out: &mut Vec<Emission>, stream: Stream, text: String)
    ensures
        final(out).deep_view() == old(out).deep_view().push(EmissionView { stream, text: text@ }),
{
    out.push(Emission { stream, text });
    assert(out.deep_view() =~= old(out).deep_view().push(EmissionView { stream, text: text@ }));
}

fn one(stream: Stream, text: String) -> (r: Vec<Emission>)
    ensures
        r.deep_view() == seq![EmissionView { stream, text: text@ }],
{
    let mut out = nothing();
    emit(&mut out, stream, text);
    assert(out.deep_view() =~= seq![EmissionView { stream, text: text@ }]);
    out
}

fn json_line(fields: Vec<(String, Json)>) -> (r: Vec<Emission>)
    ensures
        r.deep_view() == json_report(JsonValue::Record(fields_view(fields@))),
{
    match Json::record(fields).to_text() {
        Ok(text) => one(Stream::Stdout, text),
        Err(_) => nothing(),
    }
}

fn message_line(kind: &str, key: &str, text: &str) -> (r: Vec<Emission>)
    ensures
        r.deep_view() == json_report(message_json(kind@, key@, text@)),
{
    let mut fields: Vec<(String, Json)> = Vec::new();
    put(&mut fields, "type", Json::text(kind));
    put(&mut fields, key, Json::text(text));
    assert(fields_view(fields@) =~= message_json(kind@, key@, text@)->Record_0);
    json_line(fields)
}

fn step_line(kind: &str, agent: &str, sequence: u32) -> (r: Vec<Emission>)
    ensures
        r.deep_view() == json_report(step_json(kind@, agent@, sequence)),
{
    let mut fields: Vec<(String, Json)> = Vec::new();
    put(&mut fields, "type", Json::text(kind));
    put(&mut fields, "agent", Json::text(agent));
    put(&mut fields, "sequence", Json::Integer(sequence as u64));
    assert(fields_view(fields@) =~= step_json(kind@, agent@, sequence)->Record_0);
    json_line(fields)
}

fn step_message(label: &str, agent: &str, sequence: u32) -> (r: String)
    ensures
        r@ == step_text(label@, agent@, sequence),
{
    let mut out = String::from_str(label);
    out.append(agent);
    out.append(" (");
    out.append(decimal_string(sequence as u128).as_str());
    out.append(")");
    out
}

fn leading_text(text: &str, count: usize) -> (r: String)
    ensures
        r@ == leading(text@, count as nat),
{
    let n = text.unicode_len();
    if n <= count {
        String::from_str(text)
    } else {
        String::from_str(text.substring_char(0, count))
    }
}

fn rule() -> (r: String)
    ensures
        r@ == rule_text(),
{
    let mut out = String::new();
    out.push('\n');
    let mut i: usize = 0;
    while i < 60
        invariant
            i <= 60,
            out@ == seq!['\n'] + Seq::new(i as nat, |k: int| '='),
        decreases 60 - i,
    {
        out.push('=');
        assert(out@ =~= seq!['\n'] + Seq::new((i + 1) as nat, |k: int| '='));
        i += 1;
    }
    out.push('\n');
    assert(out@ =~= rule_text());
    out
}

impl Output {
    /// The reporter for the two flags; the JSON flag wins over the quiet one.
    pub fn new(json: bool, quiet: bool) -> (r: Self)
        ensures
            r.mode == mode_for(json, quiet),
    {
        let mode = if json {
            OutputMode::Json
        } else if quiet {
            OutputMode::Quiet
        } else {
            OutputMode::Human
        };
        Output { mode }
    }

    /// The start of a run.
    pub fn start(&self, run_id: &str, artifacts_dir: &str, config: &RequestConfig) -> (r: Vec<
        Emission,
    >)
        ensures
            r.deep_view() == start_report(self.mode, run_id@, artifacts_dir@, config@),
    {
        match self.mode {
            OutputMode::Human => {
                let mut settings = String::from_str("Model: ");
                settings.append(config.model.as_str());
                settings.append(", Searches: ");
                settings.append(decimal_string(config.search_count as u128).as_str());
                settings.append(" (max: ");
                settings.append(decimal_string(config.max_searches as u128).as_str());
                settings.append("), Iterations: ");
                settings.append(decimal_string(config.max_iterations as u128).as_str());
                let mut out = nothing();
                emit(
                    &mut out,
                    Stream::Stderr,
                    String::from_str("Starting research run: ").concat(run_id),
                );
                emit(&mut out, Stream::Stderr, settings);
                emit(&mut out, Stream::Stderr, String::from_str("Artifacts: ").concat(artifacts_dir));
                assert(out.deep_view() =~= start_report(
                    self.mode,
                    run_id@,
                    artifacts_dir@,
                    config@,
                ));
                out
            },
            OutputMode::Quiet => nothing(),
            OutputMode::Json => {
                let mut fields: Vec<(String, Json)> = Vec::new();
                put(&mut fields, "type", Json::text("start"));
                put(&mut fields, "version", Json::text("v1"));
                put(&mut fields, "run_id", Json::text(run_id));
                put(&mut fields, "artifacts_dir", Json::text(artifacts_dir));
                put(&mut fields, "model", Json::text(config.model.as_str()));
                put(&mut fields, "search_count", Json::Integer(config.search_count as u64));
                put(&mut fields, "max_iterations", Json::Integer(config.max_iterations as u64));
                put(&mut fields, "max_searches", Json::Integer(config.max_searches as u64));
                put(&mut fields, "auto_decide", Json::Bool(config.auto_decide));
                assert(fields_view(fields@) =~= start_json(
                    run_id@,
                    artifacts_dir@,
                    config@,
                )->Record_0);
                json_line(fields)
            },
        }
    }

    /// A status message of the worker.
    pub fn status(&self, message: &str) -> (r: Vec<Emission>)
        ensures
            r.deep_view() == status_report(self.mode, message@),
    {
        match self.mode {
            OutputMode::Human => one(
                Stream::Stderr,
                String::from_str("\u{2192} ").concat(message),
            ),
            OutputMode::Quiet => nothing(),
            OutputMode::Json => message_line("status", "message", message),
        }
    }

    /// Where the trace of the run can be seen.
    pub fn trace(&self, trace_id: &str, trace_url: &str) -> (r: Vec<Emission>)
        ensures
            r.deep_view() == trace_report(self.mode, trace_id@, trace_url@),
    {
        match self.mode {
            OutputMode::Human => {
                let mut text = String::from_str("\u{1F4CA} Trace [");
                text.append(leading_text(trace_id, 8).as_str());
                text.append("]: ");
                text.append(trace_url);
                one(Stream::Stderr, text)
            },
            OutputMode::Quiet => nothing(),
            OutputMode::Json => {
                let mut fields: Vec<(String, Json)> = Vec::new();
                put(&mut fields, "type", Json::text("trace"));
                put(&mut fields, "trace_id", Json::text(trace_id));
                put(&mut fields, "trace_url", Json::text(trace_url));
                assert(fields_view(fields@) =~= trace_json(trace_id@, trace_url@)->Record_0);
                json_line(fields)
            },
        }
    }

    /// A prompt went to an agent.
    pub fn prompt(&self, agent: &str, sequence: u32) -> (r: Vec<Emission>)
        ensures
            r.deep_view() == prompt_report(self.mode, agent@, sequence),
    {
        match self.mode {
            OutputMode::Human => one(
                Stream::Stderr,
                step_message("\u{1F4DD} Prompt: ", agent, sequence),
            ),
            OutputMode::Quiet => nothing(),
            OutputMode::Json => step_line("prompt", agent, sequence),
        }
    }

    /// An agent answered.
    pub fn response(&self, agent: &str, sequence: u32) -> (r: Vec<Emission>)
        ensures
            r.deep_view() == response_report(self.mode, agent@, sequence),
    {
        match self.mode {
            OutputMode::Human => one(
                Stream::Stderr,
                step_message("\u{1F4E5} Response: ", agent, sequence),
            ),
            OutputMode::Quiet => nothing(),
            OutputMode::Json => step_line("response", agent, sequence),
        }
    }

    /// The worker decided how to go on.
    pub fn decision(
        &self,
        action: &str,
        reason: &str,
        remaining_searches: u32,
        remaining_iterations: u32,
    ) -> (r: Vec<Emission>)
        ensures
            r.deep_view() == decision_report(
                self.mode,
                action@,
                reason@,
                remaining_searches,
                remaining_iterations,
            ),
    {
        match self.mode {
            OutputMode::Human => {
                let mut first = String::from_str("\u{1F914} Decision: ");
                first.append(action);
                first.append(" (searches: ");
                first.append(decimal_string(remaining_searches as u128).as_str());
                first.append(", iterations: ");
                first.append(decimal_string(remaining_iterations as u128).as_str());
                first.append(")");
                let mut out = nothing();
                emit(&mut out, Stream::Stderr, first);
                emit(&mut out, Stream::Stderr, String::from_str("   Reason: ").concat(reason));
                assert(out.deep_view() =~= decision_report(
                    self.mode,
                    action@,
                    reason@,
                    remaining_searches,
                    remaining_iterations,
                ));
                out
            },
            OutputMode::Quiet => nothing(),
            OutputMode::Json => {
                let mut fields: Vec<(String, Json)> = Vec::new();
                put(&mut fields, "type", Json::text("decision"));
                put(&mut fields, "action", Json::text(action));
                put(&mut fields, "reason", Json::text(reason));
                put(&mut fields, "remaining_searches", Json::Integer(remaining_searches as u64));
                put(
                    &mut fields,
                    "remaining_iterations",
                    Json::Integer(remaining_iterations as u64),
                );
                assert(fields_view(fields@) =~= decision_json(
                    action@,
                    reason@,
                    remaining_searches,
                    remaining_iterations,
                )->Record_0);
                json_line(fields)
            },
        }
    }

    /// The report of the run. Quiet mode prints it too: it is the result.
    pub fn report(
        &self,
        short_summary: &str,
        markdown_report: &str,
        follow_up_questions: &Vec<String>,
    ) -> (r: Vec<Emission>)
        ensures
            r.deep_view() == report_report(
                self.mode,
                short_summary@,
                markdown_report@,
                follow_up_questions.deep_view(),
            ),
    {
        match self.mode {
            OutputMode::Json => {
                let mut fields: Vec<(String, Json)> = Vec::new();
                put(&mut fields, "type", Json::text("report"));
                put(&mut fields, "short_summary", Json::text(short_summary));
                put(&mut fields, "markdown_report", Json::text(markdown_report));
                put(&mut fields, "follow_up_questions", texts_to_json(follow_up_questions));
                assert(fields_view(fields@) =~= report_json(
                    short_summary@,
                    markdown_report@,
                    follow_up_questions.deep_view(),
                )->Record_0);
                json_line(fields)
            },
            _ => {
                let mut summary = String::from_str("SUMMARY: ");
                summary.append(short_summary);
                summary.push('\n');
                assert(("SUMMARY: "@ + short_summary@).push('\n') =~= "SUMMARY: "@
                    + short_summary@ + seq!['\n']);
                let mut out = nothing();
                emit(&mut out, Stream::Stdout, rule());
                emit(&mut out, Stream::Stdout, summary);
                emit(&mut out, Stream::Stdout, String::from_str(markdown_report));
                let ghost head = out.deep_view();
                let ghost questions = follow_up_questions.deep_view();
                if follow_up_questions.len() > 0 {
                    emit(&mut out, Stream::Stdout, String::from_str("\nFollow-up questions:"));
                    let mut i: usize = 0;
                    while i < follow_up_questions.len()
                        invariant
                            i <= follow_up_questions.len(),
                            questions == follow_up_questions.deep_view(),
                            out.deep_view() == head + seq![on_stdout("\nFollow-up questions:"@)]
                                + Seq::new(i as nat, |k: int| on_stdout("  - "@ + questions[k])),
                        decreases follow_up_questions.len() - i,
                    {
                        emit(
                            &mut out,
                            Stream::Stdout,
                            String::from_str("  - ").concat(follow_up_questions[i].as_str()),
                        );
                        assert(out.deep_view() =~= head + seq![
                            on_stdout("\nFollow-up questions:"@),
                        ] + Seq::new((i + 1) as nat, |k: int| on_stdout("  - "@ + questions[k])));
                        i += 1;
                    }
                }
                assert(out.deep_view() =~= report_report(
                    self.mode,
                    short_summary@,
                    markdown_report@,
                    questions,
                ));
                out
            },
        }
    }

    /// An error. Quiet mode prints it too.
    pub fn error(&self, code: Option<&str>, message: &str) -> (r: Vec<Emission>)
        ensures
            r.deep_view() == error_report(
                self.mode,
                match code {
                    Some(c) => Some(c@),
                    None => None,
                },
                message@,
            ),
    {
        match self.mode {
            OutputMode::Json => match code {
                Some(c) => {
                    let mut fields: Vec<(String, Json)> = Vec::new();
                    put(&mut fields, "type", Json::text("error"));
                    put(&mut fields, "code", Json::text(c));
                    put(&mut fields, "message", Json::text(message));
                    assert(fields_view(fields@) =~= error_json(Some(c@), message@)->Record_0);
                    json_line(fields)
                },
                None => message_line("error", "message", message),
            },
            _ => {
                let text = match code {
                    Some(c) => {
                        let mut t = String::from_str("Error [");
                        t.append(c);
                        t.append("]: ");
                        t.append(message);
                        t
                    },
                    None => String::from_str("Error: ").concat(message),
                };
                one(Stream::Stderr, text)
            },
        }
    }

    /// A warning: something went wrong, and the run goes on.
    pub fn warning(&self, message: &str) -> (r: Vec<Emission>)
        ensures
            r.deep_view() == warning_report(self.mode, message@),
    {
        match self.mode {
            OutputMode::Human => one(Stream::Stderr, String::from_str("Warning: ").concat(message)),
            OutputMode::Quiet => nothing(),
            OutputMode::Json => message_line("warning", "message", message),
        }
    }

    /// The end of a run.
    pub fn complete(&self, success: bool, run_id: &str, artifacts_dir: &str) -> (r: Vec<Emission>)
        ensures
            r.deep_view() == complete_report(self.mode, success, run_id@, artifacts_dir@),
    {
        match self.mode {
            OutputMode::Human => one(
                Stream::Stderr,
                String::from_str("Run complete. Artifacts saved to: ").concat(artifacts_dir),
            ),
            OutputMode::Quiet => nothing(),
            OutputMode::Json => {
                let mut fields: Vec<(String, Json)> = Vec::new();
                put(&mut fields, "type", Json::text("complete"));
                put(&mut fields, "success", Json::Bool(success));
                put(&mut fields, "run_id", Json::text(run_id));
                put(&mut fields, "artifacts_dir", Json::text(artifacts_dir));
                assert(fields_view(fields@) =~= complete_json(
                    success,
                    run_id@,
                    artifacts_dir@,
                )->Record_0);
                json_line(fields)
            },
        }
    }
}

/// Why a line is no event, in words.
pub open spec fn decode_error_text(error: DecodeError) -> Seq<char> {
    match error {
        DecodeError::Syntax { message } => message@,
        DecodeError::MissingTag => "missing field `type`"@,
        DecodeError::UnknownTag { tag } => "unknown variant `"@ + tag@ + "`"@,
        DecodeError::InvalidFields { tag } => "invalid fields for `"@ + tag@ + "`"@,
    }
}

/// The warning for a line that is no event.
pub open spec fn parse_warning_text(error: DecodeError, line: Seq<char>) -> Seq<char> {
    "failed to parse response: "@ + decode_error_text(error) + " (line: "@ + line + ")"@
}

/// Why a line is no event, in words.
pub fn describe_decode_error(error: &DecodeError) -> (r: String)
    ensures
        r@ == decode_error_text(*error),
{
    match error {
        DecodeError::Syntax { message } => message.clone(),
        DecodeError::MissingTag => String::from_str("missing field `type`"),
        DecodeError::UnknownTag { tag } => String::from_str("unknown variant `").concat(
            tag.as_str(),
        ).concat("`"),
        DecodeError::InvalidFields { tag } => String::from_str("invalid fields for `").concat(
            tag.as_str(),
        ).concat("`"),
    }
}

/// The warning for a line that is no event.
pub fn parse_warning(error: &DecodeError, line: &str) -> (r: String)
    ensures
        r@ == parse_warning_text(*error, line@),
{
    let mut out = String::from_str("failed to parse response: ");
    out.append(describe_decode_error(error).as_str());
    out.append(" (line: ");
    out.append(line);
    out.append(")");
    out
}

/// The warning for a file that could not be written: what it was, then why.
pub open spec fn write_warning_text(what: Seq<char>, reason: Seq<char>) -> Seq<char> {
    "failed to write "@ + what + ": "@ + reason
}

/// The warning for a file that could not be written: what it was, then why.
pub fn write_warning(what: &str, reason: &str) -> (r: String)
    ensures
        r@ == write_warning_text(what@, reason@),
{
    let mut out = String::from_str("failed to write ");
    out.append(what);
    out.append(": ");
    out.append(reason);
    out
}

/// The line that asks question number `index + 1` on the console, after an
/// empty line.
pub fn question_prompt(index: usize, question: &ClarifyingQuestion) -> (r: String)
    ensures
        r@ == seq!['\n'] + question_line(index as nat, question@),
{
    let mut out = String::new();
    out.push('\n');
    out.append(decimal_string(index as u128 + 1).as_str());
    out.append(". [");
    out.append(question.label.as_str());
    out.append("] ");
    out.append(question.question.as_str());
    assert(out@ =~= seq!['\n'] + question_line(index as nat, question@));
    out
}

/// The answer in a line read from the console: the line without the white
/// space around it.
pub fn console_answer(line: &str) -> (r: String)
    ensures
        r@ == trimmed(line@),
{
    trim(line)
}

/// What the console shows for an event of the worker. Questions are asked
/// by other means, and metadata and the final verdict are not shown.
pub open spec fn event_report(mode: OutputMode, response: ResponseView) -> Seq<EmissionView> {
    match response {
        ResponseView::Status { message } => status_report(mode, message),
        ResponseView::Trace { trace_id, trace_url } => trace_report(mode, trace_id, trace_url),
        ResponseView::Prompt { agent, sequence, .. } => prompt_report(mode, agent, sequence),
        ResponseView::AgentOutput { agent, sequence, .. } => response_report(mode, agent, sequence),
        ResponseView::Decision {
            action,
            reason,
            remaining_searches,
            remaining_iterations,
        } => decision_report(mode, action, reason, remaining_searches, remaining_iterations),
        ResponseView::Report {
            short_summary,
            markdown_report,
            follow_up_questions,
        } => report_report(mode, short_summary, markdown_report, follow_up_questions),
        ResponseView::Error { message, code } => error_report(mode, code, message),
        _ => Seq::empty(),
    }
}

/// What the console shows for one line of the worker, given what the run
/// made of it: a warning for a line that is no event; else the event, where
/// it is shown, and a warning where the text of its file could not be produced.
pub open spec fn line_report(mode: OutputMode, line: Seq<char>, routed: Routed) -> Seq<
    EmissionView,
> {
    match routed.rejected {
        Some(error) => warning_report(mode, parse_warning_text(error, line)),
        None => (match routed.forward {
            Some(response) => event_report(mode, response@),
            None => Seq::empty(),
        }) + (match routed.persist {
            Persist::Failed(error) => warning_report(
                mode,
                write_warning_text("response"@, error.message@),
            ),
            _ => Seq::empty(),
        }),
    }
}

/// A line that is no event is answered with one warning and nothing else:
/// one line on the error stream for people, one document at most for programs,
/// and silence in quiet mode.
pub proof fn lemma_bad_line_gives_one_warning(mode: OutputMode, line: Seq<char>, routed: Routed)
    requires
        routed.rejected is Some,
    ensures
        mode == OutputMode::Human ==> line_report(mode, line, routed) == seq![
            on_stderr("Warning: "@ + parse_warning_text(routed.rejected->0, line)),
        ],
        mode == OutputMode::Json ==> line_report(mode, line, routed) == json_report(
            message_json("warning"@, "message"@, parse_warning_text(routed.rejected->0, line)),
        ) && line_report(mode, line, routed).len() <= 1,
        mode == OutputMode::Quiet ==> line_report(mode, line, routed).len() == 0,
{
}

/// What the console shows where no query was given: the error, then how to
/// call the program.
pub open spec fn missing_query_report(mode: OutputMode) -> Seq<EmissionView> {
    error_report(mode, Some("MISSING_QUERY"@), "query is required"@).push(
        on_stderr("Usage: lode <query>"@),
    )
}

/// What a file of an event is called in a warning.
pub open spec fn artifact_name(response: ResponseView) -> Seq<char> {
    if response is Prompt {
        "prompt"@
    } else {
        "response"@
    }
}

fn append(out: &mut Vec<Emission>, more: &Vec<Emission>)
    ensures
        final(out).deep_view() == old(out).deep_view() + more.deep_view(),
{
    let ghost before = out.deep_view();
    let mut i: usize = 0;
    assert(out.deep_view() =~= before + more.deep_view().take(0));
    while i < more.len()
        invariant
            i <= more.len(),
            out.deep_view() == before + more.deep_view().take(i as int),
        decreases more.len() - i,
    {
        emit(out, more[i].stream, more[i].text.clone());
        assert(out.deep_view() =~= before + more.deep_view().take(i + 1));
        i += 1;
    }
    assert(more.deep_view().take(more.len() as int) =~= more.deep_view());
}

/// What a file of an event is called in a warning.
pub fn artifact_label(response: &Response) -> (r: &'static str)
    ensures
        r@ == artifact_name(response@),
{
    match response {
        Response::Prompt { .. } => "prompt",
        _ => "response",
    }
}

impl Output {
    /// What the console shows for an event of the worker.
    pub fn event(&self, response: &Response) -> (r: Vec<Emission>)
        ensures
            r.deep_view() == event_report(self.mode, response@),
    {
        match response {
            Response::Status { message } => self.status(message.as_str()),
            Response::Trace { trace_id, trace_url } => self.trace(
                trace_id.as_str(),
                trace_url.as_str(),
            ),
            Response::Prompt { agent, sequence, .. } => self.prompt(agent.as_str(), *sequence),
            Response::AgentOutput { agent, sequence, .. } => self.response(
                agent.as_str(),
                *sequence,
            ),
            Response::Decision {
                action,
                reason,
                remaining_searches,
                remaining_iterations,
            } => self.decision(
                action.as_str(),
                reason.as_str(),
                *remaining_searches,
                *remaining_iterations,
            ),
            Response::Report { short_summary, markdown_report, follow_up_questions } => self.report(
                short_summary.as_str(),
                markdown_report.as_str(),
                follow_up_questions,
            ),
            Response::Error { message, code } => self.error(
                match code {
                    Some(c) => Some(c.as_str()),
                    None => None,
                },
                message.as_str(),
            ),
            _ => nothing(),
        }
    }

    /// What the console shows for one line of the worker, given what the
    /// run made of it.
    pub fn line(&self, line: &str, routed: &Routed) -> (r: Vec<Emission>)
        ensures
            r.deep_view() == line_report(self.mode, line@, *routed),
    {
        match &routed.rejected {
            Some(error) => self.warning(parse_warning(error, line).as_str()),
            None => {
                let mut out = match &routed.forward {
                    Some(response) => self.event(response),
                    None => nothing(),
                };
                match &routed.persist {
                    Persist::Failed(error) => {
                        let warning = self.warning(
                            write_warning("response", error.message.as_str()).as_str(),
                        );
                        append(&mut out, &warning);
                    },
                    _ => {
                        assert(out.deep_view() + Seq::<EmissionView>::empty() =~= out.deep_view());
                    },
                }
                out
            },
        }
    }

    /// What the console shows where no query was given.
    pub fn missing_query(&self) -> (r: Vec<Emission>)
        ensures
            r.deep_view() == missing_query_report(self.mode),
    {
        let mut out = self.error(Some("MISSING_QUERY"), "query is required");
        emit(&mut out, Stream::Stderr, String::from_str("Usage: lode <query>"));
        out
    }
}

/// A clarifying round on the console: a question waits for its line, or
/// every question has its answer.
#[derive(Debug, PartialEq)]
pub enum ConsoleRound {
    Asking(ClarifyingState),
    Answered(Vec<String>),
}

/// The value of a [`ConsoleRound`].
pub ghost enum ConsoleRoundView {
    Asking(ClarifyingStateView),
    Answered(Seq<Seq<char>>),
}

impl View for ConsoleRound {
    type V = ConsoleRoundView;

    open spec fn view(&self) -> ConsoleRoundView {
        match self {
            ConsoleRound::Asking(round) => ConsoleRoundView::Asking(round@),
            ConsoleRound::Answered(answers) => ConsoleRoundView::Answered(answers.deep_view()),
        }
    }
}

/// Each of the lines without the white space around it.
pub open spec fn trimmed_lines(lines: Seq<Seq<char>>) -> Seq<Seq<char>> {
    Seq::new(lines.len(), |i: int| trimmed(lines[i]))
}

/// The round at its start: the first question waits, or, where there is no
/// question, the round is answered with no answers.
pub open spec fn console_opened(questions: Seq<ClarifyingQuestionView>) -> ConsoleRoundView {
    if questions.len() == 0 {
        ConsoleRoundView::Answered(Seq::empty())
    } else {
        ConsoleRoundView::Asking(
            ClarifyingStateView { questions, current_index: 0, answers: Seq::empty() },
        )
    }
}

/// The round after `line` was read for the question that waits: its answer
/// is the line without the white space around it, and the round is answered
/// once that was the last question.
pub open spec fn console_answered(round: ClarifyingStateView, line: Seq<char>) -> ConsoleRoundView {
    let answers = round.answers.push(trimmed(line));
    if round.current_index + 1 >= round.questions.len() {
        ConsoleRoundView::Answered(answers)
    } else {
        ConsoleRoundView::Asking(
            ClarifyingStateView {
                questions: round.questions,
                current_index: round.current_index + 1,
                answers,
            },
        )
    }
}

/// The round after the first `count` of `lines` were read, each for the
/// question that waited then; lines behind the last question are not read.
pub open spec fn console_read(start: ConsoleRoundView, lines: Seq<Seq<char>>, count: nat) -> ConsoleRoundView
    decreases count,
{
    if count == 0 {
        start
    } else {
        match console_read(start, lines, (count - 1) as nat) {
            ConsoleRoundView::Asking(round) => console_answered(round, lines[count - 1]),
            answered => answered,
        }
    }
}

/// A round on the console reads one line for each question: while fewer
/// lines were read than questions wait, it goes on asking, and with the line
/// for the last question it is answered, with exactly the lines read, each
/// without the white space around it, in the order of the questions.
pub proof fn lemma_console_round_reads_one_line_per_question(
    round: ClarifyingStateView,
    lines: Seq<Seq<char>>,
    count: nat,
)
    requires
        round.wf(),
        count <= lines.len(),
        round.current_index + count <= round.questions.len(),
    ensures
        ({
            let answers = round.answers + trimmed_lines(lines.take(count as int));
            let now = console_read(ConsoleRoundView::Asking(round), lines, count);
            &&& answers.len() == round.current_index + count
            &&& round.current_index + count < round.questions.len() ==> now
                == ConsoleRoundView::Asking(
                ClarifyingStateView {
                    questions: round.questions,
                    current_index: round.current_index + count,
                    answers,
                },
            )
            &&& round.current_index + count == round.questions.len() ==> now
                == ConsoleRoundView::Answered(answers)
        }),
    decreases count,
{
    if count == 0 {
        assert(round.answers + trimmed_lines(lines.take(0)) =~= round.answers);
    } else {
        lemma_console_round_reads_one_line_per_question(round, lines, (count - 1) as nat);
        assert((round.answers + trimmed_lines(lines.take(count - 1))).push(
            trimmed(lines[count - 1]),
        ) =~= round.answers + trimmed_lines(lines.take(count as int)));
    }
}

/// Opens a clarifying round on the console.
pub fn console_round(questions: &Vec<ClarifyingQuestion>) -> (r: ConsoleRound)
    ensures
        r@ == console_opened(questions.deep_view()),
        r matches ConsoleRound::Asking(round) ==> round@.wf(),
{
    assert(questions.deep_view().len() == questions.len());
    let answers: Vec<String> = Vec::new();
    assert(answers.deep_view() =~= Seq::<Seq<char>>::empty());
    if questions.len() == 0 {
        ConsoleRound::Answered(answers)
    } else {
        ConsoleRound::Asking(
            ClarifyingState { questions: clone_questions(questions), current_index: 0, answers },
        )
    }
}

/// The line that asks the question that waits, after an empty line.
pub fn console_prompt(round: &ClarifyingState) -> (r: String)
    requires
        round@.wf(),
    ensures
        r@ == seq!['\n'] + question_line(
            round@.current_index,
            round@.questions[round@.current_index as int],
        ),
{
    assert(round.questions.deep_view().len() == round.questions.len());
    question_prompt(round.current_index, &round.questions[round.current_index])
}

/// Takes the line read for the question that waits.
pub fn console_step(round: ClarifyingState, line: &str) -> (r: ConsoleRound)
    requires
        round@.wf(),
    ensures
        r@ == console_answered(round@, line@),
        r matches ConsoleRound::Asking(next) ==> next@.wf(),
{
    let mut round = round;
    let ghost before = round.answers.deep_view();
    assert(round.questions.deep_view().len() == round.questions.len());
    let answer = console_answer(line);
    round.answers.push(answer);
    assert(round.answers.deep_view() =~= before.push(trimmed(line@)));
    round.current_index += 1;
    if round.current_index >= round.questions.len() {
        ConsoleRound::Answered(round.answers)
    } else {
        ConsoleRound::Asking(round)
    }
}

} // verus!
