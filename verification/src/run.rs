//! What a run leaves on disk: where each file goes and what it holds.
//!
//! Nothing here touches the file system. Each function returns an
//! [`Artifact`], a path with the text to write there; paths use `/` and are
//! relative to the directory the program runs in.

use vstd::prelude::*;
use crate::json::json_pretty_text;
use crate::json::put;
use crate::json::Json;
use crate::json::JsonError;
use crate::json::JsonValue;
use crate::protocol::metadata_json;
use crate::protocol::request_json;
use crate::protocol::usage_json;
use crate::protocol::Request;
use crate::protocol::RunMetadata;
use crate::protocol::RunMetadataView;
use crate::protocol::TokenUsage;
use crate::text::join_path;
use crate::text::lowercase;
use crate::text::path_join;
use crate::text::zero_padded;
use crate::text::zero_padded3;

verus! {

/// `std::time::Instant`, of which nothing is known here.
#[verifier::external_type_specification]
#[verifier::external_body]
pub struct ExInstant(std::time::Instant);

/// `Instant::now`: the present moment.
#[verifier::external_body]
fn now() -> std::time::Instant {
    std::time::Instant::now()
}

/// `Instant::elapsed` in whole milliseconds, as `Duration::as_millis` gives
/// them, cut to 64 bits.
#[verifier::external_body]
fn milliseconds_since(start: &std::time::Instant) -> u64 {
    start.elapsed().as_millis() as u64
}

/// What is learnt about a run while it goes on.
#[derive(Debug)]
pub struct RunContext {
    pub run_dir: String,
    pub start_time: std::time::Instant,
    pub trace_id: Option<String>,
    pub trace_url: Option<String>,
    pub model: Option<String>,
    pub total_tokens: Option<u32>,
    pub markdown_report: Option<String>,
}

/// The value of a [`RunContext`]; the start time is left out.
pub ghost struct RunContextView {
    pub run_dir: Seq<char>,
    pub trace_id: Option<Seq<char>>,
    pub trace_url: Option<Seq<char>>,
    pub model: Option<Seq<char>>,
    pub total_tokens: Option<u32>,
    pub markdown_report: Option<Seq<char>>,
}

impl View for RunContext {
    type V = RunContextView;

    open spec fn view(&self) -> RunContextView {
        RunContextView {
            run_dir: self.run_dir@,
            trace_id: self.trace_id.deep_view(),
            trace_url: self.trace_url.deep_view(),
            model: self.model.deep_view(),
            total_tokens: self.total_tokens,
            markdown_report: self.markdown_report.deep_view(),
        }
    }
}

impl RunContextView {
    /// A run of which nothing is known yet.
    pub open spec fn fresh(run_dir: Seq<char>) -> RunContextView {
        RunContextView {
            run_dir,
            trace_id: None,
            trace_url: None,
            model: None,
            total_tokens: None,
            markdown_report: None,
        }
    }

    /// The metadata of the run, given its identifier and how long it took.
    pub open spec fn metadata(self, run_id: Seq<char>, duration_ms: u64) -> RunMetadataView {
        RunMetadataView {
            run_id,
            model: self.model,
            total_tokens: self.total_tokens,
            duration_ms,
            trace_id: self.trace_id,
            trace_url: self.trace_url,
        }
    }
}

fn clone_text(text: &Option<String>) -> (r: Option<String>)
    ensures
        r.deep_view() == text.deep_view(),
{
    match text {
        Some(t) => Some(t.clone()),
        None => None,
    }
}

impl RunContext {
    /// The context of a run that starts now and keeps its files in `run_dir`.
    pub fn new(run_dir: String) -> (ctx: Self)
        ensures
            ctx@ == RunContextView::fresh(run_dir@),
    {
        RunContext {
            run_dir,
            start_time: now(),
            trace_id: None,
            trace_url: None,
            model: None,
            total_tokens: None,
            markdown_report: None,
        }
    }

    /// The directory of the prompts.
    pub fn prompts_dir(&self) -> (r: String)
        ensures
            r@ == path_join(self.run_dir@, "prompts"@),
    {
        join_path(self.run_dir.as_str(), "prompts")
    }

    /// The directory of the agents' answers.
    pub fn responses_dir(&self) -> (r: String)
        ensures
            r@ == path_join(self.run_dir@, "raw_responses"@),
    {
        join_path(self.run_dir.as_str(), "raw_responses")
    }

    /// The milliseconds since the run started. The value is the clock's.
    pub fn elapsed_ms(&self) -> u64 {
        milliseconds_since(&self.start_time)
    }

    /// The metadata of the run for a known duration.
    pub fn metadata_after(&self, run_id: String, duration_ms: u64) -> (m: RunMetadata)
        ensures
            m@ == self@.metadata(run_id@, duration_ms),
    {
        RunMetadata {
            run_id,
            model: clone_text(&self.model),
            total_tokens: self.total_tokens,
            duration_ms,
            trace_id: clone_text(&self.trace_id),
            trace_url: clone_text(&self.trace_url),
        }
    }

    /// The metadata of the run as it stands now; the duration is the time
    /// since the run started.
    pub fn to_metadata(&self, run_id: String) -> (m: RunMetadata)
        ensures
            m@ == self@.metadata(run_id@, m.duration_ms),
    {
        let duration_ms = self.elapsed_ms();
        self.metadata_after(run_id, duration_ms)
    }
}

/// A file to write: where, and what.
#[derive(Clone, Debug, PartialEq)]
pub struct Artifact {
    pub path: String,
    pub content: String,
}

/// The value of an [`Artifact`].
pub ghost struct ArtifactView {
    pub path: Seq<char>,
    pub content: Seq<char>,
}

impl View for Artifact {
    type V = ArtifactView;

    open spec fn view(&self) -> ArtifactView {
        ArtifactView { path: self.path@, content: self.content@ }
    }
}

impl DeepView for Artifact {
    type V = ArtifactView;

    open spec fn deep_view(&self) -> ArtifactView {
        self@
    }
}

/// The directory of the run `run_id`.
pub open spec fn run_dir_path(run_id: Seq<char>) -> Seq<char> {
    path_join("runs"@, run_id)
}

/// The name of the file for step `sequence` of `agent`: the step in at least
/// three digits, a hyphen, the agent in lower case, and the extension.
pub open spec fn step_file_name(sequence: u32, agent: Seq<char>, extension: Seq<char>) -> Seq<
    char,
> {
    zero_padded(sequence as nat, 3) + seq!['-'] + lowercase(agent) + extension
}

/// The document kept for an agent's answer; a missing token count is left out.
pub open spec fn raw_response_json(
    agent: Seq<char>,
    sequence: u32,
    content: Seq<char>,
    token_usage: Option<TokenUsage>,
) -> JsonValue {
    let fields = seq![
        ("agent"@, JsonValue::Text(agent)),
        ("sequence"@, JsonValue::Integer(sequence as u64)),
        ("content"@, JsonValue::Text(content)),
    ];
    match token_usage {
        Some(usage) => JsonValue::Record(fields.push(("token_usage"@, usage_json(usage)))),
        None => JsonValue::Record(fields),
    }
}

/// The outcome of writing a document to a file: the artifact with the
/// indented text of `document` at `path`, or the failure to write the text.
pub open spec fn document_artifact(
    r: Result<Artifact, JsonError>,
    path: Seq<char>,
    document: JsonValue,
) -> bool {
    match r {
        Ok(artifact) => json_pretty_text(document) == Some(artifact.content@) && artifact.path@
            == path,
        Err(_) => json_pretty_text(document) is None,
    }
}

/// The directory of the run `run_id`.
pub fn run_directory(run_id: &str) -> (r: String)
    ensures
        r@ == run_dir_path(run_id@),
{
    join_path("runs", run_id)
}

/// The directories that a run needs, in the order to create them: its own,
/// then the one for prompts and the one for the agents' answers.
pub fn run_directories(run_id: &str) -> (r: Vec<String>)
    ensures
        r.deep_view() == seq![
            run_dir_path(run_id@),
            path_join(run_dir_path(run_id@), "prompts"@),
            path_join(run_dir_path(run_id@), "raw_responses"@),
        ],
{
    let run_dir = run_directory(run_id);
    let prompts = join_path(run_dir.as_str(), "prompts");
    let responses = join_path(run_dir.as_str(), "raw_responses");
    let mut out: Vec<String> = Vec::new();
    out.push(run_dir);
    out.push(prompts);
    out.push(responses);
    assert(out.deep_view() =~= seq![
        run_dir_path(run_id@),
        path_join(run_dir_path(run_id@), "prompts"@),
        path_join(run_dir_path(run_id@), "raw_responses"@),
    ]);
    out
}

fn step_file(sequence: u32, agent: &str, extension: &str) -> (r: String)
    ensures
        r@ == step_file_name(sequence, agent@, extension@),
{
    let mut out = zero_padded3(sequence);
    out.push('-');
    out.append(agent.to_lowercase().as_str());
    out.append(extension);
    assert(zero_padded(sequence as nat, 3).push('-') =~= zero_padded(sequence as nat, 3)
        + seq!['-']);
    out
}

fn document_file(path: String, document: &Json) -> (r: Result<Artifact, JsonError>)
    ensures
        document_artifact(r, path@, document@),
{
    match document.to_pretty_text() {
        Ok(content) => Ok(Artifact { path, content }),
        Err(e) => Err(e),
    }
}

/// `request.json`: the request, indented.
pub fn request_artifact(run_dir: &str, request: &Request) -> (r: Result<Artifact, JsonError>)
    ensures
        document_artifact(r, path_join(run_dir@, "request.json"@), request_json(request@)),
{
    document_file(join_path(run_dir, "request.json"), &request.to_json())
}

/// The file of a prompt: its text, as it came.
pub fn prompt_artifact(ctx: &RunContext, agent: &str, sequence: u32, content: &str) -> (r:
    Artifact)
    ensures
        r.path@ == path_join(
            path_join(ctx.run_dir@, "prompts"@),
            step_file_name(sequence, agent@, ".txt"@),
        ),
        r.content@ == content@,
{
    let name = step_file(sequence, agent, ".txt");
    Artifact {
        path: join_path(ctx.prompts_dir().as_str(), name.as_str()),
        content: String::from_str(content),
    }
}

/// The file of an agent's answer: a document with the agent, the step, the
/// answer and, where known, the token count.
pub fn raw_response_artifact(
    ctx: &RunContext,
    agent: &str,
    sequence: u32,
    content: &str,
    token_usage: Option<&TokenUsage>,
) -> (r: Result<Artifact, JsonError>)
    ensures
        document_artifact(
            r,
            path_join(
                path_join(ctx.run_dir@, "raw_responses"@),
                step_file_name(sequence, agent@, ".json"@),
            ),
            raw_response_json(
                agent@,
                sequence,
                content@,
                match token_usage {
                    Some(usage) => Some(*usage),
                    None => None,
                },
            ),
        ),
{
    let name = step_file(sequence, agent, ".json");
    let path = join_path(ctx.responses_dir().as_str(), name.as_str());
    let mut fields: Vec<(String, Json)> = Vec::new();
    put(&mut fields, "agent", Json::text(agent));
    put(&mut fields, "sequence", Json::Integer(sequence as u64));
    put(&mut fields, "content", Json::text(content));
    match token_usage {
        Some(usage) => {
            put(&mut fields, "token_usage", usage.to_json());
        },
        None => {},
    }
    let document = Json::record(fields);
    assert(document@->Record_0 =~= raw_response_json(
        agent@,
        sequence,
        content@,
        match token_usage {
            Some(usage) => Some(*usage),
            None => None,
        },
    )->Record_0);
    document_file(path, &document)
}

/// `output.md`: the report, as it came.
pub fn output_artifact(run_dir: &str, markdown: &str) -> (r: Artifact)
    ensures
        r.path@ == path_join(run_dir@, "output.md"@),
        r.content@ == markdown@,
{
    Artifact { path: join_path(run_dir, "output.md"), content: String::from_str(markdown) }
}

/// `metadata.json`: the metadata of the run, indented.
pub fn metadata_artifact(run_dir: &str, metadata: &RunMetadata) -> (r: Result<
    Artifact,
    JsonError,
>)
    ensures
        document_artifact(r, path_join(run_dir@, "metadata.json"@), metadata_json(metadata@)),
{
    document_file(join_path(run_dir, "metadata.json"), &metadata.to_json())
}

} // verus!
