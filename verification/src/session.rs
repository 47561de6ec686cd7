//! One run of the worker, seen from the program that drives it.
//!
//! A [`Session`] decides; its caller acts. The caller starts the worker,
//! writes the lines and files that the session hands out, and feeds it every
//! line that the worker prints, in the order of arrival. The session says what
//! to show, what to keep on disk, and when to wait for the user's answers.

use vstd::prelude::*;
use crate::cli::RequestConfig;
use crate::json::json_pretty_text;
use crate::json::json_text;
use crate::json::JsonError;
use crate::protocol::answers_json;
use crate::protocol::decode_line;
use crate::protocol::interrupt_json;
use crate::protocol::line_response;
use crate::protocol::metadata_json;
use crate::protocol::request_json;
use crate::protocol::ClarifyingAnswers;
use crate::protocol::DecodeError;
use crate::protocol::DecodeErrorView;
use crate::protocol::Interrupt;
use crate::protocol::InterruptCommand;
use crate::protocol::Request;
use crate::protocol::RequestView;
use crate::protocol::Response;
use crate::protocol::ResponseView;
use crate::protocol::PROTOCOL_VERSION;
use crate::run::metadata_artifact;
use crate::run::output_artifact;
use crate::run::prompt_artifact;
use crate::run::raw_response_artifact;
use crate::run::raw_response_json;
use crate::run::request_artifact;
use crate::run::run_dir_path;
use crate::run::run_directories;
use crate::run::run_directory;
use crate::run::step_file_name;
use crate::run::Artifact;
use crate::run::ArtifactView;
use crate::run::RunContext;
use crate::run::RunContextView;
use crate::text::path_join;

verus! {

/// `Uuid::new_v4` in the hyphenated form that its `Display` gives: a random
/// identifier, of which nothing is known beforehand.
#[verifier::external_body]
fn random_run_id() -> String {
    uuid::Uuid::new_v4().to_string()
}

/// Why a run cannot go on.
#[derive(Debug, PartialEq)]
pub enum SessionError {
    /// A message could not be written as JSON.
    Encode { message: String },
    /// The answers to the clarifying questions never came.
    AnswersAbandoned,
    /// Answers were offered, but the run does not wait for any.
    NotAwaiting,
}

/// A file that the session wants kept.
#[derive(Debug, PartialEq)]
pub enum Persist {
    Nothing,
    Write(Artifact),
    /// The file's text could not be produced.
    Failed(JsonError),
}

/// The value of a [`Persist`]; the reason of a failure is left out.
pub ghost enum PersistView {
    Nothing,
    Write(ArtifactView),
    Failed,
}

impl View for Persist {
    type V = PersistView;

    open spec fn view(&self) -> PersistView {
        match self {
            Persist::Nothing => PersistView::Nothing,
            Persist::Write(artifact) => PersistView::Write(artifact@),
            Persist::Failed(_) => PersistView::Failed,
        }
    }
}

/// What the session wants done with one line of the worker.
#[derive(Debug, PartialEq)]
pub struct Routed {
    /// The event to show to the user.
    pub forward: Option<Response>,
    /// The file to keep.
    pub persist: Persist,
    /// Reading stops here until the answers are provided or abandoned.
    pub await_answers: bool,
    /// Why the line is no event; a warning is due.
    pub rejected: Option<DecodeError>,
}

/// The value of a [`Routed`].
pub ghost struct RoutedView {
    pub forward: Option<ResponseView>,
    pub persist: PersistView,
    pub await_answers: bool,
    pub rejected: Option<DecodeErrorView>,
}

impl View for Routed {
    type V = RoutedView;

    open spec fn view(&self) -> RoutedView {
        RoutedView {
            forward: match self.forward {
                Some(response) => Some(response@),
                None => None,
            },
            persist: self.persist@,
            await_answers: self.await_answers,
            rejected: match self.rejected {
                Some(error) => Some(error@),
                None => None,
            },
        }
    }
}

/// The state of one run.
pub struct Session {
    pub run_id: String,
    pub ctx: RunContext,
    /// The last verdict of the worker on its own success.
    pub success: bool,
    /// The answers of the clarifying round went out.
    pub answers_sent: bool,
    /// The clarifying round of the run is over: its answers went out, or the
    /// user cancelled, or the answers never came.
    pub round_resolved: bool,
    /// The run waits for the answers of the clarifying round.
    pub awaiting_answers: bool,
    /// The run is over; nothing is sent to the worker any more.
    pub finished: bool,
    /// The paths of the files handed out so far, oldest first.
    pub written: Ghost<Seq<Seq<char>>>,
}

/// The value of a [`Session`].
pub ghost struct SessionView {
    pub run_id: Seq<char>,
    pub ctx: RunContextView,
    pub success: bool,
    pub answers_sent: bool,
    pub round_resolved: bool,
    pub awaiting_answers: bool,
    pub finished: bool,
    pub written: Seq<Seq<char>>,
}

impl View for Session {
    type V = SessionView;

    open spec fn view(&self) -> SessionView {
        SessionView {
            run_id: self.run_id@,
            ctx: self.ctx@,
            success: self.success,
            answers_sent: self.answers_sent,
            round_resolved: self.round_resolved,
            awaiting_answers: self.awaiting_answers,
            finished: self.finished,
            written: self.written@,
        }
    }
}

/// A text as one line: the text and a line feed.
pub open spec fn framed(text: Seq<char>) -> Seq<char> {
    text + seq!['\n']
}

/// The path of `request.json` of the run `run_id`.
pub open spec fn request_path(run_id: Seq<char>) -> Seq<char> {
    path_join(run_dir_path(run_id), "request.json"@)
}

impl SessionView {
    /// A run that has just started.
    pub open spec fn initial(run_id: Seq<char>) -> SessionView {
        SessionView {
            run_id,
            ctx: RunContextView::fresh(run_dir_path(run_id)),
            success: false,
            answers_sent: false,
            round_resolved: false,
            awaiting_answers: false,
            finished: false,
            written: seq![request_path(run_id)],
        }
    }

    /// The run keeps its files in its own directory, and the first file that
    /// it handed out is the request.
    pub open spec fn wf(self) -> bool {
        &&& self.ctx.run_dir == run_dir_path(self.run_id)
        &&& self.written.len() >= 1
        &&& self.written[0] == request_path(self.run_id)
    }

    /// Whether the event opens the clarifying round: it holds questions, and
    /// the round of the run is not over yet.
    pub open spec fn asks(self, response: ResponseView) -> bool {
        response is ClarifyingQuestions && !self.round_resolved
    }

    /// The file that the event leaves on disk.
    pub open spec fn persisted(self, response: ResponseView) -> PersistView {
        match response {
            ResponseView::Prompt { agent, sequence, content } => PersistView::Write(
                ArtifactView {
                    path: path_join(
                        path_join(self.ctx.run_dir, "prompts"@),
                        step_file_name(sequence, agent, ".txt"@),
                    ),
                    content,
                },
            ),
            ResponseView::AgentOutput {
                agent,
                sequence,
                content,
                token_usage,
            } => match json_pretty_text(raw_response_json(agent, sequence, content, token_usage)) {
                Some(text) => PersistView::Write(
                    ArtifactView {
                        path: path_join(
                            path_join(self.ctx.run_dir, "raw_responses"@),
                            step_file_name(sequence, agent, ".json"@),
                        ),
                        content: text,
                    },
                ),
                None => PersistView::Failed,
            },
            _ => PersistView::Nothing,
        }
    }

    /// The list of files handed out, after `persist`.
    pub open spec fn logged(self, persist: PersistView) -> Seq<Seq<char>> {
        match persist {
            PersistView::Write(artifact) => self.written.push(artifact.path),
            _ => self.written,
        }
    }

    /// What the run knows after the event.
    pub open spec fn absorbed(self, response: ResponseView) -> SessionView {
        let written = self.logged(self.persisted(response));
        match response {
            ResponseView::Trace { trace_id, trace_url } => SessionView {
                ctx: RunContextView {
                    trace_id: Some(trace_id),
                    trace_url: Some(trace_url),
                    ..self.ctx
                },
                written,
                ..self
            },
            ResponseView::ClarifyingQuestions { .. } => SessionView {
                awaiting_answers: self.awaiting_answers || !self.round_resolved,
                written,
                ..self
            },
            ResponseView::Report { markdown_report, .. } => SessionView {
                ctx: RunContextView { markdown_report: Some(markdown_report), ..self.ctx },
                written,
                ..self
            },
            ResponseView::Metadata { model, total_tokens, .. } => SessionView {
                ctx: RunContextView { model: Some(model), total_tokens, ..self.ctx },
                written,
                ..self
            },
            ResponseView::Done { success } => SessionView { success, written, ..self },
            _ => SessionView { written, ..self },
        }
    }

    /// What is to be done with the event: every event is handed on to be
    /// shown, whatever else it asks for.
    pub open spec fn routed_event(self, response: ResponseView) -> RoutedView {
        RoutedView {
            forward: Some(response),
            persist: self.persisted(response),
            await_answers: self.asks(response),
            rejected: None,
        }
    }

    /// The run after one line of the worker. A line that is no event leaves
    /// the run as it was.
    pub open spec fn after_line(self, line: Seq<char>) -> SessionView {
        match line_response(line) {
            Ok(response) => self.absorbed(response),
            Err(_) => self,
        }
    }

    /// What is to be done with one line of the worker. For a line that is no
    /// event, nothing but to report why.
    pub open spec fn routed(self, line: Seq<char>) -> RoutedView {
        match line_response(line) {
            Ok(response) => self.routed_event(response),
            Err(error) => RoutedView {
                forward: None,
                persist: PersistView::Nothing,
                await_answers: false,
                rejected: Some(error),
            },
        }
    }

    /// The run after the lines of `lines`, taken in their order.
    pub open spec fn after_lines(self, lines: Seq<Seq<char>>) -> SessionView
        decreases lines.len(),
    {
        if lines.len() == 0 {
            self
        } else {
            self.after_lines(lines.drop_last()).after_line(lines.last())
        }
    }

    /// How many lines of `lines` the run rejects, taking them in their order.
    pub open spec fn rejections(self, lines: Seq<Seq<char>>) -> nat
        decreases lines.len(),
    {
        if lines.len() == 0 {
            0
        } else {
            let before = self.after_lines(lines.drop_last());
            self.rejections(lines.drop_last()) + if before.routed(lines.last()).rejected
                is Some {
                1nat
            } else {
                0nat
            }
        }
    }

    /// Whether answers can be taken: the run waits for them and is not over.
    pub open spec fn takes_answers(self) -> bool {
        self.awaiting_answers && !self.finished
    }
}

/// How many lines of `lines` are no event.
pub open spec fn bad_lines(lines: Seq<Seq<char>>) -> nat
    decreases lines.len(),
{
    if lines.len() == 0 {
        0
    } else {
        bad_lines(lines.drop_last()) + if line_response(lines.last()) is Err {
            1nat
        } else {
            0nat
        }
    }
}

/// A line that is no event is rejected with its reason and changes nothing:
/// nothing is shown, kept or waited for, and the run goes on as it was. A line
/// that is an event is never rejected.
pub proof fn lemma_bad_line_is_reported_and_skipped(session: SessionView, line: Seq<char>)
    ensures
        line_response(line) matches Err(error) ==> session.after_line(line) == session
            && session.routed(line) == (RoutedView {
            forward: None,
            persist: PersistView::Nothing,
            await_answers: false,
            rejected: Some(error),
        }),
        line_response(line) is Ok ==> session.routed(line).rejected is None,
{
}

/// Once the clarifying round of a run is over, no line opens it again:
/// questions that still come are handed on like every event, but the run does
/// not wait for answers to them, and so no second answers line goes out.
pub proof fn lemma_round_is_not_reopened(session: SessionView, line: Seq<char>)
    requires
        session.round_resolved,
    ensures
        session.after_line(line).round_resolved,
        session.after_line(line).answers_sent == session.answers_sent,
        session.after_line(line).awaiting_answers == session.awaiting_answers,
        !session.routed(line).await_answers,
{
}

/// The answers of a run go out at most once: once its round is over and
/// nothing is awaited, no sequence of lines makes the run wait for answers
/// again, so that answers offered later are refused.
pub proof fn lemma_answers_go_out_once(session: SessionView, lines: Seq<Seq<char>>)
    requires
        session.round_resolved,
        !session.awaiting_answers,
    ensures
        session.after_lines(lines).round_resolved,
        !session.after_lines(lines).awaiting_answers,
        !session.after_lines(lines).takes_answers(),
        session.after_lines(lines).answers_sent == session.answers_sent,
    decreases lines.len(),
{
    if lines.len() > 0 {
        lemma_answers_go_out_once(session, lines.drop_last());
        lemma_round_is_not_reopened(session.after_lines(lines.drop_last()), lines.last());
    }
}

/// Every line that is an event is handed on, as the event that it holds;
/// a line that is none is handed on as nothing.
pub proof fn lemma_every_event_is_handed_on(session: SessionView, line: Seq<char>)
    ensures
        line_response(line) matches Ok(response) ==> session.routed(line).forward == Some(
            response,
        ),
        line_response(line) is Err ==> session.routed(line).forward is None,
{
}

/// Over any sequence of lines, the run rejects exactly the lines that are no
/// event, each once.
pub proof fn lemma_one_rejection_per_bad_line(session: SessionView, lines: Seq<Seq<char>>)
    ensures
        session.rejections(lines) == bad_lines(lines),
    decreases lines.len(),
{
    if lines.len() > 0 {
        lemma_one_rejection_per_bad_line(session, lines.drop_last());
    }
}

/// Whatever lines the worker prints, the request stays the first file of the
/// run: every other file is handed out after it.
pub proof fn lemma_request_is_written_first(session: SessionView, lines: Seq<Seq<char>>)
    requires
        session.wf(),
    ensures
        session.after_lines(lines).wf(),
        session.after_lines(lines).written[0] == request_path(session.run_id),
        session.after_lines(lines).run_id == session.run_id,
    decreases lines.len(),
{
    if lines.len() > 0 {
        lemma_request_is_written_first(session, lines.drop_last());
    }
}

/// What a run starts with.
pub struct Started {
    pub session: Session,
    /// The directories to create, in this order.
    pub directories: Vec<String>,
    /// `request.json`, to be written before any other file.
    pub request_file: Artifact,
    /// The first line for the worker, line feed included.
    pub request_line: String,
}

/// The outcome of starting a run for a request: the run in its first state
/// with the request as file and as line, or the failure to write the request.
pub open spec fn started_as(r: Result<Started, SessionError>, request: RequestView) -> bool {
    let document = request_json(request);
    match r {
        Ok(started) => {
            &&& started.session@ == SessionView::initial(request.run_id)
            &&& started.directories.deep_view() == seq![
                run_dir_path(request.run_id),
                path_join(run_dir_path(request.run_id), "prompts"@),
                path_join(run_dir_path(request.run_id), "raw_responses"@),
            ]
            &&& started.request_file@.path == request_path(request.run_id)
            &&& json_pretty_text(document) == Some(started.request_file@.content)
            &&& json_text(document) is Some
            &&& started.request_line@ == framed(json_text(document)->0)
        },
        Err(error) => error is Encode && (json_pretty_text(document) is None || json_text(document)
            is None),
    }
}

/// The request that opens the run `run_id` for `query` under `config`.
pub open spec fn opening_request(
    run_id: Seq<char>,
    query: Seq<char>,
    config: crate::cli::RequestConfigView,
) -> RequestView {
    RequestView { version: PROTOCOL_VERSION@, run_id, query, config }
}

/// Whether the request of the run `run_id` can be written, on one line and
/// indented.
pub open spec fn request_is_writable(
    run_id: Seq<char>,
    query: Seq<char>,
    config: crate::cli::RequestConfigView,
) -> bool {
    let document = request_json(opening_request(run_id, query, config));
    json_pretty_text(document) is Some && json_text(document) is Some
}

/// What a run ends with.
#[derive(Debug, PartialEq)]
pub struct Finished {
    /// `output.md`, where a report came.
    pub output: Option<Artifact>,
    /// `metadata.json`, or the failure to produce its text.
    pub metadata: Result<Artifact, JsonError>,
    /// The worker called the run a success and left with a success status.
    pub success: bool,
    pub run_id: String,
    /// How long the run took, in milliseconds.
    pub duration_ms: u64,
}

impl SessionView {
    /// The run once it is over.
    pub open spec fn ended(self, duration_ms: u64) -> SessionView {
        let with_output = match self.ctx.markdown_report {
            Some(_) => self.written.push(path_join(self.ctx.run_dir, "output.md"@)),
            None => self.written,
        };
        SessionView {
            finished: true,
            awaiting_answers: false,
            written: match json_pretty_text(
                metadata_json(self.ctx.metadata(self.run_id, duration_ms)),
            ) {
                Some(_) => with_output.push(path_join(self.ctx.run_dir, "metadata.json"@)),
                None => with_output,
            },
            ..self
        }
    }

    /// The files and the verdict at the end of the run: the report where one
    /// came, the metadata, and success only where the worker reported it and
    /// left with a success status.
    pub open spec fn finishes_with(self, finished: Finished, exit_ok: bool, duration_ms: u64) -> bool {
        &&& finished.success == (self.success && exit_ok)
        &&& finished.run_id@ == self.run_id
        &&& finished.duration_ms == duration_ms
        &&& finished.output.deep_view() == match self.ctx.markdown_report {
            Some(report) => Some(
                ArtifactView { path: path_join(self.ctx.run_dir, "output.md"@), content: report },
            ),
            None => None,
        }
        &&& crate::run::document_artifact(
            finished.metadata,
            path_join(self.ctx.run_dir, "metadata.json"@),
            metadata_json(self.ctx.metadata(self.run_id, duration_ms)),
        )
    }
}

fn frame(text: String) -> (r: String)
    ensures
        r@ == framed(text@),
{
    let mut out = text;
    out.push('\n');
    assert(text@.push('\n') =~= text@ + seq!['\n']);
    out
}

/// The line that carries `command` to the worker, line feed included; a
/// line feed alone where the message cannot be written.
pub fn interrupt_line(command: InterruptCommand) -> (r: String)
    ensures
        r@ == framed(
            crate::protocol::text_or_empty(json_text(interrupt_json("interrupt"@, command))),
        ),
{
    frame(Interrupt::new(command).to_json())
}

/// The exit status of the program after a run: 0 where the worker reported
/// success and left with a success status, 1 otherwise.
pub fn exit_code(success: bool, exit_ok: bool) -> (code: i32)
    ensures
        code == if success && exit_ok {
            0i32
        } else {
            1i32
        },
{
    if success && exit_ok {
        0
    } else {
        1
    }
}

impl SessionError {
    /// The error in words.
    pub fn message(&self) -> (r: String)
        ensures
            self is AnswersAbandoned ==> r@ == "Failed to receive clarifying answers"@,
            self is NotAwaiting ==> r@ == "No clarifying answers are awaited"@,
            self matches SessionError::Encode { message } ==> r@ == message@,
    {
        match self {
            SessionError::Encode { message } => message.clone(),
            SessionError::AnswersAbandoned => String::from_str(
                "Failed to receive clarifying answers",
            ),
            SessionError::NotAwaiting => String::from_str("No clarifying answers are awaited"),
        }
    }
}

impl Session {
    /// Starts the run `run_id` for `query` under the settings `config`.
    pub fn start_with_id(run_id: String, query: &str, config: &RequestConfig) -> (r: Result<
        Started,
        SessionError,
    >)
        ensures
            started_as(
                r,
                RequestView {
                    version: PROTOCOL_VERSION@,
                    run_id: run_id@,
                    query: query@,
                    config: config@,
                },
            ),
            r matches Ok(started) ==> started.session@.wf(),
    {
        let request = Request {
            version: PROTOCOL_VERSION,
            run_id: run_id.clone(),
            query: String::from_str(query),
            config: config.clone(),
        };
        let run_dir = run_directory(run_id.as_str());
        let directories = run_directories(run_id.as_str());
        let request_file = match request_artifact(run_dir.as_str(), &request) {
            Ok(artifact) => artifact,
            Err(e) => {
                return Err(SessionError::Encode { message: e.message });
            },
        };
        let request_line = match request.to_json().to_text() {
            Ok(text) => frame(text),
            Err(e) => {
                return Err(SessionError::Encode { message: e.message });
            },
        };
        let ghost first = seq![request_file.path@];
        let session = Session {
            run_id,
            ctx: RunContext::new(run_dir),
            success: false,
            answers_sent: false,
            round_resolved: false,
            awaiting_answers: false,
            finished: false,
            written: Ghost(first),
        };
        Ok(Started { session, directories, request_file, request_line })
    }

    /// Starts a run for `query` under the settings `config`, with a fresh
    /// random identifier. The run starts whenever its request can be written:
    /// it fails only where, for the identifier that was drawn, the request has
    /// no text.
    pub fn start(query: &str, config: &RequestConfig) -> (r: Result<Started, SessionError>)
        ensures
            match r {
                Ok(started) => started_as(
                    r,
                    opening_request(started.session.run_id@, query@, config@),
                ) && started.session@.wf(),
                Err(error) => error is Encode && exists|run_id: Seq<char>|
                    !#[trigger] request_is_writable(run_id, query@, config@),
            },
            (forall|run_id: Seq<char>| #[trigger] request_is_writable(run_id, query@, config@))
                ==> r is Ok,
    {
        let run_id = random_run_id();
        let ghost drawn = run_id@;
        let r = Session::start_with_id(run_id, query, config);
        proof {
            if r is Err {
                assert(!request_is_writable(drawn, query@, config@));
            }
        }
        r
    }

    /// Whether the run keeps its files in its own directory: the part of
    /// [`SessionView::wf`] that can be tested while the program runs.
    pub fn well_formed(&self) -> (r: bool)
        ensures
            r == (self@.ctx.run_dir == run_dir_path(self@.run_id)),
            self@.wf() ==> r,
    {
        crate::text::same_text(
            self.ctx.run_dir.as_str(),
            run_directory(self.run_id.as_str()).as_str(),
        )
    }

    /// Takes one event of the worker and says what to do with it.
    pub fn handle_response(&mut self, response: Response) -> (routed: Routed)
        requires
            old(self)@.wf(),
        ensures
            final(self)@ == old(self)@.absorbed(response@),
            routed@ == old(self)@.routed_event(response@),
            final(self)@.wf(),
    {
        let mut persist = Persist::Nothing;
        let mut await_answers = false;
        match &response {
            Response::Trace { trace_id, trace_url } => {
                self.ctx.trace_id = Some(trace_id.clone());
                self.ctx.trace_url = Some(trace_url.clone());
            },
            Response::ClarifyingQuestions { .. } => {
                if !self.round_resolved {
                    await_answers = true;
                    self.awaiting_answers = true;
                }
            },
            Response::Prompt { agent, sequence, content } => {
                let artifact = prompt_artifact(
                    &self.ctx,
                    agent.as_str(),
                    *sequence,
                    content.as_str(),
                );
                proof {
                    self.written@ = self.written@.push(artifact.path@);
                }
                persist = Persist::Write(artifact);
            },
            Response::AgentOutput { agent, sequence, content, token_usage } => {
                match raw_response_artifact(
                    &self.ctx,
                    agent.as_str(),
                    *sequence,
                    content.as_str(),
                    token_usage.as_ref(),
                ) {
                    Ok(artifact) => {
                        proof {
                            self.written@ = self.written@.push(artifact.path@);
                        }
                        persist = Persist::Write(artifact);
                    },
                    Err(e) => {
                        persist = Persist::Failed(e);
                    },
                }
            },
            Response::Report { markdown_report, .. } => {
                self.ctx.markdown_report = Some(markdown_report.clone());
            },
            Response::Metadata { model, total_tokens, .. } => {
                self.ctx.model = Some(model.clone());
                self.ctx.total_tokens = *total_tokens;
            },
            Response::Done { success } => {
                self.success = *success;
            },
            _ => {},
        }
        Routed {
            forward: Some(response),
            persist,
            await_answers,
            rejected: None,
        }
    }

    /// Takes one line of the worker and says what to do with it. A line that
    /// is no event is rejected and changes nothing; the run goes on.
    pub fn handle_line(&mut self, line: &str) -> (routed: Routed)
        requires
            old(self)@.wf(),
        ensures
            final(self)@ == old(self)@.after_line(line@),
            routed@ == old(self)@.routed(line@),
            final(self)@.wf(),
    {
        match decode_line(line) {
            Ok(response) => self.handle_response(response),
            Err(error) => Routed {
                forward: None,
                persist: Persist::Nothing,
                await_answers: false,
                rejected: Some(error),
            },
        }
    }

    /// Takes the answers of the clarifying round and returns the line that
    /// carries them to the worker, line feed included. Answers are taken once
    /// per run, and only while the run waits for them; while it does, they are
    /// taken whenever their message can be written.
    pub fn provide_answers(&mut self, answers: Vec<String>) -> (r: Result<String, SessionError>)
        requires
            old(self)@.wf(),
        ensures
            final(self)@.wf(),
            old(self)@.takes_answers() && json_text(answers_json(answers.deep_view())) is Some
                ==> r is Ok,
            match r {
                Ok(line) => {
                    &&& old(self)@.takes_answers()
                    &&& json_text(answers_json(answers.deep_view())) == Some(
                        line@.drop_last(),
                    )
                    &&& line@ == framed(line@.drop_last())
                    &&& final(self)@ == (SessionView {
                        answers_sent: true,
                        round_resolved: true,
                        awaiting_answers: false,
                        ..old(self)@
                    })
                },
                Err(error) => {
                    &&& final(self)@ == old(self)@
                    &&& error is NotAwaiting || error is Encode
                    &&& error is NotAwaiting <==> !old(self)@.takes_answers()
                    &&& error is Encode <==> old(self)@.takes_answers() && json_text(
                        answers_json(answers.deep_view()),
                    ) is None
                },
            },
    {
        if !self.awaiting_answers || self.finished {
            return Err(SessionError::NotAwaiting);
        }
        let message = ClarifyingAnswers { answers };
        match message.to_json().to_text() {
            Ok(text) => {
                self.answers_sent = true;
                self.round_resolved = true;
                self.awaiting_answers = false;
                let line = frame(text);
                assert(line@.drop_last() =~= text@);
                Ok(line)
            },
            Err(e) => Err(SessionError::Encode { message: e.message }),
        }
    }

    /// The user cancelled at the confirmation prompt: the answers are
    /// dropped, the round is over without them, and the worker is told to stop.
    /// Returns the line that tells it, or nothing where the run does not wait
    /// for answers.
    pub fn cancel_answers(&mut self) -> (r: Option<String>)
        requires
            old(self)@.wf(),
        ensures
            final(self)@.wf(),
            final(self)@ == (SessionView {
                awaiting_answers: false,
                round_resolved: old(self)@.round_resolved || old(self)@.takes_answers(),
                ..old(self)@
            }),
            match r {
                Some(line) => old(self)@.takes_answers() && line@ == framed(
                    crate::protocol::text_or_empty(
                        json_text(interrupt_json("interrupt"@, InterruptCommand::Stop)),
                    ),
                ),
                None => !old(self)@.takes_answers(),
            },
    {
        let waiting = self.awaiting_answers && !self.finished;
        self.awaiting_answers = false;
        if waiting {
            self.round_resolved = true;
            Some(interrupt_line(InterruptCommand::Stop))
        } else {
            None
        }
    }

    /// The answers never came: the run is over, with an error of its own.
    pub fn abandon_answers(&mut self) -> (error: SessionError)
        requires
            old(self)@.wf(),
        ensures
            final(self)@.wf(),
            final(self)@ == (SessionView {
                awaiting_answers: false,
                round_resolved: true,
                finished: true,
                ..old(self)@
            }),
            error is AnswersAbandoned,
    {
        self.awaiting_answers = false;
        self.round_resolved = true;
        self.finished = true;
        SessionError::AnswersAbandoned
    }

    /// The line that carries `command` to the worker, or nothing where the
    /// run is over: no command reaches a worker that is gone.
    pub fn interrupt(&self, command: InterruptCommand) -> (r: Option<String>)
        ensures
            match r {
                Some(line) => !self@.finished && line@ == framed(
                    crate::protocol::text_or_empty(
                        json_text(interrupt_json("interrupt"@, command)),
                    ),
                ),
                None => self@.finished,
            },
    {
        if self.finished {
            None
        } else {
            Some(interrupt_line(command))
        }
    }

    /// Ends the run after `duration_ms` milliseconds; `exit_ok` says whether
    /// the worker left with a success status.
    pub fn finish_after(&mut self, exit_ok: bool, duration_ms: u64) -> (finished: Finished)
        requires
            old(self)@.wf(),
        ensures
            old(self)@.finishes_with(finished, exit_ok, duration_ms),
            final(self)@ == old(self)@.ended(duration_ms),
            final(self)@.wf(),
    {
        let output = match &self.ctx.markdown_report {
            Some(report) => {
                let artifact = output_artifact(self.ctx.run_dir.as_str(), report.as_str());
                proof {
                    self.written@ = self.written@.push(artifact.path@);
                }
                Some(artifact)
            },
            None => None,
        };
        let record = self.ctx.metadata_after(self.run_id.clone(), duration_ms);
        let metadata = metadata_artifact(self.ctx.run_dir.as_str(), &record);
        proof {
            if metadata is Ok {
                self.written@ = self.written@.push(metadata->Ok_0.path@);
            }
        }
        self.finished = true;
        self.awaiting_answers = false;
        Finished {
            output,
            metadata,
            success: self.success && exit_ok,
            run_id: self.run_id.clone(),
            duration_ms,
        }
    }

    /// Ends the run now; `exit_ok` says whether the worker left with a
    /// success status. The duration in the metadata is the clock's.
    pub fn finish(&mut self, exit_ok: bool) -> (finished: Finished)
        requires
            old(self)@.wf(),
        ensures
            old(self)@.finishes_with(finished, exit_ok, finished.duration_ms),
            final(self)@ == old(self)@.ended(finished.duration_ms),
            final(self)@.wf(),
    {
        let duration_ms = self.ctx.elapsed_ms();
        self.finish_after(exit_ok, duration_ms)
    }
}

} // verus!
