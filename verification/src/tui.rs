//! The interactive controller: what the session shows and what each key does.
//!
//! The controller holds no terminal and no channel. A caller hands it the keys
//! that were pressed and the events that arrived, and carries out the
//! [`Command`] that a key may give back.

pub mod markdown;
pub mod styled;
pub mod widgets;

use vstd::prelude::*;
use crate::protocol::ClarifyingQuestion;
use crate::protocol::ClarifyingQuestionView;
use crate::protocol::Response;
use crate::protocol::ResponseView;
use crate::text::concat2;
use crate::text::concat3;
use crate::text::decimal;
use crate::text::decimal_string;
use crate::text::lowercase;
use crate::text::same_text;
use crate::text::trim;
use crate::text::trimmed;
use crate::tui::markdown::MarkdownRenderer;
use crate::tui::widgets::is_chat_height;
use crate::tui::widgets::total_lines_with;
use crate::tui::widgets::ChatMessage;
use crate::tui::widgets::ChatMessageView;
use crate::tui::widgets::MessageRole;

verus! {

/// Where the conversation with the worker stands.
#[derive(Clone, Copy, PartialEq, Eq, Structural, Debug)]
pub enum AppPhase {
    Idle,
    AwaitingClarification,
    Clarifying,
    Confirming,
    Researching,
    Completed,
    Error,
}

/// A round of clarifying questions that is being answered.
#[derive(Clone, Debug, PartialEq)]
pub struct ClarifyingState {
    pub questions: Vec<ClarifyingQuestion>,
    pub current_index: usize,
    pub answers: Vec<String>,
}

/// The value of a [`ClarifyingState`].
pub ghost struct ClarifyingStateView {
    pub questions: Seq<ClarifyingQuestionView>,
    pub current_index: nat,
    pub answers: Seq<Seq<char>>,
}

impl ClarifyingStateView {
    /// One answer was given for each question before the current one, and the
    /// current one exists.
    pub open spec fn wf(self) -> bool {
        &&& self.answers.len() == self.current_index
        &&& self.current_index < self.questions.len()
    }
}

impl View for ClarifyingState {
    type V = ClarifyingStateView;

    open spec fn view(&self) -> ClarifyingStateView {
        ClarifyingStateView {
            questions: self.questions.deep_view(),
            current_index: self.current_index as nat,
            answers: self.answers.deep_view(),
        }
    }
}

impl DeepView for ClarifyingState {
    type V = ClarifyingStateView;

    open spec fn deep_view(&self) -> ClarifyingStateView {
        self@
    }
}

/// The state of the interactive session.
#[derive(Debug)]
pub struct App {
    pub messages: Vec<ChatMessage>,
    pub input: String,
    pub status: Option<String>,
    pub is_processing: bool,
    /// Lines scrolled up from the bottom of the chat log.
    pub scroll_offset: usize,
    pub should_quit: bool,
    pub clarifying: Option<ClarifyingState>,
    pub terminal_width: u16,
    pub require_confirmation: bool,
    /// Answers that wait for the user's confirmation.
    pub pending_answers: Option<Vec<String>>,
    pub phase: AppPhase,
    pub spinner_index: usize,
    /// The clarifying round of the current run was answered in full; further
    /// questions of that run are ignored.
    pub round_resolved: bool,
}

/// The value of an [`App`].
pub ghost struct AppView {
    pub messages: Seq<ChatMessageView>,
    pub input: Seq<char>,
    pub status: Option<Seq<char>>,
    pub is_processing: bool,
    pub scroll_offset: nat,
    pub should_quit: bool,
    pub clarifying: Option<ClarifyingStateView>,
    pub terminal_width: u16,
    pub require_confirmation: bool,
    pub pending_answers: Option<Seq<Seq<char>>>,
    pub phase: AppPhase,
    pub spinner_index: nat,
    pub round_resolved: bool,
}

impl View for App {
    type V = AppView;

    open spec fn view(&self) -> AppView {
        AppView {
            messages: self.messages.deep_view(),
            input: self.input@,
            status: self.status.deep_view(),
            is_processing: self.is_processing,
            scroll_offset: self.scroll_offset as nat,
            should_quit: self.should_quit,
            clarifying: self.clarifying.deep_view(),
            terminal_width: self.terminal_width,
            require_confirmation: self.require_confirmation,
            pending_answers: self.pending_answers.deep_view(),
            phase: self.phase,
            spinner_index: self.spinner_index as nat,
            round_resolved: self.round_resolved,
        }
    }
}

/// What reaches the controller from the run.
#[derive(Debug, PartialEq)]
pub enum AppEvent {
    BackendResponse(Response),
    RunComplete { success: bool, run_id: String },
    Error(String),
    /// Something went wrong, and the run goes on.
    Warning(String),
}

impl AppView {
    /// The state of a session that has just started.
    pub open spec fn initial(require_confirmation: bool) -> AppView {
        AppView {
            messages: Seq::empty(),
            input: Seq::empty(),
            status: None,
            is_processing: false,
            scroll_offset: 0,
            should_quit: false,
            clarifying: None,
            terminal_width: 80,
            require_confirmation,
            pending_answers: None,
            phase: AppPhase::Idle,
            spinner_index: 0,
            round_resolved: false,
        }
    }

    /// A round that is open is well formed, not yet resolved, and open only
    /// while no answers wait for confirmation; answers that wait for
    /// confirmation are those of a resolved round.
    pub open spec fn wf(self) -> bool {
        &&& self.clarifying matches Some(round) ==> round.wf() && self.pending_answers is None
            && !self.round_resolved
        &&& self.pending_answers is Some ==> self.round_resolved
    }

    /// The log with one more message; the view returns to the bottom.
    pub open spec fn with_message(self, role: MessageRole, content: Seq<char>) -> AppView {
        AppView {
            messages: self.messages.push(ChatMessageView { role, content }),
            scroll_offset: 0,
            ..self
        }
    }

    /// The session with another status.
    pub open spec fn with_status(self, status: Option<Seq<char>>) -> AppView {
        AppView { status, ..self }
    }

    /// The session in another phase.
    pub open spec fn with_phase(self, phase: AppPhase) -> AppView {
        AppView { phase, ..self }
    }

    /// Whether typing changes the input line: always, except while a run is
    /// in progress and asks nothing of the user.
    pub open spec fn accepts_text(self) -> bool {
        self.clarifying is Some || self.pending_answers is Some || !self.is_processing
    }
}

impl App {
    /// A session that has just started.
    pub fn new(require_confirmation: bool) -> (app: Self)
        ensures
            app@ == AppView::initial(require_confirmation),
            app@.wf(),
    {
        let app = App {
            messages: Vec::new(),
            input: String::new(),
            status: None,
            is_processing: false,
            scroll_offset: 0,
            should_quit: false,
            clarifying: None,
            terminal_width: 80,
            require_confirmation,
            pending_answers: None,
            phase: AppPhase::Idle,
            spinner_index: 0,
            round_resolved: false,
        };
        assert(app.messages.deep_view() =~= Seq::empty());
        app
    }

    /// Whether the state is well formed: see [`AppView::wf`].
    pub fn well_formed(&self) -> (r: bool)
        ensures
            r == self@.wf(),
    {
        let round_fits = match &self.clarifying {
            Some(state) => {
                assert(state.questions.deep_view().len() == state.questions.len());
                assert(state.answers.deep_view().len() == state.answers.len());
                state.answers.len() == state.current_index && state.current_index
                    < state.questions.len() && self.pending_answers.is_none()
                    && !self.round_resolved
            },
            None => true,
        };
        round_fits && (self.pending_answers.is_none() || self.round_resolved)
    }

    /// Whether a clarifying round is open.
    pub fn is_clarifying(&self) -> (r: bool)
        ensures
            r == (self@.clarifying is Some),
    {
        self.clarifying.is_some()
    }

    /// Whether answers wait for confirmation.
    pub fn awaiting_confirmation(&self) -> (r: bool)
        ensures
            r == (self@.pending_answers is Some),
    {
        self.pending_answers.is_some()
    }

    /// The question that waits for its answer.
    pub fn current_question(&self) -> (r: Option<&ClarifyingQuestion>)
        ensures
            match r {
                Some(q) => self@.clarifying matches Some(round) && round.current_index
                    < round.questions.len() && q@ == round.questions[round.current_index as int],
                None => self@.clarifying matches Some(round) ==> round.current_index
                    >= round.questions.len(),
            },
    {
        match &self.clarifying {
            Some(state) => if state.current_index < state.questions.len() {
                Some(&state.questions[state.current_index])
            } else {
                None
            },
            None => None,
        }
    }

    /// Whether the session is at the confirmation prompt.
    pub fn is_confirming(&self) -> (r: bool)
        ensures
            r == (self.phase == AppPhase::Confirming),
    {
        self.phase == AppPhase::Confirming
    }

    fn add_message(&mut self, role: MessageRole, content: String)
        ensures
            final(self)@ == old(self)@.with_message(role, content@),
    {
        let ghost before = self.messages.deep_view();
        self.messages.push(ChatMessage { role, content });
        self.scroll_offset = 0;
        assert(self.messages.deep_view() =~= before.push(
            ChatMessageView { role, content: content@ },
        ));
    }

    /// Adds a message of the user to the log and returns to its bottom.
    pub fn add_user_message(&mut self, content: String)
        ensures
            final(self)@ == old(self)@.with_message(MessageRole::User, content@),
    {
        self.add_message(MessageRole::User, content);
    }

    /// Adds a message of the assistant to the log and returns to its bottom.
    pub fn add_assistant_message(&mut self, content: String)
        ensures
            final(self)@ == old(self)@.with_message(MessageRole::Assistant, content@),
    {
        self.add_message(MessageRole::Assistant, content);
    }

    /// Adds a message of the system to the log and returns to its bottom.
    pub fn add_system_message(&mut self, content: String)
        ensures
            final(self)@ == old(self)@.with_message(MessageRole::System, content@),
    {
        self.add_message(MessageRole::System, content);
    }

    /// Sets or clears the status.
    pub fn set_status(&mut self, status: Option<String>)
        ensures
            final(self)@ == old(self)@.with_status(status.deep_view()),
    {
        self.status = status;
    }
}

/// The keys that the controller tells apart.
#[derive(Clone, Copy, Debug, PartialEq)]
pub enum KeyCode {
    Esc,
    Enter,
    Backspace,
    Up,
    Down,
    Char(char),
    Other,
}

/// One key event.
#[derive(Clone, Copy, Debug, PartialEq)]
pub struct KeyPress {
    pub code: KeyCode,
    /// The control key was held.
    pub control: bool,
    /// The key went down (not up, and no repeat).
    pub pressed: bool,
}

/// What a key asks the rest of the program to do.
#[derive(Debug, PartialEq)]
pub enum Command {
    /// Start a run for this query.
    Submit { query: String },
    /// Hand the answers of the clarifying round over; `confirmed` is false
    /// where the user cancelled at the confirmation prompt.
    Answers { answers: Vec<String>, confirmed: bool },
    /// Ask the worker to stop.
    Interrupt,
}

/// The value of a [`Command`].
pub ghost enum CommandView {
    Submit { query: Seq<char> },
    Answers { answers: Seq<Seq<char>>, confirmed: bool },
    Interrupt,
}

impl View for Command {
    type V = CommandView;

    open spec fn view(&self) -> CommandView {
        match self {
            Command::Submit { query } => CommandView::Submit { query: query@ },
            Command::Answers { answers, confirmed } => CommandView::Answers {
                answers: answers.deep_view(),
                confirmed: *confirmed,
            },
            Command::Interrupt => CommandView::Interrupt,
        }
    }
}

impl DeepView for Command {
    type V = CommandView;

    open spec fn deep_view(&self) -> CommandView {
        self@
    }
}

/// The state after a key, and the command that the key gave.
pub ghost struct KeyOutcome {
    pub app: AppView,
    pub command: Option<CommandView>,
}

/// Whether a line, trimmed and in lower case, confirms.
pub open spec fn confirms(token: Seq<char>) -> bool {
    ||| token.len() == 0
    ||| token == "y"@
    ||| token == "yes"@
    ||| token == "confirm"@
    ||| token == "continue"@
    ||| token == "proceed"@
}

/// Whether a line, trimmed and in lower case, cancels.
pub open spec fn cancels(token: Seq<char>) -> bool {
    ||| token == "n"@
    ||| token == "no"@
    ||| token == "cancel"@
    ||| token == "stop"@
    ||| token == "quit"@
}

/// The status line while question `number` of `total` waits for its answer.
pub open spec fn progress_text(number: nat, total: nat) -> Seq<char> {
    "Answer question "@ + decimal(number) + " of "@ + decimal(total)
}

/// What the confirmation prompt tells the user.
pub open spec fn confirm_hint() -> Seq<char> {
    "Type 'confirm' to continue or 'cancel' to abort."@
}

impl AppView {
    /// A stop was asked of a run in progress.
    pub open spec fn stopping(self) -> AppView {
        self.with_message(MessageRole::System, "Stopping research..."@).with_phase(
            AppPhase::Researching,
        )
    }

    /// Escape stops a run in progress, and quits otherwise.
    pub open spec fn on_escape(self) -> KeyOutcome {
        if self.is_processing {
            KeyOutcome { app: self.stopping(), command: Some(CommandView::Interrupt) }
        } else {
            KeyOutcome { app: AppView { should_quit: true, ..self }, command: None }
        }
    }

    /// Control-C quits, and first stops a run in progress.
    pub open spec fn on_control_c(self) -> KeyOutcome {
        if self.is_processing {
            KeyOutcome {
                app: AppView { should_quit: true, ..self.stopping() },
                command: Some(CommandView::Interrupt),
            }
        } else {
            KeyOutcome { app: AppView { should_quit: true, ..self }, command: None }
        }
    }

    /// Enter at the confirmation prompt: the line is trimmed and echoed, and
    /// its lower-case form confirms, cancels or asks again.
    pub open spec fn on_confirmation(self) -> KeyOutcome
        recommends
            self.pending_answers is Some,
    {
        let typed = trimmed(self.input);
        let token = lowercase(typed);
        let cleared = AppView { input: Seq::empty(), ..self };
        let echoed = if typed.len() > 0 {
            cleared.with_message(MessageRole::User, typed)
        } else {
            cleared
        };
        let answers = self.pending_answers->0;
        if confirms(token) {
            KeyOutcome {
                app: AppView {
                    pending_answers: None,
                    status: Some("Continuing research..."@),
                    phase: AppPhase::Researching,
                    ..echoed
                },
                command: Some(CommandView::Answers { answers, confirmed: true }),
            }
        } else if cancels(token) {
            KeyOutcome {
                app: AppView {
                    pending_answers: None,
                    status: Some("Cancelling research..."@),
                    phase: AppPhase::Completed,
                    ..echoed.with_message(
                        MessageRole::System,
                        "Research cancelled before execution."@,
                    )
                },
                command: Some(CommandView::Answers { answers, confirmed: false }),
            }
        } else {
            KeyOutcome {
                app: echoed.with_message(MessageRole::System, confirm_hint()),
                command: None,
            }
        }
    }

    /// The clarifying round is over with `answers`: it is resolved for this
    /// run, and the answers wait for confirmation where that is required, and
    /// go out otherwise.
    pub open spec fn round_over(self, answers: Seq<Seq<char>>) -> KeyOutcome {
        if self.require_confirmation {
            KeyOutcome {
                app: AppView {
                    clarifying: None,
                    pending_answers: Some(answers),
                    round_resolved: true,
                    status: Some("Awaiting confirmation..."@),
                    phase: AppPhase::Confirming,
                    ..self.with_message(MessageRole::System, confirm_hint())
                },
                command: None,
            }
        } else {
            KeyOutcome {
                app: AppView {
                    clarifying: None,
                    round_resolved: true,
                    status: Some("Continuing research..."@),
                    phase: AppPhase::Researching,
                    ..self
                },
                command: Some(CommandView::Answers { answers, confirmed: true }),
            }
        }
    }

    /// Enter during a clarifying round: the line, as typed, answers the
    /// current question. After the last answer the round is over: the answers
    /// wait for confirmation where that is required, and go out otherwise.
    pub open spec fn on_answer(self) -> KeyOutcome
        recommends
            self.clarifying is Some,
    {
        let round = self.clarifying->0;
        let answers = round.answers.push(self.input);
        let next = round.current_index + 1;
        let echoed = AppView { input: Seq::empty(), ..self }.with_message(
            MessageRole::User,
            self.input,
        );
        if next >= round.questions.len() {
            echoed.round_over(answers)
        } else {
            KeyOutcome {
                app: AppView {
                    clarifying: Some(
                        ClarifyingStateView {
                            questions: round.questions,
                            current_index: next,
                            answers,
                        },
                    ),
                    status: Some(progress_text(next + 1, round.questions.len())),
                    phase: AppPhase::Clarifying,
                    ..echoed
                },
                command: None,
            }
        }
    }

    /// Enter on a query: a run starts, with its clarifying round still to
    /// come, unless the line is empty or a run is already in progress, in which
    /// case nothing changes.
    pub open spec fn on_submit(self) -> KeyOutcome {
        if self.input.len() > 0 && !self.is_processing {
            KeyOutcome {
                app: AppView {
                    input: Seq::empty(),
                    is_processing: true,
                    round_resolved: false,
                    status: Some("Starting research..."@),
                    phase: AppPhase::AwaitingClarification,
                    ..self.with_message(MessageRole::User, self.input)
                },
                command: Some(CommandView::Submit { query: self.input }),
            }
        } else {
            KeyOutcome { app: self, command: None }
        }
    }

    /// Enter: a confirmation where answers wait for one, else an answer where a round is open, else a query.
    pub open spec fn on_enter(self) -> KeyOutcome {
        if self.pending_answers is Some {
            self.on_confirmation()
        } else if self.clarifying is Some {
            self.on_answer()
        } else {
            self.on_submit()
        }
    }

    /// Backspace takes the last character of the input away, where typing is on.
    pub open spec fn on_backspace(self) -> AppView {
        if self.accepts_text() && self.input.len() > 0 {
            AppView { input: self.input.drop_last(), ..self }
        } else {
            self
        }
    }

    /// A character is added to the input, where typing is on.
    pub open spec fn on_char(self, c: char) -> AppView {
        if self.accepts_text() {
            AppView { input: self.input.push(c), ..self }
        } else {
            self
        }
    }

    /// Up scrolls three lines towards the top, and never past the first of
    /// the `total_lines` lines of the log.
    pub open spec fn on_up(self, total_lines: nat) -> AppView {
        let max_scroll = if total_lines >= 1 {
            (total_lines - 1) as nat
        } else {
            0
        };
        if self.scroll_offset < max_scroll {
            AppView {
                scroll_offset: if self.scroll_offset + 3 <= max_scroll {
                    self.scroll_offset + 3
                } else {
                    max_scroll
                },
                ..self
            }
        } else {
            self
        }
    }

    /// Down scrolls three lines towards the bottom.
    pub open spec fn on_down(self) -> AppView {
        AppView {
            scroll_offset: if self.scroll_offset >= 3 {
                (self.scroll_offset - 3) as nat
            } else {
                0
            },
            ..self
        }
    }

    /// What a key event does. Only a key that went down counts; control-C is
    /// told from the letter, and a key that the controller does not know
    /// changes nothing.
    pub open spec fn on_key(self, key: KeyPress, total_lines: nat) -> KeyOutcome {
        if !key.pressed {
            KeyOutcome { app: self, command: None }
        } else {
            match key.code {
                KeyCode::Esc => self.on_escape(),
                KeyCode::Enter => self.on_enter(),
                KeyCode::Backspace => KeyOutcome { app: self.on_backspace(), command: None },
                KeyCode::Up => KeyOutcome { app: self.on_up(total_lines), command: None },
                KeyCode::Down => KeyOutcome { app: self.on_down(), command: None },
                KeyCode::Char(c) => if c == 'c' && key.control {
                    self.on_control_c()
                } else {
                    KeyOutcome { app: self.on_char(c), command: None }
                },
                KeyCode::Other => KeyOutcome { app: self, command: None },
            }
        }
    }
}

/// Whether a line, trimmed and in lower case, confirms.
pub fn is_confirmation(token: &str) -> (r: bool)
    ensures
        r == confirms(token@),
{
    token.is_empty() || same_text(token, "y") || same_text(token, "yes") || same_text(
        token,
        "confirm",
    ) || same_text(token, "continue") || same_text(token, "proceed")
}

/// Whether a line, trimmed and in lower case, cancels.
pub fn is_cancellation(token: &str) -> (r: bool)
    ensures
        r == cancels(token@),
{
    same_text(token, "n") || same_text(token, "no") || same_text(token, "cancel") || same_text(
        token,
        "stop",
    ) || same_text(token, "quit")
}

fn progress_status(number: usize, total: usize) -> (r: String)
    ensures
        r@ == progress_text(number as nat, total as nat),
{
    let mut out = String::from_str("Answer question ");
    out.append(decimal_string(number as u128).as_str());
    out.append(" of ");
    out.append(decimal_string(total as u128).as_str());
    out
}

impl App {
    fn stop_run(&mut self)
        ensures
            final(self)@ == old(self)@.stopping(),
    {
        self.add_system_message(String::from_str("Stopping research..."));
        self.phase = AppPhase::Researching;
    }

    fn confirm_or_cancel(&mut self) -> (command: Option<Command>)
        requires
            old(self)@.pending_answers is Some,
        ensures
            final(self)@ == old(self)@.on_confirmation().app,
            command.deep_view() == old(self)@.on_confirmation().command,
    {
        let typed = trim(self.input.as_str());
        let token = typed.as_str().to_lowercase();
        self.input = String::new();
        if !typed.as_str().is_empty() {
            self.add_user_message(typed);
        }
        if is_confirmation(token.as_str()) {
            let answers = self.pending_answers.take().unwrap();
            self.set_status(Some(String::from_str("Continuing research...")));
            self.phase = AppPhase::Researching;
            Some(Command::Answers { answers, confirmed: true })
        } else if is_cancellation(token.as_str()) {
            let answers = self.pending_answers.take().unwrap();
            self.set_status(Some(String::from_str("Cancelling research...")));
            self.add_system_message(String::from_str("Research cancelled before execution."));
            self.phase = AppPhase::Completed;
            Some(Command::Answers { answers, confirmed: false })
        } else {
            self.add_system_message(
                String::from_str("Type 'confirm' to continue or 'cancel' to abort."),
            );
            None
        }
    }

    fn finish_round(&mut self, answers: Vec<String>) -> (command: Option<Command>)
        ensures
            final(self)@ == old(self)@.round_over(answers.deep_view()).app,
            command.deep_view() == old(self)@.round_over(answers.deep_view()).command,
    {
        self.clarifying = None;
        self.round_resolved = true;
        if self.require_confirmation {
            self.pending_answers = Some(answers);
            self.add_system_message(
                String::from_str("Type 'confirm' to continue or 'cancel' to abort."),
            );
            self.set_status(Some(String::from_str("Awaiting confirmation...")));
            self.phase = AppPhase::Confirming;
            None
        } else {
            self.set_status(Some(String::from_str("Continuing research...")));
            self.phase = AppPhase::Researching;
            Some(Command::Answers { answers, confirmed: true })
        }
    }

    fn take_answer(&mut self) -> (command: Option<Command>)
        requires
            old(self)@.clarifying is Some,
            old(self)@.wf(),
        ensures
            final(self)@ == old(self)@.on_answer().app,
            command.deep_view() == old(self)@.on_answer().command,
    {
        let answer = self.input.clone();
        self.input = String::new();
        self.add_user_message(answer.clone());
        let mut state = self.clarifying.take().unwrap();
        let ghost before = state.answers.deep_view();
        assert(state@ == old(self)@.clarifying->0);
        assert(state.questions.deep_view().len() == state.questions.len());
        state.answers.push(answer);
        assert(state.answers.deep_view() =~= before.push(answer@));
        state.current_index += 1;
        if state.current_index >= state.questions.len() {
            self.finish_round(state.answers)
        } else {
            let status = progress_status(state.current_index + 1, state.questions.len());
            self.clarifying = Some(state);
            self.set_status(Some(status));
            self.phase = AppPhase::Clarifying;
            None
        }
    }

    fn submit_query(&mut self) -> (command: Option<Command>)
        ensures
            final(self)@ == old(self)@.on_submit().app,
            command.deep_view() == old(self)@.on_submit().command,
    {
        if !self.input.as_str().is_empty() && !self.is_processing {
            let query = self.input.clone();
            self.input = String::new();
            self.add_user_message(query.clone());
            self.is_processing = true;
            self.round_resolved = false;
            self.set_status(Some(String::from_str("Starting research...")));
            self.phase = AppPhase::AwaitingClarification;
            Some(Command::Submit { query })
        } else {
            None
        }
    }

    fn accepts_text(&self) -> (r: bool)
        ensures
            r == self@.accepts_text(),
    {
        self.is_clarifying() || self.awaiting_confirmation() || !self.is_processing
    }

    fn scroll_up(&mut self, total_lines: usize)
        ensures
            final(self)@ == old(self)@.on_up(total_lines as nat),
    {
        let max_scroll = if total_lines >= 1 {
            total_lines - 1
        } else {
            0
        };
        if self.scroll_offset < max_scroll {
            if max_scroll - self.scroll_offset >= 3 {
                self.scroll_offset = self.scroll_offset + 3;
            } else {
                self.scroll_offset = max_scroll;
            }
        }
    }

    fn scroll_down(&mut self)
        ensures
            final(self)@ == old(self)@.on_down(),
    {
        if self.scroll_offset >= 3 {
            self.scroll_offset = self.scroll_offset - 3;
        } else {
            self.scroll_offset = 0;
        }
    }

    /// Applies one key event and returns the command that it gives, if any.
    /// `total_lines` is the height of the whole chat log at the current width.
    pub fn handle_key(&mut self, key: KeyPress, total_lines: usize) -> (command: Option<Command>)
        requires
            old(self)@.wf(),
        ensures
            final(self)@ == old(self)@.on_key(key, total_lines as nat).app,
            command.deep_view() == old(self)@.on_key(key, total_lines as nat).command,
            final(self)@.wf(),
    {
        if !key.pressed {
            return None;
        }
        match key.code {
            KeyCode::Esc => {
                if self.is_processing {
                    self.stop_run();
                    Some(Command::Interrupt)
                } else {
                    self.should_quit = true;
                    None
                }
            },
            KeyCode::Enter => {
                if self.awaiting_confirmation() {
                    self.confirm_or_cancel()
                } else if self.is_clarifying() {
                    self.take_answer()
                } else {
                    self.submit_query()
                }
            },
            KeyCode::Backspace => {
                if self.accepts_text() {
                    self.input.pop();
                }
                None
            },
            KeyCode::Up => {
                self.scroll_up(total_lines);
                None
            },
            KeyCode::Down => {
                self.scroll_down();
                None
            },
            KeyCode::Char(c) => {
                if c == 'c' && key.control {
                    if self.is_processing {
                        self.stop_run();
                        self.should_quit = true;
                        Some(Command::Interrupt)
                    } else {
                        self.should_quit = true;
                        None
                    }
                } else {
                    if self.accepts_text() {
                        self.input.push(c);
                    }
                    None
                }
            },
            KeyCode::Other => None,
        }
    }
}

/// While a run is in progress, Enter on the query line is no submission: the
/// whole state, and with it the message log and the phase, stays as it is and no
/// command goes out. No key at all makes a run in progress start another.
pub proof fn lemma_submit_while_active_is_noop(app: AppView, key: KeyPress, total_lines: nat)
    requires
        app.is_processing,
    ensures
        app.on_submit() == (KeyOutcome { app, command: None }),
        !(app.on_key(key, total_lines).command matches Some(CommandView::Submit { .. })),
        app.clarifying is None && app.pending_answers is None && key.pressed && key.code
            is Enter ==> app.on_key(key, total_lines) == (KeyOutcome { app, command: None }),
{
}

/// The phases follow one another as the conversation goes: a query that is
/// submitted waits for questions; questions open the clarifying round, unless
/// the round of the run was resolved or there is nothing to ask; a prompt, an
/// agent's answer and, outside the confirmation prompt, a decision mean that
/// the research is under way; a report and a successful end complete the run,
/// an error event and a failed end leave it in error; and whatever the phase,
/// once no run is in progress a new query starts over. Escape during a run
/// asks the worker to stop and leaves the run in progress.
pub proof fn lemma_phases_follow_the_conversation(
    app: AppView,
    response: ResponseView,
    run_id: Seq<char>,
)
    ensures
        app.input.len() > 0 && !app.is_processing ==> app.on_submit().app.phase
            == AppPhase::AwaitingClarification && app.on_submit().app.is_processing
            && !app.on_submit().app.round_resolved && app.on_submit().command == Some(
            CommandView::Submit { query: app.input },
        ),
        response matches ResponseView::ClarifyingQuestions { questions } && !app.round_resolved
            && questions.len() > 0 ==> app.on_response(response).phase == AppPhase::Clarifying
            && app.on_response(response).clarifying is Some,
        response is Prompt || response is AgentOutput ==> app.on_response(response).phase
            == AppPhase::Researching,
        response is Decision ==> app.on_response(response).phase == if app.phase
            == AppPhase::Confirming {
            AppPhase::Confirming
        } else {
            AppPhase::Researching
        },
        response is Report ==> app.on_response(response).phase == AppPhase::Completed,
        response is Error ==> app.on_response(response).phase == AppPhase::Error,
        response is Status || response is Trace || response is Metadata || response is Done
            ==> app.on_response(response).phase == app.phase,
        app.on_event(AppEventView::RunComplete { success: true, run_id }).phase
            == AppPhase::Completed,
        app.on_event(AppEventView::RunComplete { success: false, run_id }).phase == AppPhase::Error,
        !app.on_event(AppEventView::RunComplete { success: true, run_id }).is_processing,
        !app.on_event(AppEventView::RunComplete { success: false, run_id }).is_processing,
        !app.on_event(AppEventView::Error(run_id)).is_processing,
        app.on_event(AppEventView::Error(run_id)).phase == AppPhase::Error,
        app.on_event(AppEventView::Warning(run_id)).phase == app.phase,
        app.is_processing ==> app.on_escape().command == Some(CommandView::Interrupt)
            && app.on_escape().app.phase == AppPhase::Researching
            && app.on_escape().app.is_processing && app.on_escape().app.should_quit
            == app.should_quit,
{
}

/// Once the clarifying round of a run is resolved, further questions of that
/// run are ignored: the session stays exactly as it is and nothing goes out.
/// The round is resolved from its last answer until the next query.
pub proof fn lemma_resolved_round_is_not_reentered(
    app: AppView,
    questions: Seq<ClarifyingQuestionView>,
)
    requires
        app.round_resolved,
    ensures
        app.on_response(ResponseView::ClarifyingQuestions { questions }) == app,
        app.response_command(ResponseView::ClarifyingQuestions { questions }) is None,
        app.on_confirmation().app.round_resolved,
{
}

/// The end of a run destroys its clarifying round: after the run completed
/// or failed, no round is open and no answers wait for confirmation, so the
/// next Enter is a new query and no answer to a run that is gone.
pub proof fn lemma_end_of_run_closes_the_round(
    app: AppView,
    success: bool,
    run_id: Seq<char>,
    message: Seq<char>,
)
    ensures
        ({
            let ended = app.on_event(AppEventView::RunComplete { success, run_id });
            &&& ended.clarifying is None
            &&& ended.pending_answers is None
            &&& ended.on_enter() == ended.on_submit()
        }),
        ({
            let failed = app.on_event(AppEventView::Error(message));
            &&& failed.clarifying is None
            &&& failed.pending_answers is None
            &&& failed.on_enter() == failed.on_submit()
        }),
{
}

/// A round without questions is over at once, with no answers: they go out,
/// or wait for confirmation, as an empty list.
pub proof fn lemma_round_without_questions_needs_no_answer(app: AppView)
    requires
        !app.round_resolved,
    ensures
        ({
            let after = app.on_questions(Seq::empty());
            &&& after.app.clarifying is None
            &&& after.app.round_resolved
            &&& app.require_confirmation ==> after.command is None && after.app.pending_answers
                == Some(Seq::<Seq<char>>::empty())
            &&& !app.require_confirmation ==> after.command == Some(
                CommandView::Answers { answers: Seq::empty(), confirmed: true },
            )
        }),
{
}

/// A key asks the worker to stop only while a run is in progress, and
/// quitting during a run asks it to stop first.
pub proof fn lemma_interrupt_only_while_active(app: AppView, key: KeyPress, total_lines: nat)
    ensures
        app.on_key(key, total_lines).command == Some(CommandView::Interrupt) ==> app.is_processing,
        app.is_processing && !app.should_quit && app.on_key(key, total_lines).app.should_quit
            ==> app.on_key(key, total_lines).command == Some(CommandView::Interrupt),
{
}

/// A clarifying round collects one answer per Enter: the answers go out, or
/// wait for confirmation, exactly when the last question is answered, and then
/// there is one answer for each question. Before that nothing goes out and the
/// round moves on by one question, with the line that was typed as its answer.
pub proof fn lemma_round_collects_one_answer_per_question(app: AppView)
    requires
        app.wf(),
        app.clarifying is Some,
    ensures
        ({
            let round = app.clarifying->0;
            let after = app.on_enter();
            let total = round.questions.len();
            let answers = round.answers.push(app.input);
            if round.current_index + 1 < total {
                &&& after.command is None
                &&& after.app.pending_answers is None
                &&& after.app.clarifying == Some(
                    ClarifyingStateView {
                        questions: round.questions,
                        current_index: round.current_index + 1,
                        answers,
                    },
                )
                &&& after.app.phase == AppPhase::Clarifying
                &&& after.app.input.len() == 0
                &&& after.app.wf()
            } else {
                &&& answers.len() == total
                &&& after.app.clarifying is None
                &&& after.app.round_resolved
                &&& after.app.wf()
                &&& app.require_confirmation ==> after.command is None
                    && after.app.pending_answers == Some(answers)
                &&& !app.require_confirmation ==> after.app.pending_answers is None
                    && after.command == Some(CommandView::Answers { answers, confirmed: true })
            }
        }),
{
}

impl AppView {
    /// The session with `line` on its input line.
    pub open spec fn typed(self, line: Seq<char>) -> AppView {
        AppView { input: line, ..self }
    }

    /// The session after each of the first `count` lines of `lines` was typed
    /// and entered, in their order.
    pub open spec fn after_entered(self, lines: Seq<Seq<char>>, count: nat) -> AppView
        decreases count,
    {
        if count == 0 {
            self
        } else {
            self.after_entered(lines, (count - 1) as nat).typed(lines[count - 1]).on_enter().app
        }
    }
}

/// While questions remain after them, lines that are entered into an open
/// round become its answers, one for each question in turn, and nothing goes
/// out.
pub proof fn lemma_round_in_progress(app: AppView, lines: Seq<Seq<char>>, count: nat)
    requires
        app.wf(),
        app.clarifying is Some,
        count <= lines.len(),
        app.clarifying->0.current_index + count < app.clarifying->0.questions.len(),
    ensures
        ({
            let round = app.clarifying->0;
            let after = app.after_entered(lines, count);
            &&& after.wf()
            &&& after.require_confirmation == app.require_confirmation
            &&& after.clarifying == Some(
                ClarifyingStateView {
                    questions: round.questions,
                    current_index: round.current_index + count,
                    answers: round.answers + lines.take(count as int),
                },
            )
            &&& after.typed(lines[count as int]).on_enter().command is Some ==> round.current_index
                + count + 1 == round.questions.len()
        }),
    decreases count,
{
    let round = app.clarifying->0;
    if count == 0 {
        assert(round.answers + lines.take(0) =~= round.answers);
    } else {
        lemma_round_in_progress(app, lines, (count - 1) as nat);
        let before = app.after_entered(lines, (count - 1) as nat);
        lemma_round_collects_one_answer_per_question(before.typed(lines[count - 1]));
        assert((round.answers + lines.take(count - 1)).push(lines[count - 1]) =~= round.answers
            + lines.take(count as int));
    }
}

/// A clarifying round hands on exactly the lines that were entered: with one
/// line for each question that was open, the last Enter ends the round, and
/// the answers that go out, or wait for confirmation, are the answers given
/// before and those lines, in their order, one for each question.
pub proof fn lemma_round_hands_on_what_was_entered(app: AppView, lines: Seq<Seq<char>>)
    requires
        app.wf(),
        app.clarifying is Some,
        app.clarifying->0.current_index + lines.len() == app.clarifying->0.questions.len(),
    ensures
        ({
            let round = app.clarifying->0;
            let answers = round.answers + lines;
            let last = app.after_entered(lines, (lines.len() - 1) as nat).typed(lines.last())
                .on_enter();
            &&& answers.len() == round.questions.len()
            &&& last.app == app.after_entered(lines, lines.len())
            &&& last.app.clarifying is None
            &&& last.app.round_resolved
            &&& app.require_confirmation ==> last.command is None && last.app.pending_answers
                == Some(answers)
            &&& !app.require_confirmation ==> last.app.pending_answers is None && last.command
                == Some(CommandView::Answers { answers, confirmed: true })
        }),
{
    let round = app.clarifying->0;
    let n = (lines.len() - 1) as nat;
    lemma_round_in_progress(app, lines, n);
    let before = app.after_entered(lines, n);
    lemma_round_collects_one_answer_per_question(before.typed(lines.last()));
    assert((round.answers + lines.take(n as int)).push(lines.last()) =~= round.answers + lines);
}

/// At the confirmation prompt the answers that were collected go out
/// unchanged, confirmed or cancelled, or stay where the line says neither.
pub proof fn lemma_confirmation_forwards_the_answers(app: AppView)
    requires
        app.pending_answers is Some,
    ensures
        ({
            let after = app.on_enter();
            let token = lowercase(trimmed(app.input));
            let answers = app.pending_answers->0;
            &&& confirms(token) ==> after.command == Some(
                CommandView::Answers { answers, confirmed: true },
            ) && after.app.phase == AppPhase::Researching && after.app.pending_answers is None
            &&& !confirms(token) && cancels(token) ==> after.command == Some(
                CommandView::Answers { answers, confirmed: false },
            ) && after.app.phase == AppPhase::Completed && after.app.pending_answers is None
            &&& !confirms(token) && !cancels(token) ==> after.command is None && after.app.phase
                == app.phase && after.app.pending_answers == app.pending_answers
        }),
{
}

/// What reaches the controller from the run, as a value.
pub ghost enum AppEventView {
    BackendResponse(ResponseView),
    RunComplete { success: bool, run_id: Seq<char> },
    Error(Seq<char>),
    Warning(Seq<char>),
}

impl View for AppEvent {
    type V = AppEventView;

    open spec fn view(&self) -> AppEventView {
        match self {
            AppEvent::BackendResponse(response) => AppEventView::BackendResponse(response@),
            AppEvent::RunComplete { success, run_id } => AppEventView::RunComplete {
                success: *success,
                run_id: run_id@,
            },
            AppEvent::Error(message) => AppEventView::Error(message@),
            AppEvent::Warning(message) => AppEventView::Warning(message@),
        }
    }
}

impl DeepView for AppEvent {
    type V = AppEventView;

    open spec fn deep_view(&self) -> AppEventView {
        self@
    }
}

/// The line that announces question number `index + 1`.
pub open spec fn question_line(index: nat, question: ClarifyingQuestionView) -> Seq<char> {
    decimal(index + 1) + ". ["@ + question.label + "] "@ + question.question
}

/// The first `count` characters of a text, or all of a shorter one.
pub open spec fn leading(text: Seq<char>, count: nat) -> Seq<char> {
    if text.len() <= count {
        text
    } else {
        text.take(count as int)
    }
}

/// The status while an agent works on a step.
pub open spec fn running_text(agent: Seq<char>, sequence: u32) -> Seq<char> {
    "Running "@ + agent + " (step "@ + decimal(sequence as nat) + ")"@
}

/// The status when an agent has answered.
pub open spec fn received_text(agent: Seq<char>, sequence: u32) -> Seq<char> {
    "Received "@ + agent + " response (step "@ + decimal(sequence as nat) + ")"@
}

/// The status after a decision, with what is left of the budget.
pub open spec fn decision_text(action: Seq<char>, searches: u32, iterations: u32) -> Seq<char> {
    "Decision: "@ + action + " (budget: "@ + decimal(searches as nat) + " searches, "@ + decimal(
        iterations as nat,
    ) + " iterations)"@
}

/// The report as a message: the summary in bold, an empty line, the report.
pub open spec fn report_text(summary: Seq<char>, report: Seq<char>) -> Seq<char> {
    "**"@ + summary + "**\n\n"@ + report
}

/// An error as a message, with its code where it has one.
pub open spec fn error_text(message: Seq<char>, code: Option<Seq<char>>) -> Seq<char> {
    match code {
        Some(c) => "Error ["@ + c + "]: "@ + message,
        None => "Error: "@ + message,
    }
}

/// The message at the end of a successful run, with the first eight characters of its identifier.
pub open spec fn complete_text(run_id: Seq<char>) -> Seq<char> {
    "Research complete ("@ + leading(run_id, 8) + ")"@
}

impl AppView {
    /// The log with one system message for each of the first `count` questions.
    pub open spec fn with_questions(
        self,
        questions: Seq<ClarifyingQuestionView>,
        count: nat,
    ) -> AppView
        decreases count,
    {
        if count == 0 {
            self
        } else {
            self.with_questions(questions, (count - 1) as nat).with_message(
                MessageRole::System,
                question_line((count - 1) as nat, questions[count - 1]),
            )
        }
    }

    /// What questions of the worker do to the session. Once the round of
    /// the run was resolved they are ignored. A round without questions is over
    /// at once, with no answers. Otherwise the questions are listed and the
    /// round opens at the first of them.
    pub open spec fn on_questions(self, questions: Seq<ClarifyingQuestionView>) -> KeyOutcome {
        if self.round_resolved {
            KeyOutcome { app: self, command: None }
        } else if questions.len() == 0 {
            self.round_over(Seq::empty())
        } else {
            KeyOutcome {
                app: AppView {
                    clarifying: Some(
                        ClarifyingStateView { questions, current_index: 0, answers: Seq::empty() },
                    ),
                    status: None,
                    phase: AppPhase::Clarifying,
                    ..self.with_message(
                        MessageRole::System,
                        "Please answer these clarifying questions:"@,
                    ).with_questions(questions, questions.len())
                },
                command: None,
            }
        }
    }

    /// What an event of the worker asks the rest of the program to do: to
    /// hand on the answers of a round without questions, and nothing else.
    pub open spec fn response_command(self, response: ResponseView) -> Option<CommandView> {
        match response {
            ResponseView::ClarifyingQuestions { questions } => self.on_questions(questions).command,
            _ => None,
        }
    }

    /// What an event of the worker does to the session.
    pub open spec fn on_response(self, response: ResponseView) -> AppView {
        match response {
            ResponseView::Status { message } => self.with_status(Some(message)),
            ResponseView::Trace { trace_url, .. } => self.with_message(
                MessageRole::System,
                "Trace: "@ + trace_url,
            ),
            ResponseView::ClarifyingQuestions { questions } => self.on_questions(questions).app,
            ResponseView::Prompt { agent, sequence, .. } => AppView {
                status: Some(running_text(agent, sequence)),
                phase: AppPhase::Researching,
                ..self
            },
            ResponseView::AgentOutput { agent, sequence, .. } => AppView {
                status: Some(received_text(agent, sequence)),
                phase: AppPhase::Researching,
                ..self
            },
            ResponseView::Decision {
                action,
                remaining_searches,
                remaining_iterations,
                ..
            } => AppView {
                status: Some(decision_text(action, remaining_searches, remaining_iterations)),
                phase: if self.phase == AppPhase::Confirming {
                    AppPhase::Confirming
                } else {
                    AppPhase::Researching
                },
                ..self
            },
            ResponseView::Report { short_summary, markdown_report, .. } => AppView {
                status: None,
                phase: AppPhase::Completed,
                ..self
            }.with_message(MessageRole::Assistant, report_text(short_summary, markdown_report)),
            ResponseView::Error { message, code } => AppView {
                phase: AppPhase::Error,
                ..self
            }.with_message(MessageRole::System, error_text(message, code)),
            ResponseView::Metadata { .. } => self,
            ResponseView::Done { .. } => self,
        }
    }

    /// What one event from the run asks the rest of the program to do.
    pub open spec fn event_command(self, event: AppEventView) -> Option<CommandView> {
        match event {
            AppEventView::BackendResponse(response) => self.response_command(response),
            _ => None,
        }
    }

    /// What one event from the run does to the session. The end of a run,
    /// whether it completes or fails, closes a round that is still open and
    /// drops answers that still wait for confirmation. A warning is logged and
    /// changes nothing else.
    pub open spec fn on_event(self, event: AppEventView) -> AppView {
        match event {
            AppEventView::BackendResponse(response) => self.on_response(response),
            AppEventView::Warning(message) => self.with_message(
                MessageRole::System,
                "Warning: "@ + message,
            ),
            AppEventView::RunComplete { success, run_id } => AppView {
                is_processing: false,
                clarifying: None,
                pending_answers: None,
                status: None,
                phase: if success {
                    AppPhase::Completed
                } else {
                    AppPhase::Error
                },
                ..self
            }.with_message(
                MessageRole::System,
                if success {
                    complete_text(run_id)
                } else {
                    "Research failed"@
                },
            ),
            AppEventView::Error(message) => AppView {
                is_processing: false,
                clarifying: None,
                pending_answers: None,
                status: None,
                phase: AppPhase::Error,
                ..self
            }.with_message(MessageRole::System, "Error: "@ + message),
        }
    }

    /// The session after the events of `events`, applied in their order.
    pub open spec fn after_events(self, events: Seq<AppEventView>) -> AppView
        decreases events.len(),
    {
        if events.len() == 0 {
            self
        } else {
            self.after_events(events.drop_last()).on_event(events.last())
        }
    }

    /// The commands that the events of `events` give, in their order.
    pub open spec fn commands_after(self, events: Seq<AppEventView>) -> Seq<CommandView>
        decreases events.len(),
    {
        if events.len() == 0 {
            Seq::empty()
        } else {
            let earlier = self.commands_after(events.drop_last());
            match self.after_events(events.drop_last()).event_command(events.last()) {
                Some(command) => earlier.push(command),
                None => earlier,
            }
        }
    }

    /// The spinner moves on while a run is in progress, and rests otherwise.
    pub open spec fn with_spinner_advanced(self) -> AppView {
        AppView {
            spinner_index: if !self.is_processing || self.spinner_index == usize::MAX {
                0
            } else {
                self.spinner_index + 1
            },
            ..self
        }
    }

    /// The frame of the spinner: one of four while a run is in progress, a space otherwise.
    pub open spec fn spinner_text(self) -> Seq<char> {
        if !self.is_processing {
            " "@
        } else if self.spinner_index % 4 == 0 {
            "-"@
        } else if self.spinner_index % 4 == 1 {
            "\\"@
        } else if self.spinner_index % 4 == 2 {
            "|"@
        } else {
            "/"@
        }
    }

    /// The name of the phase in the status bar.
    pub open spec fn phase_text(self) -> Seq<char> {
        match self.phase {
            AppPhase::Idle => "Idle"@,
            AppPhase::AwaitingClarification => "Clarifying"@,
            AppPhase::Clarifying => "Clarifying"@,
            AppPhase::Confirming => "Confirm"@,
            AppPhase::Researching => "Researching"@,
            AppPhase::Completed => "Complete"@,
            AppPhase::Error => "Error"@,
        }
    }

    /// The status line where no status was set.
    pub open spec fn default_status_text(self) -> Seq<char> {
        match self.phase {
            AppPhase::Idle => "Type a query and press Enter. Esc to quit."@,
            AppPhase::AwaitingClarification => "Generating clarifying questions..."@,
            AppPhase::Clarifying => match self.clarifying {
                Some(round) => progress_text(round.current_index + 1, round.questions.len()),
                None => "Answer the clarifying questions."@,
            },
            AppPhase::Confirming => confirm_hint(),
            AppPhase::Researching => "Working... Press Esc to stop."@,
            AppPhase::Completed => "Research complete. Enter another query or Esc to quit."@,
            AppPhase::Error => "Run failed. Enter another query or Esc to quit."@,
        }
    }
}

/// A copy of a list of questions.
pub fn clone_questions(questions: &Vec<ClarifyingQuestion>) -> (r: Vec<ClarifyingQuestion>)
    ensures
        r.deep_view() == questions.deep_view(),
{
    let mut out: Vec<ClarifyingQuestion> = Vec::new();
    let mut i: usize = 0;
    while i < questions.len()
        invariant
            i <= questions.len(),
            out@.len() == i,
            forall|j: int| 0 <= j < i ==> (#[trigger] out@[j])@ == questions@[j]@,
        decreases questions.len() - i,
    {
        out.push(questions[i].clone());
        i += 1;
    }
    assert(out.deep_view() =~= questions.deep_view());
    out
}

fn question_message(index: usize, question: &ClarifyingQuestion) -> (r: String)
    ensures
        r@ == question_line(index as nat, question@),
{
    let mut out = decimal_string(index as u128 + 1);
    out.append(". [");
    out.append(question.label.as_str());
    out.append("] ");
    out.append(question.question.as_str());
    out
}

fn leading_chars(text: &str, count: usize) -> (r: String)
    ensures
        r@ == leading(text@, count as nat),
{
    let n = text.unicode_len();
    if n <= count {
        String::from_str(text)
    } else {
        String::from_str(text.substring_char(0, count))
    }
}

impl App {
    fn open_round(&mut self, questions: &Vec<ClarifyingQuestion>) -> (command: Option<Command>)
        requires
            old(self)@.wf(),
        ensures
            final(self)@ == old(self)@.on_questions(questions.deep_view()).app,
            command.deep_view() == old(self)@.on_questions(questions.deep_view()).command,
            final(self)@.wf(),
    {
        assert(questions.deep_view().len() == questions.len());
        if self.round_resolved {
            None
        } else if questions.len() == 0 {
            let answers: Vec<String> = Vec::new();
            assert(answers.deep_view() =~= Seq::<Seq<char>>::empty());
            self.finish_round(answers)
        } else {
            self.add_system_message(String::from_str("Please answer these clarifying questions:"));
            let ghost listed = self@;
            let mut i: usize = 0;
            while i < questions.len()
                invariant
                    i <= questions.len(),
                    self@ == listed.with_questions(questions.deep_view(), i as nat),
                    self@.pending_answers == listed.pending_answers,
                    self@.round_resolved == listed.round_resolved,
                decreases questions.len() - i,
            {
                self.add_system_message(question_message(i, &questions[i]));
                i += 1;
            }
            let answers: Vec<String> = Vec::new();
            assert(answers.deep_view() =~= Seq::<Seq<char>>::empty());
            self.clarifying = Some(
                ClarifyingState { questions: clone_questions(questions), current_index: 0, answers },
            );
            self.set_status(None);
            self.phase = AppPhase::Clarifying;
            None
        }
    }

    /// Applies one event of the worker and returns the command that it
    /// gives, if any.
    pub fn handle_backend_event(&mut self, response: &Response) -> (command: Option<Command>)
        requires
            old(self)@.wf(),
        ensures
            final(self)@ == old(self)@.on_response(response@),
            command.deep_view() == old(self)@.response_command(response@),
            final(self)@.wf(),
    {
        match response {
            Response::Status { message } => {
                self.set_status(Some(message.clone()));
            },
            Response::Trace { trace_url, .. } => {
                self.add_system_message(concat2("Trace: ", trace_url.as_str()));
            },
            Response::ClarifyingQuestions { questions } => {
                return self.open_round(questions);
            },
            Response::Prompt { agent, sequence, .. } => {
                let mut status = concat3("Running ", agent.as_str(), " (step ");
                status.append(decimal_string(*sequence as u128).as_str());
                status.append(")");
                self.set_status(Some(status));
                self.phase = AppPhase::Researching;
            },
            Response::AgentOutput { agent, sequence, .. } => {
                let mut status = concat3("Received ", agent.as_str(), " response (step ");
                status.append(decimal_string(*sequence as u128).as_str());
                status.append(")");
                self.set_status(Some(status));
                self.phase = AppPhase::Researching;
            },
            Response::Decision { action, remaining_searches, remaining_iterations, .. } => {
                let mut status = concat3("Decision: ", action.as_str(), " (budget: ");
                status.append(decimal_string(*remaining_searches as u128).as_str());
                status.append(" searches, ");
                status.append(decimal_string(*remaining_iterations as u128).as_str());
                status.append(" iterations)");
                self.set_status(Some(status));
                if !self.is_confirming() {
                    self.phase = AppPhase::Researching;
                }
            },
            Response::Report { short_summary, markdown_report, .. } => {
                self.set_status(None);
                self.phase = AppPhase::Completed;
                let mut content = concat3("**", short_summary.as_str(), "**\n\n");
                content.append(markdown_report.as_str());
                self.add_assistant_message(content);
            },
            Response::Error { message, code } => {
                let text = match code {
                    Some(c) => {
                        let mut t = concat3("Error [", c.as_str(), "]: ");
                        t.append(message.as_str());
                        t
                    },
                    None => concat2("Error: ", message.as_str()),
                };
                self.phase = AppPhase::Error;
                self.add_system_message(text);
            },
            Response::Metadata { .. } => {},
            Response::Done { .. } => {},
        }
        None
    }

    /// Applies one event from the run and returns the command that it
    /// gives, if any.
    pub fn handle_event(&mut self, event: &AppEvent) -> (command: Option<Command>)
        requires
            old(self)@.wf(),
        ensures
            final(self)@ == old(self)@.on_event(event@),
            command.deep_view() == old(self)@.event_command(event@),
            final(self)@.wf(),
    {
        match event {
            AppEvent::BackendResponse(response) => {
                return self.handle_backend_event(response);
            },
            AppEvent::Warning(message) => {
                self.add_system_message(concat2("Warning: ", message.as_str()));
            },
            AppEvent::RunComplete { success, run_id } => {
                self.is_processing = false;
                self.clarifying = None;
                self.pending_answers = None;
                self.set_status(None);
                if *success {
                    self.phase = AppPhase::Completed;
                    let id = leading_chars(run_id.as_str(), 8);
                    self.add_system_message(concat3("Research complete (", id.as_str(), ")"));
                } else {
                    self.phase = AppPhase::Error;
                    self.add_system_message(String::from_str("Research failed"));
                }
            },
            AppEvent::Error(message) => {
                self.is_processing = false;
                self.clarifying = None;
                self.pending_answers = None;
                self.set_status(None);
                self.phase = AppPhase::Error;
                self.add_system_message(concat2("Error: ", message.as_str()));
            },
        }
        None
    }

    /// One tick of the session: the spinner moves on, then the events that
    /// arrived since the last tick are applied in their order. Returns the
    /// commands that the events gave, in the same order.
    pub fn process_events(&mut self, events: &Vec<AppEvent>) -> (commands: Vec<Command>)
        requires
            old(self)@.wf(),
        ensures
            final(self)@ == old(self)@.with_spinner_advanced().after_events(events.deep_view()),
            commands.deep_view() == old(self)@.with_spinner_advanced().commands_after(
                events.deep_view(),
            ),
            final(self)@.wf(),
    {
        self.advance_spinner();
        let ghost start = self@;
        let ghost all = events.deep_view();
        let mut commands: Vec<Command> = Vec::new();
        assert(commands.deep_view() =~= Seq::<CommandView>::empty());
        let mut i: usize = 0;
        while i < events.len()
            invariant
                i <= events.len(),
                all == events.deep_view(),
                self@ == start.after_events(all.take(i as int)),
                commands.deep_view() == start.commands_after(all.take(i as int)),
                self@.wf(),
            decreases events.len() - i,
        {
            assert(all.take(i + 1).drop_last() =~= all.take(i as int));
            assert(all.take(i + 1).last() == events@[i as int]@);
            let ghost earlier = commands.deep_view();
            match self.handle_event(&events[i]) {
                Some(command) => {
                    commands.push(command);
                    assert(commands.deep_view() =~= earlier.push(command@));
                },
                None => {},
            }
            i += 1;
        }
        assert(all.take(events.len() as int) =~= all);
        commands
    }

    /// The frame of the spinner.
    pub fn spinner_frame(&self) -> (r: &'static str)
        ensures
            r@ == self@.spinner_text(),
    {
        if !self.is_processing {
            " "
        } else if self.spinner_index % 4 == 0 {
            "-"
        } else if self.spinner_index % 4 == 1 {
            "\\"
        } else if self.spinner_index % 4 == 2 {
            "|"
        } else {
            "/"
        }
    }

    /// Moves the spinner on while a run is in progress, and resets it otherwise.
    pub fn advance_spinner(&mut self)
        ensures
            final(self)@ == old(self)@.with_spinner_advanced(),
    {
        if !self.is_processing || self.spinner_index == usize::MAX {
            self.spinner_index = 0;
        } else {
            self.spinner_index = self.spinner_index + 1;
        }
    }

    /// The name of the phase in the status bar.
    pub fn phase_label(&self) -> (r: &'static str)
        ensures
            r@ == self@.phase_text(),
    {
        match self.phase {
            AppPhase::Idle => "Idle",
            AppPhase::AwaitingClarification => "Clarifying",
            AppPhase::Clarifying => "Clarifying",
            AppPhase::Confirming => "Confirm",
            AppPhase::Researching => "Researching",
            AppPhase::Completed => "Complete",
            AppPhase::Error => "Error",
        }
    }

    /// The status line where no status was set.
    pub fn default_status(&self) -> (r: String)
        ensures
            r@ == self@.default_status_text(),
    {
        match self.phase {
            AppPhase::Idle => String::from_str("Type a query and press Enter. Esc to quit."),
            AppPhase::AwaitingClarification => String::from_str(
                "Generating clarifying questions...",
            ),
            AppPhase::Clarifying => match &self.clarifying {
                Some(state) => {
                    let mut out = String::from_str("Answer question ");
                    out.append(decimal_string(state.current_index as u128 + 1).as_str());
                    out.append(" of ");
                    out.append(decimal_string(state.questions.len() as u128).as_str());
                    out
                },
                None => String::from_str("Answer the clarifying questions."),
            },
            AppPhase::Confirming => String::from_str(
                "Type 'confirm' to continue or 'cancel' to abort.",
            ),
            AppPhase::Researching => String::from_str("Working... Press Esc to stop."),
            AppPhase::Completed => String::from_str(
                "Research complete. Enter another query or Esc to quit.",
            ),
            AppPhase::Error => String::from_str("Run failed. Enter another query or Esc to quit."),
        }
    }

    /// Returns to the bottom of the log.
    pub fn scroll_to_bottom(&mut self)
        ensures
            final(self)@ == (AppView { scroll_offset: 0, ..old(self)@ }),
    {
        self.scroll_offset = 0;
    }
}

impl AppView {
    /// The width of the chat log inside its border.
    pub open spec fn chat_width(self) -> nat {
        if self.terminal_width >= 2 {
            (self.terminal_width - 2) as nat
        } else {
            0
        }
    }
}

impl App {
    /// Applies one key event and returns the command that it gives, if any.
    /// Where the key scrolls up, the height of the chat log is measured with
    /// `renderer`.
    pub fn handle_key_event(&mut self, key: KeyPress, renderer: &MarkdownRenderer) -> (command:
        Option<Command>)
        requires
            old(self)@.wf(),
        ensures
            final(self)@.wf(),
            exists|total_lines: nat|
                {
                    &&& key.pressed && key.code is Up ==> is_chat_height(
                        old(self)@.messages,
                        old(self)@.chat_width(),
                        total_lines,
                    )
                    &&& final(self)@ == (#[trigger] old(self)@.on_key(key, total_lines)).app
                    &&& command.deep_view() == old(self)@.on_key(key, total_lines).command
                },
    {
        let scrolls_up = key.pressed && match key.code {
            KeyCode::Up => true,
            _ => false,
        };
        let total_lines = if scrolls_up {
            total_lines_with(renderer, &self.messages, self.terminal_width)
        } else {
            0
        };
        let command = self.handle_key(key, total_lines);
        assert(final(self)@ == old(self)@.on_key(key, total_lines as nat).app);
        command
    }
}

} // verus!
