use lode::protocol::ClarifyingQuestion;
use lode::protocol::Response;
use lode::tui::is_cancellation;
use lode::tui::is_confirmation;
use lode::tui::widgets::ChatMessage;
use lode::tui::widgets::MessageRole;
use lode::tui::App;
use lode::tui::AppEvent;
use lode::tui::AppPhase;
use lode::tui::Command;
use lode::tui::KeyCode;
use lode::tui::KeyPress;

fn press(code: KeyCode) -> KeyPress {
    KeyPress { code, control: false, pressed: true }
}

fn type_text(app: &mut App, text: &str) {
    for c in text.chars() {
        assert_eq!(app.handle_key(press(KeyCode::Char(c)), 0), None);
    }
}

fn enter(app: &mut App) -> Option<Command> {
    app.handle_key(press(KeyCode::Enter), 0)
}

fn questions(count: usize) -> Vec<ClarifyingQuestion> {
    let mut out = Vec::new();
    for i in 0..count {
        out.push(ClarifyingQuestion {
            label: format!("L{}", i + 1),
            question: format!("Question {}?", i + 1),
        });
    }
    out
}

fn system(text: &str) -> ChatMessage {
    ChatMessage { role: MessageRole::System, content: text.to_string() }
}

fn user(text: &str) -> ChatMessage {
    ChatMessage { role: MessageRole::User, content: text.to_string() }
}

fn clarifying_app(require_confirmation: bool, count: usize) -> App {
    let mut app = App::new(require_confirmation);
    type_text(&mut app, "query");
    assert_eq!(enter(&mut app), Some(Command::Submit { query: "query".to_string() }));
    app.handle_backend_event(&Response::ClarifyingQuestions { questions: questions(count) });
    app
}

fn confirming_app() -> App {
    let mut app = clarifying_app(true, 2);
    type_text(&mut app, "first");
    assert_eq!(enter(&mut app), None);
    type_text(&mut app, "second");
    assert_eq!(enter(&mut app), None);
    assert_eq!(app.phase, AppPhase::Confirming);
    app
}

#[test]
fn a_new_session_is_idle_and_empty() {
    let app = App::new(true);
    assert!(app.messages.is_empty());
    assert_eq!(app.input, "");
    assert_eq!(app.status, None);
    assert!(!app.is_processing);
    assert_eq!(app.scroll_offset, 0);
    assert!(!app.should_quit);
    assert!(app.clarifying.is_none());
    assert_eq!(app.terminal_width, 80);
    assert!(app.require_confirmation);
    assert_eq!(app.pending_answers, None);
    assert_eq!(app.phase, AppPhase::Idle);
    assert!(!app.round_resolved);
    assert!(!app.is_clarifying());
    assert!(!app.awaiting_confirmation());
    assert!(!app.is_confirming());
    assert!(app.current_question().is_none());
    assert!(!App::new(false).require_confirmation);
}

#[test]
fn typing_and_backspace_edit_the_input() {
    let mut app = App::new(false);
    type_text(&mut app, "abc");
    assert_eq!(app.input, "abc");
    assert_eq!(app.handle_key(press(KeyCode::Backspace), 0), None);
    assert_eq!(app.input, "ab");
    app.handle_key(press(KeyCode::Backspace), 0);
    app.handle_key(press(KeyCode::Backspace), 0);
    app.handle_key(press(KeyCode::Backspace), 0);
    assert_eq!(app.input, "");
}

#[test]
fn a_key_that_did_not_go_down_changes_nothing() {
    let mut app = App::new(false);
    let released = KeyPress { code: KeyCode::Char('x'), control: false, pressed: false };
    assert_eq!(app.handle_key(released, 0), None);
    assert_eq!(app.input, "");
    let escape = KeyPress { code: KeyCode::Esc, control: false, pressed: false };
    assert_eq!(app.handle_key(escape, 0), None);
    assert!(!app.should_quit);
    assert_eq!(app.handle_key(press(KeyCode::Other), 0), None);
    assert_eq!(app.phase, AppPhase::Idle);
}

#[test]
fn submitting_a_query_starts_a_run() {
    let mut app = App::new(false);
    type_text(&mut app, "What is quantum computing?");
    let command = enter(&mut app);
    assert_eq!(command, Some(Command::Submit { query: "What is quantum computing?".to_string() }));
    assert_eq!(app.phase, AppPhase::AwaitingClarification);
    assert!(app.is_processing);
    assert_eq!(app.input, "");
    assert_eq!(app.status, Some("Starting research...".to_string()));
    assert_eq!(app.messages, vec![user("What is quantum computing?")]);
}

#[test]
fn an_empty_query_is_not_submitted() {
    let mut app = App::new(false);
    assert_eq!(enter(&mut app), None);
    assert_eq!(app.phase, AppPhase::Idle);
    assert!(app.messages.is_empty());
    assert!(!app.is_processing);
}

#[test]
fn submitting_while_a_run_is_active_is_a_no_op() {
    let mut app = App::new(false);
    type_text(&mut app, "first");
    enter(&mut app);
    app.handle_backend_event(&Response::Prompt {
        agent: "Planner".to_string(),
        sequence: 0,
        content: "p".to_string(),
    });
    assert_eq!(app.phase, AppPhase::Researching);
    let messages_before = app.messages.len();
    let status_before = app.status.clone();
    type_text(&mut app, "second");
    assert_eq!(app.input, "", "typing is off while a run is in progress");
    app.input = "second".to_string();
    assert_eq!(enter(&mut app), None);
    assert_eq!(app.messages.len(), messages_before);
    assert_eq!(app.phase, AppPhase::Researching);
    assert_eq!(app.status, status_before);
    assert_eq!(app.input, "second");
    assert!(app.is_processing);
}

#[test]
fn questions_open_a_clarifying_round() {
    let app = clarifying_app(false, 2);
    assert_eq!(app.phase, AppPhase::Clarifying);
    assert!(app.is_clarifying());
    assert_eq!(app.status, None);
    assert_eq!(
        app.messages,
        vec![
            user("query"),
            system("Please answer these clarifying questions:"),
            system("1. [L1] Question 1?"),
            system("2. [L2] Question 2?"),
        ]
    );
    let state = app.clarifying.as_ref().unwrap();
    assert_eq!(state.current_index, 0);
    assert!(state.answers.is_empty());
    assert_eq!(state.questions, questions(2));
    assert_eq!(app.current_question().unwrap().label, "L1");
}

#[test]
fn each_enter_collects_one_answer() {
    let mut app = clarifying_app(false, 3);
    type_text(&mut app, "a1");
    assert_eq!(enter(&mut app), None);
    assert_eq!(app.phase, AppPhase::Clarifying);
    assert_eq!(app.status, Some("Answer question 2 of 3".to_string()));
    assert_eq!(app.current_question().unwrap().label, "L2");
    assert_eq!(app.clarifying.as_ref().unwrap().answers, vec!["a1".to_string()]);
    assert_eq!(enter(&mut app), None, "an empty answer counts");
    assert_eq!(app.status, Some("Answer question 3 of 3".to_string()));
    type_text(&mut app, " a3 ");
    assert_eq!(
        enter(&mut app),
        Some(Command::Answers {
            answers: vec!["a1".to_string(), "".to_string(), " a3 ".to_string()],
            confirmed: true,
        })
    );
    assert_eq!(app.phase, AppPhase::Researching);
    assert_eq!(app.status, Some("Continuing research...".to_string()));
    assert!(!app.is_clarifying());
    assert!(!app.awaiting_confirmation());
}

#[test]
fn exactly_as_many_answers_as_questions_go_out() {
    for count in 1..6usize {
        let mut app = clarifying_app(false, count);
        let mut sent = None;
        let mut enters = 0;
        while sent.is_none() {
            type_text(&mut app, "x");
            sent = enter(&mut app);
            enters += 1;
            assert!(enters <= count);
        }
        assert_eq!(enters, count);
        match sent {
            Some(Command::Answers { answers, confirmed }) => {
                assert_eq!(answers.len(), count);
                assert!(confirmed);
            }
            other => panic!("unexpected command {:?}", other),
        }
    }
}

#[test]
fn a_round_without_questions_is_over_at_once() {
    let mut app = App::new(false);
    type_text(&mut app, "query");
    enter(&mut app);
    let before = app.messages.len();
    let command = app.handle_backend_event(&Response::ClarifyingQuestions { questions: vec![] });
    assert_eq!(command, Some(Command::Answers { answers: vec![], confirmed: true }));
    assert!(!app.is_clarifying());
    assert!(!app.awaiting_confirmation());
    assert!(app.round_resolved);
    assert_eq!(app.phase, AppPhase::Researching);
    assert_eq!(app.status, Some("Continuing research...".to_string()));
    assert_eq!(app.messages.len(), before);

    let mut app = App::new(true);
    type_text(&mut app, "query");
    enter(&mut app);
    let command = app.handle_backend_event(&Response::ClarifyingQuestions { questions: vec![] });
    assert_eq!(command, None);
    assert_eq!(app.pending_answers, Some(vec![]));
    assert_eq!(app.phase, AppPhase::Confirming);
    type_text(&mut app, "yes");
    assert_eq!(enter(&mut app), Some(Command::Answers { answers: vec![], confirmed: true }));
}

#[test]
fn questions_for_a_resolved_round_are_ignored() {
    let mut app = clarifying_app(false, 1);
    type_text(&mut app, "only");
    assert!(matches!(enter(&mut app), Some(Command::Answers { .. })));
    assert!(app.round_resolved);
    let messages: Vec<ChatMessage> = app.messages.iter().map(|m| m.clone()).collect();
    let status = app.status.clone();
    let command = app.handle_backend_event(&Response::ClarifyingQuestions { questions: questions(3) });
    assert_eq!(command, None);
    assert!(!app.is_clarifying());
    assert_eq!(app.phase, AppPhase::Researching);
    assert_eq!(app.messages, messages);
    assert_eq!(app.status, status);

    let mut app = confirming_app();
    let command = app.handle_backend_event(&Response::ClarifyingQuestions { questions: questions(2) });
    assert_eq!(command, None);
    assert_eq!(app.phase, AppPhase::Confirming);
    assert!(!app.is_clarifying());
    assert!(app.awaiting_confirmation());
}

#[test]
fn a_new_query_opens_the_way_for_a_new_round() {
    let mut app = clarifying_app(false, 1);
    type_text(&mut app, "only");
    enter(&mut app);
    app.process_events(&vec![AppEvent::RunComplete { success: true, run_id: "12345678".to_string() }]);
    assert!(app.round_resolved);
    type_text(&mut app, "next");
    assert!(matches!(enter(&mut app), Some(Command::Submit { .. })));
    assert!(!app.round_resolved);
    assert_eq!(
        app.handle_backend_event(&Response::ClarifyingQuestions { questions: questions(2) }),
        None
    );
    assert!(app.is_clarifying());
    assert_eq!(app.phase, AppPhase::Clarifying);
}

#[test]
fn the_end_of_a_run_closes_an_open_round() {
    for event in [
        AppEvent::RunComplete { success: true, run_id: "12345678".to_string() },
        AppEvent::RunComplete { success: false, run_id: "12345678".to_string() },
        AppEvent::Error("gone".to_string()),
    ] {
        let mut app = clarifying_app(false, 3);
        type_text(&mut app, "first");
        enter(&mut app);
        assert!(app.is_clarifying());
        assert_eq!(app.process_events(&vec![event]), vec![]);
        assert!(!app.is_clarifying());
        assert!(!app.awaiting_confirmation());
        assert!(!app.is_processing);
        type_text(&mut app, "a new query");
        assert_eq!(enter(&mut app), Some(Command::Submit { query: "a new query".to_string() }));
    }
}

#[test]
fn the_end_of_a_run_drops_answers_that_wait_for_confirmation() {
    let mut app = confirming_app();
    app.process_events(&vec![AppEvent::Error("gone".to_string())]);
    assert_eq!(app.pending_answers, None);
    assert_eq!(app.phase, AppPhase::Error);
    type_text(&mut app, "yes");
    assert_eq!(enter(&mut app), Some(Command::Submit { query: "yes".to_string() }));
}

#[test]
fn a_warning_is_logged_and_changes_nothing_else() {
    let mut app = App::new(false);
    type_text(&mut app, "q");
    enter(&mut app);
    let commands = app.process_events(&vec![AppEvent::Warning("failed to parse response".to_string())]);
    assert_eq!(commands, vec![]);
    assert_eq!(app.messages.last(), Some(&system("Warning: failed to parse response")));
    assert_eq!(app.phase, AppPhase::AwaitingClarification);
    assert!(app.is_processing);
}

#[test]
fn events_give_their_commands_in_order() {
    let mut app = App::new(false);
    type_text(&mut app, "q");
    enter(&mut app);
    let commands = app.process_events(&vec![
        AppEvent::BackendResponse(Response::Status { message: "s".to_string() }),
        AppEvent::BackendResponse(Response::ClarifyingQuestions { questions: vec![] }),
        AppEvent::BackendResponse(Response::ClarifyingQuestions { questions: vec![] }),
    ]);
    assert_eq!(commands, vec![Command::Answers { answers: vec![], confirmed: true }]);
}

#[test]
fn answers_wait_for_confirmation_where_it_is_required() {
    let app = confirming_app();
    assert!(app.awaiting_confirmation());
    assert!(app.is_confirming());
    assert!(!app.is_clarifying());
    assert_eq!(app.pending_answers, Some(vec!["first".to_string(), "second".to_string()]));
    assert_eq!(app.status, Some("Awaiting confirmation...".to_string()));
    assert_eq!(
        app.messages.last(),
        Some(&system("Type 'confirm' to continue or 'cancel' to abort."))
    );
}

#[test]
fn confirmation_inputs_confirm_whatever_their_case() {
    for input in ["", "Y", "yes", "Confirm", "continue", "PROCEED", "  yes  ", "y"] {
        let mut app = confirming_app();
        type_text(&mut app, input);
        assert_eq!(
            enter(&mut app),
            Some(Command::Answers {
                answers: vec!["first".to_string(), "second".to_string()],
                confirmed: true,
            }),
            "for {:?}",
            input
        );
        assert_eq!(app.phase, AppPhase::Researching);
        assert_eq!(app.status, Some("Continuing research...".to_string()));
        assert_eq!(app.pending_answers, None);
        assert_eq!(app.input, "");
    }
}

#[test]
fn cancellation_inputs_cancel_whatever_their_case() {
    for input in ["n", "No", "cancel", "STOP", "quit", " Cancel "] {
        let mut app = confirming_app();
        type_text(&mut app, input);
        assert_eq!(
            enter(&mut app),
            Some(Command::Answers {
                answers: vec!["first".to_string(), "second".to_string()],
                confirmed: false,
            }),
            "for {:?}",
            input
        );
        assert_eq!(app.phase, AppPhase::Completed);
        assert_eq!(app.status, Some("Cancelling research...".to_string()));
        assert_eq!(app.pending_answers, None);
        assert_eq!(app.messages.last(), Some(&system("Research cancelled before execution.")));
    }
}

#[test]
fn any_other_input_asks_again_and_keeps_the_phase() {
    let mut app = confirming_app();
    let before = app.messages.len();
    type_text(&mut app, "maybe");
    assert_eq!(enter(&mut app), None);
    assert_eq!(app.phase, AppPhase::Confirming);
    assert!(app.awaiting_confirmation());
    assert_eq!(app.pending_answers, Some(vec!["first".to_string(), "second".to_string()]));
    assert_eq!(app.messages.len(), before + 2);
    assert_eq!(app.messages[before], user("maybe"));
    assert_eq!(
        app.messages[before + 1],
        system("Type 'confirm' to continue or 'cancel' to abort.")
    );
    type_text(&mut app, "yes");
    assert!(matches!(enter(&mut app), Some(Command::Answers { confirmed: true, .. })));
}

#[test]
fn the_confirmation_echo_is_trimmed_and_left_out_when_empty() {
    let mut app = confirming_app();
    let before = app.messages.len();
    type_text(&mut app, "  Yes ");
    enter(&mut app);
    assert_eq!(app.messages.len(), before + 1);
    assert_eq!(app.messages[before], user("Yes"));
    let mut app = confirming_app();
    let before = app.messages.len();
    type_text(&mut app, "   ");
    assert!(matches!(enter(&mut app), Some(Command::Answers { confirmed: true, .. })));
    assert_eq!(app.messages.len(), before);
}

#[test]
fn confirmation_tokens_are_exact() {
    for token in ["", "y", "yes", "confirm", "continue", "proceed"] {
        assert!(is_confirmation(token), "{:?}", token);
        assert!(!is_cancellation(token), "{:?}", token);
    }
    for token in ["n", "no", "cancel", "stop", "quit"] {
        assert!(is_cancellation(token), "{:?}", token);
        assert!(!is_confirmation(token), "{:?}", token);
    }
    for token in ["maybe", "yes!", "Y", " y", "ok", "nope"] {
        assert!(!is_confirmation(token), "{:?}", token);
        assert!(!is_cancellation(token), "{:?}", token);
    }
}

#[test]
fn cancelling_at_the_confirmation_prompt_ends_the_run_without_a_report() {
    let mut app = App::new(true);
    type_text(&mut app, "topic");
    enter(&mut app);
    app.handle_backend_event(&Response::ClarifyingQuestions { questions: questions(2) });
    type_text(&mut app, "one");
    assert_eq!(enter(&mut app), None);
    type_text(&mut app, "two");
    assert_eq!(enter(&mut app), None);
    type_text(&mut app, "cancel");
    let command = enter(&mut app);
    assert_eq!(
        command,
        Some(Command::Answers { answers: vec!["one".to_string(), "two".to_string()], confirmed: false })
    );
    assert_eq!(app.phase, AppPhase::Completed);
    assert!(app.messages.iter().all(|m| m.role != MessageRole::Assistant));
}

#[test]
fn escape_stops_a_run_and_quits_otherwise() {
    let mut app = App::new(false);
    assert_eq!(app.handle_key(press(KeyCode::Esc), 0), None);
    assert!(app.should_quit);

    let mut app = App::new(false);
    type_text(&mut app, "q");
    enter(&mut app);
    assert_eq!(app.handle_key(press(KeyCode::Esc), 0), Some(Command::Interrupt));
    assert!(!app.should_quit);
    assert_eq!(app.phase, AppPhase::Researching);
    assert_eq!(app.messages.last(), Some(&system("Stopping research...")));
    assert!(app.is_processing, "the run goes on until the worker is gone");
}

#[test]
fn control_c_quits_and_stops_a_run_first() {
    let control_c = KeyPress { code: KeyCode::Char('c'), control: true, pressed: true };
    let mut app = App::new(false);
    assert_eq!(app.handle_key(control_c, 0), None);
    assert!(app.should_quit);
    assert_eq!(app.input, "");

    let mut app = App::new(false);
    type_text(&mut app, "q");
    enter(&mut app);
    assert_eq!(app.handle_key(control_c, 0), Some(Command::Interrupt));
    assert!(app.should_quit);
    assert_eq!(app.phase, AppPhase::Researching);
    assert_eq!(app.messages.last(), Some(&system("Stopping research...")));

    let mut app = App::new(false);
    let control_x = KeyPress { code: KeyCode::Char('x'), control: true, pressed: true };
    assert_eq!(app.handle_key(control_x, 0), None);
    assert_eq!(app.input, "x");
    assert!(!app.should_quit);
}

#[test]
fn scrolling_moves_by_three_lines_within_the_log() {
    let mut app = App::new(false);
    app.handle_key(press(KeyCode::Up), 10);
    assert_eq!(app.scroll_offset, 3);
    app.handle_key(press(KeyCode::Up), 10);
    app.handle_key(press(KeyCode::Up), 10);
    assert_eq!(app.scroll_offset, 9);
    app.handle_key(press(KeyCode::Up), 10);
    assert_eq!(app.scroll_offset, 9);
    app.handle_key(press(KeyCode::Down), 10);
    assert_eq!(app.scroll_offset, 6);
    app.handle_key(press(KeyCode::Down), 10);
    app.handle_key(press(KeyCode::Down), 10);
    assert_eq!(app.scroll_offset, 0);
    app.handle_key(press(KeyCode::Down), 10);
    assert_eq!(app.scroll_offset, 0);
    app.scroll_offset = 2;
    app.handle_key(press(KeyCode::Down), 10);
    assert_eq!(app.scroll_offset, 0);
    app.handle_key(press(KeyCode::Up), 0);
    assert_eq!(app.scroll_offset, 0);
    app.handle_key(press(KeyCode::Up), 1);
    assert_eq!(app.scroll_offset, 0);
    app.handle_key(press(KeyCode::Up), 3);
    assert_eq!(app.scroll_offset, 2);
    app.scroll_offset = 5;
    app.add_system_message("new".to_string());
    assert_eq!(app.scroll_offset, 0);
}

#[test]
fn worker_events_update_status_and_phase() {
    let mut app = App::new(false);
    type_text(&mut app, "q");
    enter(&mut app);
    app.handle_backend_event(&Response::Status { message: "Planning".to_string() });
    assert_eq!(app.status, Some("Planning".to_string()));
    assert_eq!(app.phase, AppPhase::AwaitingClarification);
    app.handle_backend_event(&Response::Trace {
        trace_id: "t".to_string(),
        trace_url: "https://trace/1".to_string(),
    });
    assert_eq!(app.messages.last(), Some(&system("Trace: https://trace/1")));
    app.handle_backend_event(&Response::Prompt {
        agent: "Planner".to_string(),
        sequence: 0,
        content: "c".to_string(),
    });
    assert_eq!(app.status, Some("Running Planner (step 0)".to_string()));
    assert_eq!(app.phase, AppPhase::Researching);
    app.handle_backend_event(&Response::AgentOutput {
        agent: "Planner".to_string(),
        sequence: 12,
        content: "c".to_string(),
        token_usage: None,
    });
    assert_eq!(app.status, Some("Received Planner response (step 12)".to_string()));
    app.handle_backend_event(&Response::Decision {
        action: "search".to_string(),
        reason: "r".to_string(),
        remaining_searches: 4,
        remaining_iterations: 9,
    });
    assert_eq!(
        app.status,
        Some("Decision: search (budget: 4 searches, 9 iterations)".to_string())
    );
    assert_eq!(app.phase, AppPhase::Researching);
    let before = app.messages.len();
    app.handle_backend_event(&Response::Metadata {
        model: "m".to_string(),
        total_tokens: None,
        duration_ms: 1,
    });
    app.handle_backend_event(&Response::Done { success: true });
    assert_eq!(app.messages.len(), before);
    assert_eq!(app.phase, AppPhase::Researching);
    app.handle_backend_event(&Response::Report {
        short_summary: "Short".to_string(),
        markdown_report: "# Long".to_string(),
        follow_up_questions: vec![],
    });
    assert_eq!(app.phase, AppPhase::Completed);
    assert_eq!(app.status, None);
    assert_eq!(
        app.messages.last(),
        Some(&ChatMessage { role: MessageRole::Assistant, content: "**Short**\n\n# Long".to_string() })
    );
}

#[test]
fn a_decision_does_not_disturb_the_confirmation_prompt() {
    let mut app = confirming_app();
    app.handle_backend_event(&Response::Decision {
        action: "search".to_string(),
        reason: "r".to_string(),
        remaining_searches: 1,
        remaining_iterations: 2,
    });
    assert_eq!(app.phase, AppPhase::Confirming);
    assert_eq!(
        app.status,
        Some("Decision: search (budget: 1 searches, 2 iterations)".to_string())
    );
    assert!(app.awaiting_confirmation());
}

#[test]
fn an_error_event_is_shown_with_its_code() {
    let mut app = App::new(false);
    app.handle_backend_event(&Response::Error { message: "boom".to_string(), code: Some("E7".to_string()) });
    assert_eq!(app.phase, AppPhase::Error);
    assert_eq!(app.messages.last(), Some(&system("Error [E7]: boom")));
    app.handle_backend_event(&Response::Error { message: "bang".to_string(), code: None });
    assert_eq!(app.messages.last(), Some(&system("Error: bang")));
}

#[test]
fn events_are_applied_in_their_order() {
    let mut app = App::new(false);
    type_text(&mut app, "q");
    enter(&mut app);
    let events = vec![
        AppEvent::BackendResponse(Response::Status { message: "one".to_string() }),
        AppEvent::BackendResponse(Response::Status { message: "two".to_string() }),
        AppEvent::BackendResponse(Response::Trace { trace_id: "t".to_string(), trace_url: "u".to_string() }),
    ];
    app.process_events(&events);
    assert_eq!(app.status, Some("two".to_string()));
    assert_eq!(app.messages.last(), Some(&system("Trace: u")));
    assert_eq!(app.spinner_index, 1);
    app.process_events(&vec![]);
    assert_eq!(app.spinner_index, 2);
}

#[test]
fn run_completion_frees_the_controller_for_another_query() {
    let mut app = App::new(false);
    type_text(&mut app, "q");
    enter(&mut app);
    app.process_events(&vec![AppEvent::RunComplete {
        success: true,
        run_id: "0123456789abcdef".to_string(),
    }]);
    assert_eq!(app.phase, AppPhase::Completed);
    assert!(!app.is_processing);
    assert_eq!(app.status, None);
    assert_eq!(app.messages.last(), Some(&system("Research complete (01234567)")));
    assert_eq!(app.spinner_index, 1);
    type_text(&mut app, "again");
    assert_eq!(enter(&mut app), Some(Command::Submit { query: "again".to_string() }));
    assert_eq!(app.phase, AppPhase::AwaitingClarification);

    app.process_events(&vec![AppEvent::RunComplete { success: false, run_id: "short".to_string() }]);
    assert_eq!(app.phase, AppPhase::Error);
    assert_eq!(app.messages.last(), Some(&system("Research failed")));
    type_text(&mut app, "once more");
    assert!(matches!(enter(&mut app), Some(Command::Submit { .. })));
}

#[test]
fn a_short_run_id_is_shown_whole() {
    let mut app = App::new(false);
    app.process_events(&vec![AppEvent::RunComplete { success: true, run_id: "abc".to_string() }]);
    assert_eq!(app.messages.last(), Some(&system("Research complete (abc)")));
}

#[test]
fn an_error_from_the_run_ends_it() {
    let mut app = App::new(false);
    type_text(&mut app, "q");
    enter(&mut app);
    app.process_events(&vec![AppEvent::Error("Failed to receive clarifying answers".to_string())]);
    assert_eq!(app.phase, AppPhase::Error);
    assert!(!app.is_processing);
    assert_eq!(
        app.messages.last(),
        Some(&system("Error: Failed to receive clarifying answers"))
    );
}

#[test]
fn the_spinner_turns_only_while_a_run_is_in_progress() {
    let mut app = App::new(false);
    assert_eq!(app.spinner_frame(), " ");
    app.advance_spinner();
    assert_eq!(app.spinner_index, 0);
    app.is_processing = true;
    assert_eq!(app.spinner_frame(), "-");
    app.advance_spinner();
    assert_eq!(app.spinner_frame(), "\\");
    app.advance_spinner();
    assert_eq!(app.spinner_frame(), "|");
    app.advance_spinner();
    assert_eq!(app.spinner_frame(), "/");
    app.advance_spinner();
    assert_eq!(app.spinner_frame(), "-");
    app.spinner_index = usize::MAX;
    app.advance_spinner();
    assert_eq!(app.spinner_index, 0);
    app.spinner_index = 5;
    app.is_processing = false;
    app.advance_spinner();
    assert_eq!(app.spinner_index, 0);
}

#[test]
fn every_phase_has_a_label_and_a_default_status() {
    let mut app = App::new(false);
    let expected = [
        (AppPhase::Idle, "Idle", "Type a query and press Enter. Esc to quit."),
        (AppPhase::AwaitingClarification, "Clarifying", "Generating clarifying questions..."),
        (AppPhase::Clarifying, "Clarifying", "Answer the clarifying questions."),
        (AppPhase::Confirming, "Confirm", "Type 'confirm' to continue or 'cancel' to abort."),
        (AppPhase::Researching, "Researching", "Working... Press Esc to stop."),
        (AppPhase::Completed, "Complete", "Research complete. Enter another query or Esc to quit."),
        (AppPhase::Error, "Error", "Run failed. Enter another query or Esc to quit."),
    ];
    for (phase, label, status) in expected {
        app.phase = phase;
        assert_eq!(app.phase_label(), label);
        assert_eq!(app.default_status(), status);
    }
    let app = clarifying_app(false, 4);
    assert_eq!(app.default_status(), "Answer question 1 of 4");
}

#[test]
fn messages_are_added_with_their_role() {
    let mut app = App::new(false);
    app.scroll_offset = 4;
    app.add_user_message("u".to_string());
    assert_eq!(app.scroll_offset, 0);
    app.add_assistant_message("a".to_string());
    app.add_system_message("s".to_string());
    assert_eq!(
        app.messages,
        vec![
            user("u"),
            ChatMessage { role: MessageRole::Assistant, content: "a".to_string() },
            system("s"),
        ]
    );
    app.set_status(Some("busy".to_string()));
    assert_eq!(app.status, Some("busy".to_string()));
    app.set_status(None);
    assert_eq!(app.status, None);
    app.scroll_offset = 9;
    app.scroll_to_bottom();
    assert_eq!(app.scroll_offset, 0);
}

#[test]
fn well_formedness_can_be_tested() {
    let mut app = clarifying_app(false, 2);
    assert!(app.well_formed());
    app.clarifying.as_mut().unwrap().current_index = 5;
    assert!(!app.well_formed());
    assert!(App::new(true).well_formed());
    assert!(confirming_app().well_formed());
    let mut app = confirming_app();
    app.round_resolved = false;
    assert!(!app.well_formed());
    let mut app = clarifying_app(false, 2);
    app.pending_answers = Some(vec![]);
    assert!(!app.well_formed());
}
