use lode::cli::RequestConfig;
use lode::output::artifact_label;
use lode::output::console_answer;
use lode::output::console_prompt;
use lode::output::console_round;
use lode::output::console_step;
use lode::output::describe_decode_error;
use lode::output::parse_warning;
use lode::output::question_prompt;
use lode::output::write_warning;
use lode::output::ConsoleRound;
use lode::output::Emission;
use lode::output::Output;
use lode::output::OutputMode;
use lode::output::Stream;
use lode::protocol::ClarifyingQuestion;
use lode::protocol::DecodeError;
use lode::protocol::Response;
use lode::session::Session;

fn config() -> RequestConfig {
    RequestConfig {
        model: "gpt-4o".to_string(),
        search_count: 5,
        max_iterations: 10,
        max_searches: 15,
        auto_decide: true,
    }
}

fn err(text: &str) -> Emission {
    Emission { stream: Stream::Stderr, text: text.to_string() }
}

fn out(text: &str) -> Emission {
    Emission { stream: Stream::Stdout, text: text.to_string() }
}

fn human() -> Output {
    Output::new(false, false)
}

fn quiet() -> Output {
    Output::new(false, true)
}

fn json() -> Output {
    Output::new(true, false)
}

#[test]
fn the_json_flag_wins_over_the_quiet_flag() {
    assert_eq!(Output::new(false, false).mode, OutputMode::Human);
    assert_eq!(Output::new(false, true).mode, OutputMode::Quiet);
    assert_eq!(Output::new(true, false).mode, OutputMode::Json);
    assert_eq!(Output::new(true, true).mode, OutputMode::Json);
}

#[test]
fn start_is_reported_in_each_mode() {
    assert_eq!(
        human().start("run-1", "runs/run-1", &config()),
        vec![
            err("Starting research run: run-1"),
            err("Model: gpt-4o, Searches: 5 (max: 15), Iterations: 10"),
            err("Artifacts: runs/run-1"),
        ]
    );
    assert_eq!(quiet().start("run-1", "runs/run-1", &config()), vec![]);
    assert_eq!(
        json().start("run-1", "runs/run-1", &config()),
        vec![out(
            r#"{"type":"start","version":"v1","run_id":"run-1","artifacts_dir":"runs/run-1","model":"gpt-4o","search_count":5,"max_iterations":10,"max_searches":15,"auto_decide":true}"#
        )]
    );
}

#[test]
fn status_is_reported_in_each_mode() {
    assert_eq!(human().status("Planning"), vec![err("\u{2192} Planning")]);
    assert_eq!(quiet().status("Planning"), vec![]);
    assert_eq!(json().status("Planning"), vec![out(r#"{"type":"status","message":"Planning"}"#)]);
}

#[test]
fn trace_is_reported_in_each_mode() {
    assert_eq!(
        human().trace("0123456789abcdef", "https://t/1"),
        vec![err("\u{1F4CA} Trace [01234567]: https://t/1")]
    );
    assert_eq!(human().trace("abc", "u"), vec![err("\u{1F4CA} Trace [abc]: u")]);
    assert_eq!(quiet().trace("abc", "u"), vec![]);
    assert_eq!(
        json().trace("abc", "u"),
        vec![out(r#"{"type":"trace","trace_id":"abc","trace_url":"u"}"#)]
    );
}

#[test]
fn prompt_and_response_are_reported_in_each_mode() {
    assert_eq!(human().prompt("Planner", 3), vec![err("\u{1F4DD} Prompt: Planner (3)")]);
    assert_eq!(human().response("Planner", 3), vec![err("\u{1F4E5} Response: Planner (3)")]);
    assert_eq!(quiet().prompt("Planner", 3), vec![]);
    assert_eq!(quiet().response("Planner", 3), vec![]);
    assert_eq!(
        json().prompt("Planner", 3),
        vec![out(r#"{"type":"prompt","agent":"Planner","sequence":3}"#)]
    );
    assert_eq!(
        json().response("Planner", 3),
        vec![out(r#"{"type":"response","agent":"Planner","sequence":3}"#)]
    );
}

#[test]
fn decision_is_reported_in_each_mode() {
    assert_eq!(
        human().decision("search", "need more", 4, 9),
        vec![
            err("\u{1F914} Decision: search (searches: 4, iterations: 9)"),
            err("   Reason: need more"),
        ]
    );
    assert_eq!(quiet().decision("search", "need more", 4, 9), vec![]);
    assert_eq!(
        json().decision("search", "need more", 4, 9),
        vec![out(
            r#"{"type":"decision","action":"search","reason":"need more","remaining_searches":4,"remaining_iterations":9}"#
        )]
    );
}

#[test]
fn the_report_is_printed_even_in_quiet_mode() {
    let rule = format!("\n{}\n", "=".repeat(60));
    let questions = vec!["Why?".to_string(), "How?".to_string()];
    let expected = vec![
        out(&rule),
        out("SUMMARY: short\n"),
        out("# Report"),
        out("\nFollow-up questions:"),
        out("  - Why?"),
        out("  - How?"),
    ];
    assert_eq!(human().report("short", "# Report", &questions), expected);
    assert_eq!(quiet().report("short", "# Report", &questions), expected);
    assert_eq!(
        human().report("short", "# Report", &vec![]),
        vec![out(&rule), out("SUMMARY: short\n"), out("# Report")]
    );
    assert_eq!(
        json().report("short", "# Report", &questions),
        vec![out(
            r##"{"type":"report","short_summary":"short","markdown_report":"# Report","follow_up_questions":["Why?","How?"]}"##
        )]
    );
}

#[test]
fn errors_are_printed_even_in_quiet_mode() {
    assert_eq!(human().error(Some("E1"), "boom"), vec![err("Error [E1]: boom")]);
    assert_eq!(human().error(None, "boom"), vec![err("Error: boom")]);
    assert_eq!(quiet().error(Some("E1"), "boom"), vec![err("Error [E1]: boom")]);
    assert_eq!(
        json().error(Some("MISSING_QUERY"), "query is required"),
        vec![out(r#"{"type":"error","code":"MISSING_QUERY","message":"query is required"}"#)]
    );
    assert_eq!(json().error(None, "boom"), vec![out(r#"{"type":"error","message":"boom"}"#)]);
}

#[test]
fn warnings_are_reported_in_each_mode() {
    assert_eq!(human().warning("careful"), vec![err("Warning: careful")]);
    assert_eq!(quiet().warning("careful"), vec![]);
    assert_eq!(json().warning("careful"), vec![out(r#"{"type":"warning","message":"careful"}"#)]);
}

#[test]
fn completion_is_reported_in_each_mode() {
    assert_eq!(
        human().complete(true, "run-1", "runs/run-1"),
        vec![err("Run complete. Artifacts saved to: runs/run-1")]
    );
    assert_eq!(quiet().complete(true, "run-1", "runs/run-1"), vec![]);
    assert_eq!(
        json().complete(false, "run-1", "runs/run-1"),
        vec![out(r#"{"type":"complete","success":false,"run_id":"run-1","artifacts_dir":"runs/run-1"}"#)]
    );
}

#[test]
fn decode_errors_are_described() {
    assert_eq!(
        describe_decode_error(&DecodeError::Syntax { message: "expected value at line 1 column 1".to_string() }),
        "expected value at line 1 column 1"
    );
    assert_eq!(describe_decode_error(&DecodeError::MissingTag), "missing field `type`");
    assert_eq!(
        describe_decode_error(&DecodeError::UnknownTag { tag: "x".to_string() }),
        "unknown variant `x`"
    );
    assert_eq!(
        describe_decode_error(&DecodeError::InvalidFields { tag: "done".to_string() }),
        "invalid fields for `done`"
    );
    assert_eq!(
        parse_warning(&DecodeError::MissingTag, "{}"),
        "failed to parse response: missing field `type` (line: {})"
    );
    assert_eq!(write_warning("prompt", "disk full"), "failed to write prompt: disk full");
}

#[test]
fn console_questions_and_answers() {
    let question = ClarifyingQuestion { label: "Scope".to_string(), question: "How broad?".to_string() };
    assert_eq!(question_prompt(0, &question), "\n1. [Scope] How broad?");
    assert_eq!(question_prompt(9, &question), "\n10. [Scope] How broad?");
    assert_eq!(console_answer("  very broad \n"), "very broad");
    assert_eq!(console_answer("\n"), "");
}

#[test]
fn events_are_reported_by_their_kind() {
    let human = human();
    assert_eq!(
        human.event(&Response::Status { message: "Planning".to_string() }),
        vec![err("\u{2192} Planning")]
    );
    assert_eq!(
        human.event(&Response::Prompt { agent: "A".to_string(), sequence: 2, content: "c".to_string() }),
        vec![err("\u{1F4DD} Prompt: A (2)")]
    );
    assert_eq!(
        human.event(&Response::AgentOutput {
            agent: "A".to_string(),
            sequence: 2,
            content: "c".to_string(),
            token_usage: None,
        }),
        vec![err("\u{1F4E5} Response: A (2)")]
    );
    assert_eq!(
        human.event(&Response::Error { message: "boom".to_string(), code: Some("E".to_string()) }),
        vec![err("Error [E]: boom")]
    );
    assert_eq!(human.event(&Response::Done { success: true }), vec![]);
    assert_eq!(
        human.event(&Response::Metadata { model: "m".to_string(), total_tokens: None, duration_ms: 1 }),
        vec![]
    );
    assert_eq!(human.event(&Response::ClarifyingQuestions { questions: vec![] }), vec![]);
    assert_eq!(
        json().event(&Response::Trace { trace_id: "t".to_string(), trace_url: "u".to_string() }),
        vec![out(r#"{"type":"trace","trace_id":"t","trace_url":"u"}"#)]
    );
}

#[test]
fn a_line_is_reported_as_event_or_warning() {
    let config = RequestConfig {
        model: "m".to_string(),
        search_count: 1,
        max_iterations: 1,
        max_searches: 1,
        auto_decide: true,
    };
    let mut session = match Session::start_with_id("r".to_string(), "q", &config) {
        Ok(started) => started.session,
        Err(_) => panic!("the run did not start"),
    };
    let bad = "{\"type\":\"mystery\"}";
    let routed = session.handle_line(bad);
    assert_eq!(
        human().line(bad, &routed),
        vec![err("Warning: failed to parse response: unknown variant `mystery` (line: {\"type\":\"mystery\"})")]
    );
    assert_eq!(quiet().line(bad, &routed), vec![]);
    let broken = "{oops";
    let routed = session.handle_line(broken);
    let shown = human().line(broken, &routed);
    assert_eq!(shown.len(), 1);
    assert!(shown[0].text.starts_with("Warning: failed to parse response: "));
    assert!(shown[0].text.ends_with(" (line: {oops)"));
    let good = r#"{"type":"status","message":"fine"}"#;
    let routed = session.handle_line(good);
    assert_eq!(human().line(good, &routed), vec![err("\u{2192} fine")]);
    let silent = r#"{"type":"done","success":true}"#;
    let routed = session.handle_line(silent);
    assert_eq!(human().line(silent, &routed), vec![]);
}

#[test]
fn a_missing_query_is_an_error_with_usage() {
    assert_eq!(
        human().missing_query(),
        vec![err("Error [MISSING_QUERY]: query is required"), err("Usage: lode <query>")]
    );
    assert_eq!(
        json().missing_query(),
        vec![
            out(r#"{"type":"error","code":"MISSING_QUERY","message":"query is required"}"#),
            err("Usage: lode <query>"),
        ]
    );
}

#[test]
fn files_are_named_in_warnings_by_their_event() {
    assert_eq!(
        artifact_label(&Response::Prompt { agent: "a".to_string(), sequence: 0, content: "c".to_string() }),
        "prompt"
    );
    assert_eq!(
        artifact_label(&Response::AgentOutput {
            agent: "a".to_string(),
            sequence: 0,
            content: "c".to_string(),
            token_usage: None,
        }),
        "response"
    );
}

fn console_questions(count: usize) -> Vec<ClarifyingQuestion> {
    let mut out = Vec::new();
    for i in 0..count {
        out.push(ClarifyingQuestion { label: format!("L{}", i + 1), question: format!("Q{}?", i + 1) });
    }
    out
}

#[test]
fn the_console_reads_one_line_for_each_question() {
    for count in 0..5usize {
        let mut round = console_round(&console_questions(count));
        let mut read = 0;
        let answers = loop {
            match round {
                ConsoleRound::Answered(answers) => break answers,
                ConsoleRound::Asking(state) => {
                    assert_eq!(state.current_index, read);
                    assert_eq!(
                        console_prompt(&state),
                        format!("\n{}. [L{}] Q{}?", read + 1, read + 1, read + 1)
                    );
                    round = console_step(state, &format!("  answer {} \n", read + 1));
                    read += 1;
                }
            }
        };
        assert_eq!(read, count);
        let expected: Vec<String> = (1..=count).map(|i| format!("answer {}", i)).collect();
        assert_eq!(answers, expected);
    }
}

#[test]
fn a_console_round_without_questions_is_answered_at_once() {
    assert_eq!(console_round(&vec![]), ConsoleRound::Answered(vec![]));
}
