use lode::cli::load_config;
use lode::cli::Cli;
use lode::cli::Environment;
use lode::cli::RequestConfig;
use lode::protocol::DecodeError;
use lode::protocol::InterruptCommand;
use lode::protocol::Response;
use lode::session::exit_code;
use lode::session::interrupt_line;
use lode::session::Persist;
use lode::session::Session;
use lode::session::SessionError;
use lode::session::Started;

fn default_config() -> RequestConfig {
    let cli = Cli {
        query: vec![],
        model: None,
        search_count: None,
        max_iterations: None,
        max_searches: None,
        no_auto: false,
        json: false,
        quiet: false,
    };
    let env = Environment { model: None, search_count: None, max_iterations: None, max_searches: None };
    load_config(&cli, &env)
}

fn started(run_id: &str) -> Started {
    match Session::start_with_id(run_id.to_string(), "What is quantum computing?", &default_config()) {
        Ok(started) => started,
        Err(_) => panic!("the run did not start"),
    }
}

const QUESTIONS: &str = r#"{"type":"clarifying_questions","questions":[{"label":"Scope","question":"How broad?"},{"label":"Depth","question":"How deep?"}]}"#;

#[test]
fn a_run_starts_with_its_request() {
    let start = started("run-1");
    assert_eq!(
        start.directories,
        vec![
            "runs/run-1".to_string(),
            "runs/run-1/prompts".to_string(),
            "runs/run-1/raw_responses".to_string(),
        ]
    );
    assert_eq!(start.request_file.path, "runs/run-1/request.json");
    assert_eq!(
        start.request_file.content,
        "{\n  \"version\": \"v1\",\n  \"run_id\": \"run-1\",\n  \"query\": \"What is quantum computing?\",\n  \"config\": {\n    \"model\": \"gpt-4o\",\n    \"search_count\": 5,\n    \"max_iterations\": 10,\n    \"max_searches\": 15,\n    \"auto_decide\": true\n  }\n}"
    );
    assert_eq!(
        start.request_line,
        "{\"version\":\"v1\",\"run_id\":\"run-1\",\"query\":\"What is quantum computing?\",\"config\":{\"model\":\"gpt-4o\",\"search_count\":5,\"max_iterations\":10,\"max_searches\":15,\"auto_decide\":true}}\n"
    );
    let session = start.session;
    assert_eq!(session.run_id, "run-1");
    assert_eq!(session.ctx.run_dir, "runs/run-1");
    assert!(!session.success);
    assert!(!session.answers_sent);
    assert!(!session.round_resolved);
    assert!(!session.awaiting_answers);
    assert!(!session.finished);
}

#[test]
fn a_fresh_run_gets_a_new_identifier() {
    let first = match Session::start("q", &default_config()) {
        Ok(started) => started,
        Err(_) => panic!("the run did not start"),
    };
    let second = match Session::start("q", &default_config()) {
        Ok(started) => started,
        Err(_) => panic!("the run did not start"),
    };
    assert_eq!(first.session.run_id.len(), 36);
    assert_ne!(first.session.run_id, second.session.run_id);
    assert_eq!(
        first.request_file.path,
        format!("runs/{}/request.json", first.session.run_id)
    );
    assert!(first.request_line.contains(&first.session.run_id));
    assert!(first.request_line.ends_with("}\n"));
}

#[test]
fn a_whole_run_leaves_exactly_its_five_files() {
    let start = started("run-6");
    let mut written = vec![start.request_file.path.clone()];
    let mut session = start.session;
    let lines = [
        r#"{"type":"status","message":"Planning"}"#,
        r#"{"type":"trace","trace_id":"trace-1","trace_url":"https://trace/1"}"#,
        r#"{"type":"prompt","agent":"Planner","sequence":0,"content":"plan the research"}"#,
        r#"{"type":"raw_response","agent":"Planner","sequence":0,"content":"...","token_usage":{"prompt_tokens":120,"completion_tokens":40,"total_tokens":160}}"#,
        r##"{"type":"report","short_summary":"...","markdown_report":"# Quantum Computing\n...","follow_up_questions":[]}"##,
        r#"{"type":"metadata","model":"gpt-4o","total_tokens":160,"duration_ms":4200}"#,
        r#"{"type":"done","success":true}"#,
    ];
    let mut contents = Vec::new();
    for line in lines {
        let routed = session.handle_line(line);
        assert_eq!(routed.rejected, None);
        assert!(routed.forward.is_some());
        assert!(!routed.await_answers);
        if let Persist::Write(artifact) = routed.persist {
            written.push(artifact.path.clone());
            contents.push(artifact.content);
        }
    }
    let finished = session.finish_after(true, 4200);
    let output = finished.output.clone().unwrap();
    written.push(output.path.clone());
    let metadata = finished.metadata.clone().unwrap();
    written.push(metadata.path.clone());
    assert_eq!(
        written,
        vec![
            "runs/run-6/request.json".to_string(),
            "runs/run-6/prompts/000-planner.txt".to_string(),
            "runs/run-6/raw_responses/000-planner.json".to_string(),
            "runs/run-6/output.md".to_string(),
            "runs/run-6/metadata.json".to_string(),
        ]
    );
    assert_eq!(contents[0], "plan the research");
    assert_eq!(
        contents[1],
        "{\n  \"agent\": \"Planner\",\n  \"sequence\": 0,\n  \"content\": \"...\",\n  \"token_usage\": {\n    \"prompt_tokens\": 120,\n    \"completion_tokens\": 40,\n    \"total_tokens\": 160\n  }\n}"
    );
    assert_eq!(output.content, "# Quantum Computing\n...");
    assert_eq!(
        metadata.content,
        "{\n  \"run_id\": \"run-6\",\n  \"model\": \"gpt-4o\",\n  \"total_tokens\": 160,\n  \"duration_ms\": 4200,\n  \"trace_id\": \"trace-1\",\n  \"trace_url\": \"https://trace/1\"\n}"
    );
    assert!(finished.success);
    assert_eq!(finished.run_id, "run-6");
    assert_eq!(finished.duration_ms, 4200);
    assert_eq!(exit_code(finished.success, true), 0);
    assert!(session.finished);
}

#[test]
fn the_request_comes_before_every_other_file() {
    let start = started("run-2");
    let mut order = vec![start.request_file.path.clone()];
    let mut session = start.session;
    for line in [
        r#"{"type":"prompt","agent":"A","sequence":1,"content":"p"}"#,
        r#"{"type":"raw_response","agent":"A","sequence":1,"content":"r"}"#,
        r#"{"type":"report","short_summary":"s","markdown_report":"m","follow_up_questions":[]}"#,
    ] {
        if let Persist::Write(artifact) = session.handle_line(line).persist {
            order.push(artifact.path);
        }
    }
    let finished = session.finish_after(true, 1);
    order.push(finished.output.unwrap().path);
    order.push(finished.metadata.unwrap().path);
    assert_eq!(order[0], "runs/run-2/request.json");
    assert_eq!(order.iter().filter(|p| p.ends_with("request.json")).count(), 1);
    assert_eq!(order.len(), 5);
}

#[test]
fn bad_lines_are_rejected_once_each_and_the_run_goes_on() {
    let mut session = started("run-3").session;
    let lines = [
        ("not json at all", true),
        (r#"{"type":"status","message":"ok"}"#, false),
        (r#"{"type":"mystery"}"#, true),
        (r#"{"message":"no tag"}"#, true),
        ("", true),
        (r#"{"type":"done","success":true}"#, false),
        (r#"{"type":"done"}"#, true),
    ];
    let mut warnings = 0;
    for (line, bad) in lines {
        let routed = session.handle_line(line);
        assert_eq!(routed.rejected.is_some(), bad, "for {:?}", line);
        if bad {
            warnings += 1;
            assert_eq!(routed.forward, None);
            assert_eq!(routed.persist, Persist::Nothing);
            assert!(!routed.await_answers);
        }
    }
    assert_eq!(warnings, 5);
    assert!(session.success, "the line after the bad ones was still read");
    assert!(!session.finished);
    let routed = session.handle_line(r#"{"type":"mystery"}"#);
    assert_eq!(routed.rejected, Some(DecodeError::UnknownTag { tag: "mystery".to_string() }));
}

#[test]
fn a_bad_line_leaves_the_state_alone() {
    let mut session = started("run-4").session;
    session.handle_line(r#"{"type":"trace","trace_id":"t","trace_url":"u"}"#);
    session.handle_line(r#"{"type":"done","success":true}"#);
    session.handle_line("garbage");
    assert_eq!(session.ctx.trace_id, Some("t".to_string()));
    assert_eq!(session.ctx.trace_url, Some("u".to_string()));
    assert!(session.success);
    assert!(!session.awaiting_answers);
}

#[test]
fn events_update_what_the_run_knows() {
    let mut session = started("run-5").session;
    session.handle_line(r#"{"type":"metadata","model":"gpt-4o","total_tokens":9,"duration_ms":1}"#);
    assert_eq!(session.ctx.model, Some("gpt-4o".to_string()));
    assert_eq!(session.ctx.total_tokens, Some(9));
    session.handle_line(r#"{"type":"metadata","model":"other","duration_ms":1}"#);
    assert_eq!(session.ctx.model, Some("other".to_string()));
    assert_eq!(session.ctx.total_tokens, None);
    session.handle_line(r#"{"type":"report","short_summary":"s","markdown_report":"body","follow_up_questions":["q"]}"#);
    assert_eq!(session.ctx.markdown_report, Some("body".to_string()));
    session.handle_line(r#"{"type":"done","success":true}"#);
    assert!(session.success);
    session.handle_line(r#"{"type":"done","success":false}"#);
    assert!(!session.success);
    let routed = session.handle_line(r#"{"type":"error","message":"m","code":"C"}"#);
    assert_eq!(
        routed.forward,
        Some(Response::Error { message: "m".to_string(), code: Some("C".to_string()) })
    );
    assert!(!session.finished, "an error event alone does not end the run");
}

#[test]
fn questions_suspend_the_run_until_the_answers_come() {
    let mut session = started("run-7").session;
    let routed = session.handle_line(QUESTIONS);
    assert!(routed.await_answers);
    assert!(matches!(routed.forward, Some(Response::ClarifyingQuestions { .. })));
    assert!(session.awaiting_answers);
    let line = session.provide_answers(vec!["wide".to_string(), "deep".to_string()]);
    assert_eq!(line, Ok("{\"answers\":[\"wide\",\"deep\"]}\n".to_string()));
    assert!(session.answers_sent);
    assert!(!session.awaiting_answers);
}

#[test]
fn answers_are_taken_once_and_only_when_awaited() {
    let mut session = started("run-8").session;
    assert_eq!(session.provide_answers(vec!["early".to_string()]), Err(SessionError::NotAwaiting));
    assert!(!session.answers_sent);
    session.handle_line(QUESTIONS);
    assert!(session.provide_answers(vec!["a".to_string(), "b".to_string()]).is_ok());
    assert_eq!(
        session.provide_answers(vec!["a".to_string(), "b".to_string()]),
        Err(SessionError::NotAwaiting)
    );
}

#[test]
fn questions_after_the_answers_are_handed_on_but_not_awaited() {
    let mut session = started("run-9").session;
    session.handle_line(QUESTIONS);
    session.provide_answers(vec!["a".to_string(), "b".to_string()]).unwrap();
    assert!(session.round_resolved);
    let routed = session.handle_line(QUESTIONS);
    assert_eq!(routed.rejected, None);
    assert!(matches!(routed.forward, Some(Response::ClarifyingQuestions { .. })));
    assert!(!routed.await_answers);
    assert_eq!(routed.persist, Persist::Nothing);
    assert!(!session.awaiting_answers);
    assert_eq!(
        session.provide_answers(vec!["a".to_string(), "b".to_string()]),
        Err(SessionError::NotAwaiting)
    );
}

#[test]
fn every_event_is_handed_on_in_the_order_of_arrival() {
    let mut session = started("run-17").session;
    let lines = [
        r#"{"type":"status","message":"one"}"#,
        QUESTIONS,
        r#"{"type":"prompt","agent":"A","sequence":1,"content":"p"}"#,
        "garbage",
        r#"{"type":"metadata","model":"m","duration_ms":1}"#,
        r#"{"type":"done","success":true}"#,
    ];
    let mut handed_on = Vec::new();
    for line in lines {
        let routed = session.handle_line(line);
        if routed.await_answers {
            session.provide_answers(vec!["a".to_string(), "b".to_string()]).unwrap();
        }
        if let Some(response) = routed.forward {
            handed_on.push(response);
        }
    }
    assert_eq!(handed_on.len(), 5);
    assert!(matches!(handed_on[0], Response::Status { .. }));
    assert!(matches!(handed_on[1], Response::ClarifyingQuestions { .. }));
    assert!(matches!(handed_on[2], Response::Prompt { .. }));
    assert!(matches!(handed_on[3], Response::Metadata { .. }));
    assert!(matches!(handed_on[4], Response::Done { .. }));
}

#[test]
fn a_round_that_was_cancelled_is_not_opened_again() {
    let mut session = started("run-18").session;
    session.handle_line(QUESTIONS);
    assert!(session.cancel_answers().is_some());
    assert!(session.round_resolved);
    assert!(!session.answers_sent);
    let routed = session.handle_line(QUESTIONS);
    assert!(!routed.await_answers);
    assert!(routed.forward.is_some());
    assert!(!session.awaiting_answers);
}

#[test]
fn answers_that_are_awaited_are_always_taken() {
    for answers in [vec![], vec!["".to_string()], vec!["a \"quoted\"\nline".to_string(), "b".to_string()]] {
        let mut session = started("run-19").session;
        session.handle_line(QUESTIONS);
        let line = session.provide_answers(answers.clone()).unwrap();
        assert!(line.ends_with("}\n"));
        assert_eq!(line.matches('\n').count(), 1);
        assert!(line.starts_with("{\"answers\":["));
        assert!(session.answers_sent);
    }
}

#[test]
fn cancelling_sends_a_stop_and_never_the_answers() {
    let mut session = started("run-10").session;
    session.handle_line(QUESTIONS);
    let told = session.cancel_answers();
    assert_eq!(told, Some("{\"type\":\"interrupt\",\"command\":\"stop\"}\n".to_string()));
    assert!(!session.answers_sent);
    assert!(!session.awaiting_answers);
    assert_eq!(
        session.provide_answers(vec!["a".to_string(), "b".to_string()]),
        Err(SessionError::NotAwaiting)
    );
    assert_eq!(session.cancel_answers(), None);
    let finished = session.finish_after(false, 10);
    assert!(!finished.success);
    assert_eq!(finished.output, None);
    assert_eq!(exit_code(finished.success, false), 1);
}

#[test]
fn abandoned_answers_end_the_run_with_their_own_error() {
    let mut session = started("run-11").session;
    session.handle_line(QUESTIONS);
    let error = session.abandon_answers();
    assert_eq!(error, SessionError::AnswersAbandoned);
    assert_eq!(error.message(), "Failed to receive clarifying answers");
    assert!(session.finished);
    assert!(!session.awaiting_answers);
    assert_eq!(session.interrupt(InterruptCommand::Stop), None);
    assert_eq!(session.provide_answers(vec![]), Err(SessionError::NotAwaiting));
}

#[test]
fn errors_have_messages() {
    assert_eq!(SessionError::NotAwaiting.message(), "No clarifying answers are awaited");
    assert_eq!(SessionError::Encode { message: "why".to_string() }.message(), "why");
}

#[test]
fn interrupts_reach_only_a_run_that_is_not_over() {
    let mut session = started("run-12").session;
    assert_eq!(
        session.interrupt(InterruptCommand::Stop),
        Some("{\"type\":\"interrupt\",\"command\":\"stop\"}\n".to_string())
    );
    assert_eq!(
        session.interrupt(InterruptCommand::Pause),
        Some("{\"type\":\"interrupt\",\"command\":\"pause\"}\n".to_string())
    );
    session.finish_after(true, 5);
    assert_eq!(session.interrupt(InterruptCommand::Stop), None);
    assert_eq!(
        interrupt_line(InterruptCommand::ForceWrite),
        "{\"type\":\"interrupt\",\"command\":\"force_write\"}\n"
    );
}

#[test]
fn success_needs_the_worker_and_its_exit_status() {
    for (reported, exit_ok, expected) in
        [(true, true, true), (true, false, false), (false, true, false), (false, false, false)]
    {
        let mut session = started("run-13").session;
        if reported {
            session.handle_line(r#"{"type":"done","success":true}"#);
        }
        let finished = session.finish_after(exit_ok, 3);
        assert_eq!(finished.success, expected);
    }
    assert_eq!(exit_code(true, true), 0);
    assert_eq!(exit_code(true, false), 1);
    assert_eq!(exit_code(false, true), 1);
    assert_eq!(exit_code(false, false), 1);
}

#[test]
fn a_run_without_a_report_writes_no_output_file() {
    let mut session = started("run-14").session;
    let finished = session.finish_after(true, 12);
    assert_eq!(finished.output, None);
    let metadata = finished.metadata.unwrap();
    assert_eq!(metadata.path, "runs/run-14/metadata.json");
    assert_eq!(
        metadata.content,
        "{\n  \"run_id\": \"run-14\",\n  \"model\": null,\n  \"total_tokens\": null,\n  \"duration_ms\": 12,\n  \"trace_id\": null,\n  \"trace_url\": null\n}"
    );
}

#[test]
fn finishing_now_measures_the_time() {
    let mut session = started("run-15").session;
    let finished = session.finish(true);
    assert!(finished.duration_ms < 60_000);
    let metadata = finished.metadata.unwrap();
    assert!(metadata.content.contains(&format!("\"duration_ms\": {}", finished.duration_ms)));
}

#[test]
fn handle_response_takes_an_event_directly() {
    let mut session = started("run-16").session;
    let routed = session.handle_response(Response::Prompt {
        agent: "Web Searcher".to_string(),
        sequence: 12,
        content: "find".to_string(),
    });
    match routed.persist {
        Persist::Write(artifact) => {
            assert_eq!(artifact.path, "runs/run-16/prompts/012-web searcher.txt");
            assert_eq!(artifact.content, "find");
        }
        other => panic!("unexpected {:?}", other),
    }
    assert!(matches!(routed.forward, Some(Response::Prompt { .. })));
}

#[test]
fn a_run_can_be_tested_for_its_directory() {
    let mut session = started("run-20").session;
    assert!(session.well_formed());
    session.handle_line(r#"{"type":"done","success":true}"#);
    assert!(session.well_formed());
    session.ctx.run_dir = "elsewhere".to_string();
    assert!(!session.well_formed());
}

#[test]
fn a_run_starts_whatever_the_query_holds() {
    for query in ["", "plain", "with \"quotes\" and \\ and \n", "\u{1F600} \u{0}"] {
        match Session::start(query, &default_config()) {
            Ok(started) => {
                assert!(started.session.well_formed());
                assert!(started.request_line.ends_with("}\n"));
            }
            Err(_) => panic!("the run did not start for {:?}", query),
        }
    }
}
