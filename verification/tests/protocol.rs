use lode::cli::RequestConfig;
use lode::json::Json;
use lode::protocol::decode_line;
use lode::protocol::decode_response;
use lode::protocol::ClarifyingAnswers;
use lode::protocol::ClarifyingQuestion;
use lode::protocol::DecodeError;
use lode::protocol::Interrupt;
use lode::protocol::InterruptCommand;
use lode::protocol::Request;
use lode::protocol::Response;
use lode::protocol::RunMetadata;
use lode::protocol::TokenUsage;

fn sample_config() -> RequestConfig {
    RequestConfig {
        model: "gpt-4o".to_string(),
        search_count: 5,
        max_iterations: 10,
        max_searches: 15,
        auto_decide: true,
    }
}

fn sample_request() -> Request {
    Request {
        version: "v1",
        run_id: "run-1".to_string(),
        query: "What is quantum computing?".to_string(),
        config: sample_config(),
    }
}

#[test]
fn interrupt_new_sets_the_message_type() {
    let interrupt = Interrupt::new(InterruptCommand::Stop);
    assert_eq!(interrupt.msg_type, "interrupt");
    assert_eq!(interrupt.command, InterruptCommand::Stop);
}

#[test]
fn interrupt_to_json_is_one_line_with_type_then_command() {
    assert_eq!(
        Interrupt::new(InterruptCommand::Stop).to_json(),
        r#"{"type":"interrupt","command":"stop"}"#
    );
    assert_eq!(
        Interrupt::new(InterruptCommand::Pause).to_json(),
        r#"{"type":"interrupt","command":"pause"}"#
    );
    assert_eq!(
        Interrupt::new(InterruptCommand::ForceWrite).to_json(),
        r#"{"type":"interrupt","command":"force_write"}"#
    );
}

#[test]
fn command_names_are_snake_case() {
    assert_eq!(InterruptCommand::Stop.name(), "stop");
    assert_eq!(InterruptCommand::Pause.name(), "pause");
    assert_eq!(InterruptCommand::ForceWrite.name(), "force_write");
}

#[test]
fn request_is_written_in_field_order() {
    let text = sample_request().to_json().to_text().unwrap();
    assert_eq!(
        text,
        concat_all(&[
            r#"{"version":"v1","run_id":"run-1","query":"What is quantum computing?","#,
            r#""config":{"model":"gpt-4o","search_count":5,"max_iterations":10,"#,
            r#""max_searches":15,"auto_decide":true}}"#,
        ])
    );
}

fn concat_all(parts: &[&str]) -> String {
    let mut out = String::new();
    for part in parts {
        out.push_str(part);
    }
    out
}

#[test]
fn request_text_escapes_quotes_and_line_feeds() {
    let mut request = sample_request();
    request.query = "say \"hi\"\nnow".to_string();
    let text = request.to_json().to_text().unwrap();
    assert!(text.contains(r#""query":"say \"hi\"\nnow""#));
    assert!(!text.contains('\n'));
}

#[test]
fn request_round_trips_through_text() {
    let request = sample_request();
    let text = request.to_json().to_text().unwrap();
    let document = Json::parse(&text).unwrap();
    let decoded = Request::from_json(&document).unwrap();
    assert_eq!(decoded, request);
    let again = decoded.to_json().to_text().unwrap();
    assert_eq!(again, text);
    let decoded_again = Request::from_json(&Json::parse(&again).unwrap()).unwrap();
    assert_eq!(decoded_again, decoded);
}

#[test]
fn request_of_another_version_is_not_read() {
    let document = Json::parse(
        r#"{"version":"v2","run_id":"r","query":"q","config":{"model":"m","search_count":1,"max_iterations":2,"max_searches":3,"auto_decide":false}}"#,
    )
    .unwrap();
    assert_eq!(Request::from_json(&document), None);
}

#[test]
fn request_without_config_is_not_read() {
    let document = Json::parse(r#"{"version":"v1","run_id":"r","query":"q"}"#).unwrap();
    assert_eq!(Request::from_json(&document), None);
}

#[test]
fn config_round_trips_through_a_document() {
    let config = sample_config();
    assert_eq!(RequestConfig::from_json(&config.to_json()), Some(sample_config()));
}

#[test]
fn answers_are_written_as_a_list() {
    let answers = ClarifyingAnswers { answers: vec!["yes".to_string(), "last 5 years".to_string()] };
    assert_eq!(
        answers.to_json().to_text().unwrap(),
        r#"{"answers":["yes","last 5 years"]}"#
    );
    let none = ClarifyingAnswers { answers: vec![] };
    assert_eq!(none.to_json().to_text().unwrap(), r#"{"answers":[]}"#);
}

#[test]
fn token_usage_is_written_with_three_counts() {
    let usage = TokenUsage { prompt_tokens: 120, completion_tokens: 40, total_tokens: 160 };
    assert_eq!(
        usage.to_json().to_text().unwrap(),
        r#"{"prompt_tokens":120,"completion_tokens":40,"total_tokens":160}"#
    );
}

#[test]
fn metadata_writes_missing_fields_as_null() {
    let metadata = RunMetadata {
        run_id: "run-1".to_string(),
        model: None,
        total_tokens: None,
        duration_ms: 7,
        trace_id: None,
        trace_url: None,
    };
    assert_eq!(
        metadata.to_json().to_text().unwrap(),
        r#"{"run_id":"run-1","model":null,"total_tokens":null,"duration_ms":7,"trace_id":null,"trace_url":null}"#
    );
}

#[test]
fn decodes_status() {
    assert_eq!(
        decode_line(r#"{"type":"status","message":"Planning"}"#),
        Ok(Response::Status { message: "Planning".to_string() })
    );
}

#[test]
fn decodes_trace() {
    assert_eq!(
        decode_line(r#"{"type":"trace","trace_id":"abc","trace_url":"https://t/abc"}"#),
        Ok(Response::Trace { trace_id: "abc".to_string(), trace_url: "https://t/abc".to_string() })
    );
}

#[test]
fn decodes_clarifying_questions() {
    let line = r#"{"type":"clarifying_questions","questions":[{"label":"Scope","question":"How broad?"},{"label":"Depth","question":"How deep?"}]}"#;
    assert_eq!(
        decode_line(line),
        Ok(Response::ClarifyingQuestions {
            questions: vec![
                ClarifyingQuestion { label: "Scope".to_string(), question: "How broad?".to_string() },
                ClarifyingQuestion { label: "Depth".to_string(), question: "How deep?".to_string() },
            ],
        })
    );
}

#[test]
fn decodes_clarifying_questions_without_any_question() {
    assert_eq!(
        decode_line(r#"{"type":"clarifying_questions","questions":[]}"#),
        Ok(Response::ClarifyingQuestions { questions: vec![] })
    );
}

#[test]
fn decodes_prompt() {
    assert_eq!(
        decode_line(r#"{"type":"prompt","agent":"Planner","sequence":0,"content":"plan it"}"#),
        Ok(Response::Prompt {
            agent: "Planner".to_string(),
            sequence: 0,
            content: "plan it".to_string(),
        })
    );
}

#[test]
fn decodes_raw_response_with_and_without_token_usage() {
    let with = r#"{"type":"raw_response","agent":"Planner","sequence":3,"content":"...","token_usage":{"prompt_tokens":120,"completion_tokens":40,"total_tokens":160}}"#;
    assert_eq!(
        decode_line(with),
        Ok(Response::AgentOutput {
            agent: "Planner".to_string(),
            sequence: 3,
            content: "...".to_string(),
            token_usage: Some(TokenUsage {
                prompt_tokens: 120,
                completion_tokens: 40,
                total_tokens: 160,
            }),
        })
    );
    let without = r#"{"type":"raw_response","agent":"Planner","sequence":3,"content":"..."}"#;
    assert_eq!(
        decode_line(without),
        Ok(Response::AgentOutput {
            agent: "Planner".to_string(),
            sequence: 3,
            content: "...".to_string(),
            token_usage: None,
        })
    );
    let null = r#"{"type":"raw_response","agent":"Planner","sequence":3,"content":"...","token_usage":null}"#;
    assert_eq!(
        decode_line(null),
        Ok(Response::AgentOutput {
            agent: "Planner".to_string(),
            sequence: 3,
            content: "...".to_string(),
            token_usage: None,
        })
    );
}

#[test]
fn decodes_decision() {
    let line = r#"{"type":"decision","action":"search","reason":"need more","remaining_searches":4,"remaining_iterations":9}"#;
    assert_eq!(
        decode_line(line),
        Ok(Response::Decision {
            action: "search".to_string(),
            reason: "need more".to_string(),
            remaining_searches: 4,
            remaining_iterations: 9,
        })
    );
}

#[test]
fn decodes_report() {
    let line = r##"{"type":"report","short_summary":"s","markdown_report":"# Title\nbody","follow_up_questions":["a?","b?"]}"##;
    assert_eq!(
        decode_line(line),
        Ok(Response::Report {
            short_summary: "s".to_string(),
            markdown_report: "# Title\nbody".to_string(),
            follow_up_questions: vec!["a?".to_string(), "b?".to_string()],
        })
    );
}

#[test]
fn decodes_metadata() {
    assert_eq!(
        decode_line(r#"{"type":"metadata","model":"gpt-4o","total_tokens":160,"duration_ms":4200}"#),
        Ok(Response::Metadata {
            model: "gpt-4o".to_string(),
            total_tokens: Some(160),
            duration_ms: 4200,
        })
    );
    assert_eq!(
        decode_line(r#"{"type":"metadata","model":"gpt-4o","duration_ms":18446744073709551615}"#),
        Ok(Response::Metadata {
            model: "gpt-4o".to_string(),
            total_tokens: None,
            duration_ms: u64::MAX,
        })
    );
}

#[test]
fn decodes_error_with_and_without_code() {
    assert_eq!(
        decode_line(r#"{"type":"error","message":"boom","code":"E1"}"#),
        Ok(Response::Error { message: "boom".to_string(), code: Some("E1".to_string()) })
    );
    assert_eq!(
        decode_line(r#"{"type":"error","message":"boom"}"#),
        Ok(Response::Error { message: "boom".to_string(), code: None })
    );
}

#[test]
fn decodes_done() {
    assert_eq!(decode_line(r#"{"type":"done","success":true}"#), Ok(Response::Done { success: true }));
    assert_eq!(
        decode_line(r#"{"type":"done","success":false}"#),
        Ok(Response::Done { success: false })
    );
}

#[test]
fn unknown_fields_are_ignored() {
    assert_eq!(
        decode_line(r#"{"extra":[1,-2.5,{"x":null}],"type":"done","success":true,"more":"x"}"#),
        Ok(Response::Done { success: true })
    );
}

#[test]
fn a_line_that_is_no_json_is_a_syntax_error() {
    assert!(matches!(decode_line("not json"), Err(DecodeError::Syntax { .. })));
    assert!(matches!(decode_line(""), Err(DecodeError::Syntax { .. })));
    assert!(matches!(decode_line(r#"{"type":"done","success":true"#), Err(DecodeError::Syntax { .. })));
    assert!(matches!(
        decode_line(r#"{"type":"done","success":true} trailing"#),
        Err(DecodeError::Syntax { .. })
    ));
}

#[test]
fn a_document_without_a_text_tag_has_no_tag() {
    assert_eq!(decode_line(r#"{"message":"hi"}"#), Err(DecodeError::MissingTag));
    assert_eq!(decode_line(r#"{"type":5}"#), Err(DecodeError::MissingTag));
    assert_eq!(decode_line(r#"["status","hi"]"#), Err(DecodeError::MissingTag));
    assert_eq!(decode_line("42"), Err(DecodeError::MissingTag));
}

#[test]
fn an_unknown_tag_is_reported_with_the_tag() {
    assert_eq!(
        decode_line(r#"{"type":"telemetry","x":1}"#),
        Err(DecodeError::UnknownTag { tag: "telemetry".to_string() })
    );
    assert_eq!(
        decode_line(r#"{"type":"Status","message":"hi"}"#),
        Err(DecodeError::UnknownTag { tag: "Status".to_string() })
    );
}

#[test]
fn missing_or_mistyped_fields_are_invalid() {
    assert_eq!(
        decode_line(r#"{"type":"status"}"#),
        Err(DecodeError::InvalidFields { tag: "status".to_string() })
    );
    assert_eq!(
        decode_line(r#"{"type":"status","message":7}"#),
        Err(DecodeError::InvalidFields { tag: "status".to_string() })
    );
    assert_eq!(
        decode_line(r#"{"type":"prompt","agent":"A","sequence":-1,"content":"c"}"#),
        Err(DecodeError::InvalidFields { tag: "prompt".to_string() })
    );
    assert_eq!(
        decode_line(r#"{"type":"prompt","agent":"A","sequence":1.5,"content":"c"}"#),
        Err(DecodeError::InvalidFields { tag: "prompt".to_string() })
    );
    assert_eq!(
        decode_line(r#"{"type":"prompt","agent":"A","sequence":4294967296,"content":"c"}"#),
        Err(DecodeError::InvalidFields { tag: "prompt".to_string() })
    );
    assert_eq!(
        decode_line(r#"{"type":"done","success":"yes"}"#),
        Err(DecodeError::InvalidFields { tag: "done".to_string() })
    );
    assert_eq!(
        decode_line(r#"{"type":"error","message":"m","code":5}"#),
        Err(DecodeError::InvalidFields { tag: "error".to_string() })
    );
    assert_eq!(
        decode_line(r#"{"type":"raw_response","agent":"A","sequence":1,"content":"c","token_usage":{"prompt_tokens":1}}"#),
        Err(DecodeError::InvalidFields { tag: "raw_response".to_string() })
    );
    assert_eq!(
        decode_line(r#"{"type":"clarifying_questions","questions":[{"label":"L"}]}"#),
        Err(DecodeError::InvalidFields { tag: "clarifying_questions".to_string() })
    );
    assert_eq!(
        decode_line(r#"{"type":"report","short_summary":"s","markdown_report":"m","follow_up_questions":[1]}"#),
        Err(DecodeError::InvalidFields { tag: "report".to_string() })
    );
}

#[test]
fn the_largest_sequence_number_is_accepted() {
    assert_eq!(
        decode_line(r#"{"type":"prompt","agent":"A","sequence":4294967295,"content":"c"}"#),
        Ok(Response::Prompt { agent: "A".to_string(), sequence: u32::MAX, content: "c".to_string() })
    );
}

#[test]
fn decode_response_works_on_a_document_built_by_hand() {
    let document = Json::Record(vec![
        ("type".to_string(), Json::Text("status".to_string())),
        ("message".to_string(), Json::Text("hello".to_string())),
    ]);
    assert_eq!(decode_response(&document), Ok(Response::Status { message: "hello".to_string() }));
    let first_wins = Json::Record(vec![
        ("type".to_string(), Json::Text("done".to_string())),
        ("success".to_string(), Json::Bool(true)),
        ("success".to_string(), Json::Bool(false)),
    ]);
    assert_eq!(decode_response(&first_wins), Ok(Response::Done { success: true }));
    assert_eq!(decode_response(&Json::Null), Err(DecodeError::MissingTag));
}

#[test]
fn json_parse_keeps_what_the_protocol_needs() {
    assert_eq!(Json::parse("null"), Ok(Json::Null));
    assert_eq!(Json::parse("true"), Ok(Json::Bool(true)));
    assert_eq!(Json::parse("17"), Ok(Json::Integer(17)));
    assert_eq!(Json::parse("-17"), Ok(Json::OtherNumber));
    assert_eq!(Json::parse("1.5"), Ok(Json::OtherNumber));
    assert_eq!(Json::parse(r#""aé""#), Ok(Json::Text("a\u{e9}".to_string())));
    assert_eq!(
        Json::parse(r#"[1,{"b":[],"a":null}]"#),
        Ok(Json::List(vec![
            Json::Integer(1),
            Json::Record(vec![
                ("b".to_string(), Json::List(vec![])),
                ("a".to_string(), Json::Null),
            ]),
        ]))
    );
    assert!(Json::parse("{").is_err());
    assert!(!Json::parse("{").unwrap_err().message.is_empty());
}

#[test]
fn json_get_finds_fields_of_records_only() {
    let document = Json::parse(r#"{"a":1,"b":"x"}"#).unwrap();
    assert_eq!(document.get("a"), Some(&Json::Integer(1)));
    assert_eq!(document.get("b"), Some(&Json::Text("x".to_string())));
    assert_eq!(document.get("c"), None);
    assert_eq!(Json::Integer(1).get("a"), None);
    assert_eq!(document.text_at("b"), Some("x".to_string()));
    assert_eq!(document.text_at("a"), None);
    assert_eq!(document.u32_at("a"), Some(1));
    assert_eq!(document.u64_at("a"), Some(1));
    assert_eq!(document.bool_at("a"), None);
}

#[test]
fn json_pretty_text_is_indented_by_two_spaces() {
    let document = Json::Record(vec![
        ("a".to_string(), Json::Integer(1)),
        ("b".to_string(), Json::List(vec![Json::Text("x".to_string()), Json::Null])),
        ("c".to_string(), Json::Record(vec![])),
    ]);
    assert_eq!(
        document.to_pretty_text().unwrap(),
        "{\n  \"a\": 1,\n  \"b\": [\n    \"x\",\n    null\n  ],\n  \"c\": {}\n}"
    );
    assert_eq!(document.to_text().unwrap(), r#"{"a":1,"b":["x",null],"c":{}}"#);
}
