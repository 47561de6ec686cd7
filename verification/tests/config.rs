use lode::cli::load_config;
use lode::cli::parse_u32;
use lode::cli::single_query_text;
use lode::cli::Cli;
use lode::cli::Environment;
use lode::cli::DEFAULT_MAX_ITERATIONS;
use lode::cli::DEFAULT_MAX_SEARCHES;
use lode::cli::DEFAULT_MODEL;
use lode::cli::DEFAULT_SEARCH_COUNT;

fn no_flags() -> Cli {
    Cli {
        query: vec![],
        model: None,
        search_count: None,
        max_iterations: None,
        max_searches: None,
        no_auto: false,
        json: false,
        quiet: false,
    }
}

fn no_environment() -> Environment {
    Environment { model: None, search_count: None, max_iterations: None, max_searches: None }
}

#[test]
fn defaults_apply_where_nothing_is_given() {
    let config = load_config(&no_flags(), &no_environment());
    assert_eq!(config.model, "gpt-4o");
    assert_eq!(config.search_count, 5);
    assert_eq!(config.max_iterations, 10);
    assert_eq!(config.max_searches, 15);
    assert!(config.auto_decide);
    assert_eq!(DEFAULT_MODEL, "gpt-4o");
    assert_eq!(DEFAULT_SEARCH_COUNT, 5);
    assert_eq!(DEFAULT_MAX_ITERATIONS, 10);
    assert_eq!(DEFAULT_MAX_SEARCHES, 15);
}

#[test]
fn the_environment_overrides_the_defaults() {
    let env = Environment {
        model: Some("o3".to_string()),
        search_count: Some("7".to_string()),
        max_iterations: Some("+20".to_string()),
        max_searches: Some("0030".to_string()),
    };
    let config = load_config(&no_flags(), &env);
    assert_eq!(config.model, "o3");
    assert_eq!(config.search_count, 7);
    assert_eq!(config.max_iterations, 20);
    assert_eq!(config.max_searches, 30);
}

#[test]
fn flags_override_the_environment() {
    let mut cli = no_flags();
    cli.model = Some("flag-model".to_string());
    cli.search_count = Some(1);
    cli.max_iterations = Some(2);
    cli.max_searches = Some(3);
    cli.no_auto = true;
    let env = Environment {
        model: Some("env-model".to_string()),
        search_count: Some("7".to_string()),
        max_iterations: Some("8".to_string()),
        max_searches: Some("9".to_string()),
    };
    let config = load_config(&cli, &env);
    assert_eq!(config.model, "flag-model");
    assert_eq!(config.search_count, 1);
    assert_eq!(config.max_iterations, 2);
    assert_eq!(config.max_searches, 3);
    assert!(!config.auto_decide);
}

#[test]
fn a_variable_that_is_no_number_falls_back_to_the_default() {
    for bad in ["", "abc", "-1", "1.5", " 7", "7 ", "+", "4294967296", "1_000", "0x10"] {
        let env = Environment {
            model: None,
            search_count: Some(bad.to_string()),
            max_iterations: Some(bad.to_string()),
            max_searches: Some(bad.to_string()),
        };
        let config = load_config(&no_flags(), &env);
        assert_eq!(config.search_count, 5, "for {:?}", bad);
        assert_eq!(config.max_iterations, 10, "for {:?}", bad);
        assert_eq!(config.max_searches, 15, "for {:?}", bad);
    }
}

#[test]
fn the_largest_number_is_read() {
    let env = Environment {
        model: None,
        search_count: Some("4294967295".to_string()),
        max_iterations: None,
        max_searches: None,
    };
    assert_eq!(load_config(&no_flags(), &env).search_count, u32::MAX);
}

#[test]
fn a_query_or_an_output_flag_asks_for_a_single_query() {
    assert!(!no_flags().single_query());
    let mut cli = no_flags();
    cli.json = true;
    assert!(cli.single_query());
    let mut cli = no_flags();
    cli.quiet = true;
    assert!(cli.single_query());
    let mut cli = no_flags();
    cli.query = vec!["why".to_string()];
    assert!(cli.single_query());
}

#[test]
fn the_query_is_its_words_joined_by_spaces() {
    let mut cli = no_flags();
    assert_eq!(cli.query_text(), "");
    cli.query = vec!["What".to_string(), "is".to_string(), "quantum".to_string(), "computing?".to_string()];
    assert_eq!(cli.query_text(), "What is quantum computing?");
}

#[test]
fn numbers_are_read_as_the_standard_library_reads_them() {
    for text in [
        "0", "7", "+7", "007", "4294967295", "4294967296", "99999999999999999999", "", "+", "-", "-0",
        "+-1", "++1", "1+", " 1", "1 ", "1e3", "0x1f", "\u{661}", "12a", "+0",
    ] {
        let env = Environment {
            model: None,
            search_count: Some(text.to_string()),
            max_iterations: None,
            max_searches: None,
        };
        let expected = text.parse::<u32>().unwrap_or(DEFAULT_SEARCH_COUNT);
        assert_eq!(load_config(&no_flags(), &env).search_count, expected, "for {:?}", text);
    }
}

#[test]
fn parsing_agrees_with_the_standard_library() {
    for text in [
        "0", "7", "+7", "007", "4294967295", "4294967296", "42949672950", "99999999999999999999",
        "340282366920938463463374607431768211456", "", "+", "-", "-0", "+-1", "++1", "1+", " 1",
        "1 ", "1e3", "0x1f", "\u{661}", "12a", "+0", "00000000000000000000000000000000000001",
        "+4294967295", "+4294967296",
    ] {
        assert_eq!(parse_u32(text), text.parse::<u32>().ok(), "for {:?}", text);
    }
    assert_eq!(parse_u32("123"), Some(123));
    assert_eq!(parse_u32("+123"), Some(123));
    assert_eq!(parse_u32("4294967296"), None);
    assert_eq!(parse_u32("12 3"), None);
}

#[test]
fn without_a_query_no_run_is_started() {
    let mut cli = no_flags();
    assert_eq!(single_query_text(&cli), None);
    cli.query = vec!["".to_string()];
    assert_eq!(single_query_text(&cli), None);
    cli.query = vec!["".to_string(), "".to_string()];
    assert_eq!(single_query_text(&cli), Some(" ".to_string()));
    cli.query = vec!["why".to_string(), "not".to_string()];
    assert_eq!(single_query_text(&cli), Some("why not".to_string()));
}
