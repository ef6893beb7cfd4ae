use lru_cache_tester::assertions::{
    pattern_failure_text, verdict_of_searches, walk_responses, Assertion, ExactMatchAssertion,
    LineVerdict, RegexMatchAssertion,
};
use lru_cache_tester::error::TesterError;
use lru_cache_tester::logger::{LogEntry, LogLevel, Logger};

fn create_test_logger() -> Logger {
    Logger::new()
}

fn strings(items: &[&str]) -> Vec<String> {
    items.iter().map(|s| s.to_string()).collect()
}

fn line(level: LogLevel, text: &str) -> LogEntry {
    LogEntry::Message { level, text: text.to_string() }
}

#[test]
fn test_exact_match_success() {
    let assertion = ExactMatchAssertion::new(vec!["OK".to_string(), "1".to_string()]);
    let actual = vec!["OK".to_string(), "1".to_string()];
    let mut logger = create_test_logger();

    let result = assertion.verify(&actual, &mut logger);
    assert!(result.is_ok());
}

#[test]
fn test_exact_match_mismatch() {
    let assertion = ExactMatchAssertion::new(vec!["OK".to_string(), "1".to_string()]);
    let actual = vec!["OK".to_string(), "2".to_string()];
    let mut logger = create_test_logger();

    let result = assertion.verify(&actual, &mut logger);
    assert!(result.is_err());
    assert!(result.unwrap_err().to_string().contains("Response #2 mismatch"));
}

#[test]
fn test_exact_match_missing_response() {
    let assertion = ExactMatchAssertion::new(vec!["OK".to_string(), "1".to_string()]);
    let actual = vec!["OK".to_string()];
    let mut logger = create_test_logger();

    let result = assertion.verify(&actual, &mut logger);
    assert!(result.is_err());
    assert!(result.unwrap_err().to_string().contains("didn't receive enough responses"));
}

#[test]
fn test_exact_match_extra_response() {
    let assertion = ExactMatchAssertion::new(vec!["OK".to_string()]);
    let actual = vec!["OK".to_string(), "EXTRA".to_string()];
    let mut logger = create_test_logger();

    let result = assertion.verify(&actual, &mut logger);
    assert!(result.is_err());
    assert!(result.unwrap_err().to_string().contains("extra response"));
}

#[test]
fn test_exact_match_with_commands() {
    let assertion = ExactMatchAssertion::new(vec!["OK".to_string()])
        .with_commands(vec!["INIT 5".to_string()]);
    let actual = vec!["OK".to_string()];
    let mut logger = create_test_logger();

    let result = assertion.verify(&actual, &mut logger);
    assert!(result.is_ok());
}

#[test]
fn success_logs_one_summary_line() {
    let assertion = ExactMatchAssertion::new(strings(&["OK", "OK", "1"]))
        .with_commands(strings(&["INIT 5", "PUT a 1", "GET a"]));
    let mut logger = Logger::new();
    let result = assertion.verify(&strings(&["OK", "OK", "1"]), &mut logger);
    assert_eq!(result, Ok(()));
    assert_eq!(logger.entries(), &vec![line(LogLevel::Success, "✓ 3 response(s) match")]);
}

#[test]
fn fifo_eviction_scenario_passes() {
    let commands = ["INIT 2", "PUT a 1", "PUT b 2", "PUT c 3", "GET a", "GET b", "GET c"];
    let expected = ["OK", "OK", "OK", "OK", "NULL", "2", "3"];
    let assertion =
        ExactMatchAssertion::new(strings(&expected)).with_commands(strings(&commands));
    let mut logger = Logger::new();
    assert_eq!(assertion.verify(&strings(&expected), &mut logger), Ok(()));
    assert_eq!(logger.entries(), &vec![line(LogLevel::Success, "✓ 7 response(s) match")]);
}

#[test]
fn extra_response_scenario_names_the_extra_line() {
    let assertion = ExactMatchAssertion::new(strings(&["OK"]))
        .with_commands(strings(&["INIT 5", "PUT a 1"]));
    let mut logger = Logger::new();
    let result = assertion.verify(&strings(&["OK", "EXTRA"]), &mut logger);
    assert_eq!(
        result,
        Err(TesterError::User(
            "Expected 1 response(s), but got 2 (extra response: 'EXTRA')".to_string()
        ))
    );
    assert_eq!(
        logger.entries(),
        &vec![line(LogLevel::Success, "✓ OK (INIT 5)"), line(LogLevel::Error, "! EXTRA")]
    );
}

#[test]
fn missing_response_scenario_reports_one_received() {
    let assertion = ExactMatchAssertion::new(strings(&["OK", "1"]));
    let mut logger = Logger::new();
    let result = assertion.verify(&strings(&["OK"]), &mut logger);
    assert_eq!(
        result,
        Err(TesterError::User(
            "Expected response #2 to be '1', but didn't receive enough responses (got 1 response(s))"
                .to_string()
        ))
    );
    assert_eq!(
        logger.entries(),
        &vec![line(LogLevel::Success, "✓ OK"), line(LogLevel::Error, "? 1")]
    );
}

#[test]
fn mismatch_scenario_reports_expected_and_actual() {
    let assertion = ExactMatchAssertion::new(strings(&["OK", "1"]));
    let mut logger = Logger::new();
    let result = assertion.verify(&strings(&["OK", "2"]), &mut logger);
    assert_eq!(
        result,
        Err(TesterError::User("Response #2 mismatch: expected '1', got '2'".to_string()))
    );
    assert_eq!(
        logger.entries(),
        &vec![line(LogLevel::Success, "✓ OK"), line(LogLevel::Error, "𐄂 2")]
    );
}

#[test]
fn mismatch_log_shows_the_lines_before_it_with_their_commands() {
    let assertion = ExactMatchAssertion::new(strings(&["OK", "OK", "Alice", "NULL"]))
        .with_commands(strings(&["INIT 10", "PUT name Alice", "GET name"]));
    let mut logger = Logger::new();
    let result = assertion.verify(&strings(&["OK", "OK", "Alice", "Bob"]), &mut logger);
    assert_eq!(
        result,
        Err(TesterError::User("Response #4 mismatch: expected 'NULL', got 'Bob'".to_string()))
    );
    assert_eq!(
        logger.entries(),
        &vec![
            line(LogLevel::Success, "✓ OK (INIT 10)"),
            line(LogLevel::Success, "✓ OK (PUT name Alice)"),
            line(LogLevel::Success, "✓ Alice (GET name)"),
            line(LogLevel::Error, "𐄂 Bob"),
        ]
    );
}

#[test]
fn only_the_first_divergence_is_reported() {
    let assertion = ExactMatchAssertion::new(strings(&["a", "b", "c"]));
    let mut logger = Logger::new();
    let result = assertion.verify(&strings(&["x", "y"]), &mut logger);
    assert_eq!(
        result,
        Err(TesterError::User("Response #1 mismatch: expected 'a', got 'x'".to_string()))
    );
    assert_eq!(logger.entries(), &vec![line(LogLevel::Error, "𐄂 x")]);
}

#[test]
fn nothing_expected_and_nothing_received_passes() {
    let assertion = ExactMatchAssertion::new(Vec::new());
    let mut logger = Logger::new();
    assert_eq!(assertion.verify(&[], &mut logger), Ok(()));
    assert_eq!(logger.entries(), &vec![line(LogLevel::Success, "✓ 0 response(s) match")]);
}

#[test]
fn verify_appends_to_what_the_log_already_holds() {
    let assertion = ExactMatchAssertion::new(strings(&["OK"]));
    let mut logger = Logger::new();
    logger.infof("before");
    assert_eq!(assertion.verify(&strings(&["OK"]), &mut logger), Ok(()));
    assert_eq!(
        logger.entries(),
        &vec![line(LogLevel::Info, "before"), line(LogLevel::Success, "✓ 1 response(s) match")]
    );
}

#[test]
fn index_is_written_in_decimal() {
    let expected: Vec<String> = (0..12).map(|i| format!("v{}", i)).collect();
    let mut actual = expected.clone();
    actual[11] = "other".to_string();
    let assertion = ExactMatchAssertion::new(expected);
    let mut logger = Logger::new();
    assert_eq!(
        assertion.verify(&actual, &mut logger),
        Err(TesterError::User("Response #12 mismatch: expected 'v11', got 'other'".to_string()))
    );
    assert_eq!(logger.entries().len(), 12);
}

#[test]
fn regex_matches_whole_lines() {
    let pattern = "hits:\\d+ misses:\\d+ hit_rate:[0-9]+\\.[0-9]{2} evictions:\\d+ expirations:0 size:\\d+ capacity:20";
    let assertion = RegexMatchAssertion::new(strings(&["OK", pattern]));
    let mut logger = Logger::new();
    let actual =
        strings(&["OK", "hits:12 misses:3 hit_rate:80.00 evictions:0 expirations:0 size:3 capacity:20"]);
    assert_eq!(assertion.verify(&actual, &mut logger), Ok(()));
    assert_eq!(logger.entries(), &vec![line(LogLevel::Success, "✓ 2 response(s) match")]);
}

#[test]
fn regex_does_not_accept_a_match_of_a_part() {
    let assertion = RegexMatchAssertion::new(strings(&["\\d+"]));
    let mut logger = Logger::new();
    assert_eq!(
        assertion.verify(&strings(&["12 apples"]), &mut logger),
        Err(TesterError::User(
            "Response #1 mismatch: expected '\\d+', got '12 apples'".to_string()
        ))
    );
    let mut logger = Logger::new();
    assert_eq!(assertion.verify(&strings(&["12"]), &mut logger), Ok(()));
}

#[test]
fn regex_alternation_is_matched_as_a_whole() {
    let assertion = RegexMatchAssertion::new(strings(&["a|ab"]));
    let mut logger = Logger::new();
    assert_eq!(assertion.verify(&strings(&["ab"]), &mut logger), Ok(()));
    let mut logger = Logger::new();
    assert!(assertion.verify(&strings(&["abc"]), &mut logger).is_err());
}

#[test]
fn regex_pattern_is_not_compared_as_text() {
    let assertion = RegexMatchAssertion::new(strings(&["a.c"]));
    let mut logger = Logger::new();
    assert_eq!(assertion.verify(&strings(&["abc"]), &mut logger), Ok(()));
    let exact = ExactMatchAssertion::new(strings(&["a.c"]));
    let mut logger = Logger::new();
    assert!(exact.verify(&strings(&["abc"]), &mut logger).is_err());
}

#[test]
fn regex_bad_pattern_is_a_configuration_error() {
    let assertion =
        RegexMatchAssertion::new(strings(&["OK", "foo(bar"])).with_commands(strings(&["A", "B"]));
    let mut logger = Logger::new();
    let result = assertion.verify(&strings(&["OK", "foo(bar"]), &mut logger);
    assert_eq!(
        result,
        Err(TesterError::Configuration(
            "Response #2 pattern 'foo(bar' is not a valid regular expression".to_string()
        ))
    );
    assert_eq!(
        logger.entries(),
        &vec![line(LogLevel::Success, "✓ OK (A)"), line(LogLevel::Error, "? foo(bar (B)")]
    );
}

#[test]
fn regex_pattern_that_only_compiles_when_wrapped_is_refused() {
    let assertion = RegexMatchAssertion::new(strings(&["a)(?:b"]));
    let mut logger = Logger::new();
    let result = assertion.verify(&strings(&["ab"]), &mut logger);
    assert!(matches!(result, Err(TesterError::Configuration(_))));
}

#[test]
fn regex_missing_and_extra_are_reported_as_for_exact() {
    let assertion = RegexMatchAssertion::new(strings(&["O.", "\\d"]));
    let mut logger = Logger::new();
    assert_eq!(
        assertion.verify(&strings(&["OK"]), &mut logger),
        Err(TesterError::User(
            "Expected response #2 to be '\\d', but didn't receive enough responses (got 1 response(s))"
                .to_string()
        ))
    );
    let mut logger = Logger::new();
    assert_eq!(
        assertion.verify(&strings(&["OK", "1", "2"]), &mut logger),
        Err(TesterError::User(
            "Expected 2 response(s), but got 3 (extra response: '2')".to_string()
        ))
    );
}

#[test]
fn verdict_of_searches_covers_each_case() {
    assert_eq!(verdict_of_searches(Some(true), Some(true)), LineVerdict::Matches);
    assert_eq!(verdict_of_searches(Some(false), Some(true)), LineVerdict::Matches);
    assert_eq!(verdict_of_searches(Some(true), Some(false)), LineVerdict::Differs);
    assert_eq!(verdict_of_searches(None, Some(true)), LineVerdict::BadPattern);
    assert_eq!(verdict_of_searches(Some(true), None), LineVerdict::Unanchored);
    assert_eq!(verdict_of_searches(Some(false), None), LineVerdict::Unanchored);
    assert_eq!(verdict_of_searches(None, None), LineVerdict::BadPattern);
}

#[test]
fn walk_goes_by_the_verdicts_it_is_given() {
    let expected = strings(&["a", "b"]);
    let actual = strings(&["x", "y"]);
    let mut logger = Logger::new();
    let verdicts = vec![LineVerdict::Matches, LineVerdict::Matches];
    assert_eq!(walk_responses(&expected, &None, &actual, &verdicts, &mut logger), Ok(()));
    let mut logger = Logger::new();
    let verdicts = vec![LineVerdict::Matches, LineVerdict::Differs];
    assert_eq!(
        walk_responses(&expected, &None, &actual, &verdicts, &mut logger),
        Err(TesterError::User("Response #2 mismatch: expected 'b', got 'y'".to_string()))
    );
    assert_eq!(
        logger.entries(),
        &vec![line(LogLevel::Success, "✓ x"), line(LogLevel::Error, "𐄂 y")]
    );
}

#[test]
fn walk_tells_a_bad_pattern_from_one_that_cannot_be_anchored() {
    let expected = strings(&["a", "b"]);
    let actual = strings(&["x", "y"]);
    let mut logger = Logger::new();
    let verdicts = vec![LineVerdict::Matches, LineVerdict::Unanchored];
    assert_eq!(
        walk_responses(&expected, &None, &actual, &verdicts, &mut logger),
        Err(TesterError::Configuration(
            "Response #2 pattern 'b' cannot be anchored to the whole line".to_string()
        ))
    );
    assert_eq!(
        logger.entries(),
        &vec![line(LogLevel::Success, "✓ x"), line(LogLevel::Error, "? b")]
    );
    let mut logger = Logger::new();
    let verdicts = vec![LineVerdict::BadPattern, LineVerdict::Matches];
    assert_eq!(
        walk_responses(&expected, &None, &actual, &verdicts, &mut logger),
        Err(TesterError::Configuration(
            "Response #1 pattern 'a' is not a valid regular expression".to_string()
        ))
    );
    assert_eq!(
        pattern_failure_text(LineVerdict::Unanchored, 12, "p"),
        "Response #12 pattern 'p' cannot be anchored to the whole line"
    );
    assert_eq!(
        pattern_failure_text(LineVerdict::BadPattern, 3, "p"),
        "Response #3 pattern 'p' is not a valid regular expression"
    );
}

#[test]
fn hints_shorter_than_the_lines_are_tolerated() {
    let assertion =
        ExactMatchAssertion::new(strings(&["OK", "1"])).with_commands(strings(&["INIT 5"]));
    let mut logger = Logger::new();
    let result = assertion.verify(&strings(&["OK", "2"]), &mut logger);
    assert!(result.is_err());
    assert_eq!(
        logger.entries(),
        &vec![line(LogLevel::Success, "✓ OK (INIT 5)"), line(LogLevel::Error, "𐄂 2")]
    );
}
