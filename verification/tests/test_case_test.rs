use lru_cache_tester::error::TesterError;
use lru_cache_tester::helpers::{Execution, ExecutionResult};
use lru_cache_tester::logger::{LogEntry, LogLevel, Logger};
use lru_cache_tester::test_case::{
    BatchStep, CacheTestCase, CacheTestCaseBuilder, MultiCacheTestCase,
};

fn ran(stdout: &str) -> Execution {
    Execution::Completed(ExecutionResult {
        exit_code: 0,
        stdout: stdout.as_bytes().to_vec(),
        stderr: Vec::new(),
    })
}

fn line(level: LogLevel, text: &str) -> LogEntry {
    LogEntry::Message { level, text: text.to_string() }
}

fn prefix(text: &str) -> LogEntry {
    LogEntry::SecondaryPrefix { prefix: text.to_string() }
}

#[test]
fn test_cache_test_case_creation() {
    let test_case = CacheTestCase::new(
        "Test basic operations",
        vec!["INIT 10", "PUT a 1"],
        vec!["OK", "OK"],
    );

    assert_eq!(test_case.description, "Test basic operations");
    assert_eq!(test_case.commands.len(), 2);
    assert_eq!(test_case.expected_responses.len(), 2);
    assert_eq!(test_case.hint, None);
    assert_eq!(test_case.verbose, false);
}

#[test]
fn test_cache_test_case_with_hint() {
    let test_case = CacheTestCase::new("Test", vec!["INIT 10"], vec!["OK"]).with_hint("This is a hint");

    assert_eq!(test_case.hint, Some("This is a hint"));
}

#[test]
fn test_cache_test_case_builder() {
    let test_case = CacheTestCaseBuilder::new("Test")
        .commands(vec!["INIT 10"])
        .expect(vec!["OK"])
        .hint("hint")
        .verbose()
        .build();

    assert_eq!(test_case.description, "Test");
    assert_eq!(test_case.verbose, true);
}

#[test]
fn test_multi_cache_test_case_creation() {
    let multi_test = MultiCacheTestCase::new(vec![
        CacheTestCase::new("Test 1", vec!["INIT 5"], vec!["OK"]),
        CacheTestCase::new("Test 2", vec!["PUT a 1"], vec!["OK"]),
    ]);

    assert_eq!(multi_test.test_cases.len(), 2);
}

#[test]
fn test_multi_cache_structure() {
    let _multi = MultiCacheTestCase::new(vec![
        CacheTestCase::new("Test 1", vec!["INIT 5"], vec!["OK"]),
        CacheTestCase::new("Test 2", vec!["PUT a 1"], vec!["OK"]),
    ]);
}

#[test]
fn builder_keeps_everything_it_was_given() {
    let builder = CacheTestCaseBuilder::new("Test");
    assert!(!builder.is_complete());
    let builder = builder.commands(vec!["INIT 10", "GET a"]);
    assert!(!builder.is_complete());
    let builder = builder.expect(vec!["OK", "NULL"]);
    assert!(builder.is_complete());
    let test_case = builder.hint("hint").build();
    assert_eq!(test_case.commands, vec!["INIT 10", "GET a"]);
    assert_eq!(test_case.expected_responses, vec!["OK", "NULL"]);
    assert_eq!(test_case.hint, Some("hint"));
    assert_eq!(test_case.verbose, false);
    assert_eq!(test_case.regex_match, false);
}

#[test]
fn modes_are_off_until_asked_for() {
    let test_case = CacheTestCase::new("Test", vec!["INIT 10"], vec!["OK"]);
    assert!(!test_case.verbose && !test_case.regex_match);
    let test_case = test_case.with_verbose().with_regex_match(true);
    assert!(test_case.verbose && test_case.regex_match);
    assert!(!test_case.with_regex_match(false).regex_match);
}

#[test]
fn begin_logs_the_description_and_gives_the_input() {
    let test_case = CacheTestCase::new("Testing basics", vec!["INIT 10", "GET a"], vec!["OK", "NULL"]);
    let mut logger = Logger::new();
    assert_eq!(test_case.begin(&mut logger), Ok("INIT 10\nGET a\n".to_string()));
    assert_eq!(logger.entries(), &vec![line(LogLevel::Info, "Testing basics")]);
}

#[test]
fn begin_of_a_test_without_commands_gives_one_newline() {
    let test_case = CacheTestCase::new("Nothing", vec![], vec![]);
    let mut logger = Logger::new();
    assert_eq!(test_case.begin(&mut logger), Ok("\n".to_string()));
    assert_eq!(test_case.run(&ran(""), &mut Logger::new()), Ok(()));
}

#[test]
fn mismatched_lengths_are_a_configuration_error_before_any_run() {
    let test_case = CacheTestCase::new("Broken", vec!["INIT 5", "PUT a 1"], vec!["OK"]);
    let mut logger = Logger::new();
    let expected = Err(TesterError::Configuration(
        "Test case configuration error: commands count (2) != expected responses count (1)"
            .to_string(),
    ));
    assert_eq!(test_case.begin(&mut logger).map(|_| ()), expected);
    assert_eq!(logger.entries(), &vec![line(LogLevel::Info, "Broken")]);
    let mut logger = Logger::new();
    assert_eq!(test_case.judge(&ran("OK\n"), &mut logger), expected);
    assert!(logger.entries().is_empty());
    let mut logger = Logger::new();
    assert_eq!(test_case.run(&ran("OK\nOK\n"), &mut logger), expected);
    assert_eq!(logger.entries(), &vec![line(LogLevel::Info, "Broken")]);
}

#[test]
fn a_compliant_program_passes() {
    let test_case = CacheTestCase::new(
        "Testing FIFO eviction",
        vec!["INIT 2", "PUT a 1", "PUT b 2", "PUT c 3", "GET a", "GET b", "GET c"],
        vec!["OK", "OK", "OK", "OK", "NULL", "2", "3"],
    )
    .with_hint("In FIFO, the oldest item should be evicted first.");
    let mut logger = Logger::new();
    let result = test_case.run(&ran("OK\nOK\nOK\nOK\nNULL\n2\n3\n"), &mut logger);
    assert_eq!(result, Ok(()));
    assert_eq!(
        logger.entries(),
        &vec![
            line(LogLevel::Info, "Testing FIFO eviction"),
            line(LogLevel::Success, "✓ 7 response(s) match"),
        ]
    );
}

#[test]
fn running_twice_gives_the_same_both_times() {
    let test_case = CacheTestCase::new("Twice", vec!["INIT 2", "GET a"], vec!["OK", "NULL"]);
    let execution = ran("OK\nNULL\n");
    let mut first = Logger::new();
    let mut second = Logger::new();
    second.infof("something earlier");
    assert_eq!(test_case.run(&execution, &mut first), Ok(()));
    assert_eq!(test_case.run(&execution, &mut second), Ok(()));
    assert_eq!(first.entries()[..], second.entries()[1..]);
    let mut again = Logger::new();
    assert_eq!(test_case.run(&execution, &mut again), Ok(()));
    assert_eq!(first.entries(), again.entries());
}

#[test]
fn hint_is_appended_to_a_failure() {
    let test_case = CacheTestCase::new("Hinted", vec!["INIT 5", "GET a"], vec!["OK", "NULL"])
        .with_hint("Non-existent keys should return NULL");
    let mut logger = Logger::new();
    assert_eq!(
        test_case.judge(&ran("OK\n0\n"), &mut logger),
        Err(TesterError::User(
            "Response #2 mismatch: expected 'NULL', got '0'\n\nHint: Non-existent keys should return NULL"
                .to_string()
        ))
    );
    assert_eq!(
        logger.entries(),
        &vec![line(LogLevel::Success, "✓ OK (INIT 5)"), line(LogLevel::Error, "𐄂 0 (GET a)")]
    );
}

#[test]
fn hint_never_shows_on_success_and_failure_without_hint_is_bare() {
    let hinted = CacheTestCase::new("Hinted", vec!["INIT 5"], vec!["OK"]).with_hint("a hint");
    let mut logger = Logger::new();
    assert_eq!(hinted.judge(&ran("OK\n"), &mut logger), Ok(()));
    assert_eq!(logger.entries(), &vec![line(LogLevel::Success, "✓ 1 response(s) match")]);
    let bare = CacheTestCase::new("Bare", vec!["INIT 5"], vec!["OK"]);
    assert_eq!(
        bare.judge(&ran("NO\n"), &mut Logger::new()),
        Err(TesterError::User("Response #1 mismatch: expected 'OK', got 'NO'".to_string()))
    );
}

#[test]
fn failures_of_the_program_to_respond_carry_the_hint_and_log_nothing() {
    let test_case = CacheTestCase::new("Hinted", vec!["INIT 5", "GET a"], vec!["OK", "NULL"])
        .with_hint("a hint");
    let mut logger = Logger::new();
    assert_eq!(
        test_case.judge(&ran("OK\n"), &mut logger),
        Err(TesterError::User(
            "Expected 2 responses, got 1. Output: [\"OK\"]\n\nHint: a hint".to_string()
        ))
    );
    let crashed = Execution::Completed(ExecutionResult {
        exit_code: 3,
        stdout: b"OK\nNULL\n".to_vec(),
        stderr: b"panic".to_vec(),
    });
    assert_eq!(
        test_case.judge(&crashed, &mut logger),
        Err(TesterError::User("Program exited with code 3: panic\n\nHint: a hint".to_string()))
    );
    assert_eq!(
        test_case.run(&crashed, &mut Logger::new()),
        Err(TesterError::User("Program exited with code 3: panic\n\nHint: a hint".to_string()))
    );
    assert!(logger.entries().is_empty());
    let verbose = CacheTestCase::new("Hinted", vec!["INIT 5", "GET a"], vec!["OK", "NULL"])
        .with_hint("a hint")
        .with_verbose();
    assert_eq!(
        verbose.judge(&crashed, &mut logger),
        Err(TesterError::User("Program exited with code 3: panic\n\nHint: a hint".to_string()))
    );
    assert_eq!(
        verbose.judge(&ran("OK\nNULL\nmore\n"), &mut logger),
        Err(TesterError::User(
            "Expected 2 responses, got 3. Output: [\"OK\", \"NULL\", \"more\"]\n\nHint: a hint"
                .to_string()
        ))
    );
    assert!(logger.entries().is_empty());
}

#[test]
fn failures_of_the_program_to_respond_are_bare_without_a_hint() {
    let test_case = CacheTestCase::new("Bare", vec!["INIT 5", "GET a"], vec!["OK", "NULL"]);
    assert_eq!(
        test_case.judge(&ran("OK\n"), &mut Logger::new()),
        Err(TesterError::User("Expected 2 responses, got 1. Output: [\"OK\"]".to_string()))
    );
    let crashed = Execution::Completed(ExecutionResult {
        exit_code: 3,
        stdout: Vec::new(),
        stderr: b"panic".to_vec(),
    });
    assert_eq!(
        test_case.judge(&crashed, &mut Logger::new()),
        Err(TesterError::User("Program exited with code 3: panic".to_string()))
    );
}

#[test]
fn failures_of_the_setup_carry_no_hint() {
    let test_case = CacheTestCase::new("Hinted", vec!["INIT 5", "GET a"], vec!["OK", "NULL"])
        .with_hint("a hint");
    let mut logger = Logger::new();
    assert_eq!(
        test_case.judge(&Execution::Failed("no such file".to_string()), &mut logger),
        Err(TesterError::Configuration("Execution failed: no such file".to_string()))
    );
    assert!(logger.entries().is_empty());
    let broken = CacheTestCase::new("Broken", vec!["INIT 5"], vec![]).with_hint("a hint");
    assert_eq!(
        broken.run(&ran(""), &mut Logger::new()),
        Err(TesterError::Configuration(
            "Test case configuration error: commands count (1) != expected responses count (0)"
                .to_string()
        ))
    );
}

#[test]
fn a_failed_round_of_a_batch_carries_the_hint_of_its_case() {
    let batch = MultiCacheTestCase::new(vec![
        CacheTestCase::new("One", vec!["INIT 5"], vec!["OK"]).with_hint("first"),
        CacheTestCase::new("Two", vec!["INIT 5"], vec!["OK"]).with_hint("second"),
    ]);
    let crashed = Execution::Completed(ExecutionResult {
        exit_code: 1,
        stdout: Vec::new(),
        stderr: b"boom".to_vec(),
    });
    assert_eq!(
        batch.run_all(&[ran("OK\n"), crashed], &mut Logger::new()),
        Err(TesterError::User("Program exited with code 1: boom\n\nHint: second".to_string()))
    );
}

#[test]
fn verbose_mode_logs_each_pair() {
    let test_case = CacheTestCase::new("Verbose", vec!["INIT 5", "GET a"], vec!["OK", "NULL"])
        .with_verbose();
    let mut logger = Logger::new();
    assert_eq!(test_case.judge(&ran("OK\nNULL\n"), &mut logger), Ok(()));
    assert_eq!(
        logger.entries(),
        &vec![
            line(LogLevel::Debug, "✓ Command 1: INIT 5 → OK"),
            line(LogLevel::Debug, "✓ Command 2: GET a → NULL"),
            line(LogLevel::Success, "✓ Verbose"),
        ]
    );
}

#[test]
fn verbose_mode_fails_at_once_and_names_the_command() {
    let test_case = CacheTestCase::new(
        "Verbose",
        vec!["INIT 5", "GET a", "GET b"],
        vec!["OK", "NULL", "NULL"],
    )
    .with_verbose()
    .with_hint("keys");
    let mut logger = Logger::new();
    assert_eq!(
        test_case.judge(&ran("OK\n1\n2\n"), &mut logger),
        Err(TesterError::User(
            "Command 2 failed: expected 'NULL', got '1'\nCommand: GET a\n\nHint: keys".to_string()
        ))
    );
    assert_eq!(logger.entries(), &vec![line(LogLevel::Debug, "✓ Command 1: INIT 5 → OK")]);
    let bare = CacheTestCase::new("Verbose", vec!["INIT 5"], vec!["OK"]).with_verbose();
    assert_eq!(
        bare.judge(&ran("NO\n"), &mut Logger::new()),
        Err(TesterError::User(
            "Command 1 failed: expected 'OK', got 'NO'\nCommand: INIT 5".to_string()
        ))
    );
}

#[test]
fn both_modes_agree_on_pass_and_fail() {
    let outputs = ["OK\nNULL\n", "OK\n1\n", "NO\nNULL\n", "OK\n", "OK\nNULL\nmore\n", ""];
    for output in outputs {
        let quiet = CacheTestCase::new("Modes", vec!["INIT 5", "GET a"], vec!["OK", "NULL"]);
        let verbose =
            CacheTestCase::new("Modes", vec!["INIT 5", "GET a"], vec!["OK", "NULL"]).with_verbose();
        let quiet_result = quiet.run(&ran(output), &mut Logger::new());
        let verbose_result = verbose.run(&ran(output), &mut Logger::new());
        assert_eq!(quiet_result.is_ok(), verbose_result.is_ok(), "for {:?}", output);
    }
}

#[test]
fn regex_mode_matches_patterns() {
    let test_case = CacheTestCase::new(
        "Stats",
        vec!["INIT 20", "STATS"],
        vec!["OK", "hits:\\d+ misses:\\d+ hit_rate:[0-9]+\\.[0-9]{2}"],
    )
    .with_regex_match(true);
    assert_eq!(
        test_case.run(&ran("OK\nhits:4 misses:1 hit_rate:80.00\n"), &mut Logger::new()),
        Ok(())
    );
    assert_eq!(
        test_case.run(&ran("OK\nhits:4 misses:1 hit_rate:80.0\n"), &mut Logger::new()),
        Err(TesterError::User(
            "Response #2 mismatch: expected 'hits:\\d+ misses:\\d+ hit_rate:[0-9]+\\.[0-9]{2}', got 'hits:4 misses:1 hit_rate:80.0'"
                .to_string()
        ))
    );
    let verbose = CacheTestCase::new("Stats", vec!["STATS"], vec!["hits:\\d+"])
        .with_regex_match(true)
        .with_verbose();
    assert_eq!(verbose.run(&ran("hits:12\n"), &mut Logger::new()), Ok(()));
    assert!(verbose.run(&ran("hits:x\n"), &mut Logger::new()).is_err());
    let literal = CacheTestCase::new("Stats", vec!["STATS"], vec!["hits:\\d+"]);
    assert!(literal.run(&ran("hits:12\n"), &mut Logger::new()).is_err());
}

#[test]
fn regex_mode_bad_pattern_is_a_configuration_error_in_both_modes() {
    let quiet = CacheTestCase::new("Bad", vec!["STATS"], vec!["hits:("]).with_regex_match(true);
    assert_eq!(
        quiet.run(&ran("hits:(\n"), &mut Logger::new()),
        Err(TesterError::Configuration(
            "Response #1 pattern 'hits:(' is not a valid regular expression".to_string()
        ))
    );
    let verbose = CacheTestCase::new("Bad", vec!["STATS"], vec!["hits:("])
        .with_regex_match(true)
        .with_verbose();
    assert_eq!(
        verbose.run(&ran("hits:(\n"), &mut Logger::new()),
        Err(TesterError::Configuration(
            "Response #1 pattern 'hits:(' is not a valid regular expression".to_string()
        ))
    );
}

#[test]
fn regex_mode_pattern_that_cannot_be_anchored_says_so_in_both_modes() {
    let expected = Err(TesterError::Configuration(
        "Response #2 pattern '(?x) hits:\\d+ # the hits' cannot be anchored to the whole line"
            .to_string(),
    ));
    let quiet = CacheTestCase::new(
        "Commented",
        vec!["INIT 5", "STATS"],
        vec!["OK", "(?x) hits:\\d+ # the hits"],
    )
    .with_regex_match(true);
    let mut logger = Logger::new();
    assert_eq!(quiet.judge(&ran("OK\nhits:3\n"), &mut logger), expected);
    assert_eq!(
        logger.entries(),
        &vec![
            line(LogLevel::Success, "✓ OK (INIT 5)"),
            line(LogLevel::Error, "? (?x) hits:\\d+ # the hits (STATS)"),
        ]
    );
    let verbose = CacheTestCase::new(
        "Commented",
        vec!["INIT 5", "STATS"],
        vec!["OK", "(?x) hits:\\d+ # the hits"],
    )
    .with_regex_match(true)
    .with_verbose();
    assert_eq!(verbose.judge(&ran("OK\nhits:3\n"), &mut Logger::new()), expected);
}

fn three_cases() -> MultiCacheTestCase {
    MultiCacheTestCase::new(vec![
        CacheTestCase::new("Testing INIT command", vec!["INIT 5"], vec!["OK"]),
        CacheTestCase::new("Testing PUT command", vec!["INIT 5", "PUT a 1"], vec!["OK", "OK"]),
        CacheTestCase::new(
            "Testing GET command",
            vec!["INIT 5", "PUT a 1", "GET a"],
            vec!["OK", "OK", "1"],
        ),
    ])
}

#[test]
fn batch_runs_every_case_and_clears_the_prefix_after_each() {
    let batch = three_cases();
    let executions = vec![ran("OK\n"), ran("OK\nOK\n"), ran("OK\nOK\n1\n")];
    let mut logger = Logger::new();
    assert_eq!(batch.run_all(&executions, &mut logger), Ok(()));
    assert_eq!(
        logger.entries(),
        &vec![
            prefix("test-1"),
            line(LogLevel::Info, "Running test case: 1"),
            line(LogLevel::Info, "Testing INIT command"),
            line(LogLevel::Success, "✓ 1 response(s) match"),
            LogEntry::PrefixesReset,
            prefix("test-2"),
            line(LogLevel::Info, "Running test case: 2"),
            line(LogLevel::Info, "Testing PUT command"),
            line(LogLevel::Success, "✓ 2 response(s) match"),
            LogEntry::PrefixesReset,
            prefix("test-3"),
            line(LogLevel::Info, "Running test case: 3"),
            line(LogLevel::Info, "Testing GET command"),
            line(LogLevel::Success, "✓ 3 response(s) match"),
            LogEntry::PrefixesReset,
        ]
    );
}

#[test]
fn batch_stops_at_the_first_failure_and_leaves_its_prefix() {
    let batch = three_cases();
    let executions = vec![ran("OK\n"), ran("OK\nERR\n"), ran("never looked at")];
    let mut logger = Logger::new();
    assert_eq!(
        batch.run_all(&executions, &mut logger),
        Err(TesterError::User("Response #2 mismatch: expected 'OK', got 'ERR'".to_string()))
    );
    assert_eq!(
        logger.entries(),
        &vec![
            prefix("test-1"),
            line(LogLevel::Info, "Running test case: 1"),
            line(LogLevel::Info, "Testing INIT command"),
            line(LogLevel::Success, "✓ 1 response(s) match"),
            LogEntry::PrefixesReset,
            prefix("test-2"),
            line(LogLevel::Info, "Running test case: 2"),
            line(LogLevel::Info, "Testing PUT command"),
            line(LogLevel::Success, "✓ OK (INIT 5)"),
            line(LogLevel::Error, "𐄂 ERR (PUT a 1)"),
        ]
    );
}

#[test]
fn empty_batch_passes_and_logs_nothing() {
    let batch = MultiCacheTestCase::new(Vec::new());
    let mut logger = Logger::new();
    assert_eq!(batch.run_all(&[], &mut logger), Ok(()));
    assert!(logger.entries().is_empty());
    assert!(matches!(batch.start(&mut logger), BatchStep::Finished(Ok(()))));
}

#[test]
fn batch_steps_drive_the_same_run() {
    let batch = three_cases();
    let executions = vec![ran("OK\n"), ran("OK\nOK\n"), ran("OK\nOK\n1\n")];
    let inputs = ["INIT 5\n", "INIT 5\nPUT a 1\n", "INIT 5\nPUT a 1\nGET a\n"];
    let mut stepped = Logger::new();
    let mut step = batch.start(&mut stepped);
    let mut runs = 0;
    let result = loop {
        match step {
            BatchStep::Finished(result) => break result,
            BatchStep::Execute { index, input } => {
                assert_eq!(index, runs);
                assert_eq!(input, inputs[index]);
                runs += 1;
                step = batch.resume(index, &executions[index], &mut stepped);
            }
        }
    };
    assert_eq!(result, Ok(()));
    assert_eq!(runs, 3);
    let mut whole = Logger::new();
    assert_eq!(batch.run_all(&executions, &mut whole), Ok(()));
    assert_eq!(stepped.entries(), whole.entries());
}

#[test]
fn batch_steps_stop_at_a_failure() {
    let batch = three_cases();
    let mut logger = Logger::new();
    let step = batch.start(&mut logger);
    assert!(matches!(step, BatchStep::Execute { index: 0, .. }));
    let step = batch.resume(0, &ran("NO\n"), &mut logger);
    match step {
        BatchStep::Finished(result) => assert_eq!(
            result,
            Err(TesterError::User("Response #1 mismatch: expected 'OK', got 'NO'".to_string()))
        ),
        BatchStep::Execute { .. } => panic!("the batch went on after a failure"),
    }
    assert_eq!(logger.entries().last(), Some(&line(LogLevel::Error, "𐄂 NO (INIT 5)")));
    assert!(!logger.entries().contains(&LogEntry::PrefixesReset));
}

#[test]
fn batch_with_a_broken_case_ends_before_running_it() {
    let batch = MultiCacheTestCase::new(vec![
        CacheTestCase::new("Fine", vec!["INIT 5"], vec!["OK"]),
        CacheTestCase::new("Broken", vec!["INIT 5"], vec![]),
    ]);
    let mut logger = Logger::new();
    let step = batch.start(&mut logger);
    assert!(matches!(step, BatchStep::Execute { index: 0, .. }));
    let step = batch.resume(0, &ran("OK\n"), &mut logger);
    match step {
        BatchStep::Finished(result) => assert_eq!(
            result,
            Err(TesterError::Configuration(
                "Test case configuration error: commands count (1) != expected responses count (0)"
                    .to_string()
            ))
        ),
        BatchStep::Execute { .. } => panic!("a broken case must not be run"),
    }
    assert_eq!(logger.entries().last(), Some(&line(LogLevel::Info, "Broken")));
}

#[test]
fn logger_records_in_order_and_drains() {
    let mut logger = Logger::new();
    logger.infof("i");
    logger.successf("s");
    logger.errorf("e");
    logger.debugf("d");
    logger.update_last_secondary_prefix("test-1");
    logger.reset_secondary_prefixes();
    logger.log(LogLevel::Info, "again");
    let expected = vec![
        line(LogLevel::Info, "i"),
        line(LogLevel::Success, "s"),
        line(LogLevel::Error, "e"),
        line(LogLevel::Debug, "d"),
        prefix("test-1"),
        LogEntry::PrefixesReset,
        line(LogLevel::Info, "again"),
    ];
    assert_eq!(logger.entries(), &expected);
    assert_eq!(logger.drain(), expected);
    assert!(logger.entries().is_empty());
}
