use lru_cache_tester::error::TesterError;
use lru_cache_tester::helpers::{Execution, ExecutionResult};
use lru_cache_tester::logger::{LogEntry, LogLevel, Logger};
use lru_cache_tester::observed::{one_signals_error, same_text, ObservedTest, Remark};
use lru_cache_tester::repeated::RepeatedTest;
use lru_cache_tester::scripted::ScriptedTest;
use lru_cache_tester::test_case::{BatchStep, CacheTestCase, MultiCacheTestCase};
use lru_cache_tester::text::{chars_of, contains_text, owned_lines};
use lru_cache_tester::{
    stage_0, stage_0_multi_examples, stage_1, stage_2, stage_3, stage_4, stage_5, stage_6, stage_7,
};

fn ran(stdout: &str) -> Execution {
    Execution::Completed(ExecutionResult {
        exit_code: 0,
        stdout: stdout.as_bytes().to_vec(),
        stderr: Vec::new(),
    })
}

fn echo(lines: &[&str]) -> Execution {
    let mut stdout = String::new();
    for line in lines {
        stdout.push_str(line);
        stdout.push('\n');
    }
    ran(&stdout)
}

fn line(level: LogLevel, text: &str) -> LogEntry {
    LogEntry::Message { level, text: text.to_string() }
}

fn all_cases() -> Vec<CacheTestCase> {
    vec![
        stage_0::test_capacity_one(),
        stage_1::test_basic_cache(),
        stage_1::test_multiple_keys(),
        stage_1::test_key_update(),
        stage_1::test_size_command(),
        stage_2::test_fifo_eviction(),
        stage_5::test_thread_safe_basic(),
        stage_5::test_concurrent_read_heavy(),
        stage_5::test_concurrent_write_heavy(),
        stage_5::test_concurrent_stress(),
        stage_5::test_concurrent_sequential(),
        stage_5::test_concurrent_lru_preserved(),
        stage_5::test_concurrent_capacity_one(),
        stage_5::test_operations_after_concurrent(),
        stage_6::test_ttl_basic(),
        stage_6::test_ttl_immediate_access(),
        stage_6::test_ttl_multiple_different(),
        stage_6::test_ttl_with_eviction(),
        stage_6::test_ttl_no_expiration(),
        stage_6::test_ttl_mixed(),
        stage_6::test_ttl_update(),
        stage_6::test_ttl_size_consistency(),
        stage_6::test_ttl_concurrent(),
        stage_7::test_stats_basic_hit_miss(),
        stage_7::test_stats_eviction_tracking(),
        stage_7::test_stats_expiration_tracking(),
        stage_7::test_stats_empty_cache(),
        stage_7::test_stats_all_hits(),
        stage_7::test_stats_all_misses(),
        stage_7::test_stats_eviction_cycle(),
        stage_7::test_stats_mixed_expiration_eviction(),
        stage_7::test_stats_hit_rate_precision(),
        stage_7::test_stats_large_workload(),
    ]
}

fn all_scripted() -> Vec<ScriptedTest> {
    vec![
        stage_2::test_fifo_update_no_reorder(),
        stage_2::test_fifo_size(),
        stage_3::test_lru_eviction(),
        stage_3::test_lru_vs_fifo(),
        stage_3::test_lru_multiple_access(),
        stage_3::test_lru_sequential_evictions(),
        stage_4::test_lru_eviction(),
        stage_4::test_lru_vs_fifo(),
        stage_4::test_lru_multiple_access(),
        stage_4::test_lru_sequential_evictions(),
        stage_4::test_capacity_one(),
        stage_4::test_empty_cache(),
        stage_4::test_repeated_operations(),
        stage_4::test_full_eviction_cycle(),
    ]
}

#[test]
fn every_test_case_is_well_formed_and_passes_on_an_echo() {
    for case in all_cases() {
        assert_eq!(case.commands.len(), case.expected_responses.len(), "{}", case.description);
        assert!(case.hint.is_some(), "{}", case.description);
        assert!(!case.verbose && !case.regex_match, "{}", case.description);
        let mut logger = Logger::new();
        let input = case.begin(&mut logger).unwrap();
        assert_eq!(input.lines().collect::<Vec<_>>(), case.commands, "{}", case.description);
        let result = case.judge(&echo(&case.expected_responses), &mut logger);
        assert_eq!(result, Ok(()), "{}", case.description);
    }
}

#[test]
fn fifo_eviction_is_the_documented_exchange() {
    let case = stage_2::test_fifo_eviction();
    assert_eq!(
        case.commands,
        vec!["INIT 2", "PUT a 1", "PUT b 2", "PUT c 3", "GET a", "GET b", "GET c"]
    );
    assert_eq!(case.expected_responses, vec!["OK", "OK", "OK", "OK", "NULL", "2", "3"]);
    assert_eq!(case.run(&ran("OK\nOK\nOK\nOK\nNULL\n2\n3\n"), &mut Logger::new()), Ok(()));
    let result = case.run(&ran("OK\nOK\nOK\nOK\n1\n2\n3\n"), &mut Logger::new());
    assert_eq!(
        result,
        Err(TesterError::User(
            "Response #5 mismatch: expected 'NULL', got '1'\n\nHint: In FIFO, the oldest item should be evicted first. When cache is full, adding 'c' should evict 'a' (the first inserted item)."
                .to_string()
        ))
    );
}

#[test]
fn large_workload_has_a_hundred_operations() {
    let case = stage_7::test_stats_large_workload();
    assert_eq!(case.commands.len(), 102);
    assert_eq!(case.commands[0], "INIT 10");
    assert_eq!(case.commands[101], "STATS");
    assert_eq!(
        case.expected_responses[101],
        "hits:60 misses:30 hit_rate:66.67 evictions:0 expirations:0 size:10 capacity:10"
    );
}

#[test]
fn concurrent_stats_are_matched_by_pattern() {
    let case = stage_7::test_stats_concurrent();
    assert!(case.regex_match);
    let output = "OK\nOK\nOK\nOK\nOK\nhits:512 misses:88 hit_rate:85.33 evictions:0 expirations:0 size:20 capacity:20\n";
    assert_eq!(case.run(&ran(output), &mut Logger::new()), Ok(()));
    let output = "OK\nOK\nOK\nOK\nOK\nhits:512 misses:88 hit_rate:85.3 evictions:0 expirations:0 size:20 capacity:20\n";
    assert!(case.run(&ran(output), &mut Logger::new()).is_err());
}

#[test]
fn hints_keep_their_line_breaks() {
    let case = stage_5::test_concurrent_write_heavy();
    assert_eq!(
        case.hint,
        Some(
            "WRITE_HEAVY workload (90% writes) creates high lock contention. Verify that:\n1. Capacity is strictly enforced (SIZE = 3)\n2. No lost updates or race conditions\n3. Eviction logic works correctly under concurrent load"
        )
    );
}

#[test]
fn batches_hold_well_formed_cases() {
    let batches: Vec<MultiCacheTestCase> = vec![
        stage_0_multi_examples::test_basic_commands_batch(),
        stage_0_multi_examples::test_various_capacities(),
        stage_0_multi_examples::test_error_cases_batch(),
    ];
    let sizes: Vec<usize> = batches.iter().map(|b| b.test_cases.len()).collect();
    assert_eq!(sizes, vec![3, 3, 2]);
    for batch in &batches {
        let executions: Vec<Execution> =
            batch.test_cases.iter().map(|c| echo(&c.expected_responses)).collect();
        assert_eq!(batch.run_all(&executions, &mut Logger::new()), Ok(()));
    }
    assert_eq!(
        batches[2].test_cases[1].hint,
        Some("Deleted keys should return NULL")
    );
}

#[test]
fn every_scripted_test_passes_on_an_echo() {
    for test in all_scripted() {
        assert_eq!(test.commands.len(), test.expected_responses.len(), "{}", test.title);
        let mut logger = Logger::new();
        let input = test.begin(&mut logger);
        assert_eq!(input.lines().collect::<Vec<_>>(), test.commands, "{}", test.title);
        assert_eq!(logger.entries().len(), 1 + test.steps.len(), "{}", test.title);
        assert_eq!(test.judge(&echo(&test.expected_responses), &mut logger), Ok(()));
        assert_eq!(
            logger.entries().len(),
            1 + test.steps.len() + test.commands.len() + 1 + test.notes.len(),
            "{}",
            test.title
        );
    }
}

#[test]
fn scripted_test_logs_its_steps_and_notes() {
    let test = stage_2::test_fifo_size();
    let mut logger = Logger::new();
    let input = test.begin(&mut logger);
    assert_eq!(input, "INIT 3\nPUT a 1\nSIZE\nPUT b 2\nPUT c 3\nSIZE\nPUT d 4\nSIZE\nGET a\n");
    let result = test.judge(&ran("OK\nOK\n1\nOK\nOK\n3\nOK\n3\nNULL\n"), &mut logger);
    assert_eq!(result, Ok(()));
    assert_eq!(
        logger.entries(),
        &vec![
            line(LogLevel::Info, "Testing SIZE with FIFO eviction"),
            line(LogLevel::Debug, "Step 1: Add items one by one, check SIZE"),
            line(LogLevel::Debug, "✓ Command 1: OK"),
            line(LogLevel::Debug, "✓ Command 2: OK"),
            line(LogLevel::Debug, "✓ Command 3: 1"),
            line(LogLevel::Debug, "✓ Command 4: OK"),
            line(LogLevel::Debug, "✓ Command 5: OK"),
            line(LogLevel::Debug, "✓ Command 6: 3"),
            line(LogLevel::Debug, "✓ Command 7: OK"),
            line(LogLevel::Debug, "✓ Command 8: 3"),
            line(LogLevel::Debug, "✓ Command 9: NULL"),
            line(LogLevel::Success, "✓ SIZE correct with FIFO eviction"),
            line(LogLevel::Debug, "  - SIZE grows to capacity"),
            line(LogLevel::Debug, "  - SIZE stays at capacity after evictions"),
        ]
    );
}

#[test]
fn scripted_test_fails_at_the_first_wrong_response_with_its_advice() {
    let test = stage_2::test_fifo_size();
    let mut logger = Logger::new();
    let result = test.judge(&ran("OK\nOK\n1\nOK\nOK\n3\nOK\n4\n1\n"), &mut logger);
    assert_eq!(
        result,
        Err(TesterError::User(
            "Command 8 failed: expected '3', got '4'\nHint: SIZE should not exceed capacity even after evictions"
                .to_string()
        ))
    );
    assert_eq!(logger.entries().len(), 7);
    assert_eq!(logger.entries()[6], line(LogLevel::Debug, "✓ Command 7: OK"));
    let test = stage_2::test_fifo_update_no_reorder();
    let result = test.judge(&ran("OK\nOK\nOK\nOK\nOK\n100\nNULL\n3\n"), &mut Logger::new());
    assert_eq!(
        result,
        Err(TesterError::User(
            "Command 6 failed: expected 'NULL', got '100'\nHint: In FIFO, updating a key should NOT change its eviction order.\nThe eviction order is based on insertion time, not last update time."
                .to_string()
        ))
    );
}

#[test]
fn scripted_test_passes_on_failures_to_get_responses() {
    let test = stage_3::test_lru_eviction();
    let mut logger = Logger::new();
    assert_eq!(
        test.judge(&ran("OK\n"), &mut logger),
        Err(TesterError::User("Expected 8 responses, got 1. Output: [\"OK\"]".to_string()))
    );
    assert_eq!(
        test.judge(&Execution::Failed("gone".to_string()), &mut logger),
        Err(TesterError::Configuration("Execution failed: gone".to_string()))
    );
    assert!(logger.entries().is_empty());
}

#[test]
fn empty_values_are_only_observed() {
    let test = stage_0::test_empty_values();
    let mut logger = Logger::new();
    assert_eq!(test.begin(&mut logger), "INIT 5\nPUT key \nGET key\nPUT empty\n");
    assert_eq!(test.judge(&ran("OK\nOK\n\nERROR\n"), &mut logger), Ok(()));
    assert_eq!(
        logger.entries(),
        &vec![
            line(LogLevel::Info, "Testing edge case: empty values"),
            line(LogLevel::Debug, "Responses: [\"OK\", \"OK\", \"\", \"ERROR\"]"),
            line(LogLevel::Success, "✓ Empty values handled without crash"),
        ]
    );
    let mut logger = Logger::new();
    assert_eq!(
        test.judge(&ran("OK\n"), &mut logger),
        Err(TesterError::User("Expected 4 responses, got 1. Output: [\"OK\"]".to_string()))
    );
    assert!(logger.entries().is_empty());
}

#[test]
fn commands_before_init_pass_whatever_happens() {
    let test = stage_0::test_no_init();
    let mut logger = Logger::new();
    assert_eq!(test.judge(&ran("ERROR: not initialized\nNULL\n"), &mut logger), Ok(()));
    assert_eq!(
        logger.entries(),
        &vec![
            line(LogLevel::Debug, "Responses: [\"ERROR: not initialized\", \"NULL\"]"),
            line(LogLevel::Success, "✓ Error handling test completed"),
        ]
    );
    let mut logger = Logger::new();
    assert_eq!(test.judge(&ran("OK\nAlice\n"), &mut logger), Ok(()));
    assert_eq!(
        logger.entries(),
        &vec![
            line(LogLevel::Debug, "Responses: [\"OK\", \"Alice\"]"),
            line(
                LogLevel::Debug,
                "Warning: Operations before INIT should return errors, got: [\"OK\", \"Alice\"]"
            ),
            line(LogLevel::Success, "✓ Error handling test completed"),
        ]
    );
    let crashed = Execution::Completed(ExecutionResult {
        exit_code: 1,
        stdout: Vec::new(),
        stderr: b"not initialized".to_vec(),
    });
    let mut logger = Logger::new();
    assert_eq!(test.judge(&crashed, &mut logger), Ok(()));
    assert_eq!(
        logger.entries(),
        &vec![
            line(LogLevel::Debug, "Program exited (expected behavior)"),
            line(LogLevel::Success, "✓ Error handling test completed"),
        ]
    );
}

#[test]
fn second_init_is_remarked_on_either_way() {
    let test = stage_0::test_double_init();
    let mut logger = Logger::new();
    assert_eq!(test.judge(&ran("OK\nOK\nOK\nNULL\n"), &mut logger), Ok(()));
    assert_eq!(
        logger.entries()[1],
        line(LogLevel::Debug, "Double INIT resets cache (NULL returned)")
    );
    let mut logger = Logger::new();
    assert_eq!(test.judge(&ran("OK\nOK\nERROR\n1\n"), &mut logger), Ok(()));
    assert_eq!(
        logger.entries(),
        &vec![
            line(LogLevel::Debug, "Responses: [\"OK\", \"OK\", \"ERROR\", \"1\"]"),
            line(LogLevel::Debug, "Double INIT preserves state or returns error"),
            line(LogLevel::Success, "✓ Double INIT handled"),
        ]
    );
}

#[test]
fn a_comparison_past_the_last_response_is_left_out() {
    let test = ObservedTest {
        title: "short",
        commands: vec!["INIT 1"],
        remark: Remark::Compare { index: 3, value: "NULL", same: "same", other: "other" },
        success: "done",
    };
    let mut logger = Logger::new();
    assert_eq!(test.judge(&ran("OK\n"), &mut logger), Ok(()));
    assert_eq!(
        logger.entries(),
        &vec![line(LogLevel::Debug, "Responses: [\"OK\"]"), line(LogLevel::Success, "done")]
    );
}

#[test]
fn report_logs_the_responses_as_they_are_shown() {
    let test = stage_0::test_no_init();
    let responses = vec!["OK".to_string(), "Alice".to_string()];
    let mut logger = Logger::new();
    test.report(&responses, "<shown>", &mut logger);
    assert_eq!(
        logger.entries(),
        &vec![
            line(LogLevel::Debug, "Responses: <shown>"),
            line(
                LogLevel::Debug,
                "Warning: Operations before INIT should return errors, got: <shown>"
            ),
            line(LogLevel::Success, "✓ Error handling test completed"),
        ]
    );
    let responses = vec!["NULL".to_string()];
    let mut logger = Logger::new();
    test.report(&responses, "<shown>", &mut logger);
    assert_eq!(
        logger.entries(),
        &vec![
            line(LogLevel::Debug, "Responses: <shown>"),
            line(LogLevel::Success, "✓ Error handling test completed"),
        ]
    );
}

#[test]
fn size_consistency_runs_three_rounds() {
    let test: RepeatedTest = stage_5::test_size_consistency();
    assert_eq!(test.rounds, 3);
    let mut logger = Logger::new();
    let mut step = test.start(&mut logger);
    let mut rounds = 0;
    let result = loop {
        match step {
            BatchStep::Finished(result) => break result,
            BatchStep::Execute { index, input } => {
                assert_eq!(index, rounds);
                assert_eq!(input, "INIT 5\nCONCURRENT 30 MIXED\nSIZE\n");
                rounds += 1;
                step = test.resume(index, &ran("OK\nOK\n5\n"), &mut logger);
            }
        }
    };
    assert_eq!(result, Ok(()));
    assert_eq!(rounds, 3);
    assert_eq!(
        logger.entries(),
        &vec![
            line(LogLevel::Info, "Testing SIZE consistency under concurrent load"),
            line(LogLevel::Debug, "Round 1/3"),
            line(LogLevel::Info, "SIZE consistency test (multiple rounds)"),
            line(LogLevel::Success, "✓ 3 response(s) match"),
            line(LogLevel::Debug, "Round 2/3"),
            line(LogLevel::Info, "SIZE consistency test (multiple rounds)"),
            line(LogLevel::Success, "✓ 3 response(s) match"),
            line(LogLevel::Debug, "Round 3/3"),
            line(LogLevel::Info, "SIZE consistency test (multiple rounds)"),
            line(LogLevel::Success, "✓ 3 response(s) match"),
            line(LogLevel::Success, "✓ SIZE remained consistent across all rounds"),
        ]
    );
}

#[test]
fn size_consistency_stops_at_the_round_that_fails() {
    let test = stage_5::test_size_consistency();
    let mut logger = Logger::new();
    let step = test.start(&mut logger);
    assert!(matches!(step, BatchStep::Execute { index: 0, .. }));
    let step = test.resume(0, &ran("OK\nOK\n5\n"), &mut logger);
    assert!(matches!(step, BatchStep::Execute { index: 1, .. }));
    let step = test.resume(1, &ran("OK\nOK\n6\n"), &mut logger);
    match step {
        BatchStep::Finished(result) => assert_eq!(
            result,
            Err(TesterError::User(
                "Response #3 mismatch: expected '5', got '6'\n\nHint: SIZE must never exceed capacity, even under concurrent load. If SIZE > capacity, there's a race condition in your eviction logic."
                    .to_string()
            ))
        ),
        BatchStep::Execute { .. } => panic!("a failed round must end the test"),
    }
}

#[test]
fn repeated_test_without_rounds_passes_at_once() {
    let test = RepeatedTest {
        title: "none",
        rounds: 0,
        case: CacheTestCase::new("case", vec![], vec![]),
        success: "done",
    };
    let mut logger = Logger::new();
    assert!(matches!(test.start(&mut logger), BatchStep::Finished(Ok(()))));
    assert_eq!(
        logger.entries(),
        &vec![line(LogLevel::Info, "none"), line(LogLevel::Success, "done")]
    );
}

#[test]
fn substring_search() {
    assert!(contains_text("ERROR: no cache", "ERROR"));
    assert!(contains_text("an ERROR", "ERROR"));
    assert!(contains_text("xERRORx", "ERROR"));
    assert!(!contains_text("ERRO", "ERROR"));
    assert!(!contains_text("error", "ERROR"));
    assert!(!contains_text("", "ERROR"));
    assert!(contains_text("", ""));
    assert!(contains_text("abc", ""));
    assert!(contains_text("aab", "ab"));
    assert!(contains_text("ééFAIL", "FAIL"));
    assert!(!contains_text("FA IL", "FAIL"));
    assert_eq!(chars_of("a✓b"), vec!['a', '✓', 'b']);
}

#[test]
fn error_signals() {
    let signal = |items: &[&str]| one_signals_error(&items.iter().map(|s| s.to_string()).collect());
    assert!(signal(&["OK", "NULL"]));
    assert!(signal(&["ERROR: x"]));
    assert!(signal(&["OK", "it FAILed"]));
    assert!(!signal(&["OK", "NULLS", "null"]));
    assert!(!signal(&[]));
    assert!(same_text("NULL", "NULL"));
    assert!(!same_text("NULL", "NULL "));
}

#[test]
fn log_each_and_owned_lines() {
    let lines = vec!["one", "two"];
    let mut logger = Logger::new();
    logger.log_each(LogLevel::Debug, &lines);
    assert_eq!(
        logger.entries(),
        &vec![line(LogLevel::Debug, "one"), line(LogLevel::Debug, "two")]
    );
    assert_eq!(owned_lines(&lines), vec!["one".to_string(), "two".to_string()]);
}
