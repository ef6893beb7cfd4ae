use lru_cache_tester::error::TesterError;
use lru_cache_tester::helpers::{
    command_input, count_failure, read_responses, responses_from, spawn_failure, Execution,
    ExecutionResult,
};
use lru_cache_tester::text::{join_with_newlines, push_decimal, push_signed_decimal, split_lines};

fn completed(exit_code: i32, stdout: &[u8], stderr: &[u8]) -> Execution {
    Execution::Completed(ExecutionResult {
        exit_code,
        stdout: stdout.to_vec(),
        stderr: stderr.to_vec(),
    })
}

#[test]
fn test_command_joining() {
    let commands = vec!["INIT 10", "PUT a 1", "GET a"];
    let stdin_data = command_input(&commands);

    assert_eq!(stdin_data, "INIT 10\nPUT a 1\nGET a\n");
}

#[test]
fn test_response_parsing() {
    let output = "OK\nOK\n1\n";
    let responses: Vec<String> = split_lines(output);

    assert_eq!(responses, vec!["OK", "OK", "1"]);
}

#[test]
fn test_response_count_validation() {
    let commands = vec!["INIT 10", "PUT a 1"];
    let responses = responses_from(commands.len(), 0, "OK\nOK\n", "").unwrap();

    assert_eq!(responses, vec!["OK".to_string(), "OK".to_string()]);
    assert_eq!(responses.len(), commands.len());
}

#[test]
fn test_response_count_mismatch() {
    let commands = vec!["INIT 10", "PUT a 1", "GET a"];
    let responses = split_lines("OK\nOK\n");

    assert_eq!(responses, vec!["OK".to_string(), "OK".to_string()]);
    assert_ne!(responses.len(), commands.len());
    assert_eq!(
        responses_from(commands.len(), 0, "OK\nOK\n", ""),
        Err(TesterError::User(
            "Expected 3 responses, got 2. Output: [\"OK\", \"OK\"]".to_string()
        ))
    );
}

#[test]
fn test_empty_commands() {
    let commands: Vec<&str> = vec![];
    let stdin_data = command_input(&commands);

    assert_eq!(stdin_data, "\n");
}

#[test]
fn test_single_command() {
    let commands = vec!["INIT 10"];
    let stdin_data = command_input(&commands);

    assert_eq!(stdin_data, "INIT 10\n");
}

#[test]
fn join_with_newlines_of_nothing_is_empty() {
    assert_eq!(join_with_newlines(&[]), "");
    assert_eq!(join_with_newlines(&["a", "", "b"]), "a\n\nb\n");
}

#[test]
fn split_lines_edge_cases() {
    assert_eq!(split_lines(""), Vec::<String>::new());
    assert_eq!(split_lines("\n"), vec![""]);
    assert_eq!(split_lines("a"), vec!["a"]);
    assert_eq!(split_lines("a\n"), vec!["a"]);
    assert_eq!(split_lines("a\n\n"), vec!["a", ""]);
    assert_eq!(split_lines("\n\na"), vec!["", "", "a"]);
    assert_eq!(split_lines("a\r\nb\r\n"), vec!["a", "b"]);
    assert_eq!(split_lines("a\rb\n"), vec!["a\rb"]);
    assert_eq!(split_lines("a\r\r\nb"), vec!["a\r", "b"]);
    assert_eq!(split_lines("a\r"), vec!["a\r"]);
    assert_eq!(split_lines("\r\n"), vec![""]);
    assert_eq!(split_lines("\r"), vec!["\r"]);
    assert_eq!(split_lines("é✓\n𐄂"), vec!["é✓", "𐄂"]);
}

#[test]
fn split_lines_agrees_with_std_lines() {
    let samples = [
        "", "\n", "\r", "\r\n", "a", "a\n", "a\r\n", "a\r", "a\n\r", "\n\n", "a\n\nb", "a\r\n\r\nb\r",
        "x\r\r\ny", "one\ntwo\nthree", "\r\r", "tail \n",
    ];
    for sample in samples {
        let expected: Vec<String> = sample.lines().map(|s| s.to_string()).collect();
        assert_eq!(split_lines(sample), expected, "for {:?}", sample);
    }
}

#[test]
fn lines_written_are_read_back() {
    let lines = ["OK", "", "value with spaces", "NULL"];
    let text = join_with_newlines(&lines);
    assert_eq!(split_lines(&text), lines);
}

#[test]
fn decimal_numerals() {
    let mut text = String::from("n=");
    push_decimal(&mut text, 0);
    text.push(',');
    push_decimal(&mut text, 7);
    text.push(',');
    push_decimal(&mut text, 10);
    text.push(',');
    push_decimal(&mut text, 1234567890);
    text.push(',');
    push_decimal(&mut text, u64::MAX);
    assert_eq!(text, "n=0,7,10,1234567890,18446744073709551615");
}

#[test]
fn signed_decimal_numerals() {
    let mut text = String::new();
    push_signed_decimal(&mut text, 0);
    text.push(' ');
    push_signed_decimal(&mut text, -1);
    text.push(' ');
    push_signed_decimal(&mut text, 255);
    text.push(' ');
    push_signed_decimal(&mut text, i32::MIN);
    text.push(' ');
    push_signed_decimal(&mut text, i32::MAX);
    assert_eq!(text, "0 -1 255 -2147483648 2147483647");
}

#[test]
fn responses_of_a_clean_run() {
    let execution = completed(0, b"OK\nOK\nAlice\n", b"");
    assert_eq!(
        read_responses(3, &execution),
        Ok(vec!["OK".to_string(), "OK".to_string(), "Alice".to_string()])
    );
}

#[test]
fn no_commands_and_no_output_is_fine() {
    assert_eq!(read_responses(0, &completed(0, b"", b"")), Ok(Vec::new()));
    assert_eq!(responses_from(0, 0, "", ""), Ok(Vec::new()));
}

#[test]
fn nonzero_exit_is_a_user_error_with_stderr() {
    let execution = completed(1, b"OK\n", b"boom\n");
    assert_eq!(
        read_responses(1, &execution),
        Err(TesterError::User("Program exited with code 1: boom\n".to_string()))
    );
    let execution = completed(-11, b"", b"");
    assert_eq!(
        read_responses(0, &execution),
        Err(TesterError::User("Program exited with code -11: ".to_string()))
    );
}

#[test]
fn wrong_line_count_is_a_user_error_with_the_lines() {
    let execution = completed(0, b"OK\n\"q\"\n", b"");
    assert_eq!(
        read_responses(3, &execution),
        Err(TesterError::User(
            "Expected 3 responses, got 2. Output: [\"OK\", \"\\\"q\\\"\"]".to_string()
        ))
    );
    assert_eq!(
        read_responses(1, &completed(0, b"", b"")),
        Err(TesterError::User("Expected 1 responses, got 0. Output: []".to_string()))
    );
}

#[test]
fn count_failure_gives_both_counts_and_what_it_is_shown() {
    assert_eq!(
        count_failure(3, 2, "[\"OK\", \"OK\"]"),
        TesterError::User("Expected 3 responses, got 2. Output: [\"OK\", \"OK\"]".to_string())
    );
    assert_eq!(
        count_failure(10, 0, "nothing"),
        TesterError::User("Expected 10 responses, got 0. Output: nothing".to_string())
    );
}

#[test]
fn invalid_bytes_are_replaced_not_fatal() {
    let execution = completed(0, b"O\xffK\n", b"");
    assert_eq!(read_responses(1, &execution), Ok(vec!["O\u{fffd}K".to_string()]));
    let execution = completed(2, b"", b"bad \xf0\x28 bytes");
    assert_eq!(
        read_responses(1, &execution),
        Err(TesterError::User(
            "Program exited with code 2: bad \u{fffd}( bytes".to_string()
        ))
    );
}

#[test]
fn valid_utf8_output_is_decoded_as_it_is() {
    let execution = completed(0, "héllo ✓\n".as_bytes(), b"");
    assert_eq!(read_responses(1, &execution), Ok(vec!["héllo ✓".to_string()]));
}

#[test]
fn spawn_failure_is_a_configuration_error() {
    assert_eq!(
        spawn_failure("NotFound"),
        TesterError::Configuration("Execution failed: NotFound".to_string())
    );
    assert_eq!(
        read_responses(2, &Execution::Failed("Os { code: 2 }".to_string())),
        Err(TesterError::Configuration("Execution failed: Os { code: 2 }".to_string()))
    );
}

#[test]
fn error_kinds_and_messages() {
    let user = TesterError::User("wrong".to_string());
    let configuration = TesterError::Configuration("broken".to_string());
    assert!(user.is_user() && !user.is_configuration());
    assert!(configuration.is_configuration() && !configuration.is_user());
    assert_eq!(user.message(), "wrong");
    assert_eq!(configuration.to_string(), "broken");
    assert_eq!(
        user.with_suffix("\n\nHint: x"),
        TesterError::User("wrong\n\nHint: x".to_string())
    );
    assert_eq!(
        configuration.with_suffix("!"),
        TesterError::Configuration("broken!".to_string())
    );
}
