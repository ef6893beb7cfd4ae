//! The two ends of one batch run: the input that the commands make, and the
//! responses read back from what the process left behind.

use vstd::prelude::*;
use vstd::string::*;
use crate::error::{Failure, TesterError};
use crate::text::{
    decimal, join_lines, join_with_newlines, lines_of, push_decimal, push_signed_decimal,
    signed_decimal, split_lines,
};

verus! {

/// What a process left behind when it ended.
#[derive(Debug, Clone, PartialEq, Eq)]
pub struct ExecutionResult {
    pub exit_code: i32,
    pub stdout: Vec<u8>,
    pub stderr: Vec<u8>,
}

/// What became of the one attempt to run the program.
#[derive(Debug, Clone, PartialEq, Eq)]
pub enum Execution {
    /// The process ran and ended.
    Completed(ExecutionResult),
    /// The process could not be run; the text says why.
    Failed(String),
}

/// An `Execution` as a plain value.
pub enum Run {
    Completed { exit_code: int, stdout: Seq<u8>, stderr: Seq<u8> },
    Failed { detail: Seq<char> },
}

impl View for Execution {
    type V = Run;

    open spec fn view(&self) -> Run {
        match self {
            Execution::Completed(result) => Run::Completed {
                exit_code: result.exit_code as int,
                stdout: result.stdout@,
                stderr: result.stderr@,
            },
            Execution::Failed(detail) => Run::Failed { detail: detail@ },
        }
    }
}

/// The text that `String::from_utf8_lossy` makes of `bytes`.
pub uninterp spec fn utf8_lossy(bytes: Seq<u8>) -> Seq<char>;

/// The text that formatting a list of strings with `{:?}` gives.
pub uninterp spec fn debug_list(items: Seq<Seq<char>>) -> Seq<char>;

/// `String::from_utf8_lossy` of std: the bytes as text, with each invalid
/// sequence replaced by U+FFFD. The result depends on the bytes alone and is
/// named; nothing more is claimed of it, and nothing is proved.
#[verifier::external_body]
pub(crate) fn decode_lossy(bytes: &[u8]) -> (text: String)
    ensures
        text@ == utf8_lossy(bytes@),
{
    String::from_utf8_lossy(bytes).into_owned()
}

/// The `Debug` rendering of a list of strings by std, as `{:?}` gives it:
/// the items quoted and escaped, between square brackets. The result depends
/// on the items alone and is named; nothing more is claimed of it, and
/// nothing is proved.
#[verifier::external_body]
pub(crate) fn render_debug(items: &Vec<String>) -> (text: String)
    ensures
        text@ == debug_list(items.deep_view()),
{
    format!("{:?}", items)
}

/// The input for the process: each command followed by a newline. No
/// commands at all still make one newline.
pub open spec fn input_text(commands: Seq<Seq<char>>) -> Seq<char> {
    if commands.len() == 0 {
        seq!['\n']
    } else {
        join_lines(commands)
    }
}

/// The message for a process that could not be run.
pub open spec fn spawn_message(detail: Seq<char>) -> Seq<char> {
    "Execution failed: "@ + detail
}

/// The message for a process that ended with a code other than 0.
pub open spec fn exit_message(exit_code: int, stderr: Seq<char>) -> Seq<char> {
    "Program exited with code "@ + signed_decimal(exit_code) + ": "@ + stderr
}

/// The message for a process that gave another number of lines than it got commands.
pub open spec fn count_message(expected: nat, received: nat, shown: Seq<char>) -> Seq<char> {
    "Expected "@ + decimal(expected) + " responses, got "@ + decimal(received) + ". Output: "@
        + shown
}

/// The responses of a process that ended, given its output as text: a
/// failure where the exit code is not 0, which carries the error output; a
/// failure where there are not as many lines as commands, which carries both
/// counts and all the lines; else the lines.
pub open spec fn responses_from_text(
    command_count: nat,
    exit_code: int,
    stdout: Seq<char>,
    stderr: Seq<char>,
) -> Result<Seq<Seq<char>>, Failure> {
    if exit_code != 0 {
        Err(Failure::User(exit_message(exit_code, stderr)))
    } else if lines_of(stdout).len() != command_count {
        Err(
            Failure::User(
                count_message(command_count, lines_of(stdout).len(), debug_list(lines_of(stdout))),
            ),
        )
    } else {
        Ok(lines_of(stdout))
    }
}

/// The responses that one attempt to run the program gives for
/// `command_count` commands. An attempt that failed is a defect of the
/// setup, not of the program.
pub open spec fn responses_of(command_count: nat, run: Run) -> Result<Seq<Seq<char>>, Failure> {
    match run {
        Run::Failed { detail } => Err(Failure::Configuration(spawn_message(detail))),
        Run::Completed { exit_code, stdout, stderr } => responses_from_text(
            command_count,
            exit_code,
            utf8_lossy(stdout),
            utf8_lossy(stderr),
        ),
    }
}

/// Responses, or the failure to get them, as plain values.
pub open spec fn responses_view(result: Result<Vec<String>, TesterError>) -> Result<
    Seq<Seq<char>>,
    Failure,
> {
    match result {
        Ok(lines) => Ok(lines.deep_view()),
        Err(error) => Err(error@),
    }
}

/// The input to write to the process for `commands`.
pub fn command_input(commands: &[&str]) -> (input: String)
    ensures
        input@ == input_text(commands.deep_view()),
        commands.len() == 0 ==> input@ == seq!['\n'],
{
    if commands.len() == 0 {
        let mut input = String::new();
        input.push('\n');
        assert(input@ =~= seq!['\n']);
        input
    } else {
        join_with_newlines(commands)
    }
}

/// The error for a process that could not be run.
pub fn spawn_failure(detail: &str) -> (error: TesterError)
    ensures
        error@ == Failure::Configuration(spawn_message(detail@)),
{
    let mut text = String::from_str("Execution failed: ");
    text.append(detail);
    TesterError::Configuration(text)
}

/// The failure of a process that gave `received` lines to `command_count`
/// commands, where `shown` shows the lines.
pub fn count_failure(command_count: usize, received: usize, shown: &str) -> (error: TesterError)
    ensures
        error@ == Failure::User(count_message(command_count as nat, received as nat, shown@)),
{
    let mut text = String::from_str("Expected ");
    push_decimal(&mut text, command_count as u64);
    text.append(" responses, got ");
    push_decimal(&mut text, received as u64);
    text.append(". Output: ");
    text.append(shown);
    TesterError::User(text)
}

/// The responses of a process that ended, given its output as text.
pub fn responses_from(command_count: usize, exit_code: i32, stdout: &str, stderr: &str) -> (result:
    Result<Vec<String>, TesterError>)
    ensures
        responses_view(result) == responses_from_text(
            command_count as nat,
            exit_code as int,
            stdout@,
            stderr@,
        ),
{
    if exit_code != 0 {
        let mut text = String::from_str("Program exited with code ");
        push_signed_decimal(&mut text, exit_code);
        text.append(": ");
        text.append(stderr);
        return Err(TesterError::User(text));
    }
    let responses = split_lines(stdout);
    if responses.len() != command_count {
        let shown = render_debug(&responses);
        return Err(count_failure(command_count, responses.len(), shown.as_str()));
    }
    Ok(responses)
}

/// The responses that one attempt to run the program gives for
/// `command_count` commands.
pub fn read_responses(command_count: usize, execution: &Execution) -> (result: Result<
    Vec<String>,
    TesterError,
>)
    ensures
        responses_view(result) == responses_of(command_count as nat, execution@),
{
    match execution {
        Execution::Failed(detail) => Err(spawn_failure(detail.as_str())),
        Execution::Completed(outcome) => {
            let stdout = decode_lossy(outcome.stdout.as_slice());
            let stderr = decode_lossy(outcome.stderr.as_slice());
            responses_from(command_count, outcome.exit_code, stdout.as_str(), stderr.as_str())
        },
    }
}

} // verus!
