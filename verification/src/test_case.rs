//! A test case binds a description, the commands to send and the responses
//! to expect; a batch runs several in order and stops at the first failure.

use vstd::prelude::*;
use vstd::string::*;
use crate::assertions::{
    agreeing, exact_line_verdicts, exact_outcome, exact_verdicts, pattern_failure_message,
    pattern_failure_text,
    lemma_agreeing_at, pattern_line_verdicts, pattern_outcome, pattern_verdicts, Assertion,
    ExactMatchAssertion, LineVerdict, Outcome, RegexMatchAssertion,
};
use crate::error::{verdict, Failure, TesterError};
use crate::helpers::{command_input, input_text, read_responses, responses_of, Execution, Run};
use crate::logger::{message, Entry, LogLevel, Logger};
use crate::text::{decimal, owned_lines, push_decimal};

verus! {

/// One test: commands for the program and the responses expected of it.
pub struct CacheTestCase {
    /// What the test is about; the first line it logs.
    pub description: &'static str,
    /// The commands, in the order in which they are sent.
    pub commands: Vec<&'static str>,
    /// The response expected to each command, in the same order.
    pub expected_responses: Vec<&'static str>,
    /// A sentence that helps whoever wrote the program, shown on failure.
    pub hint: Option<&'static str>,
    /// Whether every command is logged with its response.
    pub verbose: bool,
    /// Whether the expected responses are patterns rather than literal lines.
    pub regex_match: bool,
}

/// The message for a test with another number of commands than of expected responses.
pub open spec fn configuration_message(commands: nat, expected: nat) -> Seq<char> {
    "Test case configuration error: commands count ("@ + decimal(commands)
        + ") != expected responses count ("@ + decimal(expected) + ")"@
}

/// What is appended to a failure's message for a hint.
pub open spec fn hint_paragraph(hint: Seq<char>) -> Seq<char> {
    "\n\nHint: "@ + hint
}

/// The hint as a paragraph, or nothing where there is no hint.
pub open spec fn hint_text(hint: Option<&'static str>) -> Seq<char> {
    match hint {
        Some(text) => hint_paragraph(text@),
        None => Seq::<char>::empty(),
    }
}

/// A failure of the program under test, with the hint appended to its
/// message; a failure of the setup, as it is.
pub open spec fn with_hint_for_user(failure: Failure, hint: Option<&'static str>) -> Failure {
    match failure {
        Failure::User(text) => Failure::User(text + hint_text(hint)),
        Failure::Configuration(_) => failure,
    }
}

/// The same outcome, with the hint appended to the message of a failure. A
/// success is left as it is.
pub open spec fn with_hint_appended(outcome: Outcome, hint: Option<&'static str>) -> Outcome {
    match outcome.result {
        Ok(_) => outcome,
        Err(failure) => Outcome {
            log: outcome.log,
            result: Err(failure.with_suffix(hint_text(hint))),
        },
    }
}

/// The log line of verbose mode for a command that got the expected response.
pub open spec fn verbose_line(index: nat, command: Seq<char>, actual: Seq<char>) -> Seq<char> {
    "✓ Command "@ + decimal(index) + ": "@ + command + " → "@ + actual
}

/// The message of verbose mode for a command that got another response.
pub open spec fn verbose_message(
    index: nat,
    expected: Seq<char>,
    actual: Seq<char>,
    command: Seq<char>,
) -> Seq<char> {
    "Command "@ + decimal(index) + " failed: expected '"@ + expected + "', got '"@ + actual
        + "'\nCommand: "@ + command
}

/// The last log line of verbose mode for a test that passed.
pub open spec fn verbose_summary(description: Seq<char>) -> Seq<char> {
    "✓ "@ + description
}

/// The lines that verbose mode logs for the first `count` commands.
pub open spec fn verbose_entries(
    commands: Seq<Seq<char>>,
    actual: Seq<Seq<char>>,
    count: nat,
) -> Seq<Entry> {
    Seq::new(
        count,
        |i: int| message(LogLevel::Debug, verbose_line((i + 1) as nat, commands[i], actual[i])),
    )
}

/// What verbose mode comes to for responses of which there are as many as
/// commands and as expected responses. Each command is logged with its
/// response until one does not match; that one fails the test at once.
pub open spec fn verbose_outcome(
    description: Seq<char>,
    commands: Seq<Seq<char>>,
    expected: Seq<Seq<char>>,
    hint: Option<&'static str>,
    actual: Seq<Seq<char>>,
    verdicts: Seq<LineVerdict>,
) -> Outcome {
    let k = agreeing(verdicts) as int;
    let shown = verbose_entries(commands, actual, k as nat);
    if k < verdicts.len() {
        if verdicts[k].blames_pattern() {
            Outcome {
                log: shown,
                result: Err(
                    Failure::Configuration(
                        pattern_failure_message(verdicts[k], (k + 1) as nat, expected[k])
                            + hint_text(hint),
                    ),
                ),
            }
        } else {
            Outcome {
                log: shown,
                result: Err(
                    Failure::User(
                        verbose_message((k + 1) as nat, expected[k], actual[k], commands[k])
                            + hint_text(hint),
                    ),
                ),
            }
        }
    } else {
        Outcome {
            log: shown.push(message(LogLevel::Success, verbose_summary(description))),
            result: Ok(()),
        }
    }
}

impl CacheTestCase {
    /// Whether there are as many commands as expected responses.
    pub open spec fn well_formed(&self) -> bool {
        self.commands@.len() == self.expected_responses@.len()
    }

    /// The verdicts on the lines, by equality or by pattern as the test says.
    pub open spec fn verdicts(&self, actual: Seq<Seq<char>>) -> Seq<LineVerdict> {
        if self.regex_match {
            pattern_verdicts(self.expected_responses.deep_view(), actual)
        } else {
            exact_verdicts(self.expected_responses.deep_view(), actual)
        }
    }

    /// What comparing `actual` with the expected responses comes to, in the
    /// mode that the test asks for.
    pub open spec fn check_outcome(&self, actual: Seq<Seq<char>>) -> Outcome {
        if self.verbose {
            verbose_outcome(
                self.description@,
                self.commands.deep_view(),
                self.expected_responses.deep_view(),
                self.hint,
                actual,
                self.verdicts(actual),
            )
        } else if self.regex_match {
            with_hint_appended(
                pattern_outcome(
                    self.expected_responses.deep_view(),
                    Some(self.commands.deep_view()),
                    actual,
                ),
                self.hint,
            )
        } else {
            with_hint_appended(
                exact_outcome(
                    self.expected_responses.deep_view(),
                    Some(self.commands.deep_view()),
                    actual,
                ),
                self.hint,
            )
        }
    }

    /// What the first half of a run comes to, before any process exists: the
    /// description is logged, and a test that is not well formed fails.
    pub open spec fn begin_outcome(&self) -> Outcome {
        Outcome {
            log: seq![message(LogLevel::Info, self.description@)],
            result: if self.well_formed() {
                Ok(())
            } else {
                Err(
                    Failure::Configuration(
                        configuration_message(
                            self.commands@.len(),
                            self.expected_responses@.len(),
                        ),
                    ),
                )
            },
        }
    }

    /// What the second half of a run comes to, given what became of the
    /// process. A failure to get the responses is the test's failure, with
    /// nothing logged: where the program is to blame (it ended with a code
    /// other than 0, or gave another number of lines than it got commands)
    /// the hint is appended to the message; where the process could not be
    /// run the message stays as it is. Else the responses are checked.
    pub open spec fn judge_outcome(&self, run: Run) -> Outcome {
        if !self.well_formed() {
            Outcome { log: Seq::<Entry>::empty(), result: self.begin_outcome().result }
        } else {
            match responses_of(self.commands@.len(), run) {
                Err(failure) => Outcome {
                    log: Seq::<Entry>::empty(),
                    result: Err(with_hint_for_user(failure, self.hint)),
                },
                Ok(lines) => self.check_outcome(lines),
            }
        }
    }

    /// What a whole run comes to. A test that is not well formed fails
    /// before the process is looked at.
    pub open spec fn run_outcome(&self, run: Run) -> Outcome {
        if self.well_formed() {
            Outcome {
                log: self.begin_outcome().log + self.judge_outcome(run).log,
                result: self.judge_outcome(run).result,
            }
        } else {
            self.begin_outcome()
        }
    }

    /// A test with no hint, in the quiet mode, that compares for equality.
    pub fn new(
        description: &'static str,
        commands: Vec<&'static str>,
        expected_responses: Vec<&'static str>,
    ) -> (case: Self)
        ensures
            case.description == description,
            case.commands == commands,
            case.expected_responses == expected_responses,
            case.hint == None::<&'static str>,
            !case.verbose,
            !case.regex_match,
    {
        Self {
            description,
            commands,
            expected_responses,
            hint: None,
            verbose: false,
            regex_match: false,
        }
    }

    /// The same test with `hint` shown on failure.
    pub fn with_hint(self, hint: &'static str) -> (case: Self)
        ensures
            case.hint == Some(hint),
            case.description == self.description,
            case.commands == self.commands,
            case.expected_responses == self.expected_responses,
            case.verbose == self.verbose,
            case.regex_match == self.regex_match,
    {
        let mut case = self;
        case.hint = Some(hint);
        case
    }

    /// The same test in verbose mode.
    pub fn with_verbose(self) -> (case: Self)
        ensures
            case.verbose,
            case.description == self.description,
            case.commands == self.commands,
            case.expected_responses == self.expected_responses,
            case.hint == self.hint,
            case.regex_match == self.regex_match,
    {
        let mut case = self;
        case.verbose = true;
        case
    }

    /// The same test with its expected responses taken as patterns, or as
    /// literal lines, as `enabled` says.
    pub fn with_regex_match(self, enabled: bool) -> (case: Self)
        ensures
            case.regex_match == enabled,
            case.description == self.description,
            case.commands == self.commands,
            case.expected_responses == self.expected_responses,
            case.hint == self.hint,
            case.verbose == self.verbose,
    {
        let mut case = self;
        case.regex_match = enabled;
        case
    }
}

fn hint_suffix_text(hint: Option<&'static str>) -> (text: String)
    ensures
        text@ == hint_text(hint),
{
    match hint {
        Some(words) => {
            let mut text = String::from_str("\n\nHint: ");
            text.append(words);
            text
        },
        None => String::new(),
    }
}

fn configuration_error(commands: usize, expected: usize) -> (error: TesterError)
    ensures
        error@ == Failure::Configuration(configuration_message(commands as nat, expected as nat)),
{
    let mut text = String::from_str("Test case configuration error: commands count (");
    push_decimal(&mut text, commands as u64);
    text.append(") != expected responses count (");
    push_decimal(&mut text, expected as u64);
    text.append(")");
    TesterError::Configuration(text)
}

fn verbose_line_text(index: usize, command: &str, actual: &str) -> (text: String)
    ensures
        text@ == verbose_line(index as nat, command@, actual@),
{
    let mut text = String::from_str("✓ Command ");
    push_decimal(&mut text, index as u64);
    text.append(": ");
    text.append(command);
    text.append(" → ");
    text.append(actual);
    text
}

fn verbose_failure_text(
    index: usize,
    expected: &str,
    actual: &str,
    command: &str,
    hint: Option<&'static str>,
) -> (text: String)
    ensures
        text@ == verbose_message(index as nat, expected@, actual@, command@) + hint_text(hint),
{
    let mut text = String::from_str("Command ");
    push_decimal(&mut text, index as u64);
    text.append(" failed: expected '");
    text.append(expected);
    text.append("', got '");
    text.append(actual);
    text.append("'\nCommand: ");
    text.append(command);
    let suffix = hint_suffix_text(hint);
    text.append(suffix.as_str());
    text
}

impl CacheTestCase {
    /// The first half of a run: logs the description and, for a test that is
    /// well formed, gives the input to write to the process.
    pub fn begin(&self, logger: &mut Logger) -> (result: Result<String, TesterError>)
        ensures
            final(logger)@ == old(logger)@ + self.begin_outcome().log,
            match result {
                Ok(input) => self.well_formed() && input@ == input_text(
                    self.commands.deep_view(),
                ),
                Err(error) => self.begin_outcome().result == Err::<(), Failure>(error@),
            },
    {
        logger.infof(self.description);
        assert(logger@ =~= old(logger)@ + self.begin_outcome().log);
        if self.commands.len() != self.expected_responses.len() {
            return Err(configuration_error(self.commands.len(), self.expected_responses.len()));
        }
        let commands = self.commands.as_slice();
        assert(commands.deep_view() =~= self.commands.deep_view());
        Ok(command_input(commands))
    }

    fn check_verbose(&self, actual: &[String], logger: &mut Logger) -> (result: Result<
        (),
        TesterError,
    >)
        requires
            self.verbose,
            self.well_formed(),
            actual.len() == self.commands.len(),
        ensures
            final(logger)@ == old(logger)@ + self.check_outcome(actual.deep_view()).log,
            verdict(result) == self.check_outcome(actual.deep_view()).result,
    {
        let expected = owned_lines(&self.expected_responses);
        let verdicts = if self.regex_match {
            pattern_line_verdicts(&expected, actual)
        } else {
            exact_line_verdicts(&expected, actual)
        };
        let ghost a = actual.deep_view();
        let ghost c = self.commands.deep_view();
        let ghost e = self.expected_responses.deep_view();
        let ghost before = logger@;
        assert(verdicts@ == self.verdicts(a));
        let mut i: usize = 0;
        assert(before + verbose_entries(c, a, 0) =~= before);
        while i < verdicts.len()
            invariant
                i <= verdicts.len(),
                verdicts@.len() == actual.len(),
                actual.len() == self.commands.len(),
                self.well_formed(),
                self.verbose,
                a == actual.deep_view(),
                c == self.commands.deep_view(),
                e == self.expected_responses.deep_view(),
                verdicts@ == self.verdicts(a),
                before == old(logger)@,
                forall|j: int| 0 <= j < i ==> verdicts@[j] == LineVerdict::Matches,
                logger@ == before + verbose_entries(c, a, i as nat),
            decreases verdicts.len() - i,
        {
            assert(a[i as int] == actual[i as int]@);
            assert(c[i as int] == self.commands[i as int]@);
            assert(e[i as int] == self.expected_responses[i as int]@);
            match verdicts[i] {
                LineVerdict::Matches => {
                    let line = verbose_line_text(i + 1, self.commands[i], actual[i].as_str());
                    logger.debugf(line.as_str());
                    assert(logger@ =~= before + verbose_entries(c, a, (i + 1) as nat));
                },
                LineVerdict::Differs => {
                    proof {
                        lemma_agreeing_at(verdicts@, i as int);
                    }
                    let text = verbose_failure_text(
                        i + 1,
                        self.expected_responses[i],
                        actual[i].as_str(),
                        self.commands[i],
                        self.hint,
                    );
                    return Err(TesterError::User(text));
                },
                blamed => {
                    proof {
                        lemma_agreeing_at(verdicts@, i as int);
                    }
                    let mut text = pattern_failure_text(
                        blamed,
                        i + 1,
                        self.expected_responses[i],
                    );
                    let suffix = hint_suffix_text(self.hint);
                    text.append(suffix.as_str());
                    return Err(TesterError::Configuration(text));
                },
            }
            i += 1;
        }
        proof {
            lemma_agreeing_at(verdicts@, i as int);
        }
        let mut summary = String::from_str("✓ ");
        summary.append(self.description);
        logger.successf(summary.as_str());
        assert(logger@ =~= before + self.check_outcome(a).log);
        Ok(())
    }

    fn check(&self, actual: &[String], logger: &mut Logger) -> (result: Result<(), TesterError>)
        requires
            self.well_formed(),
            actual.len() == self.commands.len(),
        ensures
            final(logger)@ == old(logger)@ + self.check_outcome(actual.deep_view()).log,
            verdict(result) == self.check_outcome(actual.deep_view()).result,
    {
        if self.verbose {
            return self.check_verbose(actual, logger);
        }
        let expected = owned_lines(&self.expected_responses);
        let commands = owned_lines(&self.commands);
        let found = if self.regex_match {
            RegexMatchAssertion::new(expected).with_commands(commands).verify(actual, logger)
        } else {
            ExactMatchAssertion::new(expected).with_commands(commands).verify(actual, logger)
        };
        match found {
            Ok(_) => Ok(()),
            Err(error) => {
                let suffix = hint_suffix_text(self.hint);
                Err(error.with_suffix(suffix.as_str()))
            },
        }
    }

    /// The second half of a run: reads the responses from what became of the
    /// process and checks them.
    pub fn judge(&self, execution: &Execution, logger: &mut Logger) -> (result: Result<
        (),
        TesterError,
    >)
        ensures
            final(logger)@ == old(logger)@ + self.judge_outcome(execution@).log,
            verdict(result) == self.judge_outcome(execution@).result,
    {
        assert(old(logger)@ + Seq::<Entry>::empty() =~= old(logger)@);
        if self.commands.len() != self.expected_responses.len() {
            return Err(configuration_error(self.commands.len(), self.expected_responses.len()));
        }
        match read_responses(self.commands.len(), execution) {
            Err(error) => {
                if error.is_user() {
                    let suffix = hint_suffix_text(self.hint);
                    Err(error.with_suffix(suffix.as_str()))
                } else {
                    Err(error)
                }
            },
            Ok(responses) => {
                let lines = responses.as_slice();
                assert(lines.deep_view() =~= responses.deep_view());
                self.check(lines, logger)
            },
        }
    }

    /// A whole run, given what became of the process: the first half, and
    /// where that passes, the second.
    pub fn run(&self, execution: &Execution, logger: &mut Logger) -> (result: Result<
        (),
        TesterError,
    >)
        ensures
            final(logger)@ == old(logger)@ + self.run_outcome(execution@).log,
            verdict(result) == self.run_outcome(execution@).result,
    {
        match self.begin(logger) {
            Err(error) => Err(error),
            Ok(_) => {
                let result = self.judge(execution, logger);
                assert(logger@ =~= old(logger)@ + self.run_outcome(execution@).log);
                result
            },
        }
    }
}

/// Builds a `CacheTestCase` step by step.
pub struct CacheTestCaseBuilder {
    description: Option<&'static str>,
    commands: Option<Vec<&'static str>>,
    expected_responses: Option<Vec<&'static str>>,
    hint: Option<&'static str>,
    verbose: bool,
}

impl CacheTestCaseBuilder {
    /// The description given so far.
    pub closed spec fn description_set(&self) -> Option<&'static str> {
        self.description
    }

    /// The commands given so far.
    pub closed spec fn commands_set(&self) -> Option<Vec<&'static str>> {
        self.commands
    }

    /// The expected responses given so far.
    pub closed spec fn expected_set(&self) -> Option<Vec<&'static str>> {
        self.expected_responses
    }

    /// The hint given so far.
    pub closed spec fn hint_set(&self) -> Option<&'static str> {
        self.hint
    }

    /// Whether verbose mode was asked for.
    pub closed spec fn verbose_set(&self) -> bool {
        self.verbose
    }

    /// Whether everything that a test needs was given.
    pub open spec fn complete(&self) -> bool {
        self.description_set() is Some && self.commands_set() is Some && self.expected_set()
            is Some
    }

    /// A builder that has the description and nothing else.
    pub fn new(description: &'static str) -> (builder: Self)
        ensures
            builder.description_set() == Some(description),
            builder.commands_set() == None::<Vec<&'static str>>,
            builder.expected_set() == None::<Vec<&'static str>>,
            builder.hint_set() == None::<&'static str>,
            !builder.verbose_set(),
    {
        Self {
            description: Some(description),
            commands: None,
            expected_responses: None,
            hint: None,
            verbose: false,
        }
    }

    /// Sets the commands.
    pub fn commands(self, commands: Vec<&'static str>) -> (builder: Self)
        ensures
            builder.commands_set() == Some(commands),
            builder.description_set() == self.description_set(),
            builder.expected_set() == self.expected_set(),
            builder.hint_set() == self.hint_set(),
            builder.verbose_set() == self.verbose_set(),
    {
        let mut builder = self;
        builder.commands = Some(commands);
        builder
    }

    /// Sets the expected responses.
    pub fn expect(self, expected_responses: Vec<&'static str>) -> (builder: Self)
        ensures
            builder.expected_set() == Some(expected_responses),
            builder.description_set() == self.description_set(),
            builder.commands_set() == self.commands_set(),
            builder.hint_set() == self.hint_set(),
            builder.verbose_set() == self.verbose_set(),
    {
        let mut builder = self;
        builder.expected_responses = Some(expected_responses);
        builder
    }

    /// Sets the hint.
    pub fn hint(self, hint: &'static str) -> (builder: Self)
        ensures
            builder.hint_set() == Some(hint),
            builder.description_set() == self.description_set(),
            builder.commands_set() == self.commands_set(),
            builder.expected_set() == self.expected_set(),
            builder.verbose_set() == self.verbose_set(),
    {
        let mut builder = self;
        builder.hint = Some(hint);
        builder
    }

    /// Asks for verbose mode.
    pub fn verbose(self) -> (builder: Self)
        ensures
            builder.verbose_set(),
            builder.description_set() == self.description_set(),
            builder.commands_set() == self.commands_set(),
            builder.expected_set() == self.expected_set(),
            builder.hint_set() == self.hint_set(),
    {
        let mut builder = self;
        builder.verbose = true;
        builder
    }

    /// Whether everything that a test needs was given.
    pub fn is_complete(&self) -> (yes: bool)
        ensures
            yes == self.complete(),
    {
        self.description.is_some() && self.commands.is_some() && self.expected_responses.is_some()
    }

    /// The test that was described. It compares for equality.
    pub fn build(self) -> (case: CacheTestCase)
        requires
            self.complete(),
        ensures
            Some(case.description) == self.description_set(),
            Some(case.commands) == self.commands_set(),
            Some(case.expected_responses) == self.expected_set(),
            case.hint == self.hint_set(),
            case.verbose == self.verbose_set(),
            !case.regex_match,
    {
        CacheTestCase {
            description: self.description.unwrap(),
            commands: self.commands.unwrap(),
            expected_responses: self.expected_responses.unwrap(),
            hint: self.hint,
            verbose: self.verbose,
            regex_match: false,
        }
    }
}

/// Several tests that run one after the other.
pub struct MultiCacheTestCase {
    /// The tests, in the order in which they run.
    pub test_cases: Vec<CacheTestCase>,
}

/// What the driver of a batch is to do next.
pub enum BatchStep {
    /// Run the program once with this input, for the test at this index.
    Execute { index: usize, input: String },
    /// Nothing more: the batch ended with this result.
    Finished(Result<(), TesterError>),
}

/// A `BatchStep` as a plain value.
pub enum Step {
    Execute { index: int, input: Seq<char> },
    Finished(Result<(), Failure>),
}

impl View for BatchStep {
    type V = Step;

    open spec fn view(&self) -> Step {
        match self {
            BatchStep::Execute { index, input } => Step::Execute {
                index: *index as int,
                input: input@,
            },
            BatchStep::Finished(result) => Step::Finished(verdict(*result)),
        }
    }
}

/// What a move of the batch comes to: the entries it adds to the log, and
/// what is to be done next.
pub struct Move {
    pub log: Seq<Entry>,
    pub step: Step,
}

/// The secondary prefix under which test number `number` logs, counted from 1.
pub open spec fn batch_prefix(number: nat) -> Seq<char> {
    "test-"@ + decimal(number)
}

/// The line that announces test number `number`, counted from 1.
pub open spec fn batch_notice(number: nat) -> Seq<char> {
    "Running test case: "@ + decimal(number)
}

/// What is logged before test number `number` starts: its prefix is set,
/// and it is announced under that prefix.
pub open spec fn announcement(number: nat) -> Seq<Entry> {
    seq![
        Entry::SecondaryPrefix { prefix: batch_prefix(number) },
        message(LogLevel::Info, batch_notice(number)),
    ]
}

/// What starting the test at `index` comes to. Past the last test the batch
/// has passed. A test that is not well formed ends the batch.
pub open spec fn start_move(cases: Seq<CacheTestCase>, index: int) -> Move {
    if 0 <= index < cases.len() {
        let log = announcement((index + 1) as nat) + cases[index].begin_outcome().log;
        match cases[index].begin_outcome().result {
            Err(failure) => Move { log, step: Step::Finished(Err(failure)) },
            Ok(_) => Move {
                log,
                step: Step::Execute { index, input: input_text(cases[index].commands.deep_view()) },
            },
        }
    } else {
        Move { log: Seq::<Entry>::empty(), step: Step::Finished(Ok(())) }
    }
}

/// What going on after the run for the test at `index` comes to. A failure
/// ends the batch and leaves the prefix of the failed test in force. After a
/// success the prefixes are reset and the next test starts.
pub open spec fn resume_move(cases: Seq<CacheTestCase>, index: int, run: Run) -> Move {
    let judged = cases[index].judge_outcome(run);
    match judged.result {
        Err(failure) => Move { log: judged.log, step: Step::Finished(Err(failure)) },
        Ok(_) => Move {
            log: judged.log + seq![Entry::PrefixesReset] + start_move(cases, index + 1).log,
            step: start_move(cases, index + 1).step,
        },
    }
}

/// What the batch comes to from the test at `index` on, where `runs[i]` is
/// what became of the process for test `i`. The tests run in order; the
/// first failure is the result, and no test after it runs.
pub open spec fn batch_outcome(cases: Seq<CacheTestCase>, runs: Seq<Run>, index: int) -> Outcome
    decreases cases.len() - index,
{
    if 0 <= index < cases.len() {
        let one = cases[index].run_outcome(runs[index]);
        let head = announcement((index + 1) as nat) + one.log;
        match one.result {
            Err(failure) => Outcome { log: head, result: Err(failure) },
            Ok(_) => Outcome {
                log: head + seq![Entry::PrefixesReset] + batch_outcome(cases, runs, index + 1).log,
                result: batch_outcome(cases, runs, index + 1).result,
            },
        }
    } else {
        Outcome { log: Seq::<Entry>::empty(), result: Ok(()) }
    }
}

fn announce(number: usize, logger: &mut Logger)
    ensures
        final(logger)@ == old(logger)@ + announcement(number as nat),
{
    let mut prefix = String::from_str("test-");
    push_decimal(&mut prefix, number as u64);
    logger.update_last_secondary_prefix(prefix.as_str());
    let mut notice = String::from_str("Running test case: ");
    push_decimal(&mut notice, number as u64);
    logger.infof(notice.as_str());
    assert(logger@ =~= old(logger)@ + announcement(number as nat));
}

impl MultiCacheTestCase {
    /// A batch of `test_cases`, to run in that order.
    pub fn new(test_cases: Vec<CacheTestCase>) -> (batch: Self)
        ensures
            batch.test_cases == test_cases,
    {
        Self { test_cases }
    }

    /// Starts the test at `index`, or ends the batch where there is none.
    pub fn start_at(&self, index: usize, logger: &mut Logger) -> (step: BatchStep)
        ensures
            final(logger)@ == old(logger)@ + start_move(self.test_cases@, index as int).log,
            step@ == start_move(self.test_cases@, index as int).step,
    {
        if index >= self.test_cases.len() {
            assert(old(logger)@ + Seq::<Entry>::empty() =~= old(logger)@);
            return BatchStep::Finished(Ok(()));
        }
        announce(index + 1, logger);
        let begun = self.test_cases[index].begin(logger);
        assert(logger@ =~= old(logger)@ + start_move(self.test_cases@, index as int).log);
        match begun {
            Err(error) => BatchStep::Finished(Err(error)),
            Ok(input) => BatchStep::Execute { index, input },
        }
    }

    /// Starts the batch.
    pub fn start(&self, logger: &mut Logger) -> (step: BatchStep)
        ensures
            final(logger)@ == old(logger)@ + start_move(self.test_cases@, 0).log,
            step@ == start_move(self.test_cases@, 0).step,
    {
        self.start_at(0, logger)
    }

    /// Goes on after the run for the test at `index`: judges that test and,
    /// where it passed, starts the next one.
    pub fn resume(&self, index: usize, execution: &Execution, logger: &mut Logger) -> (step:
        BatchStep)
        requires
            index < self.test_cases@.len(),
        ensures
            final(logger)@ == old(logger)@ + resume_move(
                self.test_cases@,
                index as int,
                execution@,
            ).log,
            step@ == resume_move(self.test_cases@, index as int, execution@).step,
    {
        let count = self.test_cases.len();
        assert(index < count);
        match self.test_cases[index].judge(execution, logger) {
            Err(error) => BatchStep::Finished(Err(error)),
            Ok(_) => {
                logger.reset_secondary_prefixes();
                let step = self.start_at(index + 1, logger);
                assert(logger@ =~= old(logger)@ + resume_move(
                    self.test_cases@,
                    index as int,
                    execution@,
                ).log);
                step
            },
        }
    }

    /// The whole batch, given for each test what became of its process.
    pub fn run_all(&self, executions: &[Execution], logger: &mut Logger) -> (result: Result<
        (),
        TesterError,
    >)
        requires
            executions@.len() == self.test_cases@.len(),
        ensures
            final(logger)@ == old(logger)@ + batch_outcome(
                self.test_cases@,
                executions@.map_values(|e: Execution| e@),
                0,
            ).log,
            verdict(result) == batch_outcome(
                self.test_cases@,
                executions@.map_values(|e: Execution| e@),
                0,
            ).result,
    {
        let ghost cases = self.test_cases@;
        let ghost runs = executions@.map_values(|e: Execution| e@);
        let ghost whole = batch_outcome(cases, runs, 0);
        let mut i: usize = 0;
        while i < self.test_cases.len()
            invariant
                i <= self.test_cases.len(),
                cases == self.test_cases@,
                runs == executions@.map_values(|e: Execution| e@),
                executions@.len() == cases.len(),
                whole == batch_outcome(cases, runs, 0),
                old(logger)@ + whole.log == logger@ + batch_outcome(cases, runs, i as int).log,
                whole.result == batch_outcome(cases, runs, i as int).result,
            decreases self.test_cases.len() - i,
        {
            let ghost entered = logger@;
            let ghost one = cases[i as int].run_outcome(runs[i as int]);
            let ghost rest = batch_outcome(cases, runs, i + 1);
            assert(runs[i as int] == executions@[i as int]@);
            announce(i + 1, logger);
            let result = self.test_cases[i].run(&executions[i], logger);
            if result.is_err() {
                assert(logger@ =~= entered + (announcement((i + 1) as nat) + one.log));
                return result;
            }
            logger.reset_secondary_prefixes();
            assert(logger@ + rest.log =~= entered + (announcement((i + 1) as nat) + one.log
                + seq![Entry::PrefixesReset] + rest.log));
            i += 1;
        }
        assert(logger@ + Seq::<Entry>::empty() =~= logger@);
        Ok(())
    }
}

} // verus!
