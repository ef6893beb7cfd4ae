//! A test that is written out step by step: it says what it is about to do,
//! sends its commands, compares the responses one by one and advises on the
//! first that is wrong.

use vstd::prelude::*;
use vstd::string::*;
use crate::assertions::{
    agreeing, exact_line_verdicts, exact_verdicts, lemma_agreeing_at, LineVerdict, Outcome,
};
use crate::error::{verdict, Failure, TesterError};
use crate::helpers::{command_input, input_text, read_responses, responses_of, Execution, Run};
use crate::logger::{message, messages, Entry, LogLevel, Logger};
use crate::text::{decimal, owned_lines, push_decimal};

verus! {

/// A test written out step by step.
pub struct ScriptedTest {
    /// What the test is about; the first line it logs.
    pub title: &'static str,
    /// What the test is about to do, logged before the commands are sent.
    pub steps: Vec<&'static str>,
    /// The commands, in the order in which they are sent.
    pub commands: Vec<&'static str>,
    /// The response expected to each command, in the same order.
    pub expected_responses: Vec<&'static str>,
    /// What follows the message of a failure, on a line of its own.
    pub advice: &'static str,
    /// The line logged when every response was right.
    pub success: &'static str,
    /// What the test has shown, logged after the success line.
    pub notes: Vec<&'static str>,
}

/// The log line for a command that got the expected response. `index` counts from 1.
pub open spec fn checked_line(index: nat, actual: Seq<char>) -> Seq<char> {
    "✓ Command "@ + decimal(index) + ": "@ + actual
}

/// The message for a command that got another response, with the advice
/// behind it. `index` counts from 1.
pub open spec fn failed_message(
    index: nat,
    expected: Seq<char>,
    actual: Seq<char>,
    advice: Seq<char>,
) -> Seq<char> {
    "Command "@ + decimal(index) + " failed: expected '"@ + expected + "', got '"@ + actual
        + "'\n"@ + advice
}

/// The log lines for the first `count` commands, which got the expected responses.
pub open spec fn checked_entries(actual: Seq<Seq<char>>, count: nat) -> Seq<Entry> {
    Seq::new(count, |i: int| message(LogLevel::Debug, checked_line((i + 1) as nat, actual[i])))
}

impl ScriptedTest {
    /// What is logged before the commands are sent: the title, then the steps.
    pub open spec fn begin_log(&self) -> Seq<Entry> {
        seq![message(LogLevel::Info, self.title@)] + messages(
            LogLevel::Debug,
            self.steps.deep_view(),
        )
    }

    /// What comparing `actual` with the expected responses comes to. The
    /// lines that both sides have are compared in order. The first that
    /// differs fails the test, after a log line for each one before it. Where
    /// none differs the test passes, and logs its success and its notes.
    pub open spec fn compare_outcome(&self, actual: Seq<Seq<char>>) -> Outcome {
        let expected = self.expected_responses.deep_view();
        let verdicts = exact_verdicts(expected, actual);
        let k = agreeing(verdicts) as int;
        let shown = checked_entries(actual, k as nat);
        if k < verdicts.len() {
            Outcome {
                log: shown,
                result: Err(
                    Failure::User(
                        failed_message((k + 1) as nat, expected[k], actual[k], self.advice@),
                    ),
                ),
            }
        } else {
            Outcome {
                log: shown + seq![message(LogLevel::Success, self.success@)] + messages(
                    LogLevel::Debug,
                    self.notes.deep_view(),
                ),
                result: Ok(()),
            }
        }
    }

    /// What the second half of a run comes to, given what became of the
    /// process: a failure to get the responses is the test's failure, with
    /// nothing logged; else the responses are compared.
    pub open spec fn judge_outcome(&self, run: Run) -> Outcome {
        match responses_of(self.commands@.len(), run) {
            Err(failure) => Outcome { log: Seq::<Entry>::empty(), result: Err(failure) },
            Ok(lines) => self.compare_outcome(lines),
        }
    }

    /// The first half of a run: logs the title and the steps, and gives the
    /// input to write to the process.
    pub fn begin(&self, logger: &mut Logger) -> (input: String)
        ensures
            final(logger)@ == old(logger)@ + self.begin_log(),
            input@ == input_text(self.commands.deep_view()),
    {
        logger.infof(self.title);
        logger.log_each(LogLevel::Debug, &self.steps);
        assert(logger@ =~= old(logger)@ + self.begin_log());
        let commands = self.commands.as_slice();
        assert(commands.deep_view() =~= self.commands.deep_view());
        command_input(commands)
    }

    /// The second half of a run: reads the responses from what became of the
    /// process and compares them with the expected ones.
    pub fn judge(&self, execution: &Execution, logger: &mut Logger) -> (result: Result<
        (),
        TesterError,
    >)
        ensures
            final(logger)@ == old(logger)@ + self.judge_outcome(execution@).log,
            verdict(result) == self.judge_outcome(execution@).result,
    {
        assert(old(logger)@ + Seq::<Entry>::empty() =~= old(logger)@);
        let responses = match read_responses(self.commands.len(), execution) {
            Err(error) => {
                return Err(error);
            },
            Ok(responses) => responses,
        };
        let actual = responses.as_slice();
        assert(actual.deep_view() =~= responses.deep_view());
        let expected = owned_lines(&self.expected_responses);
        let verdicts = exact_line_verdicts(&expected, actual);
        let ghost a = actual.deep_view();
        let ghost e = self.expected_responses.deep_view();
        let ghost before = logger@;
        let mut i: usize = 0;
        assert(before + checked_entries(a, 0) =~= before);
        while i < verdicts.len()
            invariant
                i <= verdicts.len(),
                a == actual.deep_view(),
                e == self.expected_responses.deep_view(),
                e == expected.deep_view(),
                verdicts@ == exact_verdicts(e, a),
                before == old(logger)@,
                responses_of(self.commands@.len(), execution@) == Ok::<Seq<Seq<char>>, Failure>(a),
                forall|j: int| 0 <= j < i ==> verdicts@[j] == LineVerdict::Matches,
                logger@ == before + checked_entries(a, i as nat),
            decreases verdicts.len() - i,
        {
            assert(a[i as int] == actual[i as int]@);
            assert(e[i as int] == self.expected_responses[i as int]@);
            match verdicts[i] {
                LineVerdict::Matches => {
                    let mut line = String::from_str("✓ Command ");
                    push_decimal(&mut line, (i + 1) as u64);
                    line.append(": ");
                    line.append(actual[i].as_str());
                    logger.debugf(line.as_str());
                    assert(logger@ =~= before + checked_entries(a, (i + 1) as nat));
                },
                _ => {
                    proof {
                        lemma_agreeing_at(verdicts@, i as int);
                    }
                    let mut text = String::from_str("Command ");
                    push_decimal(&mut text, (i + 1) as u64);
                    text.append(" failed: expected '");
                    text.append(self.expected_responses[i]);
                    text.append("', got '");
                    text.append(actual[i].as_str());
                    text.append("'\n");
                    text.append(self.advice);
                    return Err(TesterError::User(text));
                },
            }
            i += 1;
        }
        proof {
            lemma_agreeing_at(verdicts@, i as int);
        }
        logger.successf(self.success);
        logger.log_each(LogLevel::Debug, &self.notes);
        assert(logger@ =~= before + self.compare_outcome(a).log);
        Ok(())
    }
}

} // verus!
