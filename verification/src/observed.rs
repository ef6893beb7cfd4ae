//! A test that only observes: it sends its commands and logs what came
//! back, and fails only where no responses could be had.

use vstd::prelude::*;
use vstd::string::*;
use crate::assertions::Outcome;
use crate::error::{verdict, TesterError};
use crate::helpers::{
    command_input, debug_list, input_text, read_responses, render_debug, responses_of, Execution,
    Run,
};
use crate::logger::{message, Entry, LogLevel, Logger};
use crate::text::{contains, contains_text};

verus! {

/// What an observing test remarks on, beyond the responses themselves.
pub enum Remark {
    /// Nothing.
    Nothing,
    /// The responses ought to signal an error. Where none does, `warning` is
    /// logged with the responses behind it. A process that gave no responses
    /// is an answer too: `on_exit` is logged and the test passes.
    ErrorsExpected { warning: &'static str, on_exit: &'static str },
    /// The response at `index` is compared with `value`: `same` is logged
    /// where they are equal, `other` where they are not.
    Compare { index: usize, value: &'static str, same: &'static str, other: &'static str },
}

/// A test that only observes.
pub struct ObservedTest {
    /// What the test is about; the first line it logs.
    pub title: &'static str,
    /// The commands, in the order in which they are sent.
    pub commands: Vec<&'static str>,
    /// What is remarked on.
    pub remark: Remark,
    /// The line logged at the end.
    pub success: &'static str,
}

/// Whether a response signals an error: it holds `ERROR` or `FAIL`, or it is `NULL`.
pub open spec fn signals_error(line: Seq<char>) -> bool {
    contains(line, "ERROR"@) || contains(line, "FAIL"@) || line == "NULL"@
}

/// Whether one of the responses signals an error.
pub open spec fn any_signals_error(lines: Seq<Seq<char>>) -> bool {
    exists|i: int| 0 <= i < lines.len() && signals_error(#[trigger] lines[i])
}

/// The log line for the responses, where `shown` shows them.
pub open spec fn responses_line(shown: Seq<char>) -> Seq<char> {
    "Responses: "@ + shown
}

/// What is logged for the remark, given the responses and the text `shown`
/// that shows them.
pub open spec fn remark_entries(remark: Remark, lines: Seq<Seq<char>>, shown: Seq<char>) -> Seq<
    Entry,
> {
    match remark {
        Remark::Nothing => Seq::<Entry>::empty(),
        Remark::ErrorsExpected { warning, .. } => if any_signals_error(lines) {
            Seq::<Entry>::empty()
        } else {
            seq![message(LogLevel::Debug, warning@ + shown)]
        },
        Remark::Compare { index, value, same, other } => if index < lines.len() {
            seq![
                message(
                    LogLevel::Debug,
                    if lines[index as int] == value@ {
                        same@
                    } else {
                        other@
                    },
                ),
            ]
        } else {
            Seq::<Entry>::empty()
        },
    }
}

impl ObservedTest {
    /// What is logged for responses that were had, where `shown` shows
    /// them: the responses, then what the remark calls for, then the success
    /// line.
    pub open spec fn report_log(&self, lines: Seq<Seq<char>>, shown: Seq<char>) -> Seq<Entry> {
        seq![message(LogLevel::Debug, responses_line(shown))] + remark_entries(
            self.remark,
            lines,
            shown,
        ) + seq![message(LogLevel::Success, self.success@)]
    }

    /// What the second half of a run comes to, given what became of the
    /// process. With responses the test passes, and logs them as they are
    /// rendered for debugging. Without responses the test fails with the
    /// failure to get them, unless it expects errors.
    pub open spec fn judge_outcome(&self, run: Run) -> Outcome {
        match responses_of(self.commands@.len(), run) {
            Err(failure) => match self.remark {
                Remark::ErrorsExpected { on_exit, .. } => Outcome {
                    log: seq![
                        message(LogLevel::Debug, on_exit@),
                        message(LogLevel::Success, self.success@),
                    ],
                    result: Ok(()),
                },
                _ => Outcome { log: Seq::<Entry>::empty(), result: Err(failure) },
            },
            Ok(lines) => Outcome { log: self.report_log(lines, debug_list(lines)), result: Ok(()) },
        }
    }

    /// The first half of a run: logs the title and gives the input to write
    /// to the process.
    pub fn begin(&self, logger: &mut Logger) -> (input: String)
        ensures
            final(logger)@ == old(logger)@.push(message(LogLevel::Info, self.title@)),
            input@ == input_text(self.commands.deep_view()),
    {
        logger.infof(self.title);
        let commands = self.commands.as_slice();
        assert(commands.deep_view() =~= self.commands.deep_view());
        command_input(commands)
    }

    /// Logs the responses that were had, where `shown` shows them, and what
    /// the remark calls for.
    pub fn report(&self, responses: &Vec<String>, shown: &str, logger: &mut Logger)
        ensures
            final(logger)@ == old(logger)@ + self.report_log(responses.deep_view(), shown@),
    {
        let ghost lines = responses.deep_view();
        let mut line = String::from_str("Responses: ");
        line.append(shown);
        logger.debugf(line.as_str());
        let ghost said = logger@;
        match self.remark {
            Remark::Nothing => {},
            Remark::ErrorsExpected { warning, on_exit: _ } => {
                if !one_signals_error(responses) {
                    let mut text = String::from_str(warning);
                    text.append(shown);
                    logger.debugf(text.as_str());
                }
            },
            Remark::Compare { index, value, same, other } => {
                if index < responses.len() {
                    assert(lines[index as int] == responses[index as int]@);
                    if same_text(responses[index].as_str(), value) {
                        logger.debugf(same);
                    } else {
                        logger.debugf(other);
                    }
                }
            },
        }
        assert(logger@ =~= said + remark_entries(self.remark, lines, shown@));
        logger.successf(self.success);
        assert(logger@ =~= old(logger)@ + self.report_log(lines, shown@));
    }

    /// The second half of a run: logs what came back.
    pub fn judge(&self, execution: &Execution, logger: &mut Logger) -> (result: Result<
        (),
        TesterError,
    >)
        ensures
            final(logger)@ == old(logger)@ + self.judge_outcome(execution@).log,
            verdict(result) == self.judge_outcome(execution@).result,
    {
        let responses = match read_responses(self.commands.len(), execution) {
            Err(error) => {
                match self.remark {
                    Remark::ErrorsExpected { warning: _, on_exit } => {
                        logger.debugf(on_exit);
                        logger.successf(self.success);
                        assert(logger@ =~= old(logger)@ + self.judge_outcome(execution@).log);
                        return Ok(());
                    },
                    _ => {
                        assert(old(logger)@ + Seq::<Entry>::empty() =~= old(logger)@);
                        return Err(error);
                    },
                }
            },
            Ok(responses) => responses,
        };
        let shown = render_debug(&responses);
        self.report(&responses, shown.as_str(), logger);
        Ok(())
    }
}

/// Whether two texts are the same.
pub fn same_text(left: &str, right: &str) -> (same: bool)
    ensures
        same == (left@ == right@),
{
    let a = String::from_str(left);
    let b = String::from_str(right);
    a == b
}

/// Whether one of the responses signals an error.
pub fn one_signals_error(responses: &Vec<String>) -> (found: bool)
    ensures
        found == any_signals_error(responses.deep_view()),
{
    let ghost lines = responses.deep_view();
    let mut i: usize = 0;
    while i < responses.len()
        invariant
            i <= responses.len(),
            lines == responses.deep_view(),
            forall|j: int| 0 <= j < i ==> !signals_error(#[trigger] lines[j]),
        decreases responses.len() - i,
    {
        assert(lines[i as int] == responses[i as int]@);
        let response = responses[i].as_str();
        if contains_text(response, "ERROR") || contains_text(response, "FAIL") || same_text(
            response,
            "NULL",
        ) {
            assert(signals_error(lines[i as int]));
            return true;
        }
        i += 1;
    }
    false
}

} // verus!
