//! A test that runs one test case several times over, round by round, and
//! stops at the first round that fails.

use vstd::prelude::*;
use vstd::string::*;
use crate::helpers::{input_text, Execution, Run};
use crate::logger::{message, LogLevel, Logger};
use crate::test_case::{BatchStep, CacheTestCase, Move, Step};
use crate::text::{decimal, push_decimal};

verus! {

/// One test case, run for a number of rounds.
pub struct RepeatedTest {
    /// What the test is about; the first line it logs.
    pub title: &'static str,
    /// How many rounds there are.
    pub rounds: usize,
    /// The test case that each round runs.
    pub case: CacheTestCase,
    /// The line logged when every round passed.
    pub success: &'static str,
}

/// The log line that opens round `round` of `rounds`, counted from 1.
pub open spec fn round_line(round: nat, rounds: nat) -> Seq<char> {
    "Round "@ + decimal(round) + "/"@ + decimal(rounds)
}

impl RepeatedTest {
    /// What starting the round at `index` comes to, counted from 0. Past the
    /// last round the test has passed, and says so. A test case that is not
    /// well formed ends the test.
    pub open spec fn round_move(&self, index: int) -> Move {
        if 0 <= index < self.rounds {
            let log = seq![
                message(LogLevel::Debug, round_line((index + 1) as nat, self.rounds as nat)),
            ] + self.case.begin_outcome().log;
            match self.case.begin_outcome().result {
                Err(failure) => Move { log, step: Step::Finished(Err(failure)) },
                Ok(_) => Move {
                    log,
                    step: Step::Execute { index, input: input_text(self.case.commands.deep_view()) },
                },
            }
        } else {
            Move {
                log: seq![message(LogLevel::Success, self.success@)],
                step: Step::Finished(Ok(())),
            }
        }
    }

    /// What starting the test comes to: the title is logged and the first
    /// round starts.
    pub open spec fn start_move(&self) -> Move {
        Move {
            log: seq![message(LogLevel::Info, self.title@)] + self.round_move(0).log,
            step: self.round_move(0).step,
        }
    }

    /// What going on after the run of the round at `index` comes to. A
    /// failure ends the test. After a success the next round starts.
    pub open spec fn resume_move(&self, index: int, run: Run) -> Move {
        let judged = self.case.judge_outcome(run);
        match judged.result {
            Err(failure) => Move { log: judged.log, step: Step::Finished(Err(failure)) },
            Ok(_) => Move {
                log: judged.log + self.round_move(index + 1).log,
                step: self.round_move(index + 1).step,
            },
        }
    }

    fn start_round(&self, index: usize, logger: &mut Logger) -> (step: BatchStep)
        ensures
            final(logger)@ == old(logger)@ + self.round_move(index as int).log,
            step@ == self.round_move(index as int).step,
    {
        if index >= self.rounds {
            logger.successf(self.success);
            assert(logger@ =~= old(logger)@ + self.round_move(index as int).log);
            return BatchStep::Finished(Ok(()));
        }
        let mut line = String::from_str("Round ");
        push_decimal(&mut line, (index + 1) as u64);
        line.append("/");
        push_decimal(&mut line, self.rounds as u64);
        logger.debugf(line.as_str());
        let begun = self.case.begin(logger);
        assert(logger@ =~= old(logger)@ + self.round_move(index as int).log);
        match begun {
            Err(error) => BatchStep::Finished(Err(error)),
            Ok(input) => BatchStep::Execute { index, input },
        }
    }

    /// Starts the test.
    pub fn start(&self, logger: &mut Logger) -> (step: BatchStep)
        ensures
            final(logger)@ == old(logger)@ + self.start_move().log,
            step@ == self.start_move().step,
    {
        logger.infof(self.title);
        let step = self.start_round(0, logger);
        assert(logger@ =~= old(logger)@ + self.start_move().log);
        step
    }

    /// Goes on after the run of the round at `index`: judges it and, where it
    /// passed, starts the next round.
    pub fn resume(&self, index: usize, execution: &Execution, logger: &mut Logger) -> (step:
        BatchStep)
        requires
            index < self.rounds,
        ensures
            final(logger)@ == old(logger)@ + self.resume_move(index as int, execution@).log,
            step@ == self.resume_move(index as int, execution@).step,
    {
        match self.case.judge(execution, logger) {
            Err(error) => BatchStep::Finished(Err(error)),
            Ok(_) => {
                let step = self.start_round(index + 1, logger);
                assert(logger@ =~= old(logger)@ + self.resume_move(index as int, execution@).log);
                step
            },
        }
    }
}

} // verus!
