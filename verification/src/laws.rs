//! What holds of the checks for all inputs.

use vstd::prelude::*;
use crate::assertions::{
    agreeing, compared, exact_outcome, exact_verdicts, extra_line, extra_message, hint_suffix,
    lemma_agreeing_at, mismatch_line, mismatch_message, missing_line, missing_message,
    pattern_outcome, success_line, summary_line, walk_outcome, LineVerdict, Outcome,
};
use crate::error::Failure;
use crate::helpers::{input_text, responses_of, utf8_lossy, Run};
use crate::logger::{message, prefix_in_force, Entry, LogLevel};
use crate::test_case::{
    announcement, batch_notice, batch_outcome, batch_prefix, hint_text, resume_move, start_move,
    verbose_message, CacheTestCase, Step,
};
use crate::text::{join_lines, lemma_lines_of_join_lines, lines_of, single_line};

verus! {

/// Where the first `k` lines of both sides are equal and the sides part at
/// line `k` (one of them ends there, or the lines differ), `k` lines agree.
pub proof fn lemma_exact_agreeing(expected: Seq<Seq<char>>, actual: Seq<Seq<char>>, k: int)
    requires
        0 <= k <= expected.len(),
        k <= actual.len(),
        forall|j: int| 0 <= j < k ==> actual[j] == expected[j],
        k < expected.len() && k < actual.len() ==> actual[k] != expected[k],
    ensures
        agreeing(exact_verdicts(expected, actual)) == k,
{
    lemma_agreeing_at(exact_verdicts(expected, actual), k);
}

/// A program that answers with exactly the expected lines passes, and the
/// log gets the summary line and nothing else.
pub proof fn lemma_echo_passes(expected: Seq<Seq<char>>, hints: Option<Seq<Seq<char>>>)
    ensures
        exact_outcome(expected, hints, expected).result == Ok::<(), Failure>(()),
        exact_outcome(expected, hints, expected).log == seq![
            message(LogLevel::Success, summary_line(expected.len())),
        ],
{
    lemma_exact_agreeing(expected, expected, expected.len() as int);
}

/// Where the responses equal the expected lines before line `i` and differ
/// at line `i`, the failure names line `i + 1` with the expected and the
/// received text, and the log shows the `i` lines that matched, in order,
/// and then the line that did not.
pub proof fn lemma_first_mismatch_reported(
    expected: Seq<Seq<char>>,
    hints: Option<Seq<Seq<char>>>,
    actual: Seq<Seq<char>>,
    i: int,
)
    requires
        0 <= i < expected.len(),
        i < actual.len(),
        forall|j: int| 0 <= j < i ==> actual[j] == expected[j],
        actual[i] != expected[i],
    ensures
        exact_outcome(expected, hints, actual).result == Err::<(), Failure>(
            Failure::User(mismatch_message((i + 1) as nat, expected[i], actual[i])),
        ),
        exact_outcome(expected, hints, actual).log.len() == i + 1,
        forall|j: int|
            0 <= j < i ==> exact_outcome(expected, hints, actual).log[j] == message(
                LogLevel::Success,
                success_line(actual[j], hint_suffix(hints, j)),
            ),
        exact_outcome(expected, hints, actual).log[i] == message(
            LogLevel::Error,
            mismatch_line(actual[i], hint_suffix(hints, i)),
        ),
{
    lemma_exact_agreeing(expected, actual, i);
}

/// Where fewer responses came than were expected and those that came are
/// the expected ones, the failure names the first line that is missing,
/// counted from 1, the text expected there, and how many responses came.
pub proof fn lemma_missing_response_reported(
    expected: Seq<Seq<char>>,
    hints: Option<Seq<Seq<char>>>,
    actual: Seq<Seq<char>>,
)
    requires
        actual.len() < expected.len(),
        forall|j: int| 0 <= j < actual.len() ==> actual[j] == expected[j],
    ensures
        exact_outcome(expected, hints, actual).result == Err::<(), Failure>(
            Failure::User(
                missing_message(
                    (actual.len() + 1) as nat,
                    expected[actual.len() as int],
                    actual.len(),
                ),
            ),
        ),
        exact_outcome(expected, hints, actual).log.len() == actual.len() + 1,
        exact_outcome(expected, hints, actual).log[actual.len() as int] == message(
            LogLevel::Error,
            missing_line(expected[actual.len() as int], hint_suffix(hints, actual.len() as int)),
        ),
{
    lemma_exact_agreeing(expected, actual, actual.len() as int);
}

/// Where more responses came than were expected and the first ones are the
/// expected ones, the failure gives both counts and the first response that
/// is too many, as it was received.
pub proof fn lemma_extra_response_reported(
    expected: Seq<Seq<char>>,
    hints: Option<Seq<Seq<char>>>,
    actual: Seq<Seq<char>>,
)
    requires
        actual.len() > expected.len(),
        forall|j: int| 0 <= j < expected.len() ==> actual[j] == expected[j],
    ensures
        exact_outcome(expected, hints, actual).result == Err::<(), Failure>(
            Failure::User(
                extra_message(expected.len(), actual.len(), actual[expected.len() as int]),
            ),
        ),
        exact_outcome(expected, hints, actual).log.len() == expected.len() + 1,
        exact_outcome(expected, hints, actual).log[expected.len() as int] == message(
            LogLevel::Error,
            extra_line(actual[expected.len() as int]),
        ),
{
    lemma_exact_agreeing(expected, actual, expected.len() as int);
}

/// Whatever decides the verdicts, equality or patterns: where the first `i`
/// lines match and line `i` differs, the failure names line `i + 1` with the
/// expected and the received text, and the log shows the `i` lines that
/// matched and then the line that did not.
pub proof fn lemma_walk_reports_first_difference(
    expected: Seq<Seq<char>>,
    hints: Option<Seq<Seq<char>>>,
    actual: Seq<Seq<char>>,
    verdicts: Seq<LineVerdict>,
    i: int,
)
    requires
        verdicts.len() == compared(expected, actual),
        0 <= i < verdicts.len(),
        forall|j: int| 0 <= j < i ==> verdicts[j] == LineVerdict::Matches,
        verdicts[i] == LineVerdict::Differs,
    ensures
        walk_outcome(expected, hints, actual, verdicts).result == Err::<(), Failure>(
            Failure::User(mismatch_message((i + 1) as nat, expected[i], actual[i])),
        ),
        walk_outcome(expected, hints, actual, verdicts).log.len() == i + 1,
        forall|j: int|
            0 <= j < i ==> walk_outcome(expected, hints, actual, verdicts).log[j] == message(
                LogLevel::Success,
                success_line(actual[j], hint_suffix(hints, j)),
            ),
        walk_outcome(expected, hints, actual, verdicts).log[i] == message(
            LogLevel::Error,
            mismatch_line(actual[i], hint_suffix(hints, i)),
        ),
{
    lemma_agreeing_at(verdicts, i);
}

/// A check passes only where as many responses came as were expected and
/// every one of them got the verdict `Matches`.
pub proof fn lemma_pass_means_all_match(
    expected: Seq<Seq<char>>,
    hints: Option<Seq<Seq<char>>>,
    actual: Seq<Seq<char>>,
    verdicts: Seq<LineVerdict>,
)
    requires
        verdicts.len() == compared(expected, actual),
    ensures
        walk_outcome(expected, hints, actual, verdicts).result is Ok <==> (expected.len()
            == actual.len() && forall|j: int|
            0 <= j < verdicts.len() ==> verdicts[j] == LineVerdict::Matches),
{
    lemma_agreeing_bounds(verdicts);
    if expected.len() == actual.len() && forall|j: int|
        0 <= j < verdicts.len() ==> verdicts[j] == LineVerdict::Matches {
        lemma_agreeing_at(verdicts, verdicts.len() as int);
    }
}

/// The verdicts that agree are a prefix: all of them are `Matches`, and the
/// one after them, if there is one, is not.
pub proof fn lemma_agreeing_bounds(verdicts: Seq<LineVerdict>)
    ensures
        agreeing(verdicts) <= verdicts.len(),
        forall|j: int| 0 <= j < agreeing(verdicts) ==> verdicts[j] == LineVerdict::Matches,
        agreeing(verdicts) < verdicts.len() ==> verdicts[agreeing(verdicts) as int]
            != LineVerdict::Matches,
    decreases verdicts.len(),
{
    if verdicts.len() > 0 && verdicts[0] == LineVerdict::Matches {
        let rest = verdicts.drop_first();
        lemma_agreeing_bounds(rest);
        assert forall|j: int| 0 <= j < agreeing(verdicts) implies verdicts[j]
            == LineVerdict::Matches by {
            if j > 0 {
                assert(verdicts[j] == rest[j - 1]);
            }
        }
        if agreeing(verdicts) < verdicts.len() {
            assert(verdicts[agreeing(verdicts) as int] == rest[agreeing(rest) as int]);
        }
    }
}

/// Every entry is a message: none sets or resets a prefix.
pub open spec fn only_messages(entries: Seq<Entry>) -> bool {
    forall|i: int| 0 <= i < entries.len() ==> entries[i] is Message
}

/// Messages do not change which prefix is in force.
pub proof fn lemma_messages_keep_prefix(entries: Seq<Entry>, more: Seq<Entry>)
    requires
        only_messages(more),
    ensures
        prefix_in_force(entries + more) == prefix_in_force(entries),
    decreases more.len(),
{
    if more.len() == 0 {
        assert(entries + more =~= entries);
    } else {
        let shorter = more.drop_last();
        assert(only_messages(shorter)) by {
            assert forall|i: int| 0 <= i < shorter.len() implies shorter[i] is Message by {
                assert(shorter[i] == more[i]);
            }
        }
        lemma_messages_keep_prefix(entries, shorter);
        assert((entries + more).drop_last() =~= entries + shorter);
        assert((entries + more).last() == more.last());
        assert(more.last() is Message);
    }
}

/// A test logs messages and nothing else, whatever became of the process.
pub proof fn lemma_case_logs_only_messages(case: CacheTestCase, run: Run)
    ensures
        only_messages(case.begin_outcome().log),
        only_messages(case.judge_outcome(run).log),
        only_messages(case.run_outcome(run).log),
{
    assert(only_messages(case.begin_outcome().log));
    assert(only_messages(case.judge_outcome(run).log)) by {
        if case.well_formed() {
            match responses_of(case.commands@.len(), run) {
                Err(_) => {},
                Ok(lines) => {
                    assert(only_messages(case.check_outcome(lines).log));
                },
            }
        }
    }
}

/// A test that is well formed and compares for equality passes where the
/// output of the process, read as text, is the expected responses, each
/// followed by a newline, and the process ended with code 0. This holds in
/// the quiet and in the verbose mode, for expected responses that are single
/// lines.
pub proof fn lemma_compliant_program_passes(case: CacheTestCase, run: Run)
    requires
        case.well_formed(),
        !case.regex_match,
        forall|i: int|
            0 <= i < case.expected_responses@.len() ==> single_line(
                #[trigger] case.expected_responses.deep_view()[i],
            ),
        run matches Run::Completed { exit_code, stdout, .. } && exit_code == 0 && utf8_lossy(stdout)
            == join_lines(case.expected_responses.deep_view()),
    ensures
        case.judge_outcome(run).result == Ok::<(), Failure>(()),
        case.run_outcome(run).result == Ok::<(), Failure>(()),
{
    let expected = case.expected_responses.deep_view();
    lemma_lines_of_join_lines(expected);
    assert(responses_of(case.commands@.len(), run) == Ok::<Seq<Seq<char>>, Failure>(expected));
    lemma_exact_agreeing(expected, expected, expected.len() as int);
}

/// A test with no commands and no expected responses asks for an input of
/// one newline, and passes where the process ends with code 0 and no output.
pub proof fn lemma_nothing_to_compare_passes(case: CacheTestCase, run: Run)
    requires
        case.commands@.len() == 0,
        case.expected_responses@.len() == 0,
        run matches Run::Completed { exit_code, stdout, .. } && exit_code == 0 && utf8_lossy(stdout)
            == Seq::<char>::empty(),
    ensures
        input_text(case.commands.deep_view()) == seq!['\n'],
        case.run_outcome(run).result == Ok::<(), Failure>(()),
{
    let expected = case.expected_responses.deep_view();
    assert(lines_of(Seq::<char>::empty()) =~= Seq::<Seq<char>>::empty());
    assert(responses_of(case.commands@.len(), run) == Ok::<Seq<Seq<char>>, Failure>(
        Seq::<Seq<char>>::empty(),
    ));
    assert(case.verdicts(Seq::<Seq<char>>::empty()).len() == 0);
    lemma_agreeing_at(case.verdicts(Seq::<Seq<char>>::empty()), 0);
}

/// The quiet and the verbose mode pass on the same responses: two tests that
/// differ in nothing but the mode both pass or both fail.
pub proof fn lemma_modes_agree(quiet: CacheTestCase, verbose: CacheTestCase, run: Run)
    requires
        !quiet.verbose,
        verbose.verbose,
        quiet.description == verbose.description,
        quiet.commands == verbose.commands,
        quiet.expected_responses == verbose.expected_responses,
        quiet.hint == verbose.hint,
        quiet.regex_match == verbose.regex_match,
    ensures
        quiet.run_outcome(run).result is Ok <==> verbose.run_outcome(run).result is Ok,
{
    if quiet.well_formed() {
        match responses_of(quiet.commands@.len(), run) {
            Err(_) => {},
            Ok(lines) => {
                let expected = quiet.expected_responses.deep_view();
                let verdicts = quiet.verdicts(lines);
                assert(verdicts == verbose.verdicts(lines));
                lemma_pass_means_all_match(expected, Some(quiet.commands.deep_view()), lines, verdicts);
                lemma_agreeing_bounds(verdicts);
                if forall|j: int| 0 <= j < verdicts.len() ==> verdicts[j] == LineVerdict::Matches {
                    lemma_agreeing_at(verdicts, verdicts.len() as int);
                }
            },
        }
    }
}

/// Where `tail` holds an entry that is not a message, the prefix in force
/// after `front + tail` is the one that `tail` alone leaves.
pub proof fn lemma_prefix_decided_by_tail(front: Seq<Entry>, tail: Seq<Entry>)
    requires
        exists|i: int| 0 <= i < tail.len() && !(tail[i] is Message),
    ensures
        prefix_in_force(front + tail) == prefix_in_force(tail),
    decreases tail.len(),
{
    let i = choose|i: int| 0 <= i < tail.len() && !(tail[i] is Message);
    assert((front + tail).last() == tail.last());
    match tail.last() {
        Entry::Message { .. } => {
            assert((front + tail).drop_last() =~= front + tail.drop_last());
            assert(tail.drop_last()[i] == tail[i]);
            lemma_prefix_decided_by_tail(front, tail.drop_last());
        },
        _ => {},
    }
}

/// A batch fails with the failure of the first test that fails, and then
/// the prefix of that test is still in force.
pub proof fn lemma_batch_stops_at_first_failure(
    cases: Seq<CacheTestCase>,
    runs: Seq<Run>,
    from: int,
    failing: int,
)
    requires
        runs.len() == cases.len(),
        0 <= from <= failing < cases.len(),
        forall|j: int| from <= j < failing ==> cases[j].run_outcome(runs[j]).result is Ok,
        cases[failing].run_outcome(runs[failing]).result is Err,
    ensures
        batch_outcome(cases, runs, from).result == cases[failing].run_outcome(
            runs[failing],
        ).result,
        prefix_in_force(batch_outcome(cases, runs, from).log) == Some(
            batch_prefix((failing + 1) as nat),
        ),
        batch_outcome(cases, runs, from).log.len() > 0,
        !(batch_outcome(cases, runs, from).log[0] is Message),
    decreases failing - from,
{
    let one = cases[from].run_outcome(runs[from]);
    let whole = batch_outcome(cases, runs, from).log;
    lemma_case_logs_only_messages(cases[from], runs[from]);
    if from == failing {
        let set = seq![Entry::SecondaryPrefix { prefix: batch_prefix((from + 1) as nat) }];
        let said = seq![message(LogLevel::Info, batch_notice((from + 1) as nat))] + one.log;
        assert(whole =~= set + said);
        assert(only_messages(said));
        lemma_messages_keep_prefix(set, said);
        assert(set.last() == Entry::SecondaryPrefix { prefix: batch_prefix((from + 1) as nat) });
        assert(prefix_in_force(set) == Some(batch_prefix((from + 1) as nat)));
    } else {
        lemma_batch_stops_at_first_failure(cases, runs, from + 1, failing);
        let rest = batch_outcome(cases, runs, from + 1).log;
        let front = announcement((from + 1) as nat) + one.log + seq![Entry::PrefixesReset];
        assert(whole =~= front + rest);
        assert(!(rest[0] is Message));
        lemma_prefix_decided_by_tail(front, rest);
    }
}

/// A batch of tests that all pass passes, and where it has any test, no
/// prefix is in force after it.
pub proof fn lemma_batch_of_passing_tests_passes(
    cases: Seq<CacheTestCase>,
    runs: Seq<Run>,
    from: int,
)
    requires
        runs.len() == cases.len(),
        0 <= from <= cases.len(),
        forall|j: int| from <= j < cases.len() ==> cases[j].run_outcome(runs[j]).result is Ok,
    ensures
        batch_outcome(cases, runs, from).result == Ok::<(), Failure>(()),
        from < cases.len() ==> prefix_in_force(batch_outcome(cases, runs, from).log) == None::<
            Seq<char>,
        >,
        from < cases.len() ==> batch_outcome(cases, runs, from).log.len() > 0 && !(batch_outcome(
            cases,
            runs,
            from,
        ).log[0] is Message),
    decreases cases.len() - from,
{
    if from < cases.len() {
        lemma_batch_of_passing_tests_passes(cases, runs, from + 1);
        let one = cases[from].run_outcome(runs[from]);
        let whole = batch_outcome(cases, runs, from).log;
        let rest = batch_outcome(cases, runs, from + 1).log;
        let front = announcement((from + 1) as nat) + one.log + seq![Entry::PrefixesReset];
        assert(whole =~= front + rest);
        if from + 1 < cases.len() {
            assert(!(rest[0] is Message));
            lemma_prefix_decided_by_tail(front, rest);
        } else {
            assert(rest =~= Seq::<Entry>::empty());
            assert(whole.last() == Entry::PrefixesReset);
        }
    }
}

/// Running one test twice in a row against a program that complies passes
/// both times: nothing of the first run reaches the second.
pub proof fn lemma_second_run_passes_too(case: CacheTestCase, run: Run)
    requires
        case.run_outcome(run).result is Ok,
    ensures
        batch_outcome(seq![case, case], seq![run, run], 0).result == Ok::<(), Failure>(()),
{
    lemma_batch_of_passing_tests_passes(seq![case, case], seq![run, run], 0);
}

/// What a driver gets that goes on step by step after the run for the test
/// at `index`, until the batch has finished, where `runs[i]` is what became
/// of the process for test `i`.
pub open spec fn followed(cases: Seq<CacheTestCase>, runs: Seq<Run>, index: int) -> Outcome
    decreases cases.len() - index,
{
    if 0 <= index < cases.len() {
        let moved = resume_move(cases, index, runs[index]);
        match moved.step {
            Step::Finished(result) => Outcome { log: moved.log, result },
            Step::Execute { .. } => Outcome {
                log: moved.log + followed(cases, runs, index + 1).log,
                result: followed(cases, runs, index + 1).result,
            },
        }
    } else {
        Outcome { log: Seq::<Entry>::empty(), result: Ok(()) }
    }
}

/// What a driver gets that starts the test at `index` and goes on step by
/// step until the batch has finished.
pub open spec fn stepped(cases: Seq<CacheTestCase>, runs: Seq<Run>, index: int) -> Outcome {
    let moved = start_move(cases, index);
    match moved.step {
        Step::Finished(result) => Outcome { log: moved.log, result },
        Step::Execute { .. } => Outcome {
            log: moved.log + followed(cases, runs, index).log,
            result: followed(cases, runs, index).result,
        },
    }
}

/// Driving a batch step by step logs and returns what the batch as a whole
/// comes to.
pub proof fn lemma_steps_make_the_batch(cases: Seq<CacheTestCase>, runs: Seq<Run>, index: int)
    requires
        runs.len() == cases.len(),
        0 <= index <= cases.len(),
    ensures
        stepped(cases, runs, index).log == batch_outcome(cases, runs, index).log,
        stepped(cases, runs, index).result == batch_outcome(cases, runs, index).result,
    decreases cases.len() - index,
{
    if index < cases.len() {
        lemma_steps_make_the_batch(cases, runs, index + 1);
        let case = cases[index];
        let started = start_move(cases, index);
        let next = start_move(cases, index + 1);
        let whole = batch_outcome(cases, runs, index);
        let rest = batch_outcome(cases, runs, index + 1);
        if case.well_formed() {
            let judged = case.judge_outcome(runs[index]);
            if judged.result is Ok {
                let front = started.log + judged.log + seq![Entry::PrefixesReset];
                assert(whole.log =~= front + rest.log);
                assert(stepped(cases, runs, index).log =~= front + stepped(
                    cases,
                    runs,
                    index + 1,
                ).log);
            } else {
                assert(stepped(cases, runs, index).log =~= whole.log);
            }
        } else {
            assert(stepped(cases, runs, index).log =~= whole.log);
        }
    } else {
        assert(stepped(cases, runs, index).log =~= batch_outcome(cases, runs, index).log);
    }
}

/// `text` ends in `suffix`.
pub open spec fn ends_with(text: Seq<char>, suffix: Seq<char>) -> bool {
    suffix.len() <= text.len() && text.subrange(text.len() - suffix.len(), text.len() as int)
        == suffix
}

/// A text with another appended ends in that other.
pub proof fn lemma_ends_with_appended(text: Seq<char>, suffix: Seq<char>)
    ensures
        ends_with(text + suffix, suffix),
{
    assert((text + suffix).subrange((text + suffix).len() - suffix.len(), (text + suffix).len() as int)
        =~= suffix);
}

/// Whenever a test fails and the program is to blame, the message ends in
/// the hint paragraph, where the test has a hint: for a wrong response, a
/// missing or an extra one, an exit code other than 0 and a wrong number of
/// lines alike, in the quiet and in the verbose mode.
pub proof fn lemma_user_failures_carry_the_hint(case: CacheTestCase, run: Run, text: Seq<char>)
    requires
        case.run_outcome(run).result == Err::<(), Failure>(Failure::User(text)),
    ensures
        ends_with(text, hint_text(case.hint)),
{
    let hint = hint_text(case.hint);
    assert(case.well_formed());
    match responses_of(case.commands@.len(), run) {
        Err(failure) => {
            lemma_ends_with_appended(failure.message(), hint);
        },
        Ok(lines) => {
            if case.verbose {
                let verdicts = case.verdicts(lines);
                let k = agreeing(verdicts) as int;
                lemma_ends_with_appended(
                    verbose_message(
                        (k + 1) as nat,
                        case.expected_responses.deep_view()[k],
                        lines[k],
                        case.commands.deep_view()[k],
                    ),
                    hint,
                );
            } else {
                let inner = if case.regex_match {
                    pattern_outcome(
                        case.expected_responses.deep_view(),
                        Some(case.commands.deep_view()),
                        lines,
                    )
                } else {
                    exact_outcome(
                        case.expected_responses.deep_view(),
                        Some(case.commands.deep_view()),
                        lines,
                    )
                };
                lemma_ends_with_appended(inner.result->Err_0.message(), hint);
            }
        },
    }
}

} // verus!
