//! Checks of the responses that a program gave against the responses that
//! were expected, line by line, with a log that stays quiet on success and
//! shows the lines up to the failure otherwise.

use vstd::prelude::*;
use vstd::string::*;
use crate::error::{verdict, Failure, TesterError};
use crate::logger::{message, Entry, LogLevel, Logger};
use crate::pattern::{anchor, anchored, regex_search, search};
use crate::text::{decimal, push_decimal};

verus! {

/// How one received line compares with the line expected in its place.
#[derive(Debug, Clone, Copy, PartialEq, Eq, Structural)]
pub enum LineVerdict {
    /// The line is what was expected.
    Matches,
    /// The line is something else.
    Differs,
    /// The expected line is a pattern that does not compile.
    BadPattern,
    /// The expected line is a pattern that compiles as it stands, but not
    /// once it is anchored at both ends of the line.
    Unanchored,
}

impl LineVerdict {
    /// Whether the verdict blames the pattern, not the received line.
    pub open spec fn blames_pattern(self) -> bool {
        self == LineVerdict::BadPattern || self == LineVerdict::Unanchored
    }
}

/// What a check comes to: the entries it adds to the log, and its result.
pub struct Outcome {
    pub log: Seq<Entry>,
    pub result: Result<(), Failure>,
}

/// The number of lines that are compared: as many as both sides have.
pub open spec fn compared(expected: Seq<Seq<char>>, actual: Seq<Seq<char>>) -> nat {
    if expected.len() <= actual.len() {
        expected.len()
    } else {
        actual.len()
    }
}

/// The number of leading verdicts that are `Matches`.
pub open spec fn agreeing(verdicts: Seq<LineVerdict>) -> nat
    decreases verdicts.len(),
{
    if verdicts.len() == 0 || verdicts[0] != LineVerdict::Matches {
        0
    } else {
        1 + agreeing(verdicts.drop_first())
    }
}

/// The command shown behind line `i`, in parentheses after a space; empty
/// where no command is known for that line.
pub open spec fn hint_suffix(hints: Option<Seq<Seq<char>>>, i: int) -> Seq<char> {
    match hints {
        Some(commands) => if 0 <= i < commands.len() {
            " ("@ + commands[i] + ")"@
        } else {
            Seq::<char>::empty()
        },
        None => Seq::<char>::empty(),
    }
}

/// The log line for a response that matched.
pub open spec fn success_line(actual: Seq<char>, suffix: Seq<char>) -> Seq<char> {
    "✓ "@ + actual + suffix
}

/// The log line for an expected response that never came.
pub open spec fn missing_line(expected: Seq<char>, suffix: Seq<char>) -> Seq<char> {
    "? "@ + expected + suffix
}

/// The log line for a response that is not what was expected.
pub open spec fn mismatch_line(actual: Seq<char>, suffix: Seq<char>) -> Seq<char> {
    "𐄂 "@ + actual + suffix
}

/// The log line for a response beyond the last expected one.
pub open spec fn extra_line(extra: Seq<char>) -> Seq<char> {
    "! "@ + extra
}

/// The one log line of a check that passed.
pub open spec fn summary_line(count: nat) -> Seq<char> {
    "✓ "@ + decimal(count) + " response(s) match"@
}

/// The message for an expected response that never came. `index` counts from 1.
pub open spec fn missing_message(index: nat, expected: Seq<char>, received: nat) -> Seq<char> {
    "Expected response #"@ + decimal(index) + " to be '"@ + expected
        + "', but didn't receive enough responses (got "@ + decimal(received) + " response(s))"@
}

/// The message for a response that is not what was expected. `index` counts from 1.
pub open spec fn mismatch_message(index: nat, expected: Seq<char>, actual: Seq<char>) -> Seq<
    char,
> {
    "Response #"@ + decimal(index) + " mismatch: expected '"@ + expected + "', got '"@ + actual
        + "'"@
}

/// The message for a response beyond the last expected one.
pub open spec fn extra_message(expected: nat, received: nat, extra: Seq<char>) -> Seq<char> {
    "Expected "@ + decimal(expected) + " response(s), but got "@ + decimal(received)
        + " (extra response: '"@ + extra + "')"@
}

/// The message for an expected pattern that does not compile. `index` counts from 1.
pub open spec fn bad_pattern_message(index: nat, pattern: Seq<char>) -> Seq<char> {
    "Response #"@ + decimal(index) + " pattern '"@ + pattern
        + "' is not a valid regular expression"@
}

/// The message for an expected pattern that compiles as it stands, but not
/// once it is anchored at both ends of the line. `index` counts from 1.
pub open spec fn unanchored_message(index: nat, pattern: Seq<char>) -> Seq<char> {
    "Response #"@ + decimal(index) + " pattern '"@ + pattern
        + "' cannot be anchored to the whole line"@
}

/// The message for a verdict that blames the pattern. `index` counts from 1.
pub open spec fn pattern_failure_message(
    verdict: LineVerdict,
    index: nat,
    pattern: Seq<char>,
) -> Seq<char> {
    if verdict == LineVerdict::Unanchored {
        unanchored_message(index, pattern)
    } else {
        bad_pattern_message(index, pattern)
    }
}

/// The success lines of the first `count` responses, in order.
pub open spec fn success_entries(
    actual: Seq<Seq<char>>,
    hints: Option<Seq<Seq<char>>>,
    count: nat,
) -> Seq<Entry> {
    Seq::new(
        count,
        |i: int| message(LogLevel::Success, success_line(actual[i], hint_suffix(hints, i))),
    )
}

/// What the walk over the lines comes to. The lines are taken in order; the
/// first place where the two sides part decides, and nothing after it is
/// looked at. With `k` lines agreeing before that place:
/// - a received line that differs from the expected one fails at line
///   `k + 1`, and so does an expected pattern that does not compile, as it
///   stands or once anchored, which is a failure of the test's definition;
/// - an expected line with no received line in its place fails as missing;
/// - a received line beyond the last expected one fails as extra;
/// - otherwise the check passes, with one summary line in the log.
/// A failure has the `k` success lines in the log before its own line, which
/// is the received line marked `𐄂` where it differs, the expected line marked
/// `?` where it is missing or does not compile, and the received line marked
/// `!` where it is extra.
pub open spec fn walk_outcome(
    expected: Seq<Seq<char>>,
    hints: Option<Seq<Seq<char>>>,
    actual: Seq<Seq<char>>,
    verdicts: Seq<LineVerdict>,
) -> Outcome {
    let k = agreeing(verdicts) as int;
    let replay = success_entries(actual, hints, k as nat);
    let suffix = hint_suffix(hints, k);
    if k < verdicts.len() {
        if verdicts[k].blames_pattern() {
            Outcome {
                log: replay.push(message(LogLevel::Error, missing_line(expected[k], suffix))),
                result: Err(
                    Failure::Configuration(
                        pattern_failure_message(verdicts[k], (k + 1) as nat, expected[k]),
                    ),
                ),
            }
        } else {
            Outcome {
                log: replay.push(message(LogLevel::Error, mismatch_line(actual[k], suffix))),
                result: Err(
                    Failure::User(mismatch_message((k + 1) as nat, expected[k], actual[k])),
                ),
            }
        }
    } else if k < expected.len() {
        Outcome {
            log: replay.push(message(LogLevel::Error, missing_line(expected[k], suffix))),
            result: Err(
                Failure::User(missing_message((k + 1) as nat, expected[k], actual.len())),
            ),
        }
    } else if actual.len() > expected.len() {
        Outcome {
            log: replay.push(message(LogLevel::Error, extra_line(actual[expected.len() as int]))),
            result: Err(
                Failure::User(
                    extra_message(expected.len(), actual.len(), actual[expected.len() as int]),
                ),
            ),
        }
    } else {
        Outcome {
            log: seq![message(LogLevel::Success, summary_line(expected.len()))],
            result: Ok(()),
        }
    }
}

/// The verdicts of comparing for equality.
pub open spec fn exact_verdicts(expected: Seq<Seq<char>>, actual: Seq<Seq<char>>) -> Seq<
    LineVerdict,
> {
    Seq::new(
        compared(expected, actual),
        |i: int|
            if actual[i] == expected[i] {
                LineVerdict::Matches
            } else {
                LineVerdict::Differs
            },
    )
}

/// The verdict on one line from two searches: for the pattern as it stands,
/// which shows whether it compiles, and for the pattern anchored at both
/// ends, which shows whether it matches the whole line. A pattern can
/// compile as it stands and not once it is anchored: one that ends in a
/// comment of the extended syntax takes in the bracket that closes the
/// anchoring, and one near the size limit grows past it. Such a pattern is
/// `Unanchored`, not `BadPattern`.
pub open spec fn pattern_verdict(plain: Option<bool>, whole: Option<bool>) -> LineVerdict {
    match (plain, whole) {
        (Some(_), Some(true)) => LineVerdict::Matches,
        (Some(_), Some(false)) => LineVerdict::Differs,
        (Some(_), None) => LineVerdict::Unanchored,
        (None, _) => LineVerdict::BadPattern,
    }
}

/// The verdicts of matching each received line as a whole against the
/// expected line taken as a pattern.
pub open spec fn pattern_verdicts(expected: Seq<Seq<char>>, actual: Seq<Seq<char>>) -> Seq<
    LineVerdict,
> {
    Seq::new(
        compared(expected, actual),
        |i: int|
            pattern_verdict(
                regex_search(expected[i], actual[i]),
                regex_search(anchored(expected[i]), actual[i]),
            ),
    )
}

/// The commands as plain values, where there are any.
pub open spec fn hints_view(hints: Option<Vec<String>>) -> Option<Seq<Seq<char>>> {
    match hints {
        Some(commands) => Some(commands.deep_view()),
        None => None,
    }
}

/// Where the first `k` verdicts are `Matches` and the next one, if there is
/// one, is not, `k` verdicts agree.
pub proof fn lemma_agreeing_at(verdicts: Seq<LineVerdict>, k: int)
    requires
        0 <= k <= verdicts.len(),
        forall|i: int| 0 <= i < k ==> verdicts[i] == LineVerdict::Matches,
        k < verdicts.len() ==> verdicts[k] != LineVerdict::Matches,
    ensures
        agreeing(verdicts) == k,
    decreases k,
{
    if k > 0 {
        let rest = verdicts.drop_first();
        assert forall|i: int| 0 <= i < k - 1 implies rest[i] == LineVerdict::Matches by {
            assert(rest[i] == verdicts[i + 1]);
        }
        if k < verdicts.len() {
            assert(rest[k - 1] == verdicts[k]);
        }
        lemma_agreeing_at(rest, k - 1);
        assert(verdicts[0] == LineVerdict::Matches);
    }
}

/// A way of checking the responses that a program gave.
pub trait Assertion {
    /// What checking `actual` comes to.
    spec fn outcome(&self, actual: Seq<Seq<char>>) -> Outcome;

    /// Checks `actual`, adds to `logger` what there is to show, and returns
    /// the result.
    fn verify(&self, actual: &[String], logger: &mut Logger) -> (result: Result<(), TesterError>)
        ensures
            final(logger)@ == old(logger)@ + self.outcome(actual.deep_view()).log,
            verdict(result) == self.outcome(actual.deep_view()).result,
    ;
}

fn command_suffix(hints: &Option<Vec<String>>, i: usize) -> (suffix: String)
    ensures
        suffix@ == hint_suffix(hints_view(*hints), i as int),
{
    match hints {
        Some(commands) => {
            if i < commands.len() {
                let mut suffix = String::from_str(" (");
                suffix.append(commands[i].as_str());
                suffix.append(")");
                assert(commands.deep_view()[i as int] == commands[i as int]@);
                suffix
            } else {
                String::new()
            }
        },
        None => String::new(),
    }
}

fn marked_line(mark: &str, line: &str, suffix: &str) -> (text: String)
    ensures
        text@ == mark@ + line@ + suffix@,
{
    let mut text = String::from_str(mark);
    text.append(line);
    text.append(suffix);
    text
}

fn replay(lines: &Vec<String>, logger: &mut Logger)
    ensures
        final(logger)@ == old(logger)@ + Seq::new(
            lines@.len(),
            |i: int| message(LogLevel::Success, lines@[i]@),
        ),
{
    let ghost all = Seq::new(lines@.len(), |i: int| message(LogLevel::Success, lines@[i]@));
    let mut j: usize = 0;
    assert(old(logger)@ + all.take(0) =~= old(logger)@);
    while j < lines.len()
        invariant
            j <= lines.len(),
            all == Seq::new(lines@.len(), |i: int| message(LogLevel::Success, lines@[i]@)),
            logger@ == old(logger)@ + all.take(j as int),
        decreases lines.len() - j,
    {
        logger.successf(lines[j].as_str());
        assert((old(logger)@ + all.take(j as int)).push(all[j as int]) =~= old(logger)@
            + all.take(j + 1));
        j += 1;
    }
    assert(all.take(lines@.len() as int) =~= all);
}

fn missing_text(index: usize, expected: &str, received: usize) -> (text: String)
    ensures
        text@ == missing_message(index as nat, expected@, received as nat),
{
    let mut text = String::from_str("Expected response #");
    push_decimal(&mut text, index as u64);
    text.append(" to be '");
    text.append(expected);
    text.append("', but didn't receive enough responses (got ");
    push_decimal(&mut text, received as u64);
    text.append(" response(s))");
    text
}

fn mismatch_text(index: usize, expected: &str, actual: &str) -> (text: String)
    ensures
        text@ == mismatch_message(index as nat, expected@, actual@),
{
    let mut text = String::from_str("Response #");
    push_decimal(&mut text, index as u64);
    text.append(" mismatch: expected '");
    text.append(expected);
    text.append("', got '");
    text.append(actual);
    text.append("'");
    text
}

fn extra_text(expected: usize, received: usize, extra: &str) -> (text: String)
    ensures
        text@ == extra_message(expected as nat, received as nat, extra@),
{
    let mut text = String::from_str("Expected ");
    push_decimal(&mut text, expected as u64);
    text.append(" response(s), but got ");
    push_decimal(&mut text, received as u64);
    text.append(" (extra response: '");
    text.append(extra);
    text.append("')");
    text
}

/// The message for a verdict that blames the pattern.
pub fn pattern_failure_text(verdict: LineVerdict, index: usize, pattern: &str) -> (text: String)
    ensures
        text@ == pattern_failure_message(verdict, index as nat, pattern@),
{
    let mut text = String::from_str("Response #");
    push_decimal(&mut text, index as u64);
    text.append(" pattern '");
    text.append(pattern);
    match verdict {
        LineVerdict::Unanchored => {
            text.append("' cannot be anchored to the whole line");
        },
        _ => {
            text.append("' is not a valid regular expression");
        },
    }
    text
}

fn summary_text(count: usize) -> (text: String)
    ensures
        text@ == summary_line(count as nat),
{
    let mut text = String::from_str("✓ ");
    push_decimal(&mut text, count as u64);
    text.append(" response(s) match");
    text
}

/// Walks the expected and the received lines together, given the verdict on
/// each line that both sides have, and reports the first place where they
/// part. Success lines are held back: a check that passes logs one summary
/// line, a check that fails logs the lines that matched before the failure
/// and then the failure.
pub fn walk_responses(
    expected: &Vec<String>,
    hints: &Option<Vec<String>>,
    actual: &[String],
    verdicts: &Vec<LineVerdict>,
    logger: &mut Logger,
) -> (result: Result<(), TesterError>)
    requires
        verdicts@.len() == compared(expected.deep_view(), actual.deep_view()),
    ensures
        final(logger)@ == old(logger)@ + walk_outcome(
            expected.deep_view(),
            hints_view(*hints),
            actual.deep_view(),
            verdicts@,
        ).log,
        verdict(result) == walk_outcome(
            expected.deep_view(),
            hints_view(*hints),
            actual.deep_view(),
            verdicts@,
        ).result,
{
    let ghost e = expected.deep_view();
    let ghost a = actual.deep_view();
    let ghost h = hints_view(*hints);
    let ghost before = logger@;
    let mut success_logs: Vec<String> = Vec::new();
    let mut i: usize = 0;
    while i < expected.len()
        invariant
            i <= expected.len(),
            i <= actual.len(),
            e == expected.deep_view(),
            a == actual.deep_view(),
            h == hints_view(*hints),
            verdicts@.len() == compared(e, a),
            logger@ == before,
            before == old(logger)@,
            forall|j: int| 0 <= j < i ==> verdicts@[j] == LineVerdict::Matches,
            success_logs@.len() == i,
            forall|j: int|
                0 <= j < i ==> (#[trigger] success_logs@[j])@ == success_line(
                    a[j],
                    hint_suffix(h, j),
                ),
        decreases expected.len() - i,
    {
        let suffix = command_suffix(hints, i);
        assert(e[i as int] == expected[i as int]@);
        if i >= actual.len() {
            proof {
                lemma_agreeing_at(verdicts@, i as int);
                assert(Seq::new(
                    success_logs@.len(),
                    |j: int| message(LogLevel::Success, success_logs@[j]@),
                ) =~= success_entries(a, h, i as nat));
            }
            replay(&success_logs, logger);
            let line = marked_line("? ", expected[i].as_str(), suffix.as_str());
            logger.errorf(line.as_str());
            let text = missing_text(i + 1, expected[i].as_str(), actual.len());
            assert(logger@ =~= before + walk_outcome(e, h, a, verdicts@).log);
            return Err(TesterError::User(text));
        }
        assert(a[i as int] == actual[i as int]@);
        match verdicts[i] {
            LineVerdict::Matches => {
                let line = marked_line("✓ ", actual[i].as_str(), suffix.as_str());
                success_logs.push(line);
            },
            LineVerdict::Differs => {
                proof {
                    lemma_agreeing_at(verdicts@, i as int);
                    assert(Seq::new(
                        success_logs@.len(),
                        |j: int| message(LogLevel::Success, success_logs@[j]@),
                    ) =~= success_entries(a, h, i as nat));
                }
                replay(&success_logs, logger);
                let line = marked_line("𐄂 ", actual[i].as_str(), suffix.as_str());
                logger.errorf(line.as_str());
                let text = mismatch_text(i + 1, expected[i].as_str(), actual[i].as_str());
                assert(logger@ =~= before + walk_outcome(e, h, a, verdicts@).log);
                return Err(TesterError::User(text));
            },
            blamed => {
                proof {
                    lemma_agreeing_at(verdicts@, i as int);
                    assert(Seq::new(
                        success_logs@.len(),
                        |j: int| message(LogLevel::Success, success_logs@[j]@),
                    ) =~= success_entries(a, h, i as nat));
                }
                replay(&success_logs, logger);
                let line = marked_line("? ", expected[i].as_str(), suffix.as_str());
                logger.errorf(line.as_str());
                let text = pattern_failure_text(blamed, i + 1, expected[i].as_str());
                assert(logger@ =~= before + walk_outcome(e, h, a, verdicts@).log);
                return Err(TesterError::Configuration(text));
            },
        }
        i += 1;
    }
    proof {
        lemma_agreeing_at(verdicts@, i as int);
    }
    if actual.len() > expected.len() {
        proof {
            assert(Seq::new(
                success_logs@.len(),
                |j: int| message(LogLevel::Success, success_logs@[j]@),
            ) =~= success_entries(a, h, i as nat));
            assert(a[i as int] == actual[i as int]@);
        }
        replay(&success_logs, logger);
        let extra = &actual[expected.len()];
        let line = marked_line("! ", extra.as_str(), "");
        proof {
            reveal_strlit("");
            assert(line@ =~= extra_line(extra@));
        }
        logger.errorf(line.as_str());
        let text = extra_text(expected.len(), actual.len(), extra.as_str());
        assert(logger@ =~= before + walk_outcome(e, h, a, verdicts@).log);
        return Err(TesterError::User(text));
    }
    let summary = summary_text(expected.len());
    logger.successf(summary.as_str());
    assert(logger@ =~= before + walk_outcome(e, h, a, verdicts@).log);
    Ok(())
}

/// What comparing for equality comes to.
pub open spec fn exact_outcome(
    expected: Seq<Seq<char>>,
    hints: Option<Seq<Seq<char>>>,
    actual: Seq<Seq<char>>,
) -> Outcome {
    walk_outcome(expected, hints, actual, exact_verdicts(expected, actual))
}

/// What matching against patterns comes to.
pub open spec fn pattern_outcome(
    expected: Seq<Seq<char>>,
    hints: Option<Seq<Seq<char>>>,
    actual: Seq<Seq<char>>,
) -> Outcome {
    walk_outcome(expected, hints, actual, pattern_verdicts(expected, actual))
}

/// The verdict on one line from the two searches made for it.
pub fn verdict_of_searches(plain: Option<bool>, whole: Option<bool>) -> (line: LineVerdict)
    ensures
        line == pattern_verdict(plain, whole),
{
    match plain {
        Some(_) => match whole {
            Some(true) => LineVerdict::Matches,
            Some(false) => LineVerdict::Differs,
            None => LineVerdict::Unanchored,
        },
        None => LineVerdict::BadPattern,
    }
}

pub(crate) fn exact_line_verdicts(expected: &Vec<String>, actual: &[String]) -> (verdicts: Vec<LineVerdict>)
    ensures
        verdicts@ == exact_verdicts(expected.deep_view(), actual.deep_view()),
{
    let mut verdicts: Vec<LineVerdict> = Vec::new();
    let mut i: usize = 0;
    while i < expected.len() && i < actual.len()
        invariant
            i <= expected.len(),
            i <= actual.len(),
            verdicts@.len() == i,
            forall|j: int|
                0 <= j < i ==> verdicts@[j] == exact_verdicts(
                    expected.deep_view(),
                    actual.deep_view(),
                )[j],
        decreases expected.len() - i,
    {
        assert(expected.deep_view()[i as int] == expected[i as int]@);
        assert(actual.deep_view()[i as int] == actual[i as int]@);
        if actual[i] == expected[i] {
            verdicts.push(LineVerdict::Matches);
        } else {
            verdicts.push(LineVerdict::Differs);
        }
        i += 1;
    }
    assert(verdicts@ =~= exact_verdicts(expected.deep_view(), actual.deep_view()));
    verdicts
}

pub(crate) fn pattern_line_verdicts(expected: &Vec<String>, actual: &[String]) -> (verdicts: Vec<
    LineVerdict,
>)
    ensures
        verdicts@ == pattern_verdicts(expected.deep_view(), actual.deep_view()),
{
    let mut verdicts: Vec<LineVerdict> = Vec::new();
    let mut i: usize = 0;
    while i < expected.len() && i < actual.len()
        invariant
            i <= expected.len(),
            i <= actual.len(),
            verdicts@.len() == i,
            forall|j: int|
                0 <= j < i ==> verdicts@[j] == pattern_verdicts(
                    expected.deep_view(),
                    actual.deep_view(),
                )[j],
        decreases expected.len() - i,
    {
        assert(expected.deep_view()[i as int] == expected[i as int]@);
        assert(actual.deep_view()[i as int] == actual[i as int]@);
        let plain = search(expected[i].as_str(), actual[i].as_str());
        let whole_pattern = anchor(expected[i].as_str());
        let whole = search(whole_pattern.as_str(), actual[i].as_str());
        verdicts.push(verdict_of_searches(plain, whole));
        i += 1;
    }
    assert(verdicts@ =~= pattern_verdicts(expected.deep_view(), actual.deep_view()));
    verdicts
}

/// Passes where every response equals the expected one in its place and
/// there are as many of one as of the other.
pub struct ExactMatchAssertion {
    expected: Vec<String>,
    command_hints: Option<Vec<String>>,
}

impl ExactMatchAssertion {
    /// The expected responses.
    pub closed spec fn expected(&self) -> Seq<Seq<char>> {
        self.expected.deep_view()
    }

    /// The commands shown beside the responses, where they were given.
    pub closed spec fn command_hints(&self) -> Option<Seq<Seq<char>>> {
        hints_view(self.command_hints)
    }

    /// A check for `expected`, with no commands to show.
    pub fn new(expected: Vec<String>) -> (assertion: Self)
        ensures
            assertion.expected() == expected.deep_view(),
            assertion.command_hints() == None::<Seq<Seq<char>>>,
    {
        Self { expected, command_hints: None }
    }

    /// The same check, showing `commands` beside the responses in the log.
    pub fn with_commands(self, commands: Vec<String>) -> (assertion: Self)
        ensures
            assertion.expected() == self.expected(),
            assertion.command_hints() == Some(commands.deep_view()),
    {
        let mut assertion = self;
        assertion.command_hints = Some(commands);
        assertion
    }
}

impl Assertion for ExactMatchAssertion {
    open spec fn outcome(&self, actual: Seq<Seq<char>>) -> Outcome {
        exact_outcome(self.expected(), self.command_hints(), actual)
    }

    fn verify(&self, actual: &[String], logger: &mut Logger) -> (result: Result<(), TesterError>) {
        let verdicts = exact_line_verdicts(&self.expected, actual);
        walk_responses(&self.expected, &self.command_hints, actual, &verdicts, logger)
    }
}

/// Passes where every response matches, as a whole, the expected line in its
/// place taken as a regular expression, and there are as many of one as of
/// the other.
pub struct RegexMatchAssertion {
    expected: Vec<String>,
    command_hints: Option<Vec<String>>,
}

impl RegexMatchAssertion {
    /// The expected patterns.
    pub closed spec fn expected(&self) -> Seq<Seq<char>> {
        self.expected.deep_view()
    }

    /// The commands shown beside the responses, where they were given.
    pub closed spec fn command_hints(&self) -> Option<Seq<Seq<char>>> {
        hints_view(self.command_hints)
    }

    /// A check for the patterns `expected`, with no commands to show.
    pub fn new(expected: Vec<String>) -> (assertion: Self)
        ensures
            assertion.expected() == expected.deep_view(),
            assertion.command_hints() == None::<Seq<Seq<char>>>,
    {
        Self { expected, command_hints: None }
    }

    /// The same check, showing `commands` beside the responses in the log.
    pub fn with_commands(self, commands: Vec<String>) -> (assertion: Self)
        ensures
            assertion.expected() == self.expected(),
            assertion.command_hints() == Some(commands.deep_view()),
    {
        let mut assertion = self;
        assertion.command_hints = Some(commands);
        assertion
    }
}

impl Assertion for RegexMatchAssertion {
    open spec fn outcome(&self, actual: Seq<Seq<char>>) -> Outcome {
        pattern_outcome(self.expected(), self.command_hints(), actual)
    }

    fn verify(&self, actual: &[String], logger: &mut Logger) -> (result: Result<(), TesterError>) {
        let verdicts = pattern_line_verdicts(&self.expected, actual);
        walk_responses(&self.expected, &self.command_hints, actual, &verdicts, logger)
    }
}

} // verus!
