//! Text building blocks: decimal rendering, joining commands into one
//! input and splitting captured output into lines.

use vstd::prelude::*;
use vstd::string::*;

verus! {

/// `String::push` of std appends one character at the end of the string
/// and leaves the rest as it was. This is taken from its documentation, not
/// proved.
pub assume_specification[ String::push ](s: &mut String, c: char)
    ensures
        final(s)@ == old(s)@.push(c),
;

/// The character that stands for the digit `d`.
pub open spec fn digit_char(d: nat) -> char
    recommends
        d < 10,
{
    if d == 0 {
        '0'
    } else if d == 1 {
        '1'
    } else if d == 2 {
        '2'
    } else if d == 3 {
        '3'
    } else if d == 4 {
        '4'
    } else if d == 5 {
        '5'
    } else if d == 6 {
        '6'
    } else if d == 7 {
        '7'
    } else if d == 8 {
        '8'
    } else {
        '9'
    }
}

/// The decimal numeral of `n`, without leading zeros.
pub open spec fn decimal(n: nat) -> Seq<char>
    decreases n,
{
    if n < 10 {
        seq![digit_char(n)]
    } else {
        decimal(n / 10).push(digit_char(n % 10))
    }
}

/// The decimal numeral of `n`, with a minus sign in front where `n` is negative.
pub open spec fn signed_decimal(n: int) -> Seq<char> {
    if n < 0 {
        seq!['-'] + decimal((-n) as nat)
    } else {
        decimal(n as nat)
    }
}

/// All lines in order, each followed by a newline.
pub open spec fn join_lines(lines: Seq<Seq<char>>) -> Seq<char>
    decreases lines.len(),
{
    if lines.len() == 0 {
        Seq::<char>::empty()
    } else {
        lines[0] + seq!['\n'] + join_lines(lines.drop_first())
    }
}

/// The index of the first newline in `s`, or the length of `s` if it has none.
pub open spec fn first_newline(s: Seq<char>) -> int
    decreases s.len(),
{
    if s.len() == 0 {
        0
    } else if s[0] == '\n' {
        0
    } else {
        1 + first_newline(s.drop_first())
    }
}

/// `line` without the carriage return at its end, if it has one.
pub open spec fn without_carriage_return(line: Seq<char>) -> Seq<char> {
    if line.len() > 0 && line.last() == '\r' {
        line.drop_last()
    } else {
        line
    }
}

/// The lines of `s`. A line ends at a newline, or at a carriage return
/// directly followed by a newline; neither belongs to the line. What follows
/// the last newline is a line of its own unless it is empty, so a text that
/// ends in a newline has no empty line at its end, and the empty text has no
/// lines at all.
pub open spec fn lines_of(s: Seq<char>) -> Seq<Seq<char>>
    decreases s.len(),
{
    if s.len() == 0 {
        Seq::<Seq<char>>::empty()
    } else {
        let k = first_newline(s);
        if 0 <= k < s.len() {
            seq![without_carriage_return(s.subrange(0, k))] + lines_of(
                s.subrange(k + 1, s.len() as int),
            )
        } else {
            seq![s]
        }
    }
}

/// No character of `s` is a newline.
pub open spec fn no_newline(s: Seq<char>) -> bool {
    forall|i: int| 0 <= i < s.len() ==> s[i] != '\n'
}

/// A text that survives being written as one line and read back: it holds no
/// newline and does not end in a carriage return.
pub open spec fn single_line(s: Seq<char>) -> bool {
    no_newline(s) && !(s.len() > 0 && s.last() == '\r')
}

/// The first newline stands within the text or at its end, is a newline
/// where it stands within, and has no newline before it.
pub proof fn lemma_first_newline_bounds(s: Seq<char>)
    ensures
        0 <= first_newline(s) <= s.len(),
        first_newline(s) < s.len() ==> s[first_newline(s)] == '\n',
        forall|i: int| 0 <= i < first_newline(s) ==> s[i] != '\n',
    decreases s.len(),
{
    if s.len() > 0 && s[0] != '\n' {
        let t = s.drop_first();
        lemma_first_newline_bounds(t);
        assert forall|i: int| 0 <= i < first_newline(s) implies s[i] != '\n' by {
            if i > 0 {
                assert(s[i] == t[i - 1]);
            }
        }
    }
}

/// Where `s` has a newline at `k` and none before it, `k` is its first newline.
pub proof fn lemma_first_newline_at(s: Seq<char>, k: int)
    requires
        0 <= k <= s.len(),
        forall|i: int| 0 <= i < k ==> s[i] != '\n',
        k < s.len() ==> s[k] == '\n',
    ensures
        first_newline(s) == k,
{
    lemma_first_newline_bounds(s);
    let f = first_newline(s);
    if f < k {
        assert(s[f] == '\n');
    } else if f > k {
        assert(s[k] != '\n');
    }
}

/// Joining one line more appends that line and its newline.
pub proof fn lemma_join_lines_push(lines: Seq<Seq<char>>, line: Seq<char>)
    ensures
        join_lines(lines.push(line)) == join_lines(lines) + line + seq!['\n'],
    decreases lines.len(),
{
    if lines.len() == 0 {
        reveal_with_fuel(join_lines, 2);
        assert(lines.push(line).drop_first() =~= Seq::<Seq<char>>::empty());
        assert(lines.push(line)[0] == line);
        assert(join_lines(lines.push(line)) =~= join_lines(lines) + line + seq!['\n']);
    } else {
        let rest = lines.drop_first();
        lemma_join_lines_push(rest, line);
        assert(lines.push(line).drop_first() =~= rest.push(line));
        assert(lines.push(line)[0] == lines[0]);
        assert(join_lines(lines.push(line)) =~= join_lines(lines) + line + seq!['\n']);
    }
}

/// Reading back what was written line by line gives the lines again.
pub proof fn lemma_lines_of_join_lines(lines: Seq<Seq<char>>)
    requires
        forall|i: int| 0 <= i < lines.len() ==> single_line(#[trigger] lines[i]),
    ensures
        lines_of(join_lines(lines)) == lines,
    decreases lines.len(),
{
    if lines.len() == 0 {
        assert(lines_of(join_lines(lines)) =~= lines);
    } else {
        let head = lines[0];
        let rest = lines.drop_first();
        let text = join_lines(lines);
        let k = head.len() as int;
        assert(single_line(head));
        assert forall|i: int| 0 <= i < rest.len() implies single_line(#[trigger] rest[i]) by {
            assert(rest[i] == lines[i + 1]);
        }
        lemma_lines_of_join_lines(rest);
        assert(text == head + seq!['\n'] + join_lines(rest));
        assert(text[k] == '\n');
        assert forall|i: int| 0 <= i < k implies text[i] != '\n' by {
            assert(text[i] == head[i]);
        }
        lemma_first_newline_at(text, k);
        assert(text.subrange(0, k) =~= head);
        assert(text.subrange(k + 1, text.len() as int) =~= join_lines(rest));
        assert(without_carriage_return(head) == head);
        assert(lines_of(text) == seq![head] + lines_of(join_lines(rest)));
        assert(seq![head] + rest =~= lines);
    }
}

fn digit(d: usize) -> (c: char)
    requires
        d < 10,
    ensures
        c == digit_char(d as nat),
{
    if d == 0 {
        '0'
    } else if d == 1 {
        '1'
    } else if d == 2 {
        '2'
    } else if d == 3 {
        '3'
    } else if d == 4 {
        '4'
    } else if d == 5 {
        '5'
    } else if d == 6 {
        '6'
    } else if d == 7 {
        '7'
    } else if d == 8 {
        '8'
    } else {
        '9'
    }
}

/// Appends the decimal numeral of `n` to `out`.
pub fn push_decimal(out: &mut String, n: u64)
    ensures
        final(out)@ == old(out)@ + decimal(n as nat),
    decreases n,
{
    if n >= 10 {
        push_decimal(out, n / 10);
    }
    out.push(digit((n % 10) as usize));
    proof {
        if n >= 10 {
            assert(old(out)@ + decimal((n / 10) as nat).push(digit_char((n % 10) as nat)) =~= (
            old(out)@ + decimal((n / 10) as nat)).push(digit_char((n % 10) as nat)));
        } else {
            assert(old(out)@ + seq![digit_char(n as nat)] =~= old(out)@.push(
                digit_char(n as nat),
            ));
        }
    }
}

/// Appends the decimal numeral of `n` to `out`, with its sign where it is negative.
pub fn push_signed_decimal(out: &mut String, n: i32)
    ensures
        final(out)@ == old(out)@ + signed_decimal(n as int),
{
    if n < 0 {
        out.push('-');
        let magnitude: u64 = (-(n as i64)) as u64;
        push_decimal(out, magnitude);
        assert(old(out)@.push('-') + decimal(magnitude as nat) =~= old(out)@ + (seq!['-']
            + decimal(magnitude as nat)));
    } else {
        push_decimal(out, n as u64);
    }
}

/// The commands as one text, each followed by a newline.
pub fn join_with_newlines(lines: &[&str]) -> (out: String)
    ensures
        out@ == join_lines(lines.deep_view()),
{
    let mut out = String::new();
    let mut i: usize = 0;
    assert(lines.deep_view().take(0) =~= Seq::<Seq<char>>::empty());
    while i < lines.len()
        invariant
            i <= lines.len(),
            out@ == join_lines(lines.deep_view().take(i as int)),
        decreases lines.len() - i,
    {
        out.append(lines[i]);
        out.push('\n');
        proof {
            let done = lines.deep_view().take(i as int);
            let line = lines.deep_view()[i as int];
            assert(line == lines[i as int]@);
            lemma_join_lines_push(done, line);
            assert(done.push(line) =~= lines.deep_view().take(i + 1));
            assert((join_lines(done) + line).push('\n') =~= join_lines(done) + line + seq!['\n']);
        }
        i += 1;
    }
    assert(lines.deep_view().take(lines.len() as int) =~= lines.deep_view());
    out
}

/// What `lines_of` gives for a text whose first newline stands at `k`.
pub proof fn lemma_lines_of_at(s: Seq<char>, k: int)
    requires
        0 <= k <= s.len(),
        forall|i: int| 0 <= i < k ==> s[i] != '\n',
        k < s.len() ==> s[k] == '\n',
    ensures
        k < s.len() ==> lines_of(s) == seq![without_carriage_return(s.subrange(0, k))] + lines_of(
            s.subrange(k + 1, s.len() as int),
        ),
        k == s.len() && k > 0 ==> lines_of(s) == seq![s],
        s.len() == 0 ==> lines_of(s) == Seq::<Seq<char>>::empty(),
{
    lemma_first_newline_at(s, k);
}

/// The lines of `text`, in order.
pub fn split_lines(text: &str) -> (lines: Vec<String>)
    ensures
        lines.deep_view() == lines_of(text@),
{
    let mut lines: Vec<String> = Vec::new();
    let mut current = String::new();
    let mut pending_cr = false;
    let ghost start: int = 0;
    let ghost whole = text@;
    assert(lines.deep_view() =~= Seq::<Seq<char>>::empty());
    assert(whole.subrange(0, whole.len() as int) =~= whole);
    assert(whole.subrange(0, 0) =~= Seq::<char>::empty());
    for c in it: text.chars()
        invariant
            it.seq() == whole,
            0 <= start <= it.index() <= whole.len(),
            whole.subrange(start, it.index() as int) == current@ + (if pending_cr {
                seq!['\r']
            } else {
                Seq::<char>::empty()
            }),
            !pending_cr ==> !(current@.len() > 0 && current@.last() == '\r'),
            forall|i: int| start <= i < it.index() ==> whole[i] != '\n',
            lines_of(whole) == lines.deep_view() + lines_of(
                whole.subrange(start, whole.len() as int),
            ),
    {
        let ghost at = it.index() as int;
        let ghost segment = whole.subrange(start, at);
        assert(c == whole[at]);
        if c == '\n' {
            proof {
                let tail = whole.subrange(start, whole.len() as int);
                assert forall|i: int| 0 <= i < at - start implies tail[i] != '\n' by {
                    assert(tail[i] == whole[start + i]);
                }
                assert(tail[at - start] == '\n');
                lemma_lines_of_at(tail, at - start);
                assert(tail.subrange(0, at - start) =~= segment);
                assert(tail.subrange(at - start + 1, tail.len() as int) =~= whole.subrange(
                    at + 1,
                    whole.len() as int,
                ));
                if pending_cr {
                    assert(segment.last() == '\r');
                    assert(segment.drop_last() =~= current@);
                } else {
                    assert(segment =~= current@);
                }
                assert(without_carriage_return(segment) == current@);
                assert(lines.deep_view().push(current@) + lines_of(
                    whole.subrange(at + 1, whole.len() as int),
                ) =~= lines.deep_view() + (seq![current@] + lines_of(
                    whole.subrange(at + 1, whole.len() as int),
                )));
            }
            let ghost before = lines.deep_view();
            lines.push(current);
            assert(lines.deep_view() =~= before.push(current@));
            current = String::new();
            pending_cr = false;
            proof {
                start = at + 1;
                assert(whole.subrange(start, at + 1) =~= Seq::<char>::empty());
            }
        } else {
            if pending_cr {
                current.push('\r');
            }
            if c == '\r' {
                pending_cr = true;
            } else {
                pending_cr = false;
                current.push(c);
            }
            proof {
                assert(whole.subrange(start, at + 1) =~= segment.push(c));
                assert(whole.subrange(start, at + 1) =~= current@ + (if pending_cr {
                    seq!['\r']
                } else {
                    Seq::<char>::empty()
                }));
            }
        }
    }
    proof {
        let tail = whole.subrange(start, whole.len() as int);
        assert forall|i: int| 0 <= i < tail.len() implies tail[i] != '\n' by {
            assert(tail[i] == whole[start + i]);
        }
        lemma_lines_of_at(tail, tail.len() as int);
    }
    if pending_cr {
        current.push('\r');
    }
    assert(current@ =~= whole.subrange(start, whole.len() as int));
    if !current.as_str().is_empty() {
        let ghost before = lines.deep_view();
        lines.push(current);
        assert(lines.deep_view() =~= before.push(current@));
        assert(before.push(current@) =~= before + seq![current@]);
    } else {
        assert(lines.deep_view() + Seq::<Seq<char>>::empty() =~= lines.deep_view());
    }
    lines
}

/// `needle` stands in `haystack` from index `at` on.
pub open spec fn occurs_at(haystack: Seq<char>, needle: Seq<char>, at: int) -> bool {
    0 <= at && at + needle.len() <= haystack.len() && haystack.subrange(
        at,
        at + needle.len(),
    ) == needle
}

/// `needle` stands somewhere in `haystack`. The empty text stands in every text.
pub open spec fn contains(haystack: Seq<char>, needle: Seq<char>) -> bool {
    exists|at: int| occurs_at(haystack, needle, at)
}

/// The characters of `text`, in order.
pub fn chars_of(text: &str) -> (chars: Vec<char>)
    ensures
        chars@ == text@,
{
    let mut chars: Vec<char> = Vec::new();
    let ghost whole = text@;
    for c in it: text.chars()
        invariant
            it.seq() == whole,
            chars@ == whole.take(it.index() as int),
    {
        chars.push(c);
        assert(whole.take(it.index() as int).push(c) =~= whole.take(it.index() + 1));
    }
    assert(whole.take(whole.len() as int) =~= whole);
    chars
}

/// Whether `needle` stands somewhere in `haystack`.
pub fn contains_text(haystack: &str, needle: &str) -> (found: bool)
    ensures
        found == contains(haystack@, needle@),
{
    let h = chars_of(haystack);
    let n = chars_of(needle);
    if n.len() > h.len() {
        assert(!contains(h@, n@));
        return false;
    }
    let last: usize = h.len() - n.len();
    let mut at: usize = 0;
    loop
        invariant
            at <= last,
            last == h@.len() - n@.len(),
            n@.len() <= h@.len() <= usize::MAX,
            h@ == haystack@,
            n@ == needle@,
            forall|before: int| 0 <= before < at ==> !occurs_at(h@, n@, before),
        decreases last - at,
    {
        let mut j: usize = 0;
        while j < n.len() && h[at + j] == n[j]
            invariant
                j <= n@.len(),
                at <= last,
                last == h@.len() - n@.len(),
                n@.len() <= h@.len() <= usize::MAX,
                forall|k: int| 0 <= k < j ==> h@[at + k] == n@[k],
            decreases n@.len() - j,
        {
            j += 1;
        }
        if j == n.len() {
            assert(h@.subrange(at as int, at + n@.len()) =~= n@);
            assert(occurs_at(h@, n@, at as int));
            return true;
        }
        assert(!occurs_at(h@, n@, at as int)) by {
            if occurs_at(h@, n@, at as int) {
                assert(h@.subrange(at as int, at + n@.len())[j as int] == n@[j as int]);
            }
        }
        if at == last {
            assert(!contains(h@, n@)) by {
                if contains(h@, n@) {
                    let found = choose|found: int| occurs_at(h@, n@, found);
                    assert(found <= last);
                }
            }
            return false;
        }
        at += 1;
    }
}

/// The lines as owned strings.
pub fn owned_lines(lines: &Vec<&'static str>) -> (copies: Vec<String>)
    ensures
        copies.deep_view() == lines.deep_view(),
{
    let mut copies: Vec<String> = Vec::new();
    let mut i: usize = 0;
    while i < lines.len()
        invariant
            i <= lines.len(),
            copies@.len() == i,
            forall|j: int| 0 <= j < i ==> (#[trigger] copies@[j])@ == lines@[j]@,
        decreases lines.len() - i,
    {
        copies.push(String::from_str(lines[i]));
        i += 1;
    }
    assert(copies.deep_view() =~= lines.deep_view());
    copies
}

} // verus!
