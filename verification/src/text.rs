//! Character-level text operations: searching, line splitting and slicing.
//!
//! Text is modelled as `Seq<char>`. The executable functions work on a
//! `Vec<char>` obtained once from the string, so that every position is a
//! character index.

use vstd::prelude::*;

verus! {

/// Position of the first occurrence of `c` in `s`, or `s.len()` when `c` does
/// not occur in `s`.
pub open spec fn first_index_of(s: Seq<char>, c: char) -> nat
    decreases s.len(),
{
    if s.len() == 0 || s[0] == c {
        0
    } else {
        1 + first_index_of(s.drop_first(), c)
    }
}

/// `first_index_of` is in range, nothing before it equals `c`, and the element
/// at it, if there is one, equals `c`.
pub proof fn lemma_first_index_of(s: Seq<char>, c: char)
    ensures
        first_index_of(s, c) <= s.len(),
        forall|j: int| 0 <= j < first_index_of(s, c) ==> s[j] != c,
        first_index_of(s, c) < s.len() ==> s[first_index_of(s, c) as int] == c,
    decreases s.len(),
{
    if s.len() == 0 || s[0] == c {
    } else {
        let tail = s.drop_first();
        lemma_first_index_of(tail, c);
        assert forall|j: int| 0 <= j < first_index_of(s, c) implies s[j] != c by {
            if j > 0 {
                assert(s[j] == tail[j - 1]);
            }
        }
    }
}

/// A position with the three properties of `lemma_first_index_of` is the
/// first index.
pub proof fn lemma_first_index_is(s: Seq<char>, c: char, k: int)
    requires
        0 <= k <= s.len(),
        forall|j: int| 0 <= j < k ==> s[j] != c,
        k < s.len() ==> s[k] == c,
    ensures
        first_index_of(s, c) == k,
{
    lemma_first_index_of(s, c);
}

/// Whether `c` is white space: a character with the Unicode property
/// `White_Space`.
pub open spec fn is_whitespace(c: char) -> bool {
    let code = c as u32;
    ||| 0x0009 <= code <= 0x000d
    ||| code == 0x0020
    ||| code == 0x0085
    ||| code == 0x00a0
    ||| code == 0x1680
    ||| 0x2000 <= code <= 0x200a
    ||| code == 0x2028
    ||| code == 0x2029
    ||| code == 0x202f
    ||| code == 0x205f
    ||| code == 0x3000
}

/// Position of the first white space in `s`, or `s.len()` when `s` holds
/// none.
pub open spec fn first_whitespace(s: Seq<char>) -> nat
    decreases s.len(),
{
    if s.len() == 0 || is_whitespace(s[0]) {
        0
    } else {
        1 + first_whitespace(s.drop_first())
    }
}

/// `first_whitespace` is in range, nothing before it is white space, and the
/// element at it, if there is one, is.
pub proof fn lemma_first_whitespace(s: Seq<char>)
    ensures
        first_whitespace(s) <= s.len(),
        forall|j: int| 0 <= j < first_whitespace(s) ==> !is_whitespace(s[j]),
        first_whitespace(s) < s.len() ==> is_whitespace(s[first_whitespace(s) as int]),
    decreases s.len(),
{
    if s.len() == 0 || is_whitespace(s[0]) {
    } else {
        let tail = s.drop_first();
        lemma_first_whitespace(tail);
        assert forall|j: int| 0 <= j < first_whitespace(s) implies !is_whitespace(s[j]) by {
            if j > 0 {
                assert(s[j] == tail[j - 1]);
            }
        }
    }
}

/// A position with the three properties of `lemma_first_whitespace` is the
/// first white space.
pub proof fn lemma_first_whitespace_is(s: Seq<char>, k: int)
    requires
        0 <= k <= s.len(),
        forall|j: int| 0 <= j < k ==> !is_whitespace(s[j]),
        k < s.len() ==> is_whitespace(s[k]),
    ensures
        first_whitespace(s) == k,
{
    lemma_first_whitespace(s);
}

/// The line without a final carriage return.
pub open spec fn strip_carriage_return(line: Seq<char>) -> Seq<char> {
    if line.len() > 0 && line.last() == '\r' {
        line.drop_last()
    } else {
        line
    }
}

/// The physical lines of `text`.
///
/// A line ends at a line feed, or at a carriage return directly followed by a
/// line feed; the terminator is not part of the line. Text after the last
/// terminator is a line of its own when it is not empty. A carriage return
/// that no line feed follows stays in its line.
pub open spec fn lines(text: Seq<char>) -> Seq<Seq<char>>
    decreases text.len(),
{
    let stop = first_index_of(text, '\n') as int;
    if text.len() == 0 {
        Seq::empty()
    } else if stop >= text.len() {
        seq![text]
    } else {
        seq![strip_carriage_return(text.take(stop))] + lines(text.skip(stop + 1))
    }
}

/// No line holds a line feed: every line feed of the text ends a line.
pub proof fn law_lines_hold_no_line_feed(text: Seq<char>)
    ensures
        forall|i: int, j: int|
            0 <= i < lines(text).len() && 0 <= j < lines(text)[i].len() ==> lines(text)[i][j]
                != '\n',
    decreases text.len(),
{
    let stop = first_index_of(text, '\n') as int;
    lemma_first_index_of(text, '\n');
    if text.len() == 0 {
    } else if stop >= text.len() {
    } else {
        let first = strip_carriage_return(text.take(stop));
        let rest = lines(text.skip(stop + 1));
        law_lines_hold_no_line_feed(text.skip(stop + 1));
        assert forall|i: int, j: int|
            0 <= i < lines(text).len() && 0 <= j < lines(text)[i].len() implies lines(text)[i][j]
            != '\n' by {
            if i == 0 {
                assert(lines(text)[0] == first);
                assert(first[j] == text[j]);
            } else {
                assert(lines(text)[i] == rest[i - 1]);
            }
        }
    }
}

/// Half-open range of character positions, `start <= end`.
#[derive(Clone, Copy, Debug, PartialEq, Eq)]
pub(crate) struct Span {
    pub(crate) start: usize,
    pub(crate) end: usize,
}

impl Span {
    /// The span lies inside a text of `len` characters.
    pub(crate) open spec fn within(self, len: nat) -> bool {
        self.start <= self.end <= len
    }

    /// The characters of `text` that the span covers.
    pub(crate) open spec fn of(self, text: Seq<char>) -> Seq<char> {
        text.subrange(self.start as int, self.end as int)
    }
}

/// `spans` cut `text` into exactly the pieces `pieces`, in order.
pub(crate) open spec fn spans_cut(
    text: Seq<char>,
    spans: Seq<Span>,
    pieces: Seq<Seq<char>>,
) -> bool {
    &&& spans.len() == pieces.len()
    &&& forall|i: int|
        0 <= i < spans.len() ==> (#[trigger] spans[i]).within(text.len()) && spans[i].of(text)
            == pieces[i]
}

/// Collects the characters of a string slice, in order.
pub fn to_chars(s: &str) -> (v: Vec<char>)
    ensures
        v@ == s@,
{
    let mut v: Vec<char> = Vec::new();
    for c in it: s.chars()
        invariant
            it.seq() == s@,
            v@ == it.seq().take(it.index()),
    {
        v.push(c);
    }
    v
}

/// Copies the characters `from..to` of `text` into a new string.
pub(crate) fn slice(text: &str, from: usize, to: usize) -> (piece: String)
    requires
        from <= to <= text@.len(),
    ensures
        piece@ == text@.subrange(from as int, to as int),
{
    text.substring_char(from, to).to_owned()
}

/// Finds the first `c` in `text[from..to]`; returns `to` when there is none.
pub(crate) fn find_char(text: &Vec<char>, from: usize, to: usize, c: char) -> (at: usize)
    requires
        from <= to <= text.len(),
    ensures
        at == from + first_index_of(text@.subrange(from as int, to as int), c),
        from <= at <= to,
{
    let mut at: usize = from;
    while at < to && text[at] != c
        invariant
            from <= at <= to <= text.len(),
            forall|j: int| from <= j < at ==> text@[j] != c,
        decreases to - at,
    {
        at += 1;
    }
    proof {
        lemma_first_index_is(text@.subrange(from as int, to as int), c, at - from);
    }
    at
}

/// Tells whether `c` is white space.
pub fn whitespace(c: char) -> (white: bool)
    ensures
        white == is_whitespace(c),
{
    let code: u32 = c as u32;
    (0x0009 <= code && code <= 0x000d) || code == 0x0020 || code == 0x0085 || code == 0x00a0
        || code == 0x1680 || (0x2000 <= code && code <= 0x200a) || code == 0x2028 || code
        == 0x2029 || code == 0x202f || code == 0x205f || code == 0x3000
}

/// Finds the first white space in `text[from..to]`; returns `to` when there
/// is none.
pub(crate) fn find_whitespace(text: &Vec<char>, from: usize, to: usize) -> (at: usize)
    requires
        from <= to <= text.len(),
    ensures
        at == from + first_whitespace(text@.subrange(from as int, to as int)),
        from <= at <= to,
{
    let mut at: usize = from;
    while at < to && !whitespace(text[at])
        invariant
            from <= at <= to <= text.len(),
            forall|j: int| from <= j < at ==> !is_whitespace(text@[j]),
        decreases to - at,
    {
        at += 1;
    }
    proof {
        lemma_first_whitespace_is(text@.subrange(from as int, to as int), at - from);
    }
    at
}

/// Splits `text` into its physical lines, each given as the span it covers.
pub(crate) fn line_spans(text: &Vec<char>) -> (spans: Vec<Span>)
    ensures
        spans_cut(text@, spans@, lines(text@)),
{
    let n: usize = text.len();
    let mut spans: Vec<Span> = Vec::new();
    let mut start: usize = 0;
    let ghost mut done: Seq<Seq<char>> = Seq::empty();
    proof {
        assert(text@.skip(0) == text@);
    }
    while start < n
        invariant
            start <= n == text.len(),
            spans_cut(text@, spans@, done),
            lines(text@) == done + lines(text@.skip(start as int)),
        decreases n - start,
    {
        let stop: usize = find_char(text, start, n, '\n');
        let ghost rest = text@.skip(start as int);
        if stop == n {
            spans.push(Span { start, end: n });
            proof {
                done = done.push(rest);
            }
            start = n;
        } else {
            let end: usize = if stop > start && text[stop - 1] == '\r' {
                stop - 1
            } else {
                stop
            };
            spans.push(Span { start, end });
            proof {
                let line = strip_carriage_return(rest.take(stop - start));
                assert(text@.subrange(start as int, end as int) == line);
                assert(rest.skip(stop - start + 1) == text@.skip(stop + 1));
                done = done.push(line);
            }
            start = stop + 1;
        }
    }
    spans
}

/// The decimal digit for a number below ten.
pub open spec fn digit(d: nat) -> char {
    if d == 0 {
        '0'
    } else if d == 1 {
        '1'
    } else if d == 2 {
        '2'
    } else if d == 3 {
        '3'
    } else if d == 4 {
        '4'
    } else if d == 5 {
        '5'
    } else if d == 6 {
        '6'
    } else if d == 7 {
        '7'
    } else if d == 8 {
        '8'
    } else {
        '9'
    }
}

/// The decimal numeral of `n`: no sign, no leading zero but for zero itself.
pub open spec fn decimal(n: nat) -> Seq<char>
    decreases n,
{
    if n < 10 {
        seq![digit(n)]
    } else {
        decimal(n / 10).push(digit(n % 10))
    }
}

/// The one-character text of a digit.
fn digit_text(d: u64) -> (text: &'static str)
    requires
        d < 10,
    ensures
        text@ == seq![digit(d as nat)],
{
    proof {
        reveal_strlit("0");
        reveal_strlit("1");
        reveal_strlit("2");
        reveal_strlit("3");
        reveal_strlit("4");
        reveal_strlit("5");
        reveal_strlit("6");
        reveal_strlit("7");
        reveal_strlit("8");
        reveal_strlit("9");
    }
    let text = if d == 0 {
        "0"
    } else if d == 1 {
        "1"
    } else if d == 2 {
        "2"
    } else if d == 3 {
        "3"
    } else if d == 4 {
        "4"
    } else if d == 5 {
        "5"
    } else if d == 6 {
        "6"
    } else if d == 7 {
        "7"
    } else if d == 8 {
        "8"
    } else {
        "9"
    };
    text
}

/// Writes `n` as a decimal numeral.
pub fn decimal_string(n: u64) -> (numeral: String)
    ensures
        numeral@ == decimal(n as nat),
{
    let mut numeral = String::from_str(digit_text(n % 10));
    let mut rest: u64 = n / 10;
    while rest > 0
        invariant
            decimal(n as nat) == if rest > 0 {
                decimal(rest as nat) + numeral@
            } else {
                numeral@
            },
        decreases rest,
    {
        numeral = String::from_str(digit_text(rest % 10)).concat(numeral.as_str());
        rest = rest / 10;
    }
    numeral
}

} // verus!
