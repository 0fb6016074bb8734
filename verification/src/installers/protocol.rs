//! The line protocol by which an installation script reports to the wizard.
//!
//! A script writes one report per line. `PROGRESS:<percentage>:<message>`
//! is a progress update, `ERROR:<message>` an error, and any other line is
//! plain output that is only written to the log.

use vstd::prelude::*;
use vstd::string::*;
use crate::utils::text::{all_digits, chars_of, decimal_value, digit_of, is_digit, string_of_range};

verus! {

/// The largest percentage that a progress line may carry.
pub const MAX_PERCENTAGE: u16 = 100;

/// The words that open a progress line.
pub open spec fn progress_marker() -> Seq<char> {
    "PROGRESS:"@
}

/// The words that open an error line.
pub open spec fn error_marker() -> Seq<char> {
    "ERROR:"@
}

/// `line` begins with `prefix`.
pub open spec fn has_prefix(line: Seq<char>, prefix: Seq<char>) -> bool {
    prefix.len() <= line.len() && line.subrange(0, prefix.len() as int) == prefix
}

/// What is left of `line` behind its first `n` characters.
pub open spec fn after(line: Seq<char>, n: nat) -> Seq<char>
    recommends
        n <= line.len(),
{
    line.subrange(n as int, line.len() as int)
}

/// The least index at or behind `from` at which `s` holds `c`, or the
/// length of `s` where there is none.
pub open spec fn index_from(s: Seq<char>, c: char, from: int) -> int
    decreases s.len() - from,
{
    if from >= s.len() {
        s.len() as int
    } else if s[from] == c {
        from
    } else {
        index_from(s, c, from + 1)
    }
}

/// The index of the first `c` in `s`, or the length of `s` where `s` holds
/// no `c`.
pub open spec fn first_index(s: Seq<char>, c: char) -> int {
    index_from(s, c, 0)
}

/// The index that [`index_from`] gives lies between `from` and the length,
/// holds `c` where it lies inside `s`, and no index before it does.
pub proof fn lemma_index_from(s: Seq<char>, c: char, from: int)
    requires
        0 <= from <= s.len(),
    ensures
        from <= index_from(s, c, from) <= s.len(),
        index_from(s, c, from) < s.len() ==> s[index_from(s, c, from)] == c,
        forall|j: int| from <= j < index_from(s, c, from) ==> s[j] != c,
    decreases s.len() - from,
{
    if from < s.len() && s[from] != c {
        lemma_index_from(s, c, from + 1);
    }
}

/// The percentage that the text between the colons of a progress line
/// stands for: an optional `+`, then one or more decimal digits whose value
/// is at most [`MAX_PERCENTAGE`]. Any other text stands for none.
pub open spec fn parse_percentage(s: Seq<char>) -> Option<u16> {
    let digits = if s.len() > 0 && s[0] == '+' {
        s.subrange(1, s.len() as int)
    } else {
        s
    };
    if digits.len() > 0 && all_digits(digits) && decimal_value(digits) <= MAX_PERCENTAGE {
        Some(decimal_value(digits) as u16)
    } else {
        None
    }
}

/// What one line of a script's output says.
pub enum LineView {
    /// A progress update with its percentage and message.
    Progress(u16, Seq<char>),
    /// An error with its message.
    Error(Seq<char>),
    /// Plain output.
    Plain,
}

/// What a progress line says once its marker is taken off: the text before
/// the first colon is the percentage, the text behind it the message. With
/// no colon, or with a text that stands for no percentage, the line is
/// plain output.
pub open spec fn classify_progress(rest: Seq<char>) -> LineView {
    let colon = first_index(rest, ':');
    if colon < rest.len() {
        match parse_percentage(rest.subrange(0, colon)) {
            Some(percentage) => LineView::Progress(
                percentage,
                rest.subrange(colon + 1, rest.len() as int),
            ),
            None => LineView::Plain,
        }
    } else {
        LineView::Plain
    }
}

/// What a line of output says.
pub open spec fn classify(line: Seq<char>) -> LineView {
    if has_prefix(line, progress_marker()) {
        classify_progress(after(line, progress_marker().len()))
    } else if has_prefix(line, error_marker()) {
        LineView::Error(after(line, error_marker().len()))
    } else {
        LineView::Plain
    }
}

/// What one line of a script's output says.
#[derive(Debug, PartialEq, Eq)]
pub enum ParsedLine {
    /// A progress update with its percentage and message.
    Progress(u16, String),
    /// An error with its message.
    Error(String),
    /// Plain output.
    Plain,
}

impl View for ParsedLine {
    type V = LineView;

    open spec fn view(&self) -> LineView {
        match self {
            ParsedLine::Progress(percentage, message) => LineView::Progress(*percentage, message@),
            ParsedLine::Error(message) => LineView::Error(message@),
            ParsedLine::Plain => LineView::Plain,
        }
    }
}

/// Tells whether `chars` begins with `prefix`.
pub(crate) fn starts_with(chars: &Vec<char>, prefix: &Vec<char>) -> (b: bool)
    ensures
        b == has_prefix(chars@, prefix@),
{
    if prefix.len() > chars.len() {
        return false;
    }
    let mut i: usize = 0;
    while i < prefix.len()
        invariant
            i <= prefix.len() <= chars.len(),
            chars@.subrange(0, i as int) == prefix@.subrange(0, i as int),
        decreases prefix.len() - i,
    {
        if chars[i] != prefix[i] {
            proof {
                let whole = chars@.subrange(0, prefix.len() as int);
            }
            return false;
        }
        i = i + 1;
    }
    assert(prefix@.subrange(0, prefix.len() as int) =~= prefix@);
    true
}

/// Returns the index of the first `c` in `chars` at or behind `from`, or
/// the length of `chars` where there is none.
pub(crate) fn find_from(chars: &Vec<char>, c: char, from: usize) -> (index: usize)
    requires
        from <= chars.len(),
    ensures
        index == index_from(chars@, c, from as int),
        from <= index <= chars.len(),
{
    let mut i: usize = from;
    while i < chars.len()
        invariant
            from <= i <= chars.len(),
            index_from(chars@, c, from as int) == index_from(chars@, c, i as int),
        decreases chars.len() - i,
    {
        if chars[i] == c {
            return i;
        }
        i = i + 1;
    }
    i
}

/// Reads the characters of `chars` from `from` up to, not including, `to`
/// as a percentage.
pub(crate) fn read_percentage(chars: &Vec<char>, from: usize, to: usize) -> (p: Option<u16>)
    requires
        from <= to <= chars.len(),
    ensures
        p == parse_percentage(chars@.subrange(from as int, to as int)),
{
    let ghost s = chars@.subrange(from as int, to as int);
    let start: usize = if from < to && chars[from] == '+' {
        from + 1
    } else {
        from
    };
    let ghost digits = chars@.subrange(start as int, to as int);
    if start == to {
        return None;
    }
    // `value` follows the number read so far, and stops one above the limit.
    let mut value: u16 = 0;
    let mut i: usize = start;
    while i < to
        invariant
            start <= i <= to <= chars.len(),
            from <= start < to,
            s == chars@.subrange(from as int, to as int),
            digits == chars@.subrange(start as int, to as int),
            digits == if s.len() > 0 && s[0] == '+' {
                s.subrange(1, s.len() as int)
            } else {
                s
            },
            all_digits(digits.subrange(0, i - start)),
            value <= MAX_PERCENTAGE + 1,
            decimal_value(digits.subrange(0, i - start)) <= MAX_PERCENTAGE ==> value
                == decimal_value(digits.subrange(0, i - start)),
            decimal_value(digits.subrange(0, i - start)) > MAX_PERCENTAGE ==> value
                == MAX_PERCENTAGE + 1,
        decreases to - i,
    {
        let ghost before = digits.subrange(0, i - start);
        let ghost now = digits.subrange(0, i - start + 1);
        proof {
            assert(now.drop_last() =~= before);
        }
        match digit_of(chars[i]) {
            None => {
                proof {
                    assert(!is_digit(digits[i - start]));
                }
                return None;
            },
            Some(d) => {
                let next: u16 = value * 10 + d as u16;
                value = if next > MAX_PERCENTAGE {
                    MAX_PERCENTAGE + 1
                } else {
                    next
                };
                proof {
                    assert forall|j: int| 0 <= j < now.len() implies is_digit(
                        #[trigger] now[j],
                    ) by {}
                }
            },
        }
        i = i + 1;
    }
    proof {
        assert(digits.subrange(0, to - start) =~= digits);
    }
    if value <= MAX_PERCENTAGE {
        Some(value)
    } else {
        None
    }
}

/// Reads one line of a script's output.
pub fn parse_line(line: &str) -> (parsed: ParsedLine)
    ensures
        parsed@ == classify(line@),
{
    let chars = chars_of(line);
    let progress = chars_of("PROGRESS:");
    let error = chars_of("ERROR:");
    if starts_with(&chars, &progress) {
        let start = progress.len();
        let colon = find_from(&chars, ':', start);
        let ghost rest = after(chars@, progress@.len());
        proof {
            lemma_index_shift(chars@, ':', start as int, start as int);
        }
        if colon < chars.len() {
            let percentage = read_percentage(&chars, start, colon);
            proof {
                assert(rest.subrange(0, colon - start) =~= chars@.subrange(
                    start as int,
                    colon as int,
                ));
                assert(rest.subrange(colon - start + 1, rest.len() as int) =~= chars@.subrange(
                    colon + 1,
                    chars.len() as int,
                ));
            }
            match percentage {
                Some(p) => ParsedLine::Progress(
                    p,
                    string_of_range(&chars, colon + 1, chars.len()),
                ),
                None => ParsedLine::Plain,
            }
        } else {
            ParsedLine::Plain
        }
    } else if starts_with(&chars, &error) {
        ParsedLine::Error(string_of_range(&chars, error.len(), chars.len()))
    } else {
        ParsedLine::Plain
    }
}

/// Searching in what is left of `s` behind its first `n` characters finds
/// the same place as searching in `s` from `n` on.
proof fn lemma_index_shift(s: Seq<char>, c: char, n: int, from: int)
    requires
        0 <= n <= from <= s.len(),
    ensures
        index_from(after(s, n as nat), c, from - n) == index_from(s, c, from) - n,
    decreases s.len() - from,
{
    if from < s.len() && s[from] != c {
        lemma_index_shift(s, c, n, from + 1);
    }
}

} // verus!
