//! Source text as a sequence of characters: lines, comments, words and
//! numbers.

use vstd::prelude::*;
use vstd::slice::slice_subrange;

verus! {

/// Whether `c` is white space: a character with the Unicode property
/// `White_Space`.
pub open spec fn is_space(c: char) -> bool {
    ||| '\u{9}' <= c <= '\u{d}'
    ||| c == ' '
    ||| c == '\u{85}'
    ||| c == '\u{a0}'
    ||| c == '\u{1680}'
    ||| '\u{2000}' <= c <= '\u{200a}'
    ||| c == '\u{2028}'
    ||| c == '\u{2029}'
    ||| c == '\u{202f}'
    ||| c == '\u{205f}'
    ||| c == '\u{3000}'
}

/// The pieces of `text` that `spans` mark, each span a pair of a first index
/// and the index behind the last.
pub open spec fn cut(text: Seq<char>, spans: Seq<(usize, usize)>) -> Seq<Seq<char>> {
    Seq::new(spans.len(), |k: int| text.subrange(spans[k].0 as int, spans[k].1 as int))
}

/// Whether each of `spans` lies inside a text of `len` characters.
pub open spec fn spans_within(spans: Seq<(usize, usize)>, len: nat) -> bool {
    forall|k: int| 0 <= k < spans.len() ==> (#[trigger] spans[k]).0 <= spans[k].1 <= len
}

/// The index of the first line feed at or behind `from`, or the length of
/// `text` if there is none.
pub open spec fn line_end(text: Seq<char>, from: int) -> int
    decreases text.len() - from,
{
    if from < 0 || from >= text.len() {
        text.len() as int
    } else if text[from] == '\n' {
        from
    } else {
        line_end(text, from + 1)
    }
}

/// The lines of `text` from index `from` on.
pub open spec fn lines_from(text: Seq<char>, from: int) -> Seq<Seq<char>>
    decreases text.len() - from,
{
    if from < 0 || from >= text.len() {
        Seq::empty()
    } else {
        let end: int = line_end(text, from);
        proof {
            line_end_bounds(text, from);
        }
        if end >= text.len() {
            seq![text.subrange(from, end)]
        } else {
            seq![text.subrange(from, end)] + lines_from(text, end + 1)
        }
    }
}

/// The lines of `text`: the runs of characters between line feeds. What
/// follows the last line feed is a line only if it is not empty.
pub open spec fn lines(text: Seq<char>) -> Seq<Seq<char>> {
    lines_from(text, 0)
}

/// The index at which the comment of `line` starts, looked for from `from`
/// on: that of the first `//`, or the length of `line`.
pub open spec fn comment_from(line: Seq<char>, from: int) -> int
    decreases line.len() - from,
{
    if from < 0 || from + 1 >= line.len() {
        line.len() as int
    } else if line[from] == '/' && line[from + 1] == '/' {
        from
    } else {
        comment_from(line, from + 1)
    }
}

/// `line` without its comment.
pub open spec fn code_part(line: Seq<char>) -> Seq<char> {
    line.take(comment_from(line, 0))
}

/// The index of the first white space at or behind `from`, or the length of
/// `text` if there is none.
pub open spec fn word_end(text: Seq<char>, from: int) -> int
    decreases text.len() - from,
{
    if from < 0 || from >= text.len() {
        text.len() as int
    } else if is_space(text[from]) {
        from
    } else {
        word_end(text, from + 1)
    }
}

/// The words of `text` from index `from` on.
pub open spec fn words_from(text: Seq<char>, from: int) -> Seq<Seq<char>>
    decreases text.len() - from,
{
    if from < 0 || from >= text.len() {
        Seq::empty()
    } else if is_space(text[from]) {
        words_from(text, from + 1)
    } else {
        let end: int = word_end(text, from);
        proof {
            word_end_bounds(text, from);
        }
        seq![text.subrange(from, end)] + words_from(text, end)
    }
}

/// The words of `text`: its longest runs of characters that are not white
/// space.
pub open spec fn words(text: Seq<char>) -> Seq<Seq<char>> {
    words_from(text, 0)
}

/// The value of `c` as a digit in base `radix`, for a base up to 36: the
/// decimal digits, then the letters in either case.
pub open spec fn digit_value(c: char, radix: int) -> Option<int> {
    let value = if '0' <= c <= '9' {
        c as int - '0' as int
    } else if 'a' <= c <= 'z' {
        c as int - 'a' as int + 10
    } else if 'A' <= c <= 'Z' {
        c as int - 'A' as int + 10
    } else {
        radix
    };
    if value < radix {
        Some(value)
    } else {
        None
    }
}

/// The number that `digits` write in base `radix`, if each of them is a
/// digit of that base. No digits write zero.
pub open spec fn digits_value(digits: Seq<char>, radix: int) -> Option<int>
    decreases digits.len(),
{
    if digits.len() == 0 {
        Some(0)
    } else {
        match (digits_value(digits.drop_last(), radix), digit_value(digits.last(), radix)) {
            (Some(high), Some(low)) => Some(high * radix + low),
            _ => None,
        }
    }
}

/// The 16-bit number that `text` writes in base `radix`: an optional `+`
/// and then at least one digit, nothing else, and a value of at most 65535.
pub open spec fn number(text: Seq<char>, radix: int) -> Option<u16> {
    let digits = if text.len() > 0 && text[0] == '+' {
        text.drop_first()
    } else {
        text
    };
    if digits.len() == 0 {
        None
    } else {
        match digits_value(digits, radix) {
            Some(value) if value <= u16::MAX => Some(value as u16),
            _ => None,
        }
    }
}

/// [`line_end`] lies between `from` and the end of the text.
pub proof fn line_end_bounds(text: Seq<char>, from: int)
    requires
        0 <= from <= text.len(),
    ensures
        from <= line_end(text, from) <= text.len(),
    decreases text.len() - from,
{
    if from < text.len() && text[from] != '\n' {
        line_end_bounds(text, from + 1);
    }
}

/// [`word_end`] lies between `from` and the end of the text, and behind
/// `from` if a word starts there.
pub proof fn word_end_bounds(text: Seq<char>, from: int)
    requires
        0 <= from <= text.len(),
    ensures
        from <= word_end(text, from) <= text.len(),
        from < text.len() && !is_space(text[from]) ==> from < word_end(text, from),
    decreases text.len() - from,
{
    if from < text.len() && !is_space(text[from]) {
        word_end_bounds(text, from + 1);
    }
}

/// If `digits` write a number, so does each of their prefixes, and none of
/// them a larger one.
pub proof fn digits_prefix(digits: Seq<char>, radix: int, n: int)
    requires
        radix >= 1,
        0 <= n <= digits.len(),
        digits_value(digits, radix) is Some,
    ensures
        digits_value(digits.take(n), radix) is Some,
        0 <= digits_value(digits.take(n), radix)->0 <= digits_value(digits, radix)->0,
    decreases digits.len(),
{
    if n == digits.len() {
        assert(digits.take(n) =~= digits);
        if digits.len() > 0 {
            digits_prefix(digits.drop_last(), radix, n - 1);
        }
    } else {
        let shorter = digits.drop_last();
        assert(shorter.take(n) =~= digits.take(n));
        digits_prefix(shorter, radix, n);
        let high: int = digits_value(shorter, radix)->0;
        assert(high * radix >= high) by (nonlinear_arith)
            requires
                high >= 0,
                radix >= 1,
        ;
    }
}

/// Executable form of [`is_space`].
pub fn space(c: char) -> (r: bool)
    ensures
        r == is_space(c),
{
    let code: u32 = c as u32;
    (0x9 <= code && code <= 0xd) || code == 0x20 || code == 0x85 || code == 0xa0 || code == 0x1680
        || (0x2000 <= code && code <= 0x200a) || code == 0x2028 || code == 0x2029 || code
        == 0x202f || code == 0x205f || code == 0x3000
}

/// The characters of `s`.
pub fn to_chars(s: &str) -> (chars: Vec<char>)
    ensures
        chars@ == s@,
{
    let mut chars: Vec<char> = Vec::new();
    for c in it: s.chars()
        invariant
            chars@ == it.seq().take(it.index() as int),
    {
        chars.push(c);
    }
    chars
}

/// Whether `text` reads `word`.
pub fn reads(text: &[char], word: &str) -> (r: bool)
    ensures
        r == (text@ == word@),
{
    let n: usize = word.unicode_len();
    if text.len() != n {
        return false;
    }
    let mut i: usize = 0;
    while i < n
        invariant
            i <= n,
            n == word@.len(),
            n == text@.len(),
            text@.take(i as int) == word@.take(i as int),
        decreases n - i,
    {
        if text[i] != word.get_char(i) {
            return false;
        }
        i = i + 1;
    }
    assert(text@ =~= text@.take(n as int));
    assert(word@ =~= word@.take(n as int));
    true
}

/// Whether `a` and `b` hold the same characters.
pub fn same(a: &[char], b: &[char]) -> (r: bool)
    ensures
        r == (a@ == b@),
{
    if a.len() != b.len() {
        return false;
    }
    let mut i: usize = 0;
    while i < a.len()
        invariant
            i <= a.len(),
            a.len() == b.len(),
            a@.take(i as int) == b@.take(i as int),
        decreases a.len() - i,
    {
        if a[i] != b[i] {
            return false;
        }
        i = i + 1;
    }
    assert(a@ =~= a@.take(a.len() as int));
    assert(b@ =~= b@.take(b.len() as int));
    true
}

/// The spans of the lines of `text`.
pub fn line_spans(text: &[char]) -> (spans: Vec<(usize, usize)>)
    ensures
        cut(text@, spans@) == lines(text@),
        spans_within(spans@, text@.len()),
{
    let n: usize = text.len();
    let mut spans: Vec<(usize, usize)> = Vec::new();
    let mut start: usize = 0;
    while start < n
        invariant
            n == text@.len(),
            start <= n,
            spans_within(spans@, text@.len()),
            cut(text@, spans@) + lines_from(text@, start as int) == lines(text@),
        decreases n - start,
    {
        let mut end: usize = start;
        while end < n && text[end] != '\n'
            invariant
                n == text@.len(),
                start <= end <= n,
                line_end(text@, start as int) == line_end(text@, end as int),
            decreases n - end,
        {
            end = end + 1;
        }
        spans.push((start, end));
        let next: usize = if end == n {
            n
        } else {
            end + 1
        };
        start = next;
    }
    spans
}

/// The length of `line` without its comment.
pub fn code_length(line: &[char]) -> (n: usize)
    ensures
        n == comment_from(line@, 0),
        n <= line@.len(),
{
    let n: usize = line.len();
    if n < 2 {
        return n;
    }
    let last: usize = n - 1;
    let mut i: usize = 0;
    while i < last && !(line[i] == '/' && line[i + 1] == '/')
        invariant
            n == line@.len(),
            last == n - 1,
            i <= last,
            comment_from(line@, 0) == comment_from(line@, i as int),
        decreases last - i,
    {
        i = i + 1;
    }
    if i < last {
        i
    } else {
        n
    }
}

/// The spans of the words of `text`. No word is empty.
pub fn word_spans(text: &[char]) -> (spans: Vec<(usize, usize)>)
    ensures
        cut(text@, spans@) == words(text@),
        spans_within(spans@, text@.len()),
        forall|k: int| 0 <= k < spans@.len() ==> (#[trigger] spans@[k]).0 < spans@[k].1,
{
    let n: usize = text.len();
    let mut spans: Vec<(usize, usize)> = Vec::new();
    let mut i: usize = 0;
    while i < n
        invariant
            n == text@.len(),
            i <= n,
            spans_within(spans@, text@.len()),
            forall|k: int| 0 <= k < spans@.len() ==> (#[trigger] spans@[k]).0 < spans@[k].1,
            cut(text@, spans@) + words_from(text@, i as int) == words(text@),
        decreases n - i,
    {
        if space(text[i]) {
            i = i + 1;
        } else {
            let start: usize = i;
            while i < n && !space(text[i])
                invariant
                    n == text@.len(),
                    start <= i <= n,
                    word_end(text@, start as int) == word_end(text@, i as int),
                decreases n - i,
            {
                i = i + 1;
            }
            spans.push((start, i));
            proof {
                word_end_bounds(text@, start as int);
            }
        }
    }
    spans
}

/// Executable form of [`digit_value`].
fn digit(c: char, radix: u32) -> (r: Option<u32>)
    requires
        2 <= radix <= 36,
    ensures
        r matches Some(d) ==> digit_value(c, radix as int) == Some(d as int) && d < radix,
        r is None ==> digit_value(c, radix as int) is None,
{
    let code: u32 = c as u32;
    let value: u32 = if 0x30 <= code && code <= 0x39 {
        code - 0x30
    } else if 0x61 <= code && code <= 0x7a {
        code - 0x61 + 10
    } else if 0x41 <= code && code <= 0x5a {
        code - 0x41 + 10
    } else {
        radix
    };
    if value < radix {
        Some(value)
    } else {
        None
    }
}

/// Executable form of [`number`].
pub fn parse_number(text: &[char], radix: u32) -> (r: Option<u16>)
    requires
        2 <= radix <= 36,
    ensures
        r == number(text@, radix as int),
{
    let skip: usize = if text.len() > 0 && text[0] == '+' {
        1
    } else {
        0
    };
    let digits = slice_subrange(text, skip, text.len());
    assert(digits@ =~= if skip == 1 {
        text@.drop_first()
    } else {
        text@
    });
    let n: usize = digits.len();
    if n == 0 {
        return None;
    }
    let mut value: u32 = 0;
    let mut i: usize = 0;
    while i < n
        invariant
            2 <= radix <= 36,
            n == digits@.len(),
            n > 0,
            i <= n,
            value <= u16::MAX,
            digits_value(digits@.take(i as int), radix as int) == Some(value as int),
            number(text@, radix as int) == match digits_value(digits@, radix as int) {
                Some(whole) if whole <= u16::MAX => Some(whole as u16),
                _ => None,
            },
        decreases n - i,
    {
        let ghost longer = digits@.take(i + 1);
        proof {
            assert(longer.drop_last() =~= digits@.take(i as int));
            if digits_value(digits@, radix as int) is Some {
                digits_prefix(digits@, radix as int, i + 1);
            }
        }
        match digit(digits[i], radix) {
            None => {
                return None;
            },
            Some(d) => {
                assert(value * radix <= 65535 * 36) by (nonlinear_arith)
                    requires
                        value <= 65535,
                        radix <= 36,
                ;
                let wider: u32 = value * radix + d;
                if wider > 0xFFFF {
                    return None;
                }
                value = wider;
            },
        }
        i = i + 1;
    }
    assert(digits@.take(n as int) =~= digits@);
    Some(value as u16)
}

} // verus!
