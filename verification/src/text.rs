//! Text as sequences of characters: white space, pieces between
//! separators, trimming and decimal numbers.

use vstd::prelude::*;

verus! {

/// Whether `c` is white space: a character with the Unicode property
/// `White_Space`.
pub open spec fn is_space(c: char) -> bool {
    ||| '\u{9}' <= c <= '\u{d}'
    ||| c == ' '
    ||| c == '\u{85}'
    ||| c == '\u{a0}'
    ||| c == '\u{1680}'
    ||| '\u{2000}' <= c <= '\u{200a}'
    ||| c == '\u{2028}'
    ||| c == '\u{2029}'
    ||| c == '\u{202f}'
    ||| c == '\u{205f}'
    ||| c == '\u{3000}'
}

/// Whether `c` is white space.
pub fn is_whitespace(c: char) -> (space: bool)
    ensures
        space == is_space(c),
{
    ('\u{9}' <= c && c <= '\u{d}') || c == ' ' || c == '\u{85}' || c == '\u{a0}' || c
        == '\u{1680}' || ('\u{2000}' <= c && c <= '\u{200a}') || c == '\u{2028}' || c
        == '\u{2029}' || c == '\u{202f}' || c == '\u{205f}' || c == '\u{3000}'
}

/// What separates the pieces of a text.
#[derive(Clone, Copy, Debug, PartialEq, Eq, Structural)]
pub enum Separator {
    /// The line feed, between lines.
    LineFeed,
    /// Any white space, between the words of a line.
    Space,
}

impl Separator {
    /// Whether `c` separates.
    pub open spec fn holds(self, c: char) -> bool {
        match self {
            Separator::LineFeed => c == '\n',
            Separator::Space => is_space(c),
        }
    }

    /// Whether `c` separates.
    pub fn separates(self, c: char) -> (sep: bool)
        ensures
            sep == self.holds(c),
    {
        match self {
            Separator::LineFeed => c == '\n',
            Separator::Space => is_whitespace(c),
        }
    }
}

/// The pieces of `text` between separators, in order. Each separator ends
/// one piece and begins the next, so a text with `n` separators has `n + 1`
/// pieces, and two separators in a row have an empty piece between them.
pub open spec fn pieces(text: Seq<char>, sep: Separator) -> Seq<Seq<char>>
    decreases text.len(),
{
    if text.len() == 0 {
        seq![Seq::empty()]
    } else {
        let before = pieces(text.drop_last(), sep);
        if sep.holds(text.last()) {
            before.push(Seq::empty())
        } else {
            before.drop_last().push(before.last().push(text.last()))
        }
    }
}

/// `text` without the white space at its start.
pub open spec fn trimmed_start(text: Seq<char>) -> Seq<char>
    decreases text.len(),
{
    if text.len() > 0 && is_space(text[0]) {
        trimmed_start(text.skip(1))
    } else {
        text
    }
}

/// `text` without the white space at its end.
pub open spec fn trimmed_end(text: Seq<char>) -> Seq<char>
    decreases text.len(),
{
    if text.len() > 0 && is_space(text.last()) {
        trimmed_end(text.drop_last())
    } else {
        text
    }
}

/// `text` without the white space at its start and at its end.
pub open spec fn trimmed(text: Seq<char>) -> Seq<char> {
    trimmed_end(trimmed_start(text))
}

/// The views of a list of texts.
pub open spec fn views(texts: Seq<&str>) -> Seq<Seq<char>> {
    Seq::new(texts.len(), |i: int| texts[i]@)
}

/// The number of separators in `text`.
pub open spec fn separators(text: Seq<char>, sep: Separator) -> nat
    decreases text.len(),
{
    if text.len() == 0 {
        0
    } else if sep.holds(text.last()) {
        separators(text.drop_last(), sep) + 1
    } else {
        separators(text.drop_last(), sep)
    }
}

/// A text has one piece more than it has separators, and no piece holds a
/// separator.
pub proof fn pieces_lie_between_separators(text: Seq<char>, sep: Separator)
    ensures
        pieces(text, sep).len() == separators(text, sep) + 1,
        forall|i: int, j: int|
            0 <= i < pieces(text, sep).len() && 0 <= j < pieces(text, sep)[i].len() ==> !sep.holds(
                #[trigger] pieces(text, sep)[i][j],
            ),
    decreases text.len(),
{
    if text.len() > 0 {
        pieces_lie_between_separators(text.drop_last(), sep);
    }
}

/// A trimmed text neither begins nor ends with white space.
pub proof fn trimmed_has_bare_ends(text: Seq<char>)
    ensures
        trimmed(text).len() > 0 ==> !is_space(trimmed(text)[0]) && !is_space(trimmed(text).last()),
{
    lemma_trimmed_start(text);
    lemma_trimmed_end(trimmed_start(text));
}

/// What is left of a text without the white space at its start is the end
/// of the text and begins with no white space.
proof fn lemma_trimmed_start(text: Seq<char>)
    ensures
        trimmed_start(text).len() > 0 ==> !is_space(trimmed_start(text)[0]),
    decreases text.len(),
{
    if text.len() > 0 && is_space(text[0]) {
        lemma_trimmed_start(text.skip(1));
    }
}

/// What is left of a text without the white space at its end begins as the
/// text does and ends with no white space.
proof fn lemma_trimmed_end(text: Seq<char>)
    ensures
        trimmed_end(text).len() > 0 ==> !is_space(trimmed_end(text).last()) && trimmed_end(
            text,
        )[0] == text[0],
        trimmed_end(text).len() <= text.len(),
    decreases text.len(),
{
    if text.len() > 0 && is_space(text.last()) {
        lemma_trimmed_end(text.drop_last());
    }
}

/// Whether two texts are the same.
pub fn same(a: &str, b: &str) -> (eq: bool)
    ensures
        eq == (a@ == b@),
{
    let n = a.unicode_len();
    if b.unicode_len() != n {
        return false;
    }
    let mut i: usize = 0;
    while i < n
        invariant
            n == a@.len(),
            n == b@.len(),
            i <= n,
            forall|k: int| 0 <= k < i ==> a@[k] == b@[k],
        decreases n - i,
    {
        if a.get_char(i) != b.get_char(i) {
            return false;
        }
        i += 1;
    }
    assert(a@ =~= b@);
    true
}

/// The pieces of `text` between separators.
pub fn split<'a>(text: &'a str, sep: Separator) -> (parts: Vec<&'a str>)
    ensures
        views(parts@) == pieces(text@, sep),
{
    let n = text.unicode_len();
    let mut parts: Vec<&'a str> = Vec::new();
    let mut start: usize = 0;
    let mut i: usize = 0;
    assert(text@.take(0) =~= Seq::<char>::empty());
    assert(text@.subrange(0, 0) =~= Seq::<char>::empty());
    assert(views(parts@).push(text@.subrange(0, 0)) =~= seq![Seq::<char>::empty()]);
    while i < n
        invariant
            n == text@.len(),
            start <= i <= n,
            pieces(text@.take(i as int), sep) == views(parts@).push(
                text@.subrange(start as int, i as int),
            ),
        decreases n - i,
    {
        let c = text.get_char(i);
        let ghost before = text@.take(i as int);
        let ghost now = text@.take(i + 1);
        proof {
            assert(now.drop_last() =~= before);
            assert(now.last() == c);
        }
        if sep.separates(c) {
            let part = text.substring_char(start, i);
            let ghost old_parts = parts@;
            parts.push(part);
            proof {
                assert(views(parts@) =~= views(old_parts).push(part@));
                assert(text@.subrange(i + 1, i + 1) =~= Seq::<char>::empty());
            }
            start = i + 1;
        } else {
            proof {
                let v = views(parts@);
                let cur = text@.subrange(start as int, i as int);
                assert(v.push(cur).drop_last() =~= v);
                assert(cur.push(c) =~= text@.subrange(start as int, i + 1));
            }
        }
        i += 1;
    }
    let part = text.substring_char(start, n);
    let ghost old_parts = parts@;
    parts.push(part);
    proof {
        assert(views(parts@) =~= views(old_parts).push(part@));
        assert(text@.take(n as int) =~= text@);
    }
    parts
}

/// `text` without the white space at its start and at its end.
pub fn trim<'a>(text: &'a str) -> (inner: &'a str)
    ensures
        inner@ == trimmed(text@),
{
    let n = text.unicode_len();
    let mut from: usize = 0;
    assert(text@.skip(0) =~= text@);
    while from < n && is_whitespace(text.get_char(from))
        invariant
            n == text@.len(),
            from <= n,
            trimmed_start(text@) == trimmed_start(text@.skip(from as int)),
        decreases n - from,
    {
        assert(text@.skip(from as int).skip(1) =~= text@.skip(from + 1));
        from += 1;
    }
    let mut to: usize = n;
    assert(text@.skip(from as int) =~= text@.subrange(from as int, n as int));
    while to > from && is_whitespace(text.get_char(to - 1))
        invariant
            n == text@.len(),
            from <= to <= n,
            trimmed(text@) == trimmed_end(text@.subrange(from as int, to as int)),
        decreases to - from,
    {
        assert(text@.subrange(from as int, to as int).drop_last() =~= text@.subrange(
            from as int,
            to - 1,
        ));
        to -= 1;
    }
    text.substring_char(from, to)
}

/// The value of a decimal digit.
pub open spec fn digit(c: char) -> Option<int> {
    if '0' <= c <= '9' {
        Some(c as int - '0' as int)
    } else {
        None
    }
}

/// The number that a run of decimal digits writes, or `None` where the run
/// is empty or holds another character.
pub open spec fn natural(digits: Seq<char>) -> Option<int>
    decreases digits.len(),
{
    if digits.len() == 0 {
        None
    } else {
        match digit(digits.last()) {
            None => None,
            Some(unit) => if digits.len() == 1 {
                Some(unit)
            } else {
                match natural(digits.drop_last()) {
                    Some(tens) => Some(10 * tens + unit),
                    None => None,
                }
            },
        }
    }
}

/// The number that `text` writes in decimal: digits, after a `+` or, for a
/// signed number, a `-` if there is one.
pub open spec fn number(text: Seq<char>, signed: bool) -> Option<int> {
    if text.len() > 0 && text[0] == '+' {
        natural(text.skip(1))
    } else if signed && text.len() > 0 && text[0] == '-' {
        match natural(text.skip(1)) {
            Some(n) => Some(-n),
            None => None,
        }
    } else {
        natural(text)
    }
}

/// The number that `text` writes, where it lies between `min` and `max`.
pub open spec fn number_within(text: Seq<char>, signed: bool, min: int, max: int) -> Option<int> {
    match number(text, signed) {
        Some(n) if min <= n <= max => Some(n),
        _ => None,
    }
}

/// The largest number that `parse_natural` tells from a larger one.
const NUMBER_LIMIT: i64 = 1_000_000_000_000;

/// The number that the characters of `text` from index `from` on write,
/// where they are decimal digits and at least one; a number above
/// `NUMBER_LIMIT` comes out as `NUMBER_LIMIT`.
fn parse_natural(text: &str, from: usize) -> (value: Option<i64>)
    requires
        from <= text@.len(),
    ensures
        match natural(text@.skip(from as int)) {
            Some(n) => 0 <= n && value == Some(
                if n < NUMBER_LIMIT {
                    n as i64
                } else {
                    NUMBER_LIMIT
                },
            ),
            None => value is None,
        },
{
    let n = text.unicode_len();
    if from == n {
        return None;
    }
    let ghost digits = text@.skip(from as int);
    let mut value: i64 = 0;
    let mut i: usize = from;
    while i < n
        invariant
            n == text@.len(),
            from <= i <= n,
            from < n,
            digits == text@.skip(from as int),
            0 <= value <= NUMBER_LIMIT,
            i > from ==> (natural(digits.take(i - from)) matches Some(v) && value == if v
                < NUMBER_LIMIT {
                v
            } else {
                NUMBER_LIMIT as int
            }),
            i == from ==> value == 0,
        decreases n - i,
    {
        let c = text.get_char(i);
        let ghost now = digits.take(i + 1 - from);
        proof {
            assert(now.drop_last() =~= digits.take(i - from));
            assert(now.last() == c);
        }
        if c < '0' || c > '9' {
            proof {
                lemma_natural_needs_digits(digits, i - from);
            }
            return None;
        }
        let unit: i64 = (c as u32 - '0' as u32) as i64;
        let next: i64 = 10 * value + unit;
        value = if next > NUMBER_LIMIT {
            NUMBER_LIMIT
        } else {
            next
        };
        i += 1;
    }
    assert(digits.take(n - from) =~= digits);
    Some(value)
}

/// A run that holds something other than a digit writes no number.
proof fn lemma_natural_needs_digits(digits: Seq<char>, at: int)
    requires
        0 <= at < digits.len(),
        digit(digits[at]) is None,
    ensures
        natural(digits) is None,
    decreases digits.len(),
{
    if at < digits.len() - 1 {
        lemma_natural_needs_digits(digits.drop_last(), at);
    }
}

/// The number that `text` writes, where it lies between `min` and `max`.
fn parse_number(text: &str, signed: bool, min: i64, max: i64) -> (value: Option<i64>)
    requires
        -NUMBER_LIMIT < min,
        max < NUMBER_LIMIT,
    ensures
        match number_within(text@, signed, min as int, max as int) {
            Some(n) => value == Some(n as i64),
            None => value is None,
        },
{
    let n = text.unicode_len();
    let first = if n > 0 {
        Some(text.get_char(0))
    } else {
        None
    };
    let (negative, from): (bool, usize) = match first {
        Some('+') => (false, 1),
        Some('-') => if signed {
            (true, 1)
        } else {
            (false, 0)
        },
        _ => (false, 0),
    };
    assert(text@.skip(0) =~= text@);
    match parse_natural(text, from) {
        None => None,
        Some(size) => {
            let value = if negative {
                -size
            } else {
                size
            };
            if min <= value && value <= max {
                Some(value)
            } else {
                None
            }
        },
    }
}

/// The number that `text` writes, where an `i32` holds it.
pub open spec fn as_i32(text: Seq<char>) -> Option<i32> {
    match number_within(text, true, i32::MIN as int, i32::MAX as int) {
        Some(n) => Some(n as i32),
        None => None,
    }
}

/// The number that `text` writes, where a `u16` holds it.
pub open spec fn as_u16(text: Seq<char>) -> Option<u16> {
    match number_within(text, false, 0, u16::MAX as int) {
        Some(n) => Some(n as u16),
        None => None,
    }
}

/// The number that `text` writes, where an `i8` holds it.
pub open spec fn as_i8(text: Seq<char>) -> Option<i8> {
    match number_within(text, true, i8::MIN as int, i8::MAX as int) {
        Some(n) => Some(n as i8),
        None => None,
    }
}

/// The number that `text` writes, where an `i32` holds it.
pub fn parse_i32(text: &str) -> (value: Option<i32>)
    ensures
        value == as_i32(text@),
{
    match parse_number(text, true, -2147483648, 2147483647) {
        Some(n) => Some(n as i32),
        None => None,
    }
}

/// The number that `text` writes, where a `u16` holds it.
pub fn parse_u16(text: &str) -> (value: Option<u16>)
    ensures
        value == as_u16(text@),
{
    match parse_number(text, false, 0, 65535) {
        Some(n) => Some(n as u16),
        None => None,
    }
}

/// The number that `text` writes, where an `i8` holds it.
pub fn parse_i8(text: &str) -> (value: Option<i8>)
    ensures
        value == as_i8(text@),
{
    match parse_number(text, true, -128, 127) {
        Some(n) => Some(n as i8),
        None => None,
    }
}

} // verus!
