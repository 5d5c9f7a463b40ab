//! Text that the client writes: decimal numbers, substituted paths, joined
//! paths.

use vstd::prelude::*;

verus! {

/// The character that stands for a digit.
pub open spec fn digit(d: int) -> char {
    ('0' as u32 + d) as char
}

/// A number written in decimal, without leading zeros.
pub open spec fn decimal(n: nat) -> Seq<char>
    decreases n,
{
    if n < 10 {
        seq![digit(n as int)]
    } else {
        decimal(n / 10).push(digit((n % 10) as int))
    }
}

/// The text of a single digit.
pub fn digit_text(d: u64) -> (r: &'static str)
    requires
        d < 10,
    ensures
        r@ == seq![digit(d as int)],
{
    proof {
        reveal_strlit("0");
        reveal_strlit("1");
        reveal_strlit("2");
        reveal_strlit("3");
        reveal_strlit("4");
        reveal_strlit("5");
        reveal_strlit("6");
        reveal_strlit("7");
        reveal_strlit("8");
        reveal_strlit("9");
    }
    match d {
        0 => "0",
        1 => "1",
        2 => "2",
        3 => "3",
        4 => "4",
        5 => "5",
        6 => "6",
        7 => "7",
        8 => "8",
        _ => "9",
    }
}

/// Writes a number in decimal.
pub fn decimal_text(n: u64) -> (r: String)
    ensures
        r@ == decimal(n as nat),
    decreases n,
{
    if n < 10 {
        digit_text(n).to_owned()
    } else {
        let mut text = decimal_text(n / 10);
        text.append(digit_text(n % 10));
        text
    }
}

/// An integer written in decimal, with a minus sign where it is negative.
pub open spec fn signed_decimal(n: int) -> Seq<char> {
    if n < 0 {
        seq!['-'] + decimal((-n) as nat)
    } else {
        decimal(n as nat)
    }
}

/// Writes an integer in decimal.
pub fn signed_decimal_text(n: i128) -> (r: String)
    requires
        -u64::MAX <= n <= u64::MAX,
    ensures
        r@ == signed_decimal(n as int),
{
    if n < 0 {
        proof {
            reveal_strlit("-");
        }
        let mut text = "-".to_owned();
        text.append(decimal_text((-n) as u64).as_str());
        assert(text@ =~= signed_decimal(n as int));
        text
    } else {
        decimal_text(n as u64)
    }
}

/// A non-empty run of decimal digits.
pub open spec fn is_digits(s: Seq<char>) -> bool {
    s.len() > 0 && forall|i: int| 0 <= i < s.len() ==> '0' <= #[trigger] s[i] <= '9'
}

/// The number that a run of decimal digits stands for.
pub open spec fn digits_value(s: Seq<char>) -> nat
    decreases s.len(),
{
    if s.len() == 0 {
        0
    } else {
        10 * digits_value(s.drop_last()) + (s.last() as int - '0' as int) as nat
    }
}

/// The number that a text stands for, where it is one or more decimal digits,
/// perhaps behind a plus sign, and the number is at most `max`.
pub open spec fn unsigned_value(s: Seq<char>, max: nat) -> Option<nat> {
    let digits = if s.len() > 0 && s[0] == '+' {
        s.skip(1)
    } else {
        s
    };
    if is_digits(digits) && digits_value(digits) <= max {
        Some(digits_value(digits))
    } else {
        None
    }
}

/// The characters of a text.
pub fn chars_of(s: &str) -> (r: Vec<char>)
    ensures
        r@ == s@,
{
    let mut out: Vec<char> = Vec::new();
    let len: usize = s.unicode_len();
    let mut i: usize = 0;
    while i < len
        invariant
            len == s@.len(),
            i <= len,
            out@ == s@.take(i as int),
        decreases len - i,
    {
        out.push(s.get_char(i));
        assert(s@.take(i + 1) =~= s@.take(i as int).push(s@[i as int]));
        i = i + 1;
    }
    assert(s@.take(len as int) =~= s@);
    out
}

/// A run of digits is worth at least as much as its first digits.
proof fn lemma_digits_value_grows(s: Seq<char>, n: int)
    requires
        0 <= n <= s.len(),
    ensures
        digits_value(s.take(n)) <= digits_value(s),
    decreases s.len() - n,
{
    if n == s.len() {
        assert(s.take(n) =~= s);
    } else {
        lemma_digits_value_grows(s, n + 1);
        assert(s.take(n + 1).drop_last() =~= s.take(n));
    }
}

/// Reads an unsigned decimal number that is at most `max`.
pub fn parse_unsigned(s: &str, max: u64) -> (r: Option<u64>)
    ensures
        match r {
            Some(n) => unsigned_value(s@, max as nat) == Some(n as nat),
            None => unsigned_value(s@, max as nat) is None,
        },
{
    let chars = chars_of(s);
    let start: usize = if chars.len() > 0 && chars[0] == '+' {
        1
    } else {
        0
    };
    let ghost digits = s@.skip(start as int);
    assert(start == 0 ==> digits =~= s@);
    if chars.len() == start {
        return None;
    }
    let mut value: u128 = 0;
    let mut i: usize = start;
    assert(digits.take(0) =~= Seq::<char>::empty());
    while i < chars.len()
        invariant
            chars@ == s@,
            start <= i <= chars.len(),
            digits == s@.skip(start as int),
            unsigned_value(s@, max as nat) == (if is_digits(digits) && digits_value(digits)
                <= max {
                Some(digits_value(digits))
            } else {
                None
            }),
            forall|k: int| 0 <= k < i - start ==> '0' <= #[trigger] digits[k] <= '9',
            value == digits_value(digits.take(i - start)),
            value <= max,
        decreases chars.len() - i,
    {
        let c = chars[i];
        assert(digits[i - start] == c);
        if c < '0' || c > '9' {
            return None;
        }
        value = value * 10 + (c as u128 - '0' as u128);
        assert(digits.take(i - start + 1).drop_last() =~= digits.take(i - start));
        i = i + 1;
        if value > max as u128 {
            proof {
                lemma_digits_value_grows(digits, i - start);
            }
            return None;
        }
    }
    assert(digits.take(i - start) =~= digits);
    Some(value as u64)
}

/// A number that has been written in decimal is read back as itself.
pub proof fn lemma_decimal_read_back(n: nat, max: nat)
    requires
        n <= max,
    ensures
        unsigned_value(decimal(n), max) == Some(n),
{
    lemma_decimal_digits(n);
    assert(decimal(n)[0] != '+');
}

/// A number in decimal is a run of digits that stands for the number.
proof fn lemma_decimal_digits(n: nat)
    ensures
        is_digits(decimal(n)),
        digits_value(decimal(n)) == n,
    decreases n,
{
    if n < 10 {
        reveal_with_fuel(digits_value, 2);
        assert(decimal(n).drop_last() =~= Seq::<char>::empty());
    } else {
        lemma_decimal_digits(n / 10);
        assert(decimal(n).drop_last() =~= decimal(n / 10));
    }
}

/// The characters that count as white space.
pub open spec fn white_space(c: char) -> bool {
    let n = c as u32;
    ||| 0x09 <= n <= 0x0d
    ||| n == 0x20
    ||| n == 0x85
    ||| n == 0xa0
    ||| n == 0x1680
    ||| 0x2000 <= n <= 0x200a
    ||| n == 0x2028
    ||| n == 0x2029
    ||| n == 0x202f
    ||| n == 0x205f
    ||| n == 0x3000
}

/// Whether a character counts as white space.
pub fn is_white_space(c: char) -> (r: bool)
    ensures
        r == white_space(c),
{
    let n: u32 = c as u32;
    match n {
        0x09..=0x0d | 0x20 | 0x85 | 0xa0 | 0x1680 | 0x2000..=0x200a => true,
        0x2028 | 0x2029 | 0x202f | 0x205f | 0x3000 => true,
        _ => false,
    }
}

/// A text of nothing but white space.
pub open spec fn blank(s: Seq<char>) -> bool {
    forall|i: int| 0 <= i < s.len() ==> white_space(#[trigger] s[i])
}

/// Whether a text is nothing but white space.
pub fn is_blank(s: &str) -> (r: bool)
    ensures
        r == blank(s@),
{
    let chars = chars_of(s);
    let mut i: usize = 0;
    while i < chars.len()
        invariant
            chars@ == s@,
            i <= chars@.len(),
            forall|k: int| 0 <= k < i ==> white_space(#[trigger] s@[k]),
        decreases chars@.len() - i,
    {
        if !is_white_space(chars[i]) {
            return false;
        }
        i = i + 1;
    }
    true
}

/// A number in decimal is not blank.
pub proof fn lemma_decimal_not_blank(n: nat)
    ensures
        !blank(decimal(n)),
{
    lemma_decimal_digits(n);
    assert(!white_space(decimal(n)[0]));
}

/// Whether two texts hold the same characters.
pub fn same_text(a: &str, b: &str) -> (r: bool)
    ensures
        r == (a@ == b@),
{
    a.to_owned() == b.to_owned()
}

/// Whether a pattern stands somewhere in a text.
pub open spec fn occurs(s: Seq<char>, pattern: Seq<char>) -> bool {
    exists|i: int| #[trigger] occurs_at(s, pattern, i)
}

/// Whether a pattern stands at a place of a text.
pub open spec fn occurs_at(s: Seq<char>, pattern: Seq<char>, i: int) -> bool {
    0 <= i <= s.len() - pattern.len() && s.subrange(i, i + pattern.len()) == pattern
}

/// A text with another one in place of each match of a pattern, where matches are
/// found from left to right and do not overlap.
pub open spec fn replaced(s: Seq<char>, pattern: Seq<char>, to: Seq<char>) -> Seq<char>
    recommends
        pattern.len() > 0,
    decreases s.len(),
{
    if pattern.len() == 0 || s.len() < pattern.len() {
        s
    } else if s.take(pattern.len() as int) == pattern {
        to + replaced(s.skip(pattern.len() as int), pattern, to)
    } else {
        seq![s[0]] + replaced(s.skip(1), pattern, to)
    }
}

/// Puts another text in place of each match of a pattern.
pub fn replace_text(s: &str, pattern: &str, to: &str) -> (r: String)
    requires
        pattern@.len() > 0,
    ensures
        r@ == replaced(s@, pattern@, to@),
{
    let len: usize = s.unicode_len();
    let width: usize = pattern.unicode_len();
    let mut out = String::new();
    let mut i: usize = 0;
    assert(s@.skip(0) =~= s@);
    assert(out@ + replaced(s@, pattern@, to@) =~= replaced(s@, pattern@, to@));
    while i < len && width <= len - i
        invariant
            len == s@.len(),
            width == pattern@.len(),
            width > 0,
            i <= len,
            replaced(s@, pattern@, to@) == out@ + replaced(s@.skip(i as int), pattern@, to@),
        decreases len - i,
    {
        let ghost rest = s@.skip(i as int);
        let window = s.substring_char(i, i + width);
        assert(window@ =~= rest.take(width as int));
        if same_text(window, pattern) {
            assert(rest.skip(width as int) =~= s@.skip(i + width));
            assert((out@ + to@) + replaced(rest.skip(width as int), pattern@, to@) =~= out@ + (to@
                + replaced(rest.skip(width as int), pattern@, to@)));
            out.append(to);
            i = i + width;
        } else {
            let first = s.substring_char(i, i + 1);
            assert(first@ =~= seq![rest[0]]);
            assert(rest.skip(1) =~= s@.skip(i + 1));
            assert((out@ + first@) + replaced(rest.skip(1), pattern@, to@) =~= out@ + (first@
                + replaced(rest.skip(1), pattern@, to@)));
            out.append(first);
            i = i + 1;
        }
    }
    out.append(s.substring_char(i, len));
    assert(s@.subrange(i as int, len as int) =~= s@.skip(i as int));
    out
}

/// A text without a match stays as it is.
pub proof fn lemma_replaced_without_match(s: Seq<char>, pattern: Seq<char>, to: Seq<char>)
    requires
        pattern.len() > 0,
        !occurs(s, pattern),
    ensures
        replaced(s, pattern, to) == s,
    decreases s.len(),
{
    if s.len() >= pattern.len() {
        assert(s.subrange(0, pattern.len() as int) =~= s.take(pattern.len() as int));
        assert(!occurs_at(s, pattern, 0));
        let rest = s.skip(1);
        assert forall|i: int| !#[trigger] occurs_at(rest, pattern, i) by {
            if occurs_at(rest, pattern, i) {
                assert(s.subrange(i + 1, i + 1 + pattern.len()) =~= rest.subrange(
                    i,
                    i + pattern.len(),
                ));
                assert(occurs_at(s, pattern, i + 1));
            }
        }
        lemma_replaced_without_match(rest, pattern, to);
        assert(seq![s[0]] + rest =~= s);
    }
}

/// A match that a text starts with is replaced, and the rest of the text is
/// treated for itself.
pub proof fn lemma_replaced_at_start(pattern: Seq<char>, rest: Seq<char>, to: Seq<char>)
    requires
        pattern.len() > 0,
    ensures
        replaced(pattern + rest, pattern, to) == to + replaced(rest, pattern, to),
{
    let s = pattern + rest;
    assert(s.take(pattern.len() as int) =~= pattern);
    assert(s.skip(pattern.len() as int) =~= rest);
}

/// A path below a directory: a slash stands between the two, unless the
/// directory is empty or ends with one.
pub open spec fn joined(dir: Seq<char>, name: Seq<char>) -> Seq<char> {
    if dir.len() == 0 || dir.last() == '/' {
        dir + name
    } else {
        dir.push('/') + name
    }
}

/// Joins a relative path to a directory.
pub fn join_path(dir: &str, name: &str) -> (r: String)
    requires
        name@.len() > 0,
        name@[0] != '/',
    ensures
        r@ == joined(dir@, name@),
{
    let len: usize = dir.unicode_len();
    let mut path = dir.to_owned();
    if len > 0 && dir.get_char(len - 1) != '/' {
        proof {
            reveal_strlit("/");
        }
        path.append("/");
        assert(path@ =~= dir@.push('/'));
    }
    path.append(name);
    path
}

} // verus!
