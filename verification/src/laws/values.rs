//! Laws of the values that a command line gives, and of the texts that numbers are
//! written in.

use vstd::prelude::*;

use crate::text::{
    blank, decimal, digit, digits_value, is_digits, joined, lemma_decimal_read_back, occurs_at,
    replaced, signed_decimal, unsigned_value, white_space,
};
use crate::usage::{entries_map, missing_text, text_view, undecodable_text, ArgValue, ArgView};

verus! {

/// What each sort of value says as a switch.
pub proof fn lemma_value_as_switch(b: bool, n: u64, s: Seq<char>, l: Seq<Seq<char>>)
    ensures
        ArgView::Switch(b).flag() <==> b,
        ArgView::Counted(n).flag() <==> n != 0,
        ArgView::Plain(Some(s)).flag(),
        !ArgView::Plain(None).flag(),
        ArgView::List(l).flag() <==> l.len() != 0,
{
}

/// What each sort of value says as a text: only an argument says anything.
pub proof fn lemma_value_as_text(b: bool, n: u64, s: Seq<char>, l: Seq<Seq<char>>)
    ensures
        ArgView::Plain(Some(s)).text() == s,
        ArgView::Plain(None).text().len() == 0,
        ArgView::Switch(b).text().len() == 0,
        ArgView::Counted(n).text().len() == 0,
        ArgView::List(l).text().len() == 0,
{
}

/// What each sort of value says as a list: an argument is a list of one.
pub proof fn lemma_value_as_list(b: bool, n: u64, s: Seq<char>, l: Seq<Seq<char>>)
    ensures
        ArgView::List(l).list() == l,
        ArgView::Plain(Some(s)).list().len() == 1,
        ArgView::Plain(Some(s)).list()[0] == s,
        ArgView::Plain(None).list().len() == 0,
        ArgView::Switch(b).list().len() == 0,
        ArgView::Counted(n).list().len() == 0,
{
}

/// What each sort of value says as a number: a count is itself where it is not too
/// great, a text that is not blank is what it reads as, and all else is zero.
pub proof fn lemma_value_as_number(b: bool, n: u64, s: Seq<char>, l: Seq<Seq<char>>, max: nat)
    ensures
        n <= max ==> ArgView::Counted(n).number(max) == Some(n as nat),
        n > max ==> ArgView::Counted(n).number(max) is None,
        blank(s) ==> ArgView::Plain(Some(s)).number(max) == Some(0nat),
        !blank(s) ==> ArgView::Plain(Some(s)).number(max) == unsigned_value(s, max),
        ArgView::Plain(None).number(max) == Some(0nat),
        ArgView::Switch(b).number(max) == Some(0nat),
        ArgView::List(l).number(max) == Some(0nat),
{
}

/// Entries are found under their own names, and a later one takes the place of an
/// earlier one of the same name.
pub proof fn lemma_entry_added(
    entries: Seq<(String, ArgValue)>,
    name: String,
    value: ArgValue,
    other: Seq<char>,
)
    ensures
        ({
            let before = entries_map(entries);
            let after = entries_map(entries.push((name, value)));
            &&& after.dom().contains(name@) && after[name@] == value@
            &&& other != name@ ==> (after.dom().contains(other) <==> before.dom().contains(other))
            &&& other != name@ && before.dom().contains(other) ==> after[other] == before[other]
            &&& !entries_map(Seq::empty()).dom().contains(other)
        }),
{
    assert(entries.push((name, value)).drop_last() =~= entries);
}

/// The view of a value keeps what it holds.
pub proof fn lemma_value_view(b: bool, n: u64, s: String, l: Vec<String>)
    ensures
        ArgValue::Switch(b)@ == ArgView::Switch(b),
        ArgValue::Counted(n)@ == ArgView::Counted(n),
        ArgValue::Plain(Some(s))@ == ArgView::Plain(Some(s@)),
        ArgValue::Plain(None)@ == ArgView::Plain(None),
        ArgValue::List(l)@ == ArgView::List(l.deep_view()),
        text_view(Some(s)) == Some(s@),
        text_view(None) is None,
{
}

/// The complaint about a missing value quotes its word and its field, and the same words
/// stand around them whatever they are.
pub proof fn lemma_missing_value_is_quoted(
    key: Seq<char>,
    field: Seq<char>,
    other_key: Seq<char>,
    other_field: Seq<char>,
) -> (words: (Seq<char>, Seq<char>, Seq<char>))
    ensures
        words.0 == "Could not find argument '"@,
        words.1 == "' (from struct field '"@,
        missing_text(key, field) == words.0 + key + words.1 + field + words.2,
        missing_text(other_key, other_field) == words.0 + other_key + words.1 + other_field
            + words.2,
{
    (
        "Could not find argument '"@,
        "' (from struct field '"@,
        "').
Note that each struct field must have the right key prefix, which must
be one of `cmd_`, `flag_` or `arg_`."@,
    )
}

/// The complaint about a text that is no number quotes the text, the sort of number and
/// the word.
pub proof fn lemma_undecodable_text_is_quoted(text: Seq<char>, kind: Seq<char>, key: Seq<char>)
    ensures
        ({
            let start = "Could not decode '"@ + text + "' to "@ + kind;
            let end = " for '"@ + key + "'."@;
            let complaint = undecodable_text(text, kind, key);
            &&& complaint.len() == start.len() + end.len()
            &&& complaint.take(start.len() as int) == start
            &&& complaint.skip(start.len() as int) == end
        }),
{
    let start = "Could not decode '"@ + text + "' to "@ + kind;
    let end = " for '"@ + key + "'."@;
    assert(undecodable_text(text, kind, key) =~= start + end);
    assert((start + end).take(start.len() as int) =~= start);
    assert((start + end).skip(start.len() as int) =~= end);
}

/// The ten digits.
pub proof fn lemma_digits()
    ensures
        digit(0) == '0' && digit(1) == '1' && digit(2) == '2' && digit(3) == '3' && digit(4) == '4',
        digit(5) == '5' && digit(6) == '6' && digit(7) == '7' && digit(8) == '8' && digit(9) == '9',
{
}

/// A number below ten is written with one digit, and ten times a number and some more
/// with the digits of the number and one behind them.
pub proof fn lemma_decimal_digit_by_digit(n: nat, d: nat)
    requires
        d < 10,
    ensures
        decimal(d) == seq![digit(d as int)],
        n > 0 ==> decimal(10 * n + d) == decimal(n) + seq![digit(d as int)],
{
    if n > 0 {
        assert((10 * n + d) / 10 == n);
        assert((10 * n + d) % 10 == d);
    }
}

/// A negative number is written as the positive one behind a minus sign, and a number
/// that is not negative without a sign.
pub proof fn lemma_signs(n: nat)
    ensures
        signed_decimal(n as int) == decimal(n),
        n > 0 ==> signed_decimal(-n) == seq!['-'] + signed_decimal(n as int),
{
}

/// Numbers that differ are written differently.
pub proof fn lemma_decimal_tells_apart(n: nat, m: nat)
    ensures
        decimal(n) == decimal(m) <==> n == m,
{
    let max = if n > m {
        n
    } else {
        m
    };
    lemma_decimal_read_back(n, max);
    lemma_decimal_read_back(m, max);
}

/// A number that is too great is not read.
pub proof fn lemma_great_number_refused(n: nat, max: nat)
    requires
        n > max,
    ensures
        unsigned_value(decimal(n), max) is None,
{
    lemma_decimal_read_back(n, n);
}

/// A digit behind a number makes it ten times as great and adds itself.
pub proof fn lemma_digit_read(s: Seq<char>, d: nat, max: nat)
    requires
        d < 10,
        unsigned_value(s, max) is Some,
    ensures
        ({
            let n = unsigned_value(s, max)->0;
            if 10 * n + d <= max {
                unsigned_value(s.push(digit(d as int)), max) == Some(10 * n + d)
            } else {
                unsigned_value(s.push(digit(d as int)), max) is None
            }
        }),
{
    let c = digit(d as int);
    let digits = if s[0] == '+' {
        s.skip(1)
    } else {
        s
    };
    assert(s.push(c)[0] == s[0]);
    assert(s.push(c).skip(1) =~= s.skip(1).push(c));
    assert(digits.push(c).drop_last() =~= digits);
    assert(is_digits(digits.push(c)));
    assert(digits_value(digits.push(c)) == 10 * digits_value(digits) + d);
}

/// What is read as a number is made of digits, perhaps behind a plus sign, which does not
/// change it.
pub proof fn lemma_only_digits_read(s: Seq<char>, max: nat)
    ensures
        unsigned_value(s, max) matches Some(n) ==> n <= max,
        unsigned_value(s, max) is Some ==> s.len() > 0,
        unsigned_value(s, max) is Some ==> forall|i: int|
            0 < i < s.len() ==> '0' <= #[trigger] s[i] <= '9',
        unsigned_value(s, max) is Some ==> s[0] == '+' || '0' <= s[0] <= '9',
        s.len() > 0 && '0' <= s[0] <= '9' ==> unsigned_value(seq!['+'] + s, max)
            == unsigned_value(s, max),
        unsigned_value(Seq::empty(), max) is None,
        unsigned_value(seq!['+'], max) is None,
{
    if unsigned_value(s, max) is Some && s[0] == '+' {
        assert forall|i: int| 0 < i < s.len() implies '0' <= #[trigger] s[i] <= '9' by {
            assert(s.skip(1)[i - 1] == s[i]);
        }
    }
    assert((seq!['+'] + s).skip(1) =~= s);
    assert(seq!['+'].skip(1) =~= Seq::<char>::empty());
}

/// The white space among the first characters, and the rest of it.
pub proof fn lemma_white_space(c: char)
    ensures
        white_space(c) <==> {
            ||| c == '\t'
            ||| c == '\n'
            ||| c == '\u{0b}'
            ||| c == '\u{0c}'
            ||| c == '\r'
            ||| c == ' '
            ||| c == '\u{85}'
            ||| c == '\u{a0}'
            ||| c == '\u{1680}'
            ||| '\u{2000}' <= c <= '\u{200a}'
            ||| c == '\u{2028}'
            ||| c == '\u{2029}'
            ||| c == '\u{202f}'
            ||| c == '\u{205f}'
            ||| c == '\u{3000}'
        },
{
}

/// A blank text is empty, or white space with a blank text behind it.
pub proof fn lemma_blank(s: Seq<char>, c: char)
    ensures
        blank(Seq::empty()),
        blank(s.push(c)) <==> blank(s) && white_space(c),
{
    if blank(s.push(c)) {
        assert forall|i: int| 0 <= i < s.len() implies white_space(#[trigger] s[i]) by {
            assert(s.push(c)[i] == s[i]);
        }
        assert(s.push(c)[s.len() as int] == c);
    }
}

/// What stands before the first match of a pattern stays, the match is replaced, and the
/// rest is treated for itself.
pub proof fn lemma_first_match_replaced(
    before: Seq<char>,
    pattern: Seq<char>,
    rest: Seq<char>,
    to: Seq<char>,
)
    requires
        pattern.len() > 0,
        forall|i: int|
            0 <= i < before.len() ==> !#[trigger] occurs_at(before + pattern + rest, pattern, i),
    ensures
        replaced(before + pattern + rest, pattern, to) == before + to + replaced(
            rest,
            pattern,
            to,
        ),
    decreases before.len(),
{
    let s = before + pattern + rest;
    if before.len() == 0 {
        assert(s =~= pattern + rest);
        crate::text::lemma_replaced_at_start(pattern, rest, to);
        assert(before + to =~= to);
    } else {
        let tail = before.skip(1);
        assert(s.skip(1) =~= tail + pattern + rest);
        assert(!occurs_at(s, pattern, 0));
        assert(s.subrange(0, pattern.len() as int) =~= s.take(pattern.len() as int));
        assert forall|i: int| 0 <= i < tail.len() implies !#[trigger] occurs_at(
            tail + pattern + rest,
            pattern,
            i,
        ) by {
            assert(!occurs_at(s, pattern, i + 1));
            assert(s.subrange(i + 1, i + 1 + pattern.len()) =~= s.skip(1).subrange(
                i,
                i + pattern.len(),
            ));
        }
        lemma_first_match_replaced(tail, pattern, rest, to);
        assert(seq![s[0]] + (tail + to + replaced(rest, pattern, to)) =~= before + to + replaced(
            rest,
            pattern,
            to,
        ));
    }
}

/// A name below a directory: one slash stands between the two, whether the directory ends
/// with one or not, and none where there is no directory.
pub proof fn lemma_joined(dir: Seq<char>, name: Seq<char>)
    ensures
        joined(Seq::empty(), name) == name,
        joined(dir.push('/'), name) == dir + seq!['/'] + name,
        dir.len() > 0 && dir.last() != '/' ==> joined(dir, name) == joined(dir.push('/'), name),
{
    assert(Seq::<char>::empty() + name =~= name);
    assert(dir.push('/') =~= dir + seq!['/']);
}

} // verus!
