//! Which search patterns the logger can be given.
//!
//! env_logger hands the part of a filter text behind its slash to the regex crate
//! (0.1, with regex-syntax 0.3). That crate takes a pattern or refuses it, except
//! for a few on which it panics, does not come to an end, or runs out of stack. A
//! pattern that is [`buildable`] is surely taken or refused.
//!
//! To tell, a pattern is cut into [`Part`]s the way the crate cuts it. What is
//! malformed is gone over like the rest, so a pattern that the crate would refuse at
//! an early part can be left out for a later one. Memory is taken to suffice.

use vstd::prelude::*;

use crate::text::{is_white_space, white_space};

verus! {

/// How deep the groups of a pattern may be nested. The regex crate refuses what is
/// nested deeper, but only after it has built all of it, and both to take that
/// apart and to write it into an error text it recurses.
pub const NEST_LIMIT: usize = 200;

/// The flags that decide how a pattern is cut.
#[derive(Clone, Copy, Debug)]
pub struct Mode {
    /// The flag `x`: white space and comments are passed over.
    pub spaced: bool,
    /// The flag `u`: classes are of characters, not of bytes.
    pub unicode: bool,
}

/// What a part of a pattern is.
#[derive(Clone, Copy, Debug)]
pub enum Kind {
    /// A character, an escape or a named class.
    Atom,
    /// A class in brackets.
    Class,
    /// A bar between alternatives.
    Bar,
    /// A repetition operator.
    Repetition,
    /// A repetition operator with a count, whose maximum may be zero.
    Counted { zero: bool },
    /// The start of a group.
    Open,
    /// The end of a group.
    Close,
    /// Flags that are set from here on.
    Flags,
}

/// A part of a pattern: what it is, where it ends, the flags behind it unless it ends
/// a group, and whether it holds an octal escape that is broken.
pub struct Part {
    pub kind: Kind,
    pub end: int,
    pub mode: Mode,
    pub broken: bool,
}

/// Whether a character stands at a place.
pub open spec fn char_at(p: Seq<char>, i: int, c: char) -> bool {
    0 <= i < p.len() && p[i] == c
}

/// The first place from `i` on that holds neither white space nor a part of a
/// comment, which goes from a hash sign to the end of its line.
pub open spec fn skipped(p: Seq<char>, i: int, comment: bool) -> int
    decreases p.len() - i,
{
    if i < 0 || i >= p.len() {
        i
    } else if comment {
        skipped(p, i + 1, p[i] != '\n')
    } else if white_space(p[i]) {
        skipped(p, i + 1, false)
    } else if p[i] == '#' {
        skipped(p, i + 1, true)
    } else {
        i
    }
}

/// The next character from a place on, and the place behind it. Where white space is
/// passed over, a hash sign that is meant has a backslash.
pub open spec fn read(p: Seq<char>, i: int, spaced: bool) -> Option<(char, int)> {
    let k = if spaced {
        skipped(p, i, false)
    } else {
        i
    };
    if k < 0 || k >= p.len() {
        None
    } else if spaced && p[k] == '\\' && char_at(p, k + 1, '#') {
        Some(('#', k + 2))
    } else {
        Some((p[k], k + 1))
    }
}

/// Whether the next character is a given one.
pub open spec fn reads(p: Seq<char>, i: int, spaced: bool, c: char) -> bool {
    match read(p, i, spaced) {
        Some((d, _)) => d == c,
        None => false,
    }
}

/// The place behind the next character.
pub open spec fn after(p: Seq<char>, i: int, spaced: bool) -> int {
    match read(p, i, spaced) {
        Some((_, end)) => end,
        None => i,
    }
}

/// Skipping goes forward, and not beyond the end.
pub proof fn lemma_skipped_forward(p: Seq<char>, i: int, comment: bool)
    ensures
        skipped(p, i, comment) >= i,
        i <= p.len() ==> skipped(p, i, comment) <= p.len(),
    decreases p.len() - i,
{
    if 0 <= i < p.len() {
        if comment {
            lemma_skipped_forward(p, i + 1, p[i] != '\n');
        } else if white_space(p[i]) {
            lemma_skipped_forward(p, i + 1, false);
        } else if p[i] == '#' {
            lemma_skipped_forward(p, i + 1, true);
        }
    }
}

/// Reading goes forward, and not beyond the end.
pub proof fn lemma_read_forward(p: Seq<char>, i: int, spaced: bool)
    ensures
        match read(p, i, spaced) {
            Some((_, end)) => i < end <= p.len(),
            None => true,
        },
{
    lemma_skipped_forward(p, i, false);
}

/// Skips white space and comments from a place on.
fn skip(p: &Vec<char>, from: usize) -> (r: usize)
    requires
        from <= p.len(),
    ensures
        r == skipped(p@, from as int, false),
        from <= r <= p.len(),
{
    let mut i: usize = from;
    let mut comment: bool = false;
    while i < p.len() && (comment || p[i] == '#' || is_white_space(p[i]))
        invariant
            from <= i <= p.len(),
            skipped(p@, i as int, comment) == skipped(p@, from as int, false),
        decreases p.len() - i,
    {
        comment = if comment {
            p[i] != '\n'
        } else {
            p[i] == '#'
        };
        i = i + 1;
    }
    i
}

/// Reads the next character.
fn read_char(p: &Vec<char>, i: usize, spaced: bool) -> (r: Option<(char, usize)>)
    requires
        i <= p.len(),
    ensures
        match r {
            Some((c, end)) => read(p@, i as int, spaced) == Some((c, end as int)) && i < end
                <= p.len(),
            None => read(p@, i as int, spaced) is None,
        },
{
    let k: usize = if spaced {
        skip(p, i)
    } else {
        i
    };
    if k == p.len() {
        None
    } else if spaced && p[k] == '\\' && k + 1 < p.len() && p[k + 1] == '#' {
        Some(('#', k + 2))
    } else {
        Some((p[k], k + 1))
    }
}

/// The place behind the next character, if that is a given one.
fn read_if(p: &Vec<char>, i: usize, spaced: bool, c: char) -> (r: Option<usize>)
    requires
        i <= p.len(),
    ensures
        match r {
            Some(end) => reads(p@, i as int, spaced, c) && end == after(p@, i as int, spaced) && i
                < end <= p.len(),
            None => !reads(p@, i as int, spaced, c),
        },
{
    match read_char(p, i, spaced) {
        Some((d, end)) => if d == c {
            Some(end)
        } else {
            None
        },
        None => None,
    }
}

/// The place behind the first of a given character, or the end.
pub open spec fn until(p: Seq<char>, i: int, spaced: bool, c: char) -> int
    decreases p.len() - i,
{
    match read(p, i, spaced) {
        None => p.len() as int,
        Some((d, end)) => if d == c {
            end
        } else {
            proof {
                lemma_read_forward(p, i, spaced);
            }
            until(p, end, spaced, c)
        },
    }
}

/// Looking for a character goes forward, and not beyond the end.
pub proof fn lemma_until_forward(p: Seq<char>, i: int, spaced: bool, c: char)
    requires
        i <= p.len(),
    ensures
        i <= until(p, i, spaced, c) <= p.len(),
    decreases p.len() - i,
{
    lemma_read_forward(p, i, spaced);
    if let Some((d, end)) = read(p, i, spaced) {
        if d != c {
            lemma_until_forward(p, end, spaced, c);
        }
    }
}

/// Goes to the place behind the first of a given character, or to the end.
fn read_until(p: &Vec<char>, from: usize, spaced: bool, c: char) -> (r: usize)
    requires
        from <= p.len(),
    ensures
        r == until(p@, from as int, spaced, c),
        from <= r <= p.len(),
{
    let mut i: usize = from;
    loop
        invariant
            from <= i <= p.len(),
            until(p@, i as int, spaced, c) == until(p@, from as int, spaced, c),
        decreases p.len() - i,
    {
        match read_char(p, i, spaced) {
            None => return p.len(),
            Some((d, end)) => {
                if d == c {
                    return end;
                }
                i = end;
            },
        }
    }
}

/// An escape: where it ends, whether it stands for a class, and whether it is a broken
/// octal one.
///
/// An octal or two-digit hexadecimal escape may go on behind that end, with digits
/// that count as characters of their own.
pub struct Escape {
    pub end: int,
    pub class: bool,
    pub broken: bool,
}

/// The place behind the next character, if that is an octal digit.
pub open spec fn octal_end(p: Seq<char>, i: int, spaced: bool) -> Option<int> {
    match read(p, i, spaced) {
        Some((c, end)) => if '0' <= c <= '7' {
            Some(end)
        } else {
            None
        },
        None => None,
    }
}

/// Whether something is passed over before an octal digit, or between it and the next
/// ones, up to `more` of them. The regex crate panics on an escape where this is so.
pub open spec fn broken_octal(p: Seq<char>, i: int, spaced: bool, more: int) -> bool
    decreases more,
{
    match octal_end(p, i, spaced) {
        Some(end) => end > i + 1 || (more > 0 && broken_octal(p, end, spaced, more - 1)),
        None => false,
    }
}

/// The escape whose backslash stands before a place.
pub open spec fn escape(p: Seq<char>, i: int, spaced: bool) -> Escape {
    match read(p, i, spaced) {
        None => Escape { end: p.len() as int, class: false, broken: false },
        Some((c, end)) => if (c == 'x' || c == 'p' || c == 'P') && reads(p, end, spaced, '{') {
            Escape { end: until(p, end, spaced, '}'), class: c != 'x', broken: false }
        } else if c == 'p' || c == 'P' {
            Escape { end: after(p, end, spaced), class: true, broken: false }
        } else {
            Escape {
                end,
                class: c == 'd' || c == 's' || c == 'w' || c == 'D' || c == 'S' || c == 'W',
                broken: broken_octal(p, i, spaced, 2),
            }
        },
    }
}

/// An escape goes forward, and not beyond the end.
pub proof fn lemma_escape_forward(p: Seq<char>, i: int, spaced: bool)
    requires
        i <= p.len(),
    ensures
        i <= escape(p, i, spaced).end <= p.len(),
{
    lemma_read_forward(p, i, spaced);
    if let Some((_, end)) = read(p, i, spaced) {
        lemma_read_forward(p, end, spaced);
        lemma_until_forward(p, end, spaced, '}');
    }
}

/// An [`Escape`] that has been read.
#[derive(Clone, Copy, Debug)]
struct ReadEscape {
    end: usize,
    class: bool,
    broken: bool,
}

impl View for ReadEscape {
    type V = Escape;

    closed spec fn view(&self) -> Escape {
        Escape { end: self.end as int, class: self.class, broken: self.broken }
    }
}

/// Whether an octal escape is broken.
fn is_broken_octal(p: &Vec<char>, i: usize, spaced: bool, more: u8) -> (r: bool)
    requires
        i <= p.len(),
    ensures
        r == broken_octal(p@, i as int, spaced, more as int),
    decreases more,
{
    match read_char(p, i, spaced) {
        None => false,
        Some((c, end)) => {
            if c < '0' || c > '7' {
                return false;
            }
            end - i > 1 || (more > 0 && is_broken_octal(p, end, spaced, more - 1))
        },
    }
}

/// Reads the escape whose backslash stands before a place.
fn read_escape(p: &Vec<char>, i: usize, spaced: bool) -> (r: ReadEscape)
    requires
        i <= p.len(),
    ensures
        r@ == escape(p@, i as int, spaced),
        i <= r.end <= p.len(),
{
    match read_char(p, i, spaced) {
        None => ReadEscape { end: p.len(), class: false, broken: false },
        Some((c, end)) => {
            let long: bool = c == 'x' || c == 'p' || c == 'P';
            if long && read_if(p, end, spaced, '{').is_some() {
                let last: usize = read_until(p, end, spaced, '}');
                ReadEscape { end: last, class: c != 'x', broken: false }
            } else if c == 'p' || c == 'P' {
                let last: usize = match read_char(p, end, spaced) {
                    Some((_, last)) => last,
                    None => end,
                };
                ReadEscape { end: last, class: true, broken: false }
            } else {
                ReadEscape {
                    end,
                    class: matches!(c, 'd' | 's' | 'w' | 'D' | 'S' | 'W'),
                    broken: is_broken_octal(p, i, spaced, 2),
                }
            }
        },
    }
}

/// The names of classes.
pub open spec fn class_name(name: Seq<char>) -> bool {
    ||| name == "alnum"@
    ||| name == "alpha"@
    ||| name == "ascii"@
    ||| name == "blank"@
    ||| name == "cntrl"@
    ||| name == "digit"@
    ||| name == "graph"@
    ||| name == "lower"@
    ||| name == "print"@
    ||| name == "punct"@
    ||| name == "space"@
    ||| name == "upper"@
    ||| name == "word"@
    ||| name == "xdigit"@
}

/// Where the small letters from a place on end.
pub open spec fn letters_end(p: Seq<char>, i: int) -> int
    decreases p.len() - i,
{
    if 0 <= i < p.len() && 'a' <= p[i] <= 'z' {
        letters_end(p, i + 1)
    } else {
        i
    }
}

/// The place behind a named class such as `[:alpha:]` whose bracket stands before a
/// place, if there is one.
pub open spec fn named_class(p: Seq<char>, i: int, spaced: bool) -> Option<int> {
    let colon = after(p, i, spaced);
    let start = if reads(p, colon, spaced, '^') {
        after(p, colon, spaced)
    } else {
        colon
    };
    let end = letters_end(p, start);
    let last = after(p, end, spaced);
    if reads(p, i, spaced, ':') && class_name(p.subrange(start, end)) && reads(p, end, spaced, ':')
        && reads(p, last, spaced, ']') {
        Some(after(p, last, spaced))
    } else {
        None
    }
}

/// Small letters go forward, and not beyond the end.
pub proof fn lemma_letters_forward(p: Seq<char>, i: int)
    requires
        i <= p.len(),
    ensures
        i <= letters_end(p, i) <= p.len(),
    decreases p.len() - i,
{
    if 0 <= i < p.len() && 'a' <= p[i] <= 'z' {
        lemma_letters_forward(p, i + 1);
    }
}

/// A named class goes forward, and not beyond the end.
pub proof fn lemma_named_class_forward(p: Seq<char>, i: int, spaced: bool)
    requires
        i <= p.len(),
    ensures
        match named_class(p, i, spaced) {
            Some(end) => i < end <= p.len(),
            None => true,
        },
{
    let colon = after(p, i, spaced);
    let start = if reads(p, colon, spaced, '^') {
        after(p, colon, spaced)
    } else {
        colon
    };
    let end = letters_end(p, start);
    lemma_read_forward(p, i, spaced);
    lemma_read_forward(p, colon, spaced);
    lemma_letters_forward(p, start);
    lemma_read_forward(p, end, spaced);
    lemma_read_forward(p, after(p, end, spaced), spaced);
}

/// Whether a name stands between two places.
fn stands_between(p: &Vec<char>, start: usize, end: usize, name: &str) -> (r: bool)
    requires
        start <= end <= p.len(),
    ensures
        r == (p@.subrange(start as int, end as int) == name@),
{
    let ghost found = p@.subrange(start as int, end as int);
    let len: usize = name.unicode_len();
    if end - start != len {
        return false;
    }
    let mut k: usize = 0;
    while k < len
        invariant
            k <= len,
            len == name@.len(),
            start <= end <= p.len(),
            end - start == len,
            found == p@.subrange(start as int, end as int),
            forall|j: int| 0 <= j < k ==> found[j] == #[trigger] name@[j],
        decreases len - k,
    {
        assert(found[k as int] == p@[start + k]);
        if p[start + k] != name.get_char(k) {
            return false;
        }
        k = k + 1;
    }
    assert(found =~= name@);
    true
}

/// Whether the name of a class stands between two places.
fn is_class_name(p: &Vec<char>, start: usize, end: usize) -> (r: bool)
    requires
        start <= end <= p.len(),
    ensures
        r == class_name(p@.subrange(start as int, end as int)),
{
    stands_between(p, start, end, "alnum") || stands_between(p, start, end, "alpha")
        || stands_between(p, start, end, "ascii") || stands_between(p, start, end, "blank")
        || stands_between(p, start, end, "cntrl") || stands_between(p, start, end, "digit")
        || stands_between(p, start, end, "graph") || stands_between(p, start, end, "lower")
        || stands_between(p, start, end, "print") || stands_between(p, start, end, "punct")
        || stands_between(p, start, end, "space") || stands_between(p, start, end, "upper")
        || stands_between(p, start, end, "word") || stands_between(p, start, end, "xdigit")
}

/// Reads a named class whose bracket stands before a place.
fn read_named_class(p: &Vec<char>, i: usize, spaced: bool) -> (r: Option<usize>)
    requires
        i <= p.len(),
    ensures
        match r {
            Some(end) => named_class(p@, i as int, spaced) == Some(end as int) && i < end
                <= p.len(),
            None => named_class(p@, i as int, spaced) is None,
        },
{
    let colon: usize = match read_if(p, i, spaced, ':') {
        Some(end) => end,
        None => return None,
    };
    let start: usize = match read_if(p, colon, spaced, '^') {
        Some(end) => end,
        None => colon,
    };
    let mut end: usize = start;
    while end < p.len() && 'a' <= p[end] && p[end] <= 'z'
        invariant
            start <= end <= p.len(),
            letters_end(p@, end as int) == letters_end(p@, start as int),
        decreases p.len() - end,
    {
        end = end + 1;
    }
    if !is_class_name(p, start, end) {
        return None;
    }
    match read_if(p, end, spaced, ':') {
        Some(last) => read_if(p, last, spaced, ']'),
        None => None,
    }
}

/// What stands in a class or at an end of a range in it, from a place on.
pub open spec fn member(p: Seq<char>, i: int, spaced: bool) -> Escape {
    match read(p, i, spaced) {
        Some((c, end)) => if c == '\\' {
            escape(p, end, spaced)
        } else {
            Escape { end, class: false, broken: false }
        },
        None => Escape { end: p.len() as int, class: false, broken: false },
    }
}

/// A member goes forward, and not beyond the end.
pub proof fn lemma_member_forward(p: Seq<char>, i: int, spaced: bool)
    requires
        i <= p.len(),
    ensures
        i <= member(p, i, spaced).end <= p.len(),
        read(p, i, spaced) is Some ==> i < member(p, i, spaced).end,
{
    lemma_read_forward(p, i, spaced);
    if let Some((_, end)) = read(p, i, spaced) {
        lemma_escape_forward(p, end, spaced);
    }
}

/// A member of a class or a range of such, from a place on.
pub open spec fn range(p: Seq<char>, i: int, spaced: bool) -> Escape {
    let low = member(p, i, spaced);
    let dash = after(p, low.end, spaced);
    let high = member(p, dash, spaced);
    if low.class || !reads(p, low.end, spaced, '-') {
        low
    } else if reads(p, dash, spaced, ']') {
        Escape { end: dash, class: false, broken: low.broken }
    } else {
        Escape { end: high.end, class: false, broken: low.broken || high.broken }
    }
}

/// A range goes forward, and not beyond the end.
pub proof fn lemma_range_forward(p: Seq<char>, i: int, spaced: bool)
    requires
        i <= p.len(),
    ensures
        i <= range(p, i, spaced).end <= p.len(),
        read(p, i, spaced) is Some ==> i < range(p, i, spaced).end,
{
    let low = member(p, i, spaced);
    lemma_member_forward(p, i, spaced);
    lemma_read_forward(p, low.end, spaced);
    lemma_member_forward(p, after(p, low.end, spaced), spaced);
}

/// Where a class ends, from a place in it on, and whether a broken octal escape stands
/// in it up to there. A closing bracket ends it if it holds `some` member already.
pub open spec fn class_rest(p: Seq<char>, i: int, spaced: bool, some: bool) -> (int, bool)
    decreases p.len() - i,
{
    match read(p, i, spaced) {
        None => (p.len() as int, false),
        Some((c, end)) => {
            let named = named_class(p, end, spaced);
            let item = range(p, i, spaced);
            proof {
                if i <= p.len() {
                    lemma_read_forward(p, i, spaced);
                    lemma_named_class_forward(p, end, spaced);
                    lemma_range_forward(p, i, spaced);
                }
            }
            if c == ']' && some {
                (end, false)
            } else if c == '[' && named is Some {
                class_rest(p, named->0, spaced, true)
            } else {
                let rest = class_rest(p, item.end, spaced, true);
                (rest.0, item.broken || rest.1)
            }
        },
    }
}

/// The class whose bracket stands before a place: where it ends, and whether a broken
/// octal escape stands in it. Hyphens at its start are members.
pub open spec fn class(p: Seq<char>, i: int, spaced: bool) -> (int, bool) {
    let start = if reads(p, i, spaced, '^') {
        after(p, i, spaced)
    } else {
        i
    };
    let first = hyphens_end(p, start, spaced);
    class_rest(p, first, spaced, first > start)
}

/// Where the hyphens from a place on end.
pub open spec fn hyphens_end(p: Seq<char>, i: int, spaced: bool) -> int
    decreases p.len() - i,
{
    match read(p, i, spaced) {
        Some((c, end)) => if c == '-' {
            proof {
                lemma_read_forward(p, i, spaced);
            }
            hyphens_end(p, end, spaced)
        } else {
            i
        },
        None => i,
    }
}

/// Hyphens go forward, and not beyond the end.
pub proof fn lemma_hyphens_forward(p: Seq<char>, i: int, spaced: bool)
    requires
        i <= p.len(),
    ensures
        i <= hyphens_end(p, i, spaced) <= p.len(),
    decreases p.len() - i,
{
    lemma_read_forward(p, i, spaced);
    if let Some((c, end)) = read(p, i, spaced) {
        if c == '-' {
            lemma_hyphens_forward(p, end, spaced);
        }
    }
}

/// The rest of a class goes forward, and not beyond the end.
pub proof fn lemma_class_rest_forward(p: Seq<char>, i: int, spaced: bool, some: bool)
    requires
        i <= p.len(),
    ensures
        i <= class_rest(p, i, spaced, some).0 <= p.len(),
    decreases p.len() - i,
{
    lemma_read_forward(p, i, spaced);
    if let Some((c, end)) = read(p, i, spaced) {
        lemma_named_class_forward(p, end, spaced);
        lemma_range_forward(p, i, spaced);
        if c == ']' && some {
        } else if c == '[' && named_class(p, end, spaced) is Some {
            lemma_class_rest_forward(p, named_class(p, end, spaced)->0, spaced, true);
        } else {
            lemma_class_rest_forward(p, range(p, i, spaced).end, spaced, true);
        }
    }
}

/// A class goes forward, and not beyond the end.
pub proof fn lemma_class_forward(p: Seq<char>, i: int, spaced: bool)
    requires
        i <= p.len(),
    ensures
        i <= class(p, i, spaced).0 <= p.len(),
{
    let start = if reads(p, i, spaced, '^') {
        after(p, i, spaced)
    } else {
        i
    };
    let first = hyphens_end(p, start, spaced);
    lemma_read_forward(p, i, spaced);
    lemma_hyphens_forward(p, start, spaced);
    lemma_class_rest_forward(p, first, spaced, first > start);
}

/// Reads a member of a class or an end of a range.
fn read_member(p: &Vec<char>, i: usize, spaced: bool) -> (r: ReadEscape)
    requires
        i <= p.len(),
    ensures
        r@ == member(p@, i as int, spaced),
        i <= r.end <= p.len(),
{
    match read_char(p, i, spaced) {
        Some((c, end)) => if c == '\\' {
            read_escape(p, end, spaced)
        } else {
            ReadEscape { end, class: false, broken: false }
        },
        None => ReadEscape { end: p.len(), class: false, broken: false },
    }
}

/// Reads a member of a class or a range.
fn read_range(p: &Vec<char>, i: usize, spaced: bool) -> (r: ReadEscape)
    requires
        i <= p.len(),
    ensures
        r@ == range(p@, i as int, spaced),
        i <= r.end <= p.len(),
{
    let low = read_member(p, i, spaced);
    if low.class {
        return low;
    }
    match read_if(p, low.end, spaced, '-') {
        None => low,
        Some(dash) => if read_if(p, dash, spaced, ']').is_some() {
            ReadEscape { end: dash, class: false, broken: low.broken }
        } else {
            let high = read_member(p, dash, spaced);
            ReadEscape { end: high.end, class: false, broken: low.broken || high.broken }
        },
    }
}

/// Finds where the hyphens from a place on end.
fn find_hyphens_end(p: &Vec<char>, from: usize, spaced: bool) -> (r: usize)
    requires
        from <= p.len(),
    ensures
        r == hyphens_end(p@, from as int, spaced),
        from <= r <= p.len(),
{
    let mut i: usize = from;
    loop
        invariant
            from <= i <= p.len(),
            hyphens_end(p@, i as int, spaced) == hyphens_end(p@, from as int, spaced),
        decreases p.len() - i,
    {
        match read_if(p, i, spaced, '-') {
            Some(end) => {
                i = end;
            },
            None => return i,
        }
    }
}

/// Reads the class whose bracket stands before a place.
fn read_class(p: &Vec<char>, from: usize, spaced: bool) -> (r: (usize, bool))
    requires
        from <= p.len(),
    ensures
        (r.0 as int, r.1) == class(p@, from as int, spaced),
        from <= r.0 <= p.len(),
{
    proof {
        lemma_class_forward(p@, from as int, spaced);
    }
    let start: usize = match read_if(p, from, spaced, '^') {
        Some(end) => end,
        None => from,
    };
    let mut i: usize = find_hyphens_end(p, start, spaced);
    let mut some: bool = i > start;
    let mut broken: bool = false;
    let ghost all = class_rest(p@, i as int, spaced, some);
    loop
        invariant
            i <= p.len(),
            all == ({
                let rest = class_rest(p@, i as int, spaced, some);
                (rest.0, broken || rest.1)
            }),
            all == class(p@, from as int, spaced),
            from <= all.0,
        decreases p.len() - i,
    {
        match read_char(p, i, spaced) {
            None => return (p.len(), broken),
            Some((c, end)) => {
                if c == ']' && some {
                    return (end, broken);
                }
                let named: Option<usize> = if c == '[' {
                    read_named_class(p, end, spaced)
                } else {
                    None
                };
                match named {
                    Some(behind) => {
                        i = behind;
                    },
                    None => {
                        proof {
                            lemma_range_forward(p@, i as int, spaced);
                        }
                        let item = read_range(p, i, spaced);
                        broken = broken || item.broken;
                        i = item.end;
                    },
                }
                some = true;
            },
        }
    }
}

/// Where the zeros from a place on end.
pub open spec fn zeros_end(p: Seq<char>, i: int) -> int
    decreases p.len() - i,
{
    if char_at(p, i, '0') {
        zeros_end(p, i + 1)
    } else {
        i
    }
}

/// What follows a zero that starts at a place, which may have a plus sign, and white
/// space or comments around it.
pub open spec fn zero_end(p: Seq<char>, i: int) -> Option<int> {
    let start = skipped(p, i, false);
    let digits = if char_at(p, start, '+') {
        start + 1
    } else {
        start
    };
    if zeros_end(p, digits) > digits {
        Some(skipped(p, zeros_end(p, digits), false))
    } else {
        None
    }
}

/// Whether the count whose brace stands before a place has a maximum of zero.
pub open spec fn zero_count(p: Seq<char>, i: int) -> bool {
    match zero_end(p, i) {
        Some(end) => char_at(p, end, '}') || (char_at(p, end, ',') && match zero_end(p, end + 1) {
            Some(last) => char_at(p, last, '}'),
            None => false,
        }),
        None => false,
    }
}

/// Reads a zero that starts at a place.
fn read_zero(p: &Vec<char>, from: usize) -> (r: Option<usize>)
    requires
        from <= p.len(),
    ensures
        match r {
            Some(end) => zero_end(p@, from as int) == Some(end as int) && from <= end <= p.len(),
            None => zero_end(p@, from as int) is None,
        },
{
    let start: usize = skip(p, from);
    let digits: usize = if start < p.len() && p[start] == '+' {
        start + 1
    } else {
        start
    };
    let mut i: usize = digits;
    while i < p.len() && p[i] == '0'
        invariant
            digits <= i <= p.len(),
            zeros_end(p@, i as int) == zeros_end(p@, digits as int),
        decreases p.len() - i,
    {
        i = i + 1;
    }
    if i > digits {
        Some(skip(p, i))
    } else {
        None
    }
}

/// Whether the count whose brace stands before a place has a maximum of zero.
fn is_zero_count(p: &Vec<char>, i: usize) -> (r: bool)
    requires
        i <= p.len(),
    ensures
        r == zero_count(p@, i as int),
{
    match read_zero(p, i) {
        None => false,
        Some(end) => {
            if end == p.len() {
                return false;
            }
            if p[end] == '}' {
                return true;
            }
            if p[end] != ',' {
                return false;
            }
            match read_zero(p, end + 1) {
                None => false,
                Some(last) => last < p.len() && p[last] == '}',
            }
        },
    }
}

/// The part that is made of the flags of a group from a place on, which are turned `on`
/// or off: the start of a group, or flags that are set.
pub open spec fn flags(p: Seq<char>, i: int, mode: Mode, on: bool) -> Part
    decreases p.len() - i,
{
    match read(p, i, mode.spaced) {
        None => Part { kind: Kind::Flags, end: p.len() as int, mode, broken: false },
        Some((c, end)) => {
            proof {
                lemma_read_forward(p, i, mode.spaced);
                lemma_read_forward(p, i, on);
            }
            if c == 'x' {
                // The flag holds from the letter on that sets it.
                match read(p, i, on) {
                    Some((_, end)) => flags(p, end, Mode { spaced: on, ..mode }, on),
                    None => Part { kind: Kind::Flags, end, mode, broken: false },
                }
            } else if c == 'u' {
                flags(p, end, Mode { unicode: on, ..mode }, on)
            } else if c == '-' {
                flags(p, end, mode, false)
            } else if c == 'i' || c == 'm' || c == 's' || c == 'U' {
                flags(p, end, mode, on)
            } else if c == ':' {
                Part { kind: Kind::Open, end, mode, broken: false }
            } else {
                Part { kind: Kind::Flags, end, mode, broken: false }
            }
        },
    }
}

/// Whether the next three characters start the name of a group.
pub open spec fn starts_name(p: Seq<char>, i: int, spaced: bool) -> bool {
    let second = after(p, i, spaced);
    let third = after(p, second, spaced);
    reads(p, i, spaced, '?') && reads(p, second, spaced, 'P') && reads(p, third, spaced, '<')
}

/// The part that starts with a parenthesis before a place.
pub open spec fn group(p: Seq<char>, i: int, mode: Mode) -> Part {
    if starts_name(p, i, mode.spaced) {
        Part { kind: Kind::Open, end: until(p, i, mode.spaced, '>'), mode, broken: false }
    } else if reads(p, i, mode.spaced, '?') {
        flags(p, after(p, i, mode.spaced), mode, true)
    } else {
        Part { kind: Kind::Open, end: i, mode, broken: false }
    }
}

/// Where a repetition ends, given where its operator does: a question mark may follow,
/// which makes it lazy.
pub open spec fn lazy_end(p: Seq<char>, i: int, spaced: bool) -> int {
    if reads(p, i, spaced, '?') {
        after(p, i, spaced)
    } else {
        i
    }
}

/// The part that starts with a given character before a place.
pub open spec fn part_of(p: Seq<char>, c: char, i: int, mode: Mode) -> Part {
    let x = mode.spaced;
    if c == '\\' {
        let escape = escape(p, i, x);
        Part { kind: Kind::Atom, end: escape.end, mode, broken: escape.broken }
    } else if c == '[' && named_class(p, i, x) is Some {
        Part { kind: Kind::Atom, end: named_class(p, i, x)->0, mode, broken: false }
    } else if c == '[' {
        Part { kind: Kind::Class, end: class(p, i, x).0, mode, broken: class(p, i, x).1 }
    } else if c == '(' {
        group(p, i, mode)
    } else if c == ')' {
        Part { kind: Kind::Close, end: i, mode, broken: false }
    } else if c == '|' {
        Part { kind: Kind::Bar, end: i, mode, broken: false }
    } else if c == '*' || c == '+' || c == '?' {
        Part { kind: Kind::Repetition, end: lazy_end(p, i, x), mode, broken: false }
    } else if c == '{' {
        Part {
            kind: Kind::Counted { zero: zero_count(p, i) },
            end: lazy_end(p, until(p, i, x, '}'), x),
            mode,
            broken: false,
        }
    } else {
        Part { kind: Kind::Atom, end: i, mode, broken: false }
    }
}

/// Flags go forward, and not beyond the end.
pub proof fn lemma_flags_forward(p: Seq<char>, i: int, mode: Mode, on: bool)
    requires
        i <= p.len(),
    ensures
        i <= flags(p, i, mode, on).end <= p.len(),
    decreases p.len() - i,
{
    lemma_read_forward(p, i, mode.spaced);
    lemma_read_forward(p, i, on);
    if let Some((c, end)) = read(p, i, mode.spaced) {
        if c == 'x' {
            if let Some((_, end)) = read(p, i, on) {
                lemma_flags_forward(p, end, Mode { spaced: on, ..mode }, on);
            }
        } else if c == 'u' {
            lemma_flags_forward(p, end, Mode { unicode: on, ..mode }, on);
        } else if c == '-' {
            lemma_flags_forward(p, end, mode, false);
        } else if c == 'i' || c == 'm' || c == 's' || c == 'U' {
            lemma_flags_forward(p, end, mode, on);
        }
    }
}

/// A part goes forward, and not beyond the end.
pub proof fn lemma_part_forward(p: Seq<char>, c: char, i: int, mode: Mode)
    requires
        i <= p.len(),
    ensures
        i <= part_of(p, c, i, mode).end <= p.len(),
{
    let x = mode.spaced;
    lemma_escape_forward(p, i, x);
    lemma_named_class_forward(p, i, x);
    lemma_class_forward(p, i, x);
    lemma_until_forward(p, i, x, '>');
    lemma_until_forward(p, i, x, '}');
    lemma_read_forward(p, i, x);
    lemma_read_forward(p, until(p, i, x, '}'), x);
    if reads(p, i, x, '?') {
        lemma_flags_forward(p, after(p, i, x), mode, true);
    }
}

/// A [`Part`] that has been read.
#[derive(Clone, Copy, Debug)]
struct ReadPart {
    kind: Kind,
    end: usize,
    mode: Mode,
    broken: bool,
}

impl View for ReadPart {
    type V = Part;

    closed spec fn view(&self) -> Part {
        Part { kind: self.kind, end: self.end as int, mode: self.mode, broken: self.broken }
    }
}

/// Reads the flags of a group from a place on.
fn read_flags(p: &Vec<char>, from: usize, before: Mode) -> (r: ReadPart)
    requires
        from <= p.len(),
    ensures
        r@ == flags(p@, from as int, before, true),
        from <= r.end <= p.len(),
{
    proof {
        lemma_flags_forward(p@, from as int, before, true);
    }
    let mut i: usize = from;
    let mut mode: Mode = before;
    let mut on: bool = true;
    loop
        invariant
            i <= p.len(),
            flags(p@, i as int, mode, on) == flags(p@, from as int, before, true),
            from <= flags(p@, from as int, before, true).end,
        decreases p.len() - i,
    {
        match read_char(p, i, mode.spaced) {
            None => return ReadPart { kind: Kind::Flags, end: p.len(), mode, broken: false },
            Some((c, end)) => match c {
                'x' => match read_char(p, i, on) {
                    Some((_, letter)) => {
                        mode = Mode { spaced: on, unicode: mode.unicode };
                        i = letter;
                    },
                    None => return ReadPart { kind: Kind::Flags, end, mode, broken: false },
                },
                'u' => {
                    mode = Mode { spaced: mode.spaced, unicode: on };
                    i = end;
                },
                '-' => {
                    on = false;
                    i = end;
                },
                'i' | 'm' | 's' | 'U' => {
                    i = end;
                },
                ':' => return ReadPart { kind: Kind::Open, end, mode, broken: false },
                _ => return ReadPart { kind: Kind::Flags, end, mode, broken: false },
            },
        }
    }
}

/// Whether the next three characters start the name of a group.
fn is_name_start(p: &Vec<char>, i: usize, spaced: bool) -> (r: bool)
    requires
        i <= p.len(),
    ensures
        r == starts_name(p@, i as int, spaced),
{
    match read_if(p, i, spaced, '?') {
        None => false,
        Some(second) => match read_if(p, second, spaced, 'P') {
            None => false,
            Some(third) => read_if(p, third, spaced, '<').is_some(),
        },
    }
}

/// Reads the part that starts with a parenthesis before a place.
fn read_group(p: &Vec<char>, i: usize, mode: Mode) -> (r: ReadPart)
    requires
        i <= p.len(),
    ensures
        r@ == group(p@, i as int, mode),
        i <= r.end <= p.len(),
{
    if is_name_start(p, i, mode.spaced) {
        let end: usize = read_until(p, i, mode.spaced, '>');
        return ReadPart { kind: Kind::Open, end, mode, broken: false };
    }
    match read_if(p, i, mode.spaced, '?') {
        Some(start) => read_flags(p, start, mode),
        None => ReadPart { kind: Kind::Open, end: i, mode, broken: false },
    }
}

/// Finds where a repetition ends, given where its operator does.
fn find_lazy_end(p: &Vec<char>, i: usize, spaced: bool) -> (r: usize)
    requires
        i <= p.len(),
    ensures
        r == lazy_end(p@, i as int, spaced),
        i <= r <= p.len(),
{
    match read_if(p, i, spaced, '?') {
        Some(end) => end,
        None => i,
    }
}

/// Reads the part that starts with a given character before a place.
fn read_part(p: &Vec<char>, c: char, i: usize, mode: Mode) -> (r: ReadPart)
    requires
        i <= p.len(),
    ensures
        r@ == part_of(p@, c, i as int, mode),
        i <= r.end <= p.len(),
{
    match c {
        '\\' => {
            let escape = read_escape(p, i, mode.spaced);
            ReadPart { kind: Kind::Atom, end: escape.end, mode, broken: escape.broken }
        },
        '[' => match read_named_class(p, i, mode.spaced) {
            Some(end) => ReadPart { kind: Kind::Atom, end, mode, broken: false },
            None => {
                let class = read_class(p, i, mode.spaced);
                ReadPart { kind: Kind::Class, end: class.0, mode, broken: class.1 }
            },
        },
        '(' => read_group(p, i, mode),
        ')' => ReadPart { kind: Kind::Close, end: i, mode, broken: false },
        '|' => ReadPart { kind: Kind::Bar, end: i, mode, broken: false },
        '*' | '+' | '?' => {
            let end: usize = find_lazy_end(p, i, mode.spaced);
            ReadPart { kind: Kind::Repetition, end, mode, broken: false }
        },
        '{' => {
            let brace: usize = read_until(p, i, mode.spaced, '}');
            let end: usize = find_lazy_end(p, brace, mode.spaced);
            let zero: bool = is_zero_count(p, i);
            ReadPart { kind: Kind::Counted { zero }, end, mode, broken: false }
        },
        _ => ReadPart { kind: Kind::Atom, end: i, mode, broken: false },
    }
}

/// A group that is open: the flags before it, and whether a count of zero stands in it.
#[derive(Clone, Copy, Debug)]
pub struct Group {
    pub mode: Mode,
    pub zero: bool,
}

/// What was read last, but for flags that are set.
#[derive(Clone, Copy, Debug)]
pub enum Last {
    /// Nothing, or what may be repeated.
    Other,
    /// A group, and whether a count of zero stands in it.
    Group { zero: bool },
    /// A repetition operator or a bar: nothing to repeat.
    Operator,
}

/// How far the reading of a pattern has come: the flags, the groups that are open,
/// whether a class of bytes has been read, and what was read last.
pub struct Reading {
    pub mode: Mode,
    pub groups: Seq<Group>,
    pub bytes: bool,
    pub last: Last,
}

/// The reading of a pattern starts without a group, and with the flag `u` set.
pub open spec fn start() -> Reading {
    Reading {
        mode: Mode { spaced: false, unicode: true },
        groups: Seq::empty(),
        bytes: false,
        last: Last::Other,
    }
}

/// Whether the regex crate may fail over a part, given the parts before it.
///
/// - On a broken octal escape it panics.
/// - Over groups that are nested too deep it may run out of stack.
/// - What is repeated up to zero times compiles to nothing. Where a group that holds
///   such a thing is repeated by count, no limit on the size of what is compiled may end
///   that: its count alone does.
/// - An operator that has nothing to repeat brings an error text that shows what stands
///   before it. In a build that checks for overflow, the crate panics when that holds
///   the class of the bytes from zero up to the hyphen.
pub open spec fn at_fault(reading: Reading, part: Part) -> bool {
    ||| part.broken
    ||| match part.kind {
        Kind::Open => reading.groups.len() >= NEST_LIMIT,
        Kind::Counted { .. } => reading.last == (Last::Group { zero: true }) || (reading.last
            is Operator && reading.bytes),
        Kind::Repetition => reading.last is Operator && reading.bytes,
        _ => false,
    }
}

/// Groups with a count of zero in the innermost one, if there was one.
pub open spec fn with_zero(groups: Seq<Group>, zero: bool) -> Seq<Group> {
    if zero && groups.len() > 0 {
        groups.drop_last().push(Group { zero: true, ..groups.last() })
    } else {
        groups
    }
}

/// How far the reading has come behind a part.
pub open spec fn behind(reading: Reading, part: Part) -> Reading {
    match part.kind {
        Kind::Atom => Reading { last: Last::Other, ..reading },
        Kind::Class => Reading {
            bytes: reading.bytes || !reading.mode.unicode,
            last: Last::Other,
            ..reading
        },
        Kind::Bar | Kind::Repetition => Reading { last: Last::Operator, ..reading },
        Kind::Counted { zero } => Reading {
            groups: with_zero(reading.groups, zero),
            last: Last::Operator,
            ..reading
        },
        Kind::Open => Reading {
            mode: part.mode,
            groups: reading.groups.push(Group { mode: reading.mode, zero: false }),
            last: Last::Other,
            ..reading
        },
        Kind::Close => if reading.groups.len() == 0 {
            Reading { last: Last::Other, ..reading }
        } else {
            let closed = reading.groups.last();
            Reading {
                mode: closed.mode,
                groups: with_zero(reading.groups.drop_last(), closed.zero),
                last: Last::Group { zero: closed.zero },
                ..reading
            }
        },
        Kind::Flags => Reading { mode: part.mode, ..reading },
    }
}

/// Whether the regex crate may fail over what follows a place, given the parts before.
pub open spec fn may_fail(p: Seq<char>, i: int, reading: Reading) -> bool
    decreases p.len() - i,
{
    match read(p, i, reading.mode.spaced) {
        None => false,
        Some((c, end)) => {
            let part = part_of(p, c, end, reading.mode);
            proof {
                lemma_read_forward(p, i, reading.mode.spaced);
                lemma_part_forward(p, c, end, reading.mode);
            }
            at_fault(reading, part) || may_fail(p, part.end, behind(reading, part))
        },
    }
}

/// A pattern that the regex crate surely takes or refuses, without panicking, within its
/// stack and in time. Of other patterns nothing is claimed: some of them it takes or
/// refuses as well.
pub open spec fn buildable(p: Seq<char>) -> bool {
    !may_fail(p, 0, start())
}

/// Notes a count of zero in the innermost group.
fn note_zero(groups: &mut Vec<Group>, zero: bool)
    ensures
        final(groups)@ == with_zero(old(groups)@, zero),
{
    if zero {
        if let Some(group) = groups.pop() {
            groups.push(Group { mode: group.mode, zero: true });
        }
    }
}

/// Whether a pattern is surely taken or refused by the regex crate, without a panic,
/// within its stack and in time.
pub(crate) fn is_buildable(p: &Vec<char>) -> (r: bool)
    ensures
        r == buildable(p@),
{
    let mut mode: Mode = Mode { spaced: false, unicode: true };
    let mut groups: Vec<Group> = Vec::new();
    let mut bytes: bool = false;
    let mut last: Last = Last::Other;
    let mut i: usize = 0;
    assert(groups@ =~= start().groups);
    loop
        invariant
            i <= p.len(),
            groups.len() <= NEST_LIMIT,
            may_fail(p@, i as int, (Reading { mode, groups: groups@, bytes, last })) == may_fail(
                p@,
                0,
                start(),
            ),
        decreases p.len() - i,
    {
        match read_char(p, i, mode.spaced) {
            None => return true,
            Some((c, end)) => {
                let ghost reading = Reading { mode, groups: groups@, bytes, last };
                let part = read_part(p, c, end, mode);
                if part.broken {
                    return false;
                }
                match part.kind {
                    Kind::Atom => {
                        last = Last::Other;
                    },
                    Kind::Class => {
                        bytes = bytes || !mode.unicode;
                        last = Last::Other;
                    },
                    Kind::Bar => {
                        last = Last::Operator;
                    },
                    Kind::Repetition => {
                        if bytes && matches!(last, Last::Operator) {
                            return false;
                        }
                        last = Last::Operator;
                    },
                    Kind::Counted { zero } => {
                        if matches!(last, Last::Group { zero: true }) || (bytes && matches!(
                            last,
                            Last::Operator
                        )) {
                            return false;
                        }
                        note_zero(&mut groups, zero);
                        last = Last::Operator;
                    },
                    Kind::Open => {
                        if groups.len() >= NEST_LIMIT {
                            return false;
                        }
                        groups.push(Group { mode, zero: false });
                        mode = part.mode;
                        last = Last::Other;
                    },
                    Kind::Close => {
                        match groups.pop() {
                            None => {
                                last = Last::Other;
                            },
                            Some(closed) => {
                                mode = closed.mode;
                                note_zero(&mut groups, closed.zero);
                                last = Last::Group { zero: closed.zero };
                            },
                        }
                    },
                    Kind::Flags => {
                        mode = part.mode;
                    },
                }
                assert((Reading { mode, groups: groups@, bytes, last }) == behind(reading, part@));
                i = part.end;
            },
        }
    }
}

/// Where nothing is passed over, no octal escape is broken.
proof fn lemma_not_broken(p: Seq<char>, i: int, more: int)
    ensures
        !broken_octal(p, i, false, more),
    decreases more,
{
    if more > 0 {
        lemma_not_broken(p, i + 1, more - 1);
    }
}

/// Where nothing is passed over, no octal escape in a class is broken.
proof fn lemma_class_not_broken(p: Seq<char>, i: int, some: bool)
    requires
        i <= p.len(),
    ensures
        !class_rest(p, i, false, some).1,
    decreases p.len() - i,
{
    if let Some((c, end)) = read(p, i, false) {
        let low = member(p, i, false);
        lemma_not_broken(p, end, 2);
        lemma_not_broken(p, after(p, after(p, low.end, false), false), 2);
        lemma_named_class_forward(p, end, false);
        lemma_range_forward(p, i, false);
        if c == ']' && some {
        } else if c == '[' && named_class(p, end, false) is Some {
            lemma_class_not_broken(p, named_class(p, end, false)->0, true);
        } else {
            lemma_class_not_broken(p, range(p, i, false).end, true);
        }
    }
}

/// Where nothing is passed over, a part holds no octal escape that is broken.
pub(crate) proof fn lemma_plain_part(p: Seq<char>, c: char, i: int, mode: Mode)
    requires
        i <= p.len(),
        !mode.spaced,
        c == '(' ==> !reads(p, i, false, '?'),
    ensures
        !part_of(p, c, i, mode).broken,
{
    let first = if reads(p, i, false, '^') {
        after(p, i, false)
    } else {
        i
    };
    lemma_read_forward(p, i, false);
    lemma_not_broken(p, i, 2);
    lemma_hyphens_forward(p, first, false);
    lemma_class_not_broken(p, hyphens_end(p, first, false), hyphens_end(p, first, false) > first);
}

/// Nothing fails where no group opens.
proof fn lemma_no_group_no_failure(p: Seq<char>, i: int, reading: Reading)
    requires
        i <= p.len(),
        !p.contains('('),
        !reading.mode.spaced,
        reading.mode.unicode,
        reading.groups.len() == 0,
        !reading.bytes,
        !(reading.last is Group),
    ensures
        !may_fail(p, i, reading),
    decreases p.len() - i,
{
    if let Some((c, end)) = read(p, i, false) {
        assert(p[i] == c);
        let part = part_of(p, c, end, reading.mode);
        let first = if reads(p, end, false, '^') {
            after(p, end, false)
        } else {
            end
        };
        lemma_part_forward(p, c, end, reading.mode);
        lemma_not_broken(p, end, 2);
        lemma_hyphens_forward(p, first, false);
        lemma_class_not_broken(
            p,
            hyphens_end(p, first, false),
            hyphens_end(p, first, false) > first,
        );
        lemma_no_group_no_failure(p, part.end, behind(reading, part));
    }
}

/// A pattern without an opening parenthesis is buildable, whatever else it holds.
pub proof fn lemma_plain_pattern_buildable(p: Seq<char>)
    requires
        !p.contains('('),
    ensures
        buildable(p),
{
    lemma_no_group_no_failure(p, 0, start());
}

} // verus!
