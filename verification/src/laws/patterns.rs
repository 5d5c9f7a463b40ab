//! Laws of the texts that a logger can be set up with.

use vstd::prelude::*;

use crate::logging::{only_slash, readable};
use crate::pattern::{
    behind, buildable, char_at, lemma_part_forward, lemma_plain_part, lemma_read_forward, may_fail,
    part_of, read, start, Reading, NEST_LIMIT,
};

verus! {

/// Of a text with one slash the pattern behind it decides, whatever stands before it.
pub proof fn lemma_pattern_decides(directives: Seq<char>, pattern: Seq<char>)
    requires
        !directives.contains('/'),
        !pattern.contains('/'),
    ensures
        readable(directives + seq!['/'] + pattern) <==> buildable(pattern),
{
    let text = directives + seq!['/'] + pattern;
    let at = directives.len() as int;
    assert(text.skip(at + 1) =~= pattern);
    assert forall|j: int| #[trigger] char_at(text, j, '/') implies j == at by {
        if j < at {
            assert(directives[j] == '/');
        } else if j > at {
            assert(pattern[j - at - 1] == '/');
        }
    }
    assert(char_at(text, at, '/'));
    assert(only_slash(text, at));
    assert forall|i: int| #[trigger] only_slash(text, i) implies i == at by {}
}

/// How many opening parentheses stand from a place on.
pub open spec fn opening(p: Seq<char>, i: int) -> int
    decreases p.len() - i,
{
    if i < 0 || i >= p.len() {
        0
    } else {
        opening(p, i + 1) + (if p[i] == '(' {
            1int
        } else {
            0
        })
    }
}

/// There are never fewer than none.
proof fn lemma_opening_counts(p: Seq<char>, i: int)
    ensures
        0 <= opening(p, i),
    decreases p.len() - i,
{
    if 0 <= i < p.len() {
        lemma_opening_counts(p, i + 1);
    }
}

/// There are no fewer from an earlier place on.
proof fn lemma_opening(p: Seq<char>, i: int, j: int)
    requires
        0 <= i <= j,
    ensures
        opening(p, j) <= opening(p, i),
    decreases j - i,
{
    lemma_opening_counts(p, i);
    if i < j && i < p.len() {
        lemma_opening(p, i + 1, j);
    }
}

/// Nothing fails where few groups open, no flag is set and nothing is counted.
proof fn lemma_few_groups(p: Seq<char>, i: int, reading: Reading)
    requires
        0 <= i <= p.len(),
        !p.contains('?'),
        !p.contains('{'),
        !reading.mode.spaced,
        reading.mode.unicode,
        forall|k: int|
            0 <= k < reading.groups.len() ==> !(#[trigger] reading.groups[k]).mode.spaced
                && reading.groups[k].mode.unicode,
        reading.groups.len() + opening(p, i) <= NEST_LIMIT,
        !reading.bytes,
    ensures
        !may_fail(p, i, reading),
    decreases p.len() - i,
{
    if let Some((c, end)) = read(p, i, false) {
        assert(p[i] == c);
        let part = part_of(p, c, end, reading.mode);
        lemma_plain_part(p, c, end, reading.mode);
        lemma_part_forward(p, c, end, reading.mode);
        lemma_opening(p, end, part.end);
        lemma_opening_counts(p, end);
        assert(opening(p, i) == opening(p, end) + (if c == '(' {
            1int
        } else {
            0
        }));
        assert(c == '(' ==> part.end == end) by {
            if c == '(' && end < p.len() {
                assert(p[end] != '?');
            }
        }
        lemma_few_groups(p, part.end, behind(reading, part));
    }
}

/// A pattern with at most two hundred opening parentheses that sets no flag and counts
/// nothing can be given to the logger, whatever its groups hold.
pub proof fn lemma_few_groups_buildable(p: Seq<char>)
    requires
        !p.contains('?'),
        !p.contains('{'),
        opening(p, 0) <= 200,
    ensures
        buildable(p),
{
    lemma_few_groups(p, 0, start());
}

/// Whether a part can be at fault over how deep it stands.
proof fn lemma_deep(p: Seq<char>, i: int, reading: Reading, last: int)
    requires
        0 <= i <= last < p.len(),
        forall|k: int| i <= k <= last ==> #[trigger] p[k] == '(',
        last + 1 < p.len() ==> p[last + 1] != '?',
        !reading.mode.spaced,
        reading.groups.len() + (last - i) >= NEST_LIMIT,
    ensures
        may_fail(p, i, reading),
    decreases last - i,
{
    assert(p[i] == '(');
    lemma_read_forward(p, i, false);
    let part = part_of(p, '(', i + 1, reading.mode);
    if i < last {
        assert(p[i + 1] == '(');
        lemma_deep(p, i + 1, behind(reading, part), last);
    }
}

/// A pattern that starts with more than two hundred opening parentheses cannot be given to
/// the logger.
pub proof fn lemma_deep_nesting_not_buildable(p: Seq<char>)
    requires
        p.len() > 200,
        forall|k: int| 0 <= k <= 200 ==> #[trigger] p[k] == '(',
        p.len() > 201 ==> p[201] != '?',
    ensures
        !buildable(p),
{
    lemma_deep(p, 0, start(), 200);
}

} // verus!
