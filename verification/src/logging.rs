//! What the logger lets through.

use env_logger::LogBuilder;
use log::LogLevelFilter;
use vstd::prelude::*;

use crate::pattern::{buildable, char_at, is_buildable, lemma_plain_pattern_buildable};
use crate::text::chars_of;
use crate::usage::text_view;

verus! {

/// The most detailed messages that a directive lets through.
#[derive(Clone, Copy, Debug, PartialEq, Eq)]
pub enum LogLevel {
    Off,
    Error,
    Warn,
    Info,
    Debug,
    Trace,
}

/// A directive: the module that it is for, or all of them, and the level.
pub type Directive = (Option<Seq<char>>, LogLevel);

/// What a logger is made from: directives, and perhaps a pattern that each
/// message has to match.
pub struct Rules {
    pub directives: Seq<Directive>,
    pub pattern: Option<Seq<char>>,
}

/// env_logger's builder, which collects directives.
#[verifier::external_type_specification]
#[verifier::external_body]
pub struct ExLogBuilder(LogBuilder);

/// The directives that a builder has collected, in order.
pub uninterp spec fn builder_directives(builder: LogBuilder) -> Seq<Directive>;

/// The pattern that a builder has been given.
pub uninterp spec fn builder_pattern(builder: LogBuilder) -> Option<Seq<char>>;

/// What a builder holds.
pub open spec fn builder_rules(builder: LogBuilder) -> Rules {
    Rules { directives: builder_directives(builder), pattern: builder_pattern(builder) }
}

/// The directives and the pattern that env_logger reads out of a text such as
/// `info,parity=debug/peer`, in a build whose words have some number of bits: that
/// number decides whether a pattern is kept that compiles to about as much as the
/// regex crate allows.
pub uninterp spec fn spec_rules(text: Seq<char>, word_bits: nat) -> Rules;

/// What env_logger reads out of a text in this build.
pub open spec fn rules_of(text: Seq<char>) -> Rules {
    spec_rules(text, usize::BITS as nat)
}

/// Whether the only slash of a text stands at a place.
pub open spec fn only_slash(text: Seq<char>, i: int) -> bool {
    char_at(text, i, '/') && forall|j: int| #[trigger] char_at(text, j, '/') ==> j == i
}

/// Whether env_logger can be given a text. It looks for a pattern only in a text with
/// one slash, behind it, and that has to be [`buildable`].
pub open spec fn readable(text: Seq<char>) -> bool {
    forall|i: int| #[trigger] only_slash(text, i) ==> buildable(text.skip(i + 1))
}

/// Whether a text is [`readable`], where there is one.
pub open spec fn readable_if_any(text: Option<Seq<char>>) -> bool {
    match text {
        Some(text) => readable(text),
        None => true,
    }
}

/// Calls `LogBuilder::new`, which starts without directives and without a
/// pattern.
#[verifier::external_body]
fn new_builder() -> (r: LogBuilder)
    ensures
        builder_directives(r) == Seq::<Directive>::empty(),
        builder_pattern(r) is None,
{
    LogBuilder::new()
}

/// Calls `LogBuilder::filter` without a module, which adds a directive for all
/// modules behind those that are there.
#[verifier::external_body]
fn filter_all(builder: &mut LogBuilder, level: LogLevel)
    ensures
        builder_directives(*final(builder)) == builder_directives(*old(builder)).push(
            (None, level),
        ),
        builder_pattern(*final(builder)) == builder_pattern(*old(builder)),
{
    builder.filter(None, match level {
        LogLevel::Off => LogLevelFilter::Off,
        LogLevel::Error => LogLevelFilter::Error,
        LogLevel::Warn => LogLevelFilter::Warn,
        LogLevel::Info => LogLevelFilter::Info,
        LogLevel::Debug => LogLevelFilter::Debug,
        LogLevel::Trace => LogLevelFilter::Trace,
    });
}

/// Calls `LogBuilder::parse`, which adds the directives of a text behind those
/// that are there and takes over its pattern, also where it has none.
///
/// Where the text or a part of it is malformed, the call leaves that part out and
/// writes a warning to standard output, which has to be there to write to. On a text
/// that is not [`readable`] the call may panic, run out of stack, or not return in any
/// useful time.
#[verifier::external_body]
fn parse_into(builder: &mut LogBuilder, text: &str)
    requires
        readable(text@),
    ensures
        builder_directives(*final(builder)) == builder_directives(*old(builder)) + spec_rules(
            text@,
            usize::BITS as nat,
        ).directives,
        builder_pattern(*final(builder)) == spec_rules(text@, usize::BITS as nat).pattern,
{
    builder.parse(text);
}

/// Whether env_logger can be given a text.
pub fn is_readable(text: &str) -> (r: bool)
    ensures
        r == readable(text@),
{
    let chars = chars_of(text);
    let mut slash: Option<usize> = None;
    let mut i: usize = 0;
    while i < chars.len()
        invariant
            chars@ == text@,
            i <= chars.len(),
            match slash {
                Some(k) => k < i && text@[k as int] == '/' && forall|j: int|
                    0 <= j < i && #[trigger] text@[j] == '/' ==> j == k,
                None => forall|j: int| 0 <= j < i ==> #[trigger] text@[j] != '/',
            },
        decreases chars.len() - i,
    {
        if chars[i] == '/' {
            if let Some(k) = slash {
                assert(char_at(text@, k as int, '/') && char_at(text@, i as int, '/'));
                return true;
            }
            slash = Some(i);
        }
        i = i + 1;
    }
    match slash {
        None => true,
        Some(k) => {
            let mut pattern: Vec<char> = Vec::new();
            let mut i: usize = k + 1;
            while i < chars.len()
                invariant
                    chars@ == text@,
                    k < i <= chars.len(),
                    pattern@ == text@.subrange(k + 1, i as int),
                decreases chars.len() - i,
            {
                pattern.push(chars[i]);
                assert(text@.subrange(k + 1, i + 1) =~= text@.subrange(k + 1, i as int).push(
                    text@[i as int],
                ));
                i = i + 1;
            }
            assert(pattern@ =~= text@.skip(k + 1));
            assert(only_slash(text@, k as int));
            is_buildable(&pattern)
        },
    }
}

/// Rules with those of a text behind them.
pub open spec fn then_rules(rules: Rules, text: Option<Seq<char>>) -> Rules {
    match text {
        Some(text) => Rules {
            directives: rules.directives + rules_of(text).directives,
            pattern: rules_of(text).pattern,
        },
        None => rules,
    }
}

/// The rules that a client starts from: all modules, up to `Info`.
pub open spec fn default_rules() -> Rules {
    Rules { directives: seq![(None, LogLevel::Info)], pattern: None }
}

/// The rules that a client logs by: its own, then those of the environment, then those of
/// the command line.
pub open spec fn log_rules(rust_log: Option<Seq<char>>, init: Option<Seq<char>>) -> Rules {
    then_rules(then_rules(default_rules(), rust_log), init)
}

/// Sets up the logger of the full client.
///
/// `rust_log` is the environment's `RUST_LOG`, `init` the directives of the
/// command line. What stands in the command line comes last. For what is malformed
/// in either of them a warning is written to standard output.
pub fn setup_log(rust_log: &Option<String>, init: &Option<String>) -> (r: LogBuilder)
    requires
        readable_if_any(text_view(*rust_log)),
        readable_if_any(text_view(*init)),
    ensures
        builder_rules(r) == then_rules(
            then_rules(default_rules(), text_view(*rust_log)),
            text_view(*init),
        ),
        builder_rules(r) == log_rules(text_view(*rust_log), text_view(*init)),
{
    let mut builder = new_builder();
    filter_all(&mut builder, LogLevel::Info);
    assert(builder_directives(builder) =~= default_rules().directives);
    if let Some(text) = rust_log {
        parse_into(&mut builder, text.as_str());
    }
    if let Some(text) = init {
        parse_into(&mut builder, text.as_str());
    }
    builder
}

/// However a client is told to log, the first directive lets the messages of all
/// modules through up to `Info`, and what it is told comes behind it.
pub proof fn lemma_default_comes_first(rust_log: Option<Seq<char>>, init: Option<Seq<char>>)
    ensures
        ({
            let rules = then_rules(then_rules(default_rules(), rust_log), init);
            &&& rules.directives.len() >= 1
            &&& rules.directives[0] == (None::<Seq<char>>, LogLevel::Info)
            &&& rust_log is None && init is None ==> rules == default_rules()
        }),
{
}

/// The directives of the command line come behind those of the environment, and
/// its pattern takes the place of theirs.
pub proof fn lemma_command_line_comes_last(rust_log: Option<Seq<char>>, init: Seq<char>)
    ensures
        ({
            let before = then_rules(default_rules(), rust_log);
            let rules = then_rules(before, Some(init));
            &&& rules.directives == before.directives + rules_of(init).directives
            &&& rules.pattern == rules_of(init).pattern
        }),
{
}

/// Directives without a pattern are readable, whatever they are.
pub proof fn lemma_directives_readable(text: Seq<char>)
    requires
        !text.contains('/'),
    ensures
        readable(text),
{
}

/// A text with more than one slash is readable: env_logger takes nothing out of it.
pub proof fn lemma_two_slashes_readable(text: Seq<char>, i: int, j: int)
    requires
        i != j,
        char_at(text, i, '/'),
        char_at(text, j, '/'),
    ensures
        readable(text),
{
}

/// A text without an opening parenthesis is readable, whatever its pattern.
pub proof fn lemma_plain_pattern_readable(text: Seq<char>)
    requires
        !text.contains('('),
    ensures
        readable(text),
{
    assert forall|i: int| #[trigger] only_slash(text, i) implies buildable(text.skip(i + 1)) by {
        let p = text.skip(i + 1);
        if p.contains('(') {
            let j = choose|j: int| 0 <= j < p.len() && p[j] == '(';
            assert(text[i + 1 + j] == '(');
        }
        lemma_plain_pattern_buildable(p);
    }
}

} // verus!
