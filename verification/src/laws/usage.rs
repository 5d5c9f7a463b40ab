//! Laws of what a command line that is not carried out is answered with.

use vstd::prelude::*;

use crate::args;
use crate::basic;
use crate::usage::{answers_refusal, exit_status, unknown_flag_text, usage_lines, Refusal};

verus! {

/// The program exits with zero exactly where its command line is not refused.
pub proof fn lemma_exit_status(fatal: bool)
    ensures
        exit_status(fatal) == 0 <==> !fatal,
        exit_status(fatal) == 1 <==> fatal,
{
}

/// Help is the usage text, but for its first and its last character.
pub proof fn lemma_help_is_the_usage_text(usage: Seq<char>, text: Seq<char>)
    requires
        usage.len() >= 2,
        answers_refusal(usage, Refusal::Help, text),
    ensures
        seq![usage[0]] + text + seq![usage.last()] == usage,
{
    assert(seq![usage[0]] + text + seq![usage.last()] =~= usage);
}

/// An answer that is not help ends with an empty line and the command lines of the client.
pub proof fn lemma_refusals_end_with_the_command_lines(
    usage: Seq<char>,
    refusal: Refusal,
    text: Seq<char>,
)
    requires
        !(refusal is Help),
        answers_refusal(usage, refusal, text),
    ensures
        ({
            let end = "\n\n"@ + usage_lines(usage);
            &&& text.len() >= end.len()
            &&& text.skip(text.len() - end.len()) == end
        }),
        usage_lines(args::USAGE@) == args::USAGE_LINES@,
        usage != args::USAGE@ ==> usage_lines(usage) == basic::args::USAGE_LINES@,
{
    let end = "\n\n"@ + usage_lines(usage);
    match refusal {
        Refusal::UnknownFlag { flag, closest } => {
            if closest.is_empty() {
                let said = unknown_flag_text(flag, None);
                assert(text =~= said + end);
                assert((said + end).skip(said.len() as int) =~= end);
            } else {
                let meant = choose|meant: Seq<char>| #[trigger]
                    closest.contains(meant) && text == crate::usage::with_usage_lines(
                        usage,
                        unknown_flag_text(flag, Some(meant)),
                    );
                let said = unknown_flag_text(flag, Some(meant));
                assert(text =~= said + end);
                assert((said + end).skip(said.len() as int) =~= end);
            }
        },
        Refusal::MissingArgument(flag) => {
            let said = "Expected argument for flag '"@ + flag
                + "' but reached end of arguments."@;
            assert(text =~= said + end);
            assert((said + end).skip(said.len() as int) =~= end);
        },
        Refusal::ExtraArgument { flag, argument } => {
            let said = "Flag '"@ + flag + "' cannot have an argument, but found '"@ + argument
                + "'."@;
            assert(text =~= said + end);
            assert((said + end).skip(said.len() as int) =~= end);
        },
        _ => {
            assert(text =~= "Invalid arguments."@ + end);
            assert(("Invalid arguments."@ + end).skip("Invalid arguments."@.len() as int) =~= end);
        },
    }
}

/// The answer to an unknown flag quotes it first, and suggests one of the closest flags
/// exactly where there are any.
pub proof fn lemma_unknown_flag_is_quoted(
    usage: Seq<char>,
    flag: Seq<char>,
    closest: Set<Seq<char>>,
    text: Seq<char>,
)
    requires
        answers_refusal(usage, (Refusal::UnknownFlag { flag, closest }), text),
    ensures
        ({
            let start = "Unknown flag: '"@ + flag + "'"@;
            &&& text.len() >= start.len()
            &&& text.take(start.len() as int) == start
        }),
        closest.is_empty() ==> text == "Unknown flag: '"@ + flag + "'"@ + "\n\n"@ + usage_lines(usage),
        !closest.is_empty() ==> exists|meant: Seq<char>| #[trigger]
            closest.contains(meant) && text == "Unknown flag: '"@ + flag + "'. Did you mean '"@
                + meant + "'?"@ + "\n\n"@ + usage_lines(usage),
{
    let start = "Unknown flag: '"@ + flag + "'"@;
    if closest.is_empty() {
        assert((start + "\n\n"@ + usage_lines(usage)).take(start.len() as int) =~= start);
    } else {
        let meant = choose|meant: Seq<char>| #[trigger]
            closest.contains(meant) && text == crate::usage::with_usage_lines(
                usage,
                unknown_flag_text(flag, Some(meant)),
            );
        reveal_strlit("'. Did you mean '");
        reveal_strlit("'");
        assert(text.take(start.len() as int) =~= start);
    }
}

/// The answers to arguments that are missing or too many quote the flag.
pub proof fn lemma_arguments_are_quoted(
    usage: Seq<char>,
    flag: Seq<char>,
    argument: Seq<char>,
    text: Seq<char>,
)
    ensures
        answers_refusal(usage, Refusal::MissingArgument(flag), text) ==> text.take(
            ("Expected argument for flag '"@ + flag + "'"@).len() as int,
        ) == "Expected argument for flag '"@ + flag + "'"@,
        answers_refusal(usage, (Refusal::ExtraArgument { flag, argument }), text) ==> text.take(
            ("Flag '"@ + flag + "' cannot have an argument, but found '"@ + argument).len() as int,
        ) == "Flag '"@ + flag + "' cannot have an argument, but found '"@ + argument,
        answers_refusal(usage, Refusal::NoMatch, text) ==> text.take(
            "Invalid arguments."@.len() as int,
        ) == "Invalid arguments."@,
{
    reveal_strlit("' but reached end of arguments.");
    reveal_strlit("'");
    if answers_refusal(usage, Refusal::MissingArgument(flag), text) {
        let start = "Expected argument for flag '"@ + flag + "'"@;
        assert(text.take(start.len() as int) =~= start);
    }
    if answers_refusal(usage, (Refusal::ExtraArgument { flag, argument }), text) {
        let start = "Flag '"@ + flag + "' cannot have an argument, but found '"@ + argument;
        assert(text.take(start.len() as int) =~= start);
    }
    if answers_refusal(usage, Refusal::NoMatch, text) {
        let start = "Invalid arguments."@;
        assert(text.take(start.len() as int) =~= start);
    }
}

} // verus!
