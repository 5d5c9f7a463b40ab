//! Laws of what the logger lets through.

use vstd::prelude::*;

use crate::logging::{log_rules, spec_rules, LogLevel};

verus! {

/// A client that is told nothing lets the messages of all modules through up to `Info`, and
/// has no pattern.
pub proof fn lemma_told_nothing()
    ensures
        ({
            let rules = log_rules(None, None);
            &&& rules.directives.len() == 1
            &&& rules.directives[0] == (None::<Seq<char>>, LogLevel::Info)
            &&& rules.pattern is None
        }),
{
}

/// What the environment and the command line say is read as it stands, the environment's
/// directives before those of the command line, and both behind the first. The pattern is
/// that of the last text.
pub proof fn lemma_told_by_both(rust_log: Seq<char>, init: Seq<char>)
    ensures
        ({
            let rules = log_rules(Some(rust_log), Some(init));
            let first = spec_rules(rust_log, usize::BITS as nat).directives;
            let second = spec_rules(init, usize::BITS as nat).directives;
            &&& rules.directives.len() == 1 + first.len() + second.len()
            &&& rules.directives[0] == (None::<Seq<char>>, LogLevel::Info)
            &&& rules.directives.subrange(1, 1 + first.len() as int) == first
            &&& rules.directives.skip(1 + first.len() as int) == second
            &&& rules.pattern == spec_rules(init, usize::BITS as nat).pattern
        }),
{
    let rules = log_rules(Some(rust_log), Some(init));
    let first = spec_rules(rust_log, usize::BITS as nat).directives;
    let second = spec_rules(init, usize::BITS as nat).directives;
    assert(rules.directives.subrange(1, 1 + first.len() as int) =~= first);
    assert(rules.directives.skip(1 + first.len() as int) =~= second);
}

/// A text that only one of them gives counts the same whichever gives it.
pub proof fn lemma_told_by_one(text: Seq<char>)
    ensures
        ({
            let by_environment = log_rules(Some(text), None);
            let by_command_line = log_rules(None, Some(text));
            let read = spec_rules(text, usize::BITS as nat);
            &&& by_environment == by_command_line
            &&& by_environment.directives.len() == 1 + read.directives.len()
            &&& by_environment.directives[0] == (None::<Seq<char>>, LogLevel::Info)
            &&& by_environment.directives.skip(1) == read.directives
            &&& by_environment.pattern == read.pattern
        }),
{
    let rules = log_rules(Some(text), None);
    assert(rules.directives.skip(1) =~= spec_rules(text, usize::BITS as nat).directives);
}

} // verus!
