//! What the basic client does with its command line.

use env_logger::LogBuilder;
use vstd::prelude::*;

use crate::basic::args::{Args, ArgsView};
use crate::logging;
use crate::logging::{
    builder_rules, default_rules, log_rules, readable, readable_if_any, then_rules,
};
use crate::usage::{clone_texts, text_view};

verus! {

/// Sets up the logger. `rust_log` is the environment's `RUST_LOG`, `init` the
/// directives of the command line, which come last. For what is malformed in either
/// of them a warning is written to standard output.
pub fn setup_log(rust_log: &Option<String>, init: &str) -> (r: LogBuilder)
    requires
        readable_if_any(text_view(*rust_log)),
        readable(init@),
    ensures
        builder_rules(r) == then_rules(
            then_rules(default_rules(), text_view(*rust_log)),
            Some(init@),
        ),
        builder_rules(r) == log_rules(text_view(*rust_log), Some(init@)),
{
    logging::setup_log(rust_log, &Some(init.to_owned()))
}

/// The nodes to connect to first: those of the command line, or those of the
/// chain where it has none.
pub open spec fn nodes_of(args: ArgsView, chain_nodes: Seq<Seq<char>>) -> Seq<Seq<char>> {
    if args.arg_enode.len() == 0 {
        chain_nodes
    } else {
        args.arg_enode
    }
}

/// The nodes to connect to first.
pub fn init_nodes(args: &Args, chain_nodes: &Vec<String>) -> (r: Vec<String>)
    ensures
        r.deep_view() == nodes_of(args@, chain_nodes.deep_view()),
{
    match args.arg_enode.len() {
        0 => clone_texts(chain_nodes),
        _ => clone_texts(&args.arg_enode),
    }
}

} // verus!
