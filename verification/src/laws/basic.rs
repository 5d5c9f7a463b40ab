//! Laws of the basic client's command line.

use vstd::prelude::*;

use crate::basic::args::{args_fault, args_of, parses_to, Args, ArgsView};
use crate::basic::setup::nodes_of;
use crate::usage::{answers_refusal, missing_text, ArgView, Refusal, UsageError};

verus! {

/// Where the command line names nodes, the nodes to connect to first are all of those, in
/// their order, whatever the chain's are.
pub proof fn lemma_named_nodes_are_taken(args: ArgsView, chain_nodes: Seq<Seq<char>>)
    requires
        args.arg_enode.len() > 0,
    ensures
        nodes_of(args, chain_nodes).len() == args.arg_enode.len(),
        forall|i: int|
            0 <= i < args.arg_enode.len() ==> #[trigger] nodes_of(args, chain_nodes)[i]
                == args.arg_enode[i],
{
}

/// Where it names none, they are all of the chain's, in their order.
pub proof fn lemma_chain_nodes_are_taken(args: ArgsView, chain_nodes: Seq<Seq<char>>)
    requires
        args.arg_enode.len() == 0,
    ensures
        nodes_of(args, chain_nodes).len() == chain_nodes.len(),
        forall|i: int|
            0 <= i < chain_nodes.len() ==> #[trigger] nodes_of(args, chain_nodes)[i]
                == chain_nodes[i],
{
}

/// Nothing else on the command line has a say in them.
pub proof fn lemma_nodes_depend_on_nothing_else(
    args: ArgsView,
    help: bool,
    logging: Seq<char>,
    chain_nodes: Seq<Seq<char>>,
)
    ensures
        nodes_of(ArgsView { flag_help: help, flag_logging: logging, ..args }, chain_nodes)
            == nodes_of(args, chain_nodes),
{
}

/// A value that is put under one word changes the option of that word and no other, and the
/// option is read from it.
pub proof fn lemma_options_are_independent(
    values: Map<Seq<char>, ArgView>,
    word: Seq<char>,
    value: ArgView,
)
    ensures
        ({
            let before = args_of(values);
            let after = args_of(values.insert(word, value));
            &&& word != "<enode>"@ ==> after.arg_enode == before.arg_enode
            &&& word != "--help"@ ==> after.flag_help == before.flag_help
            &&& word != "--logging"@ ==> after.flag_logging == before.flag_logging
            &&& word == "<enode>"@ ==> after.arg_enode == value.list()
            &&& word == "--help"@ ==> after.flag_help == value.flag()
            &&& word == "--logging"@ ==> after.flag_logging == value.text()
        }),
        args_of(values.remove("<enode>"@)).arg_enode.len() == 0,
{
}

/// What is given is what the options hold: a switch, a text to the letter, and all the
/// nodes in their order.
pub proof fn lemma_options_read(
    values: Map<Seq<char>, ArgView>,
    on: bool,
    text: Seq<char>,
    nodes: Seq<Seq<char>>,
)
    ensures
        args_of(values.insert("--help"@, ArgView::Switch(on))).flag_help == on,
        args_of(values.insert("--logging"@, ArgView::Plain(Some(text)))).flag_logging == text,
        args_of(values.insert("--logging"@, ArgView::Plain(None))).flag_logging.len() == 0,
        args_of(values.insert("<enode>"@, ArgView::List(nodes))).arg_enode == nodes,
{
}

/// Values are taken exactly where both options that must be there are, and the first one
/// that is missing is complained about.
pub proof fn lemma_values_taken_when(values: Map<Seq<char>, ArgView>)
    ensures
        args_fault(values) is None <==> values.dom().contains("--help"@) && values.dom().contains(
            "--logging"@,
        ),
        !values.dom().contains("--help"@) ==> args_fault(values) == Some(
            missing_text("--help"@, "flag_help"@),
        ),
        values.dom().contains("--help"@) && !values.dom().contains("--logging"@) ==> args_fault(
            values,
        ) == Some(missing_text("--logging"@, "flag_logging"@)),
{
}

/// What is read and what is held are the same, field by field.
pub proof fn lemma_args_hold_what_they_show(args: Args)
    ensures
        args.arg_enode@.len() == args@.arg_enode.len(),
        forall|i: int|
            0 <= i < args.arg_enode@.len() ==> #[trigger] args@.arg_enode[i]
                == args.arg_enode@[i]@,
        args@.flag_help == args.flag_help,
        args@.flag_logging == args.flag_logging@,
{
}

/// A command line that is matched is taken exactly where its values are; one that is not
/// matched is never taken, and it is refused unless it asks for help.
pub proof fn lemma_parse_outcomes(
    outcome: Result<Map<Seq<char>, ArgView>, Refusal>,
    r: Result<Args, UsageError>,
)
    requires
        parses_to(outcome, r),
    ensures
        r is Ok ==> outcome is Ok,
        outcome matches Ok(values) ==> (r is Ok <==> args_fault(values) is None),
        outcome matches Ok(values) ==> (r matches Ok(args) ==> args@ == args_of(values)),
        outcome matches Ok(values) ==> (r matches Err(e) ==> e.fatal && Some(e.text@)
            == args_fault(values)),
        outcome matches Err(refusal) ==> (r matches Err(e) ==> (e.fatal <==> !(refusal is Help))
            && answers_refusal(crate::basic::args::USAGE@, refusal, e.text@)),
{
}

} // verus!
