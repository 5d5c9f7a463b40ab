//! Laws of the full client's command line: each option is read from the word that
//! the usage text has for it.

use vstd::prelude::*;

use crate::args::{args_fault, args_of, parses_to, Args};
use crate::text::decimal;
use crate::usage::{
    answers_refusal, lemma_number_read_back, missing_text, undecodable_text, ArgView, Refusal,
    UsageError,
};

verus! {

/// A value that is put under one word changes the option of that word and no other.
pub proof fn lemma_options_are_independent(
    values: Map<Seq<char>, ArgView>,
    word: Seq<char>,
    value: ArgView,
)
    ensures
        ({
            let before = args_of(values);
            let after = args_of(values.insert(word, value));

            &&& word != "daemon"@ ==> after.cmd_daemon == before.cmd_daemon
            &&& word != "<pid-file>"@ ==> after.arg_pid_file == before.arg_pid_file
            &&& word != "<enode>"@ ==> after.arg_enode == before.arg_enode
            &&& word != "--chain"@ ==> after.flag_chain == before.flag_chain
            &&& word != "--db-path"@ ==> after.flag_db_path == before.flag_db_path
            &&& word != "--keys-path"@ ==> after.flag_keys_path == before.flag_keys_path
            &&& word != "--no-bootstrap"@ ==> after.flag_no_bootstrap == before.flag_no_bootstrap
            &&& word != "--listen-address"@ ==> after.flag_listen_address == before.flag_listen_address
            &&& word != "--public-address"@ ==> after.flag_public_address == before.flag_public_address
            &&& word != "--address"@ ==> after.flag_address == before.flag_address
            &&& word != "--peers"@ ==> after.flag_peers == before.flag_peers
            &&& word != "--no-discovery"@ ==> after.flag_no_discovery == before.flag_no_discovery
            &&& word != "--upnp"@ ==> after.flag_upnp == before.flag_upnp
            &&& word != "--node-key"@ ==> after.flag_node_key == before.flag_node_key
            &&& word != "--cache-pref-size"@ ==> after.flag_cache_pref_size == before.flag_cache_pref_size
            &&& word != "--cache-max-size"@ ==> after.flag_cache_max_size == before.flag_cache_max_size
            &&& word != "--jsonrpc"@ ==> after.flag_jsonrpc == before.flag_jsonrpc
            &&& word != "--jsonrpc-url"@ ==> after.flag_jsonrpc_url == before.flag_jsonrpc_url
            &&& word != "--logging"@ ==> after.flag_logging == before.flag_logging
            &&& word != "--version"@ ==> after.flag_version == before.flag_version
        }),
{
}

/// Whatever is put under a word is what its option is read from.
pub proof fn lemma_options_read_their_word(values: Map<Seq<char>, ArgView>, value: ArgView)
    ensures
        args_of(values.insert("daemon"@, value)).cmd_daemon == value.flag(),
        args_of(values.insert("--no-bootstrap"@, value)).flag_no_bootstrap == value.flag(),
        args_of(values.insert("--no-discovery"@, value)).flag_no_discovery == value.flag(),
        args_of(values.insert("--upnp"@, value)).flag_upnp == value.flag(),
        args_of(values.insert("--jsonrpc"@, value)).flag_jsonrpc == value.flag(),
        args_of(values.insert("--version"@, value)).flag_version == value.flag(),
        args_of(values.insert("<pid-file>"@, value)).arg_pid_file == value.text(),
        args_of(values.insert("--chain"@, value)).flag_chain == value.text(),
        args_of(values.insert("--db-path"@, value)).flag_db_path == value.text(),
        args_of(values.insert("--keys-path"@, value)).flag_keys_path == value.text(),
        args_of(values.insert("--listen-address"@, value)).flag_listen_address == value.text(),
        args_of(values.insert("--jsonrpc-url"@, value)).flag_jsonrpc_url == value.text(),
        args_of(values.insert("--public-address"@, value)).flag_public_address is Some <==> value.flag(),
        value.flag() ==> args_of(values.insert("--public-address"@, value)).flag_public_address->0 == value.text(),
        args_of(values.insert("--address"@, value)).flag_address is Some <==> value.flag(),
        value.flag() ==> args_of(values.insert("--address"@, value)).flag_address->0 == value.text(),
        args_of(values.insert("--node-key"@, value)).flag_node_key is Some <==> value.flag(),
        value.flag() ==> args_of(values.insert("--node-key"@, value)).flag_node_key->0 == value.text(),
        args_of(values.insert("--logging"@, value)).flag_logging is Some <==> value.flag(),
        value.flag() ==> args_of(values.insert("--logging"@, value)).flag_logging->0 == value.text(),
        value.number(u32::MAX as nat) matches Some(n) ==> args_of(
            values.insert("--peers"@, value),
        ).flag_peers == n,
        value.number(usize::MAX as nat) matches Some(n) ==> args_of(
            values.insert("--cache-pref-size"@, value),
        ).flag_cache_pref_size == n,
        value.number(usize::MAX as nat) matches Some(n) ==> args_of(
            values.insert("--cache-max-size"@, value),
        ).flag_cache_max_size == n,
        args_of(values.insert("<enode>"@, value)).arg_enode == value.list(),
{
}

/// A switch that is set or not is the option of its word.
pub proof fn lemma_switches_read(values: Map<Seq<char>, ArgView>, on: bool)
    ensures
        args_of(values.insert("daemon"@, ArgView::Switch(on))).cmd_daemon == on,
        args_of(values.insert("--no-bootstrap"@, ArgView::Switch(on))).flag_no_bootstrap == on,
        args_of(values.insert("--no-discovery"@, ArgView::Switch(on))).flag_no_discovery == on,
        args_of(values.insert("--upnp"@, ArgView::Switch(on))).flag_upnp == on,
        args_of(values.insert("--jsonrpc"@, ArgView::Switch(on))).flag_jsonrpc == on,
        args_of(values.insert("--version"@, ArgView::Switch(on))).flag_version == on,
{
}

/// A text that is given is the option of its word, to the letter, and one that is not
/// given is empty or missing.
pub proof fn lemma_texts_read(values: Map<Seq<char>, ArgView>, text: Seq<char>)
    ensures
        args_of(values.insert("<pid-file>"@, ArgView::Plain(Some(text)))).arg_pid_file == text,
        args_of(values.insert("<pid-file>"@, ArgView::Plain(None))).arg_pid_file.len() == 0,
        args_of(values.insert("--chain"@, ArgView::Plain(Some(text)))).flag_chain == text,
        args_of(values.insert("--chain"@, ArgView::Plain(None))).flag_chain.len() == 0,
        args_of(values.insert("--db-path"@, ArgView::Plain(Some(text)))).flag_db_path == text,
        args_of(values.insert("--db-path"@, ArgView::Plain(None))).flag_db_path.len() == 0,
        args_of(values.insert("--keys-path"@, ArgView::Plain(Some(text)))).flag_keys_path == text,
        args_of(values.insert("--keys-path"@, ArgView::Plain(None))).flag_keys_path.len() == 0,
        args_of(values.insert("--listen-address"@, ArgView::Plain(Some(text)))).flag_listen_address == text,
        args_of(values.insert("--listen-address"@, ArgView::Plain(None))).flag_listen_address.len() == 0,
        args_of(values.insert("--jsonrpc-url"@, ArgView::Plain(Some(text)))).flag_jsonrpc_url == text,
        args_of(values.insert("--jsonrpc-url"@, ArgView::Plain(None))).flag_jsonrpc_url.len() == 0,
        args_of(values.insert("--public-address"@, ArgView::Plain(Some(text)))).flag_public_address == Some(text),
        args_of(values.insert("--public-address"@, ArgView::Plain(None))).flag_public_address is None,
        args_of(values.remove("--public-address"@)).flag_public_address is None,
        args_of(values.insert("--address"@, ArgView::Plain(Some(text)))).flag_address == Some(text),
        args_of(values.insert("--address"@, ArgView::Plain(None))).flag_address is None,
        args_of(values.remove("--address"@)).flag_address is None,
        args_of(values.insert("--node-key"@, ArgView::Plain(Some(text)))).flag_node_key == Some(text),
        args_of(values.insert("--node-key"@, ArgView::Plain(None))).flag_node_key is None,
        args_of(values.remove("--node-key"@)).flag_node_key is None,
        args_of(values.insert("--logging"@, ArgView::Plain(Some(text)))).flag_logging == Some(text),
        args_of(values.insert("--logging"@, ArgView::Plain(None))).flag_logging is None,
        args_of(values.remove("--logging"@)).flag_logging is None,
{
}

/// A number that is given in decimal is the option of its word, and a blank one is zero.
pub proof fn lemma_numbers_read(values: Map<Seq<char>, ArgView>, n: nat)
    ensures
        n <= u32::MAX ==> args_of(
            values.insert("--peers"@, ArgView::Plain(Some(decimal(n)))),
        ).flag_peers == n,
        args_of(values.insert("--peers"@, ArgView::Plain(None))).flag_peers == 0,
        n <= usize::MAX ==> args_of(
            values.insert("--cache-pref-size"@, ArgView::Plain(Some(decimal(n)))),
        ).flag_cache_pref_size == n,
        args_of(values.insert("--cache-pref-size"@, ArgView::Plain(None))).flag_cache_pref_size == 0,
        n <= usize::MAX ==> args_of(
            values.insert("--cache-max-size"@, ArgView::Plain(Some(decimal(n)))),
        ).flag_cache_max_size == n,
        args_of(values.insert("--cache-max-size"@, ArgView::Plain(None))).flag_cache_max_size == 0,
{
    if n <= u32::MAX {
        lemma_number_read_back(n, u32::MAX as nat);
    }
    if n <= usize::MAX {
        lemma_number_read_back(n, usize::MAX as nat);
    }
}

/// The nodes that are given are those of the option, all of them and in their order.
pub proof fn lemma_nodes_read(
    values: Map<Seq<char>, ArgView>,
    nodes: Seq<Seq<char>>,
    node: Seq<char>,
)
    ensures
        args_of(values.insert("<enode>"@, ArgView::List(nodes))).arg_enode.len() == nodes.len(),
        forall|i: int|
            0 <= i < nodes.len() ==> #[trigger] args_of(
                values.insert("<enode>"@, ArgView::List(nodes)),
            ).arg_enode[i] == nodes[i],
        args_of(values.insert("<enode>"@, ArgView::Plain(Some(node)))).arg_enode == seq![node],
        args_of(values.remove("<enode>"@)).arg_enode.len() == 0,
{
}

/// Values are taken exactly where each option that must be there is, and each number is
/// one that its option can hold.
pub proof fn lemma_values_taken_when(values: Map<Seq<char>, ArgView>)
    ensures
        args_fault(values) is None <==> {
            &&& values.dom().contains("daemon"@)
            &&& values.dom().contains("<pid-file>"@)
            &&& values.dom().contains("--chain"@)
            &&& values.dom().contains("--db-path"@)
            &&& values.dom().contains("--keys-path"@)
            &&& values.dom().contains("--no-bootstrap"@)
            &&& values.dom().contains("--listen-address"@)
            &&& values.dom().contains("--peers"@)
            &&& values.dom().contains("--no-discovery"@)
            &&& values.dom().contains("--upnp"@)
            &&& values.dom().contains("--cache-pref-size"@)
            &&& values.dom().contains("--cache-max-size"@)
            &&& values.dom().contains("--jsonrpc"@)
            &&& values.dom().contains("--jsonrpc-url"@)
            &&& values.dom().contains("--version"@)
            &&& values["--peers"@].number(u32::MAX as nat) is Some
            &&& values["--cache-pref-size"@].number(usize::MAX as nat) is Some
            &&& values["--cache-max-size"@].number(usize::MAX as nat) is Some
        },
{
}

/// Of the options that are missing, or that are numbers and given otherwise, the first
/// one is complained about, by its word.
pub proof fn lemma_first_fault_is_named(values: Map<Seq<char>, ArgView>)
    ensures
        ({
            let has = |word: Seq<char>| values.dom().contains(word);
            let fault = args_fault(values);
            let ok0 = true;
            let in1 = ok0 && has("daemon"@);
            let ok1 = in1;
            let in2 = ok1 && has("<pid-file>"@);
            let ok2 = in2;
            let in3 = ok2 && has("--chain"@);
            let ok3 = in3;
            let in4 = ok3 && has("--db-path"@);
            let ok4 = in4;
            let in5 = ok4 && has("--keys-path"@);
            let ok5 = in5;
            let in6 = ok5 && has("--no-bootstrap"@);
            let ok6 = in6;
            let in7 = ok6 && has("--listen-address"@);
            let ok7 = in7;
            let in8 = ok7 && has("--peers"@);
            let ok8 = in8 && values["--peers"@].number(u32::MAX as nat) is Some;
            let in9 = ok8 && has("--no-discovery"@);
            let ok9 = in9;
            let in10 = ok9 && has("--upnp"@);
            let ok10 = in10;
            let in11 = ok10 && has("--cache-pref-size"@);
            let ok11 = in11 && values["--cache-pref-size"@].number(usize::MAX as nat) is Some;
            let in12 = ok11 && has("--cache-max-size"@);
            let ok12 = in12 && values["--cache-max-size"@].number(usize::MAX as nat) is Some;
            let in13 = ok12 && has("--jsonrpc"@);
            let ok13 = in13;
            let in14 = ok13 && has("--jsonrpc-url"@);
            let ok14 = in14;
            let in15 = ok14 && has("--version"@);
            let ok15 = in15;
            &&& ok0 && !in1 ==> fault == Some(missing_text("daemon"@, "cmd_daemon"@))
            &&& ok1 && !in2 ==> fault == Some(missing_text("<pid-file>"@, "arg_pid_file"@))
            &&& ok2 && !in3 ==> fault == Some(missing_text("--chain"@, "flag_chain"@))
            &&& ok3 && !in4 ==> fault == Some(missing_text("--db-path"@, "flag_db_path"@))
            &&& ok4 && !in5 ==> fault == Some(missing_text("--keys-path"@, "flag_keys_path"@))
            &&& ok5 && !in6 ==> fault == Some(missing_text("--no-bootstrap"@, "flag_no_bootstrap"@))
            &&& ok6 && !in7 ==> fault == Some(missing_text("--listen-address"@, "flag_listen_address"@))
            &&& ok7 && !in8 ==> fault == Some(missing_text("--peers"@, "flag_peers"@))
            &&& in8 && !ok8 ==> fault == Some(
                undecodable_text(values["--peers"@].text(), "u32"@, "--peers"@),
            )
            &&& ok8 && !in9 ==> fault == Some(missing_text("--no-discovery"@, "flag_no_discovery"@))
            &&& ok9 && !in10 ==> fault == Some(missing_text("--upnp"@, "flag_upnp"@))
            &&& ok10 && !in11 ==> fault == Some(missing_text("--cache-pref-size"@, "flag_cache_pref_size"@))
            &&& in11 && !ok11 ==> fault == Some(
                undecodable_text(values["--cache-pref-size"@].text(), "usize"@, "--cache-pref-size"@),
            )
            &&& ok11 && !in12 ==> fault == Some(missing_text("--cache-max-size"@, "flag_cache_max_size"@))
            &&& in12 && !ok12 ==> fault == Some(
                undecodable_text(values["--cache-max-size"@].text(), "usize"@, "--cache-max-size"@),
            )
            &&& ok12 && !in13 ==> fault == Some(missing_text("--jsonrpc"@, "flag_jsonrpc"@))
            &&& ok13 && !in14 ==> fault == Some(missing_text("--jsonrpc-url"@, "flag_jsonrpc_url"@))
            &&& ok14 && !in15 ==> fault == Some(missing_text("--version"@, "flag_version"@))
        }),
{
}

/// What is read and what is held are the same, field by field.
pub proof fn lemma_args_hold_what_they_show(args: Args)
    ensures
        args.arg_enode@.len() == args@.arg_enode.len(),
        forall|i: int|
            0 <= i < args.arg_enode@.len() ==> #[trigger] args@.arg_enode[i]
                == args.arg_enode@[i]@,
        args@.cmd_daemon == args.cmd_daemon,
        args@.flag_no_bootstrap == args.flag_no_bootstrap,
        args@.flag_no_discovery == args.flag_no_discovery,
        args@.flag_upnp == args.flag_upnp,
        args@.flag_jsonrpc == args.flag_jsonrpc,
        args@.flag_version == args.flag_version,
        args@.arg_pid_file == args.arg_pid_file@,
        args@.flag_chain == args.flag_chain@,
        args@.flag_db_path == args.flag_db_path@,
        args@.flag_keys_path == args.flag_keys_path@,
        args@.flag_listen_address == args.flag_listen_address@,
        args@.flag_jsonrpc_url == args.flag_jsonrpc_url@,
        args@.flag_peers == args.flag_peers,
        args@.flag_cache_pref_size == args.flag_cache_pref_size,
        args@.flag_cache_max_size == args.flag_cache_max_size,
        args@.flag_public_address is Some <==> args.flag_public_address is Some,
        args.flag_public_address is Some ==> args@.flag_public_address->0 == (args.flag_public_address->0)@,
        args@.flag_address is Some <==> args.flag_address is Some,
        args.flag_address is Some ==> args@.flag_address->0 == (args.flag_address->0)@,
        args@.flag_node_key is Some <==> args.flag_node_key is Some,
        args.flag_node_key is Some ==> args@.flag_node_key->0 == (args.flag_node_key->0)@,
        args@.flag_logging is Some <==> args.flag_logging is Some,
        args.flag_logging is Some ==> args@.flag_logging->0 == (args.flag_logging->0)@,
{
}

/// A command line that is matched is taken exactly where its values are; one that is not
/// matched is never taken, and it is refused unless it asks for help.
pub proof fn lemma_parse_outcomes(
    outcome: Result<Map<Seq<char>, ArgView>, Refusal>,
    r: Result<Args, UsageError>,
)
    requires
        parses_to(outcome, r),
    ensures
        r is Ok ==> outcome is Ok,
        outcome matches Ok(values) ==> (r is Ok <==> args_fault(values) is None),
        outcome matches Ok(values) ==> (r matches Ok(args) ==> args@ == args_of(values)),
        outcome matches Ok(values) ==> (r matches Err(e) ==> e.fatal && Some(e.text@)
            == args_fault(values)),
        outcome matches Err(refusal) ==> (r matches Err(e) ==> (e.fatal <==> !(refusal is Help))
            && answers_refusal(crate::args::USAGE@, refusal, e.text@)),
{
}

} // verus!
