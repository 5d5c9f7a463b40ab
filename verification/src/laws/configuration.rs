//! Laws of what the full client does with its command line: the chain, the directories,
//! JSON-RPC, the version, and what it gives up over.

use vstd::prelude::*;

use crate::args::ArgsView;
use crate::configuration::{
    at_home, chain_of, db_dir, execution_of, keys_dir, plan_of, rpc_step, version_lines, ChainSpec,
    ChainSpecView, ClientPlan, Execution, ExecutionView, RpcStep, RpcStepView,
};
use crate::fatal::{error_line, Fatal, FatalView};
use crate::laws::values::lemma_first_match_replaced;
use crate::text::{lemma_replaced_without_match, occurs, occurs_at};

verus! {

/// A client that is asked for its version shows it and does nothing else, whatever else it is
/// asked for. Any other runs, in the background exactly where it is told to, and then leaves
/// its number in the file that is named.
pub proof fn lemma_version_or_client(args: ArgsView)
    ensures
        execution_of(args) is PrintVersion <==> args.flag_version,
        execution_of(args) matches ExecutionView::Client { daemonize } ==> {
            &&& daemonize is Some <==> args.cmd_daemon
            &&& daemonize matches Some(file) ==> file == args.arg_pid_file
        },
{
}

/// What a client is run with is what it was told, each for its own purpose, and nothing else
/// on the command line has a say in it.
pub proof fn lemma_plan_follows_the_command_line(args: ArgsView, other: ArgsView)
    ensures
        plan_of(args).logging == args.flag_logging,
        plan_of(args).cache_pref_size == args.flag_cache_pref_size,
        plan_of(args).cache_max_size == args.flag_cache_max_size,
        plan_of(args).chain == chain_of(args.flag_chain),
        args.flag_logging == other.flag_logging && args.flag_chain == other.flag_chain
            && args.flag_cache_pref_size == other.flag_cache_pref_size && args.flag_cache_max_size
            == other.flag_cache_max_size ==> plan_of(args) == plan_of(other),
{
}

/// Each directory is the one that its own option names, with the home directory put in.
pub proof fn lemma_directories(args: ArgsView, home: Seq<char>)
    ensures
        !occurs(args.flag_db_path, "$HOME"@) ==> db_dir(args, home) == args.flag_db_path,
        !occurs(args.flag_keys_path, "$HOME"@) ==> keys_dir(args, home) == args.flag_keys_path,
        db_dir(args, home) == at_home(args.flag_db_path, home),
        keys_dir(args, home) == at_home(args.flag_keys_path, home),
        args.flag_db_path == args.flag_keys_path ==> db_dir(args, home) == keys_dir(args, home),
{
    if !occurs(args.flag_db_path, "$HOME"@) {
        lemma_path_stays(args.flag_db_path, home);
    }
    if !occurs(args.flag_keys_path, "$HOME"@) {
        lemma_path_stays(args.flag_keys_path, home);
    }
}

/// The line that is printed before the client exits is the message behind a word.
pub proof fn lemma_error_line(msg: Seq<char>)
    ensures
        quotes_first(error_line(msg), "ERROR: "@, msg),
{
    assert(error_line(msg).take("ERROR: "@.len() as int) =~= "ERROR: "@);
    assert(error_line(msg).skip("ERROR: "@.len() as int) =~= msg);
}

/// The text that is asked about as the address of JSON-RPC is the one that was given, to the
/// letter. The server is started on that text exactly where it is found to be an address,
/// and the client gives up over that text exactly where it is not.
pub proof fn lemma_rpc_serves_the_given_address(
    url: Seq<char>,
    is_address: spec_fn(Seq<char>) -> bool,
)
    ensures
        rpc_step(true, url, None) matches RpcStepView::Parse(asked) && {
            &&& asked == url
            &&& is_address(url) ==> rpc_step(true, url, Some(is_address(asked)))
                == RpcStepView::Start(url)
            &&& !is_address(url) ==> rpc_step(true, url, Some(is_address(asked)))
                == RpcStepView::Die(FatalView::InvalidJsonrpcUrl(url))
        },
{
}

/// Where JSON-RPC is not asked for, nothing is asked about and nothing is started,
/// whatever its address is.
pub proof fn lemma_rpc_left_out(url: Seq<char>, answer: Option<bool>)
    ensures
        rpc_step(false, url, answer) is Disabled,
        !(rpc_step(true, url, answer) is Disabled),
{
}

/// Two texts lead to the same only where they are the same text.
pub proof fn lemma_rpc_tells_addresses_apart(url: Seq<char>, other: Seq<char>, answer: Option<bool>)
    ensures
        rpc_step(true, url, answer) == rpc_step(true, other, answer) <==> url == other,
{
}

/// The four names of two chains, the name of a third, and the files: a name never stands
/// for a file, and a file is the one that is named.
pub proof fn lemma_chain_is_the_named_one(name: Seq<char>)
    ensures
        name == "frontier"@ || name == "mainnet"@ ==> chain_of(name) is Frontier,
        name == "morden"@ || name == "testnet"@ ==> chain_of(name) is Morden,
        name == "olympic"@ ==> chain_of(name) is Olympic,
        chain_of(name) is Frontier ==> name == "frontier"@ || name == "mainnet"@,
        chain_of(name) is Morden ==> name == "morden"@ || name == "testnet"@,
        chain_of(name) is Olympic ==> name == "olympic"@,
        chain_of(name) matches ChainSpecView::File(file) ==> file == name,
{
    crate::configuration::lemma_chain_names(name);
    crate::configuration::lemma_chain_names("mainnet"@);
    crate::configuration::lemma_chain_names("testnet"@);
}

/// In a path, the home directory takes the place of the first `$HOME`, what stands before
/// it stays, and what stands behind it is treated the same way.
pub proof fn lemma_home_takes_its_place(before: Seq<char>, rest: Seq<char>, home: Seq<char>)
    requires
        !occurs(before, "$HOME"@),
    ensures
        at_home(before + "$HOME"@ + rest, home) == before + home + at_home(rest, home),
{
    reveal_strlit("$HOME");
    let pattern = "$HOME"@;
    let s = before + pattern + rest;
    assert forall|i: int| 0 <= i < before.len() implies !#[trigger] occurs_at(s, pattern, i) by {
        if occurs_at(s, pattern, i) {
            let window = s.subrange(i, i + 5);
            assert(window[0] == '$' && s[i] == '$');
            if i + 5 <= before.len() {
                assert(before.subrange(i, i + 5) =~= window);
                assert(occurs_at(before, pattern, i));
            } else {
                let k = before.len() - i;
                assert(s[before.len() as int] == pattern[0]);
                assert(window[k] == s[before.len() as int]);
                assert(window[k] == pattern[k]);
                assert(pattern[k] != '$');
            }
        }
    }
    lemma_first_match_replaced(before, pattern, rest, home);
}

/// A path without `$HOME` stays as it is, wherever the home directory is.
pub proof fn lemma_path_stays(path: Seq<char>, home: Seq<char>)
    requires
        !occurs(path, "$HOME"@),
    ensures
        at_home(path, home) == path,
{
    reveal_strlit("$HOME");
    lemma_replaced_without_match(path, "$HOME"@, home);
}

/// The version stands in the second line of what is shown, to the letter, and the rest does
/// not depend on it.
pub proof fn lemma_version_is_shown(version: Seq<char>, other: Seq<char>) -> (words: (
    Seq<char>,
    Seq<char>,
))
    ensures
        words.0 == "Parity\n  version "@,
        version_lines(version) == words.0 + version + words.1,
        version_lines(other) == words.0 + other + words.1,
{
    let tail = "
Copyright 2015, 2016 Ethcore (UK) Limited
License GPLv3+: GNU GPL version 3 or later <http://gnu.org/licenses/gpl.html>.
This is free software: you are free to change and redistribute it.
There is NO WARRANTY, to the extent permitted by law.

By Wood/Paronyan/Kotewicz/Drwięga/Volf."@;
    ("Parity\n  version "@, tail)
}

/// Whether a text is another one with something behind it that does not depend on it.
pub open spec fn quotes_first(message: Seq<char>, text: Seq<char>, behind: Seq<char>) -> bool {
    &&& message.len() == text.len() + behind.len()
    &&& message.take(text.len() as int) == text
    &&& message.skip(text.len() as int) == behind
}

/// What the user is told quotes the text at fault, to the letter, and says what is wrong
/// with it.
pub proof fn lemma_messages_quote_the_text(s: Seq<char>)
    ensures
        quotes_first(
            FatalView::ChainFile(s).message(),
            s,
            ": Couldn't read chain specification file. Sure it exists?"@,
        ),
        quotes_first(
            FatalView::InvalidNode(s).message(),
            s,
            ": Invalid node address format given for a boot node."@,
        ),
        quotes_first(
            FatalView::InvalidAddress(s).message(),
            s,
            ": Invalid listen/public address given with --address"@,
        ),
        quotes_first(
            FatalView::InvalidListenAddress(s).message(),
            s,
            ": Invalid listen/public address given with --listen-address"@,
        ),
        quotes_first(
            FatalView::InvalidPublicAddress(s).message(),
            s,
            ": Invalid listen/public address given with --public-address"@,
        ),
        quotes_first(
            FatalView::InvalidJsonrpcUrl(s).message(),
            s,
            ": Invalid JSONRPC listen address given with --jsonrpc-url. Should be of the form 'IP:port'."@,
        ),
        quotes_first(FatalView::Daemonize(s).message(), "Couldn't daemonize; "@, s),
        FatalView::ConflictingAddresses.message()
            == "Conflicting flags provided: --address and --public-address"@,
{
    assert forall|a: Seq<char>, b: Seq<char>| quotes_first(#[trigger] (a + b), a, b) by {
        assert((a + b).take(a.len() as int) =~= a);
        assert((a + b).skip(a.len() as int) =~= b);
    }
}

/// The views of a chain, of a step and of a reason keep what they hold.
pub proof fn lemma_configuration_views(s: String, f: Fatal, plan: ClientPlan)
    ensures
        Execution::PrintVersion@ is PrintVersion,
        (Execution::Client { daemonize: Some(s) })@ == (ExecutionView::Client {
            daemonize: Some(s@),
        }),
        (Execution::Client { daemonize: None })@ == (ExecutionView::Client { daemonize: None }),
        plan@.logging is Some <==> plan.logging is Some,
        plan.logging is Some ==> plan@.logging->0 == (plan.logging->0)@,
        plan@.chain == plan.chain@,
        plan@.cache_pref_size == plan.cache_pref_size,
        plan@.cache_max_size == plan.cache_max_size,
        ChainSpec::Frontier@ is Frontier,
        ChainSpec::Morden@ is Morden,
        ChainSpec::Olympic@ is Olympic,
        ChainSpec::File(s)@ == ChainSpecView::File(s@),
        RpcStep::Disabled@ is Disabled,
        RpcStep::Parse(s)@ == RpcStepView::Parse(s@),
        RpcStep::Start(s)@ == RpcStepView::Start(s@),
        RpcStep::Die(f)@ == RpcStepView::Die(f@),
        Fatal::ChainFile(s)@ == FatalView::ChainFile(s@),
        Fatal::InvalidNode(s)@ == FatalView::InvalidNode(s@),
        Fatal::InvalidAddress(s)@ == FatalView::InvalidAddress(s@),
        Fatal::InvalidListenAddress(s)@ == FatalView::InvalidListenAddress(s@),
        Fatal::InvalidPublicAddress(s)@ == FatalView::InvalidPublicAddress(s@),
        Fatal::ConflictingAddresses@ is ConflictingAddresses,
        Fatal::InvalidJsonrpcUrl(s)@ == FatalView::InvalidJsonrpcUrl(s@),
        Fatal::Daemonize(s)@ == FatalView::Daemonize(s@),
{
}

} // verus!
