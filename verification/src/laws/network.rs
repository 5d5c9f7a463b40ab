//! Laws of the network settings: which nodes, addresses and key a command line leads to,
//! and what it is refused over.

use vstd::prelude::*;

use crate::args::ArgsView;
use crate::configuration::at_home;
use crate::exchange::{
    exchange, lemma_accepted, lemma_accepted_is, lemma_exchange_settles, lemma_ready_when, settled,
    World,
};
use crate::fatal::FatalView;
use crate::network::{
    accepted, address_step, net_step, no_answers, nodes_step, normalized, secret_step, AddressStep,
    AddressStepView, NetAnswers, NetAnswersView, NetStep, NetStepView, NetworkConfiguration,
    NodesStep, NodesStepView, Secret, SecretStep, SecretStepView, SocketAddr,
};
use crate::text::joined;

verus! {

/// Where no node is wanted at first, there is none. Otherwise, where the command line names
/// none, the nodes are those of the chain, whatever else is asked for.
pub proof fn lemma_nodes_without_a_question(
    args: ArgsView,
    chain_nodes: Seq<Seq<char>>,
    answers: Seq<bool>,
)
    ensures
        args.flag_no_bootstrap ==> nodes_step(args, chain_nodes, answers) == NodesStepView::Done(
            Seq::empty(),
        ),
        !args.flag_no_bootstrap && args.arg_enode.len() == 0 ==> nodes_step(
            args,
            chain_nodes,
            answers,
        ) == NodesStepView::Done(chain_nodes),
{
}

/// A node is taken to the letter, exactly where it is one.
pub proof fn lemma_node_is_taken_as_it_is(e: Seq<char>, is_valid: bool)
    ensures
        normalized(e, is_valid) is Some <==> is_valid,
        normalized(e, is_valid) matches Some(node) ==> node == e,
{
}

/// The nodes that the command line names are asked about one after the other.
pub proof fn lemma_next_node_is_asked_about(
    args: ArgsView,
    chain_nodes: Seq<Seq<char>>,
    answers: Seq<bool>,
)
    requires
        !args.flag_no_bootstrap,
        answers.len() < args.arg_enode.len(),
        forall|i: int| 0 <= i < answers.len() ==> #[trigger] answers[i],
    ensures
        nodes_step(args, chain_nodes, answers) == NodesStepView::Check(
            args.arg_enode[answers.len() as int],
        ),
{
    lemma_accepted_is(answers, answers.len());
}

/// The first of them that is no node is what the client gives up over.
pub proof fn lemma_bad_node_ends_it(
    args: ArgsView,
    chain_nodes: Seq<Seq<char>>,
    answers: Seq<bool>,
    i: int,
)
    requires
        !args.flag_no_bootstrap,
        0 <= i < args.arg_enode.len(),
        i < answers.len(),
        !answers[i],
        forall|j: int| 0 <= j < i ==> #[trigger] answers[j],
    ensures
        nodes_step(args, chain_nodes, answers) == NodesStepView::Die(
            FatalView::InvalidNode(args.arg_enode[i]),
        ),
{
    lemma_accepted_is(answers, i as nat);
}

/// Where all of them are nodes, they are the nodes, all of them and in their order.
pub proof fn lemma_good_nodes_are_taken(
    args: ArgsView,
    chain_nodes: Seq<Seq<char>>,
    answers: Seq<bool>,
)
    requires
        !args.flag_no_bootstrap,
        args.arg_enode.len() > 0,
        answers.len() >= args.arg_enode.len(),
        forall|i: int| 0 <= i < args.arg_enode.len() ==> #[trigger] answers[i],
    ensures
        nodes_step(args, chain_nodes, answers) == NodesStepView::Done(args.arg_enode),
{
    lemma_accepted(answers);
    if accepted(answers) < args.arg_enode.len() {
        assert(answers[accepted(answers) as int]);
    }
}

/// The addresses are asked about as they are given: the one for both purposes, or the one
/// to listen on and the one for peers, in this order.
pub proof fn lemma_addresses_are_asked_about(args: ArgsView, answers: Seq<Option<SocketAddr>>)
    ensures
        answers.len() == 0 ==> (args.flag_address matches Some(both) ==> address_step(args, answers)
            == AddressStepView::Parse(both)),
        answers.len() == 0 && args.flag_address is None ==> address_step(args, answers)
            == AddressStepView::Parse(args.flag_listen_address),
        answers.len() == 1 && args.flag_address is None && answers[0] is Some ==> (
        args.flag_public_address matches Some(public) ==> address_step(args, answers)
            == AddressStepView::Parse(public)),
{
}

/// An address that is none is what the client gives up over, by the option that it was
/// given with.
pub proof fn lemma_bad_address_ends_it(args: ArgsView, answers: Seq<Option<SocketAddr>>)
    requires
        answers.len() > 0,
    ensures
        answers[0] is None ==> (args.flag_address matches Some(both) ==> address_step(args, answers)
            == AddressStepView::Die(FatalView::InvalidAddress(both))),
        answers[0] is None && args.flag_address is None ==> address_step(args, answers)
            == AddressStepView::Die(FatalView::InvalidListenAddress(args.flag_listen_address)),
        args.flag_address is None && answers[0] is Some && answers.len() > 1 && answers[1] is None
            ==> (args.flag_public_address matches Some(public) ==> address_step(args, answers)
            == AddressStepView::Die(FatalView::InvalidPublicAddress(public))),
{
}

/// Addresses that are found are taken for what they were given for, and the address for
/// peers may be given once.
pub proof fn lemma_good_addresses_are_taken(args: ArgsView, answers: Seq<Option<SocketAddr>>)
    requires
        answers.len() > 0,
        answers[0] is Some,
    ensures
        args.flag_address is Some && args.flag_public_address is None ==> address_step(args, answers)
            == AddressStepView::Done(answers[0], answers[0]),
        args.flag_address is Some && args.flag_public_address is Some ==> address_step(args, answers)
            == AddressStepView::Die(FatalView::ConflictingAddresses),
        args.flag_address is None && args.flag_public_address is None ==> address_step(args, answers)
            == AddressStepView::Done(answers[0], None),
        args.flag_address is None && args.flag_public_address is Some && answers.len() > 1
            && answers[1] is Some ==> address_step(args, answers) == AddressStepView::Done(
            answers[0],
            answers[1],
        ),
{
}

/// The key is asked about as it is given; it is the key that its text writes out, or else
/// the one that its text is hashed into, and there is none where none is given.
pub proof fn lemma_key_is_found(
    args: ArgsView,
    parsed: Option<Option<Secret>>,
    hashed: Option<Secret>,
    key: Secret,
)
    ensures
        args.flag_node_key is None ==> secret_step(args, parsed, hashed) == SecretStepView::Done(
            None,
        ),
        args.flag_node_key matches Some(text) ==> {
            &&& secret_step(args, None, hashed) == SecretStepView::Parse(text)
            &&& secret_step(args, Some(Some(key)), hashed) == SecretStepView::Done(Some(key))
            &&& secret_step(args, Some(None), None) == SecretStepView::Hash(text)
            &&& secret_step(args, Some(None), Some(key)) == SecretStepView::Done(Some(key))
        },
{
}

/// Only what the command line gives is asked about, and only for what it is given for.
pub proof fn lemma_questions_are_about_the_command_line(
    args: ArgsView,
    chain_nodes: Seq<Seq<char>>,
    answers: NetAnswersView,
)
    ensures
        net_step(args, chain_nodes, answers) matches NetStepView::CheckNode(s)
            ==> !args.flag_no_bootstrap && args.arg_enode.contains(s),
        net_step(args, chain_nodes, answers) matches NetStepView::ParseAddress(s)
            ==> args.flag_address == Some(s) || (args.flag_address is None && (
        args.flag_listen_address == s || args.flag_public_address == Some(s))),
        net_step(args, chain_nodes, answers) matches NetStepView::ParseSecret(s)
            ==> args.flag_node_key == Some(s) && answers.secret is None,
        net_step(args, chain_nodes, answers) matches NetStepView::HashSecret(s)
            ==> args.flag_node_key == Some(s) && answers.secret == Some(None::<Secret>),
        net_step(args, chain_nodes, answers) is FindHome ==> answers.home is None,
{
    lemma_accepted(answers.nodes);
    let n = accepted(answers.nodes) as int;
    if n < args.arg_enode.len() {
        assert(args.arg_enode.contains(args.arg_enode[n]));
    }
}

/// The nodes that a command line leads to, said of the whole exchange: none where none
/// are wanted, else all that it names, in their order, and else all of the chain's. No
/// other option has a say in them, nor has what the texts turn out to be.
pub proof fn lemma_exchange_nodes(
    args: ArgsView,
    chain_nodes: Seq<Seq<char>>,
    world: World,
    questions: nat,
)
    requires
        questions >= args.arg_enode.len() + 5,
    ensures
        exchange(args, chain_nodes, world, no_answers(), questions) matches NetStepView::Ready(c)
            ==> {
            &&& args.flag_no_bootstrap ==> c.boot_nodes.len() == 0
            &&& !args.flag_no_bootstrap && args.arg_enode.len() > 0 ==> {
                &&& c.boot_nodes.len() == args.arg_enode.len()
                &&& forall|i: int|
                    0 <= i < args.arg_enode.len() ==> #[trigger] c.boot_nodes[i]
                        == args.arg_enode[i]
            }
            &&& !args.flag_no_bootstrap && args.arg_enode.len() == 0 ==> {
                &&& c.boot_nodes.len() == chain_nodes.len()
                &&& forall|i: int|
                    0 <= i < chain_nodes.len() ==> #[trigger] c.boot_nodes[i] == chain_nodes[i]
            }
            &&& c.boot_nodes.len() == 0 ==> args.flag_no_bootstrap || chain_nodes.len() == 0
        },
{
    lemma_exchange_settles(args, chain_nodes, world, questions);
}

/// Two command lines that agree on `--no-bootstrap` and on the nodes lead to the same
/// nodes, however much they differ otherwise.
pub proof fn lemma_nodes_depend_on_nothing_else(
    args: ArgsView,
    other: ArgsView,
    chain_nodes: Seq<Seq<char>>,
    world: World,
    other_world: World,
)
    requires
        args.flag_no_bootstrap == other.flag_no_bootstrap,
        args.arg_enode == other.arg_enode,
    ensures
        settled(args, chain_nodes, world) matches NetStepView::Ready(c) ==> (settled(
            other,
            chain_nodes,
            other_world,
        ) matches NetStepView::Ready(d) ==> c.boot_nodes == d.boot_nodes),
        forall|answers: Seq<bool>| #[trigger]
            nodes_step(args, chain_nodes, answers) == nodes_step(other, chain_nodes, answers),
{
}

/// The switches and the number of peers go into the settings as they are, and each into
/// its own.
pub proof fn lemma_exchange_switches(
    args: ArgsView,
    chain_nodes: Seq<Seq<char>>,
    world: World,
    questions: nat,
)
    requires
        questions >= args.arg_enode.len() + 5,
    ensures
        exchange(args, chain_nodes, world, no_answers(), questions) matches NetStepView::Ready(c)
            ==> {
            &&& c.nat_enabled <==> args.flag_upnp
            &&& c.discovery_enabled <==> !args.flag_no_discovery
            &&& c.ideal_peers == args.flag_peers
        },
{
    lemma_exchange_settles(args, chain_nodes, world, questions);
}

/// The addresses that a command line leads to are those that its texts are.
pub proof fn lemma_exchange_addresses(
    args: ArgsView,
    chain_nodes: Seq<Seq<char>>,
    world: World,
    questions: nat,
)
    requires
        questions >= args.arg_enode.len() + 5,
    ensures
        exchange(args, chain_nodes, world, no_answers(), questions) matches NetStepView::Ready(c)
            ==> {
            &&& c.listen_address is Some
            &&& args.flag_address matches Some(both) ==> {
                &&& c.listen_address == (world.address)(both)
                &&& c.public_address == (world.address)(both)
            }
            &&& args.flag_address is None ==> c.listen_address == (world.address)(
                args.flag_listen_address,
            )
            &&& args.flag_address is None ==> (args.flag_public_address matches Some(public)
                ==> c.public_address is Some && c.public_address == (world.address)(public))
            &&& args.flag_address is None && args.flag_public_address is None
                ==> c.public_address is None
        },
{
    lemma_exchange_settles(args, chain_nodes, world, questions);
}

/// The key that a command line leads to is the one its text writes out, or the hash of the
/// text.
pub proof fn lemma_exchange_key(
    args: ArgsView,
    chain_nodes: Seq<Seq<char>>,
    world: World,
    questions: nat,
)
    requires
        questions >= args.arg_enode.len() + 5,
    ensures
        exchange(args, chain_nodes, world, no_answers(), questions) matches NetStepView::Ready(c)
            ==> {
            &&& c.use_secret is Some <==> args.flag_node_key is Some
            &&& args.flag_node_key matches Some(text) ==> {
                &&& (world.secret)(text) is Some ==> c.use_secret == (world.secret)(text)
                &&& (world.secret)(text) is None ==> c.use_secret->0 == (world.hash)(text)
            }
        },
{
    lemma_exchange_settles(args, chain_nodes, world, questions);
}

/// The network's own files are in `network`, below the directory of the database.
pub proof fn lemma_exchange_directory(
    args: ArgsView,
    chain_nodes: Seq<Seq<char>>,
    world: World,
    questions: nat,
)
    requires
        questions >= args.arg_enode.len() + 5,
    ensures
        exchange(args, chain_nodes, world, no_answers(), questions) matches NetStepView::Ready(c)
            ==> {
            let dir = at_home(args.flag_db_path, world.home);
            &&& c.config_path is Some
            &&& dir.len() > 0 && dir.last() != '/' ==> c.config_path->0 == dir + "/network"@
            &&& dir.len() > 0 && dir.last() == '/' ==> c.config_path->0 == dir + "network"@
            &&& dir.len() == 0 ==> c.config_path->0 == "network"@
        },
{
    lemma_exchange_settles(args, chain_nodes, world, questions);
    let dir = at_home(args.flag_db_path, world.home);
    reveal_strlit("/network");
    reveal_strlit("network");
    assert(dir.push('/') + "network"@ =~= dir + "/network"@);
    if dir.len() == 0 {
        assert(dir + "network"@ =~= "network"@);
    }
}

/// The settings are reached exactly where each node that is wanted is one, each address is
/// one, and the address for peers is given at most once.
pub proof fn lemma_exchange_ready_when(
    args: ArgsView,
    chain_nodes: Seq<Seq<char>>,
    world: World,
    questions: nat,
)
    requires
        questions >= args.arg_enode.len() + 5,
    ensures
        exchange(args, chain_nodes, world, no_answers(), questions) is Ready <==> {
            &&& !args.flag_no_bootstrap ==> forall|i: int|
                0 <= i < args.arg_enode.len() ==> (world.is_node)(#[trigger] args.arg_enode[i])
            &&& match (args.flag_address, args.flag_public_address) {
                (Some(both), None) => (world.address)(both) is Some,
                (Some(_), Some(_)) => false,
                (None, Some(public)) => (world.address)(args.flag_listen_address) is Some && (
                world.address)(public) is Some,
                (None, None) => (world.address)(args.flag_listen_address) is Some,
            }
        },
        exchange(args, chain_nodes, world, no_answers(), questions) is Ready || exchange(
            args,
            chain_nodes,
            world,
            no_answers(),
            questions,
        ) is Die,
{
    lemma_exchange_settles(args, chain_nodes, world, questions);
    lemma_ready_when(args, chain_nodes, world);
}

/// Where the nodes are in order, the client gives up over the first address that is none,
/// by the option that it was given with, and else over an address for peers that is given
/// twice.
pub proof fn lemma_exchange_gives_up(
    args: ArgsView,
    chain_nodes: Seq<Seq<char>>,
    world: World,
    questions: nat,
)
    requires
        questions >= args.arg_enode.len() + 5,
        args.flag_no_bootstrap || forall|i: int|
            0 <= i < args.arg_enode.len() ==> (world.is_node)(#[trigger] args.arg_enode[i]),
    ensures
        ({
            let end = exchange(args, chain_nodes, world, no_answers(), questions);
            &&& args.flag_address matches Some(both) ==> {
                &&& (world.address)(both) is None ==> end == NetStepView::Die(
                    FatalView::InvalidAddress(both),
                )
                &&& (world.address)(both) is Some && args.flag_public_address is Some ==> end
                    == NetStepView::Die(FatalView::ConflictingAddresses)
            }
            &&& args.flag_address is None && (world.address)(args.flag_listen_address) is None
                ==> end == NetStepView::Die(
                FatalView::InvalidListenAddress(args.flag_listen_address),
            )
            &&& args.flag_address is None && (world.address)(args.flag_listen_address) is Some
                ==> (args.flag_public_address matches Some(public) ==> ((world.address)(
                public,
            ) is None ==> end == NetStepView::Die(FatalView::InvalidPublicAddress(public))))
        }),
{
    lemma_exchange_settles(args, chain_nodes, world, questions);
    let all = args.arg_enode.map_values(world.is_node);
    lemma_accepted(all);
    if !args.flag_no_bootstrap && accepted(all) < args.arg_enode.len() {
        assert(!all[accepted(all) as int]);
        assert(!(world.is_node)(args.arg_enode[accepted(all) as int]));
    }
}

/// The first node of the command line that is none is what the client gives up over,
/// whatever the addresses are.
pub proof fn lemma_exchange_names_bad_node(
    args: ArgsView,
    chain_nodes: Seq<Seq<char>>,
    world: World,
    questions: nat,
    i: int,
)
    requires
        questions >= args.arg_enode.len() + 5,
        !args.flag_no_bootstrap,
        0 <= i < args.arg_enode.len(),
        !(world.is_node)(args.arg_enode[i]),
        forall|j: int| 0 <= j < i ==> (world.is_node)(#[trigger] args.arg_enode[j]),
    ensures
        exchange(args, chain_nodes, world, no_answers(), questions) == NetStepView::Die(
            FatalView::InvalidNode(args.arg_enode[i]),
        ),
{
    lemma_exchange_settles(args, chain_nodes, world, questions);
    crate::exchange::lemma_first_bad_node_named(args, chain_nodes, world, i);
}

/// What the network is not concerned with has no say in its settings.
pub proof fn lemma_other_options_do_not_matter(
    args: ArgsView,
    other: ArgsView,
    chain_nodes: Seq<Seq<char>>,
    world: World,
    answers: NetAnswersView,
)
    ensures
        ({
            let changed = ArgsView {
                cmd_daemon: other.cmd_daemon,
                arg_pid_file: other.arg_pid_file,
                flag_chain: other.flag_chain,
                flag_keys_path: other.flag_keys_path,
                flag_cache_pref_size: other.flag_cache_pref_size,
                flag_cache_max_size: other.flag_cache_max_size,
                flag_jsonrpc: other.flag_jsonrpc,
                flag_jsonrpc_url: other.flag_jsonrpc_url,
                flag_logging: other.flag_logging,
                flag_version: other.flag_version,
                ..args
            };
            &&& net_step(changed, chain_nodes, answers) == net_step(args, chain_nodes, answers)
            &&& settled(changed, chain_nodes, world) == settled(args, chain_nodes, world)
        }),
{
}

/// Whatever the answers are, settings that are reached are made of them and of the command
/// line.
pub proof fn lemma_settings_are_made_of(
    args: ArgsView,
    chain_nodes: Seq<Seq<char>>,
    answers: NetAnswersView,
)
    ensures
        net_step(args, chain_nodes, answers) matches NetStepView::Ready(c) ==> {
            &&& c.nat_enabled <==> args.flag_upnp
            &&& c.discovery_enabled <==> !args.flag_no_discovery
            &&& c.ideal_peers == args.flag_peers
            &&& args.flag_no_bootstrap ==> c.boot_nodes.len() == 0
            &&& !args.flag_no_bootstrap ==> c.boot_nodes == (if args.arg_enode.len() > 0 {
                args.arg_enode
            } else {
                chain_nodes
            })
            &&& c.listen_address == answers.addresses[0] && c.listen_address is Some
            &&& c.public_address is Some <==> args.flag_address is Some
                || args.flag_public_address is Some
            &&& args.flag_address is Some ==> c.public_address == c.listen_address
            &&& args.flag_address is None && args.flag_public_address is Some ==> c.public_address
                == answers.addresses[1]
            &&& args.flag_node_key is None ==> c.use_secret is None
            &&& args.flag_node_key is Some ==> c.use_secret == (if answers.secret->0 is Some {
                answers.secret->0
            } else {
                answers.hash
            })
            &&& answers.home matches Some(home) && c.config_path == Some(
                joined(at_home(args.flag_db_path, home), "network"@),
            )
        },
{
}

/// The views of the steps keep what the steps hold.
pub proof fn lemma_step_views(
    s: String,
    l: Vec<String>,
    a: Option<SocketAddr>,
    b: Option<SocketAddr>,
    k: Option<Secret>,
    f: crate::fatal::Fatal,
    c: NetworkConfiguration,
)
    ensures
        NodesStep::Check(s)@ == NodesStepView::Check(s@),
        NodesStep::Done(l)@ == NodesStepView::Done(l.deep_view()),
        NodesStep::Die(f)@ == NodesStepView::Die(f@),
        AddressStep::Parse(s)@ == AddressStepView::Parse(s@),
        AddressStep::Done(a, b)@ == AddressStepView::Done(a, b),
        AddressStep::Die(f)@ == AddressStepView::Die(f@),
        SecretStep::Parse(s)@ == SecretStepView::Parse(s@),
        SecretStep::Hash(s)@ == SecretStepView::Hash(s@),
        SecretStep::Done(k)@ == SecretStepView::Done(k),
        NetStep::CheckNode(s)@ == NetStepView::CheckNode(s@),
        NetStep::ParseAddress(s)@ == NetStepView::ParseAddress(s@),
        NetStep::ParseSecret(s)@ == NetStepView::ParseSecret(s@),
        NetStep::HashSecret(s)@ == NetStepView::HashSecret(s@),
        NetStep::FindHome@ == NetStepView::FindHome,
        NetStep::Ready(c)@ == NetStepView::Ready(c@),
        NetStep::Die(f)@ == NetStepView::Die(f@),
{
}

/// The view of the settings keeps each of them.
pub proof fn lemma_settings_view(c: NetworkConfiguration)
    ensures
        c@.nat_enabled == c.nat_enabled,
        c@.boot_nodes == c.boot_nodes.deep_view(),
        c@.listen_address == c.listen_address,
        c@.public_address == c.public_address,
        c@.use_secret == c.use_secret,
        c@.discovery_enabled == c.discovery_enabled,
        c@.ideal_peers == c.ideal_peers,
        c@.config_path is Some <==> c.config_path is Some,
        c.config_path is Some ==> c@.config_path->0 == (c.config_path->0)@,
{
}

/// The view of the answers keeps each of them.
pub proof fn lemma_answers_view(answers: NetAnswers)
    ensures
        answers@.nodes == answers.nodes@,
        answers@.addresses == answers.addresses@,
        answers@.secret == answers.secret,
        answers@.hash == answers.hash,
        answers@.home is Some <==> answers.home is Some,
        answers.home is Some ==> answers@.home->0 == (answers.home->0)@,
        no_answers().nodes.len() == 0 && no_answers().addresses.len() == 0,
        no_answers().secret is None && no_answers().hash is None && no_answers().home is None,
{
}

} // verus!
