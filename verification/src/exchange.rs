//! Whole exchanges of questions and answers about the network settings.
//!
//! A client that answers each question of
//! [`Configuration::net_settings`](crate::configuration::Configuration::net_settings)
//! in turn gets to the settings, or to a reason to give up. The laws below say
//! after how many questions, and to which settings or which reason.

use vstd::prelude::*;

use crate::args::ArgsView;
use crate::configuration::at_home;
use crate::fatal::FatalView;
use crate::network::{accepted, address_questions, net_step, no_answers};
use crate::network::{
    AddressStepView, NetAnswersView, NetStepView, NetworkConfigurationView, Secret, SocketAddr,
};
use crate::text::joined;

verus! {

/// What answers the questions: which texts are nodes, addresses and keys, how
/// texts are hashed, and where the home directory is.
pub struct World {
    pub is_node: spec_fn(Seq<char>) -> bool,
    pub address: spec_fn(Seq<char>) -> Option<SocketAddr>,
    pub secret: spec_fn(Seq<char>) -> Option<Secret>,
    pub hash: spec_fn(Seq<char>) -> Secret,
    pub home: Seq<char>,
}

/// The answers with the one to a question added.
pub open spec fn answered(
    world: World,
    question: NetStepView,
    answers: NetAnswersView,
) -> NetAnswersView {
    match question {
        NetStepView::CheckNode(s) => NetAnswersView {
            nodes: answers.nodes.push((world.is_node)(s)),
            ..answers
        },
        NetStepView::ParseAddress(s) => NetAnswersView {
            addresses: answers.addresses.push((world.address)(s)),
            ..answers
        },
        NetStepView::ParseSecret(s) => NetAnswersView {
            secret: Some((world.secret)(s)),
            ..answers
        },
        NetStepView::HashSecret(s) => NetAnswersView { hash: Some((world.hash)(s)), ..answers },
        NetStepView::FindHome => NetAnswersView { home: Some(world.home), ..answers },
        _ => answers,
    }
}

/// Whether nothing more is asked.
pub open spec fn is_settled(step: NetStepView) -> bool {
    step is Ready || step is Die
}

/// Where an exchange stands after up to a number of further questions.
pub open spec fn exchange(
    args: ArgsView,
    chain_nodes: Seq<Seq<char>>,
    world: World,
    answers: NetAnswersView,
    questions: nat,
) -> NetStepView
    decreases questions,
{
    let step = net_step(args, chain_nodes, answers);
    if is_settled(step) || questions == 0 {
        step
    } else {
        exchange(
            args,
            chain_nodes,
            world,
            answered(world, step, answers),
            (questions - 1) as nat,
        )
    }
}

/// How many texts of the command line, from the first on, are nodes.
pub open spec fn valid_nodes(args: ArgsView, world: World) -> nat {
    accepted(args.arg_enode.map_values(world.is_node))
}

/// The key that a command line leads to.
pub open spec fn settled_secret(args: ArgsView, world: World) -> Option<Secret> {
    match args.flag_node_key {
        None => None,
        Some(text) => match (world.secret)(text) {
            Some(key) => Some(key),
            None => Some((world.hash)(text)),
        },
    }
}

/// The addresses that a command line leads to, or the reason to give up.
pub open spec fn settled_addresses(args: ArgsView, world: World) -> AddressStepView {
    match args.flag_address {
        Some(both) => match (world.address)(both) {
            None => AddressStepView::Die(FatalView::InvalidAddress(both)),
            Some(a) => if args.flag_public_address is Some {
                AddressStepView::Die(FatalView::ConflictingAddresses)
            } else {
                AddressStepView::Done(Some(a), Some(a))
            },
        },
        None => match (world.address)(args.flag_listen_address) {
            None => AddressStepView::Die(
                FatalView::InvalidListenAddress(args.flag_listen_address),
            ),
            Some(listen) => match args.flag_public_address {
                None => AddressStepView::Done(Some(listen), None),
                Some(public) => match (world.address)(public) {
                    None => AddressStepView::Die(FatalView::InvalidPublicAddress(public)),
                    Some(a) => AddressStepView::Done(Some(listen), Some(a)),
                },
            },
        },
    }
}

/// What a command line leads to: the settings, or the reason to give up.
pub open spec fn settled(
    args: ArgsView,
    chain_nodes: Seq<Seq<char>>,
    world: World,
) -> NetStepView {
    if !args.flag_no_bootstrap && valid_nodes(args, world) < args.arg_enode.len() {
        NetStepView::Die(FatalView::InvalidNode(args.arg_enode[valid_nodes(args, world) as int]))
    } else {
        match settled_addresses(args, world) {
            AddressStepView::Done(listen_address, public_address) => NetStepView::Ready(
                NetworkConfigurationView {
                    nat_enabled: args.flag_upnp,
                    boot_nodes: if args.flag_no_bootstrap {
                        Seq::empty()
                    } else if args.arg_enode.len() == 0 {
                        chain_nodes
                    } else {
                        args.arg_enode
                    },
                    listen_address,
                    public_address,
                    use_secret: settled_secret(args, world),
                    discovery_enabled: !args.flag_no_discovery,
                    ideal_peers: args.flag_peers,
                    config_path: Some(
                        joined(at_home(args.flag_db_path, world.home), "network"@),
                    ),
                },
            ),
            AddressStepView::Die(d) => NetStepView::Die(d),
            AddressStepView::Parse(s) => NetStepView::ParseAddress(s),
        }
    }
}

/// Whether answers are those of a world to the questions that are asked.
spec fn truthful(args: ArgsView, world: World, answers: NetAnswersView) -> bool {
    &&& answers.nodes.len() <= args.arg_enode.len()
    &&& forall|i: int|
        0 <= i < answers.nodes.len() ==> #[trigger] answers.nodes[i] == (world.is_node)(
            args.arg_enode[i],
        )
    &&& answers.addresses.len() <= address_questions(args).len()
    &&& forall|i: int|
        0 <= i < answers.addresses.len() ==> #[trigger] answers.addresses[i] == (world.address)(
            address_questions(args)[i],
        )
    &&& answers.secret is Some ==> args.flag_node_key is Some && answers.secret == Some(
        (world.secret)(args.flag_node_key.unwrap()),
    )
    &&& answers.hash is Some ==> args.flag_node_key is Some && answers.hash == Some(
        (world.hash)(args.flag_node_key.unwrap()),
    )
    &&& answers.home is Some ==> answers.home == Some(world.home)
}

/// How many questions can still be asked.
spec fn open_questions(args: ArgsView, answers: NetAnswersView) -> int {
    (args.arg_enode.len() - answers.nodes.len()) + (address_questions(args).len()
        - answers.addresses.len()) + (if answers.secret is None { 1int } else { 0 }) + (
    if answers.hash is None { 1int } else { 0 }) + (if answers.home is None { 1int } else { 0 })
}

/// The answers counted are all yes, and the next one, if there is one, is no.
pub(crate) proof fn lemma_accepted(answers: Seq<bool>)
    ensures
        accepted(answers) <= answers.len(),
        accepted(answers) < answers.len() ==> !answers[accepted(answers) as int],
        forall|i: int| 0 <= i < accepted(answers) ==> #[trigger] answers[i],
    decreases answers.len(),
{
    if answers.len() > 0 && answers[0] {
        let rest = answers.drop_first();
        lemma_accepted(rest);
        assert forall|i: int| 0 <= i < accepted(answers) implies #[trigger] answers[i] by {
            if i > 0 {
                assert(rest[i - 1]);
            }
        }
        if accepted(answers) < answers.len() {
            assert(!rest[accepted(rest) as int]);
        }
    }
}

/// A number of answers that are all yes, with a no or nothing behind them, is
/// what is counted.
pub(crate) proof fn lemma_accepted_is(answers: Seq<bool>, n: nat)
    requires
        n <= answers.len(),
        n < answers.len() ==> !answers[n as int],
        forall|i: int| 0 <= i < n ==> #[trigger] answers[i],
    ensures
        accepted(answers) == n,
{
    lemma_accepted(answers);
    if accepted(answers) < n {
        assert(answers[accepted(answers) as int]);
    }
}

/// What a settled exchange has come to is what the command line leads to.
proof fn lemma_settled_step(
    args: ArgsView,
    chain_nodes: Seq<Seq<char>>,
    world: World,
    answers: NetAnswersView,
)
    requires
        truthful(args, world, answers),
        is_settled(net_step(args, chain_nodes, answers)),
    ensures
        net_step(args, chain_nodes, answers) == settled(args, chain_nodes, world),
{
    let all = args.arg_enode.map_values(world.is_node);
    let n = accepted(answers.nodes);
    lemma_accepted(answers.nodes);
    if !args.flag_no_bootstrap && args.arg_enode.len() > 0 {
        assert forall|i: int| 0 <= i < n implies #[trigger] all[i] by {
            assert(answers.nodes[i]);
        }
        lemma_accepted_is(all, n);
    } else {
        lemma_accepted(all);
    }
}

/// The answer to a question is truthful, and it leaves one question fewer.
proof fn lemma_question_answered(
    args: ArgsView,
    chain_nodes: Seq<Seq<char>>,
    world: World,
    answers: NetAnswersView,
)
    requires
        truthful(args, world, answers),
        !is_settled(net_step(args, chain_nodes, answers)),
    ensures
        ({
            let next = answered(world, net_step(args, chain_nodes, answers), answers);
            truthful(args, world, next) && open_questions(args, next) == open_questions(
                args,
                answers,
            ) - 1
        }),
{
    lemma_accepted(answers.nodes);
    let step = net_step(args, chain_nodes, answers);
    let next = answered(world, step, answers);
    assert(truthful(args, world, next));
}

/// An exchange that can ask all its open questions comes to what the command
/// line leads to.
proof fn lemma_exchange_from(
    args: ArgsView,
    chain_nodes: Seq<Seq<char>>,
    world: World,
    answers: NetAnswersView,
    questions: nat,
)
    requires
        truthful(args, world, answers),
        open_questions(args, answers) <= questions,
    ensures
        exchange(args, chain_nodes, world, answers, questions) == settled(
            args,
            chain_nodes,
            world,
        ),
    decreases questions,
{
    let step = net_step(args, chain_nodes, answers);
    if is_settled(step) {
        lemma_settled_step(args, chain_nodes, world, answers);
    } else {
        lemma_question_answered(args, chain_nodes, world, answers);
        let next = answered(world, step, answers);
        assert(open_questions(args, next) >= 0);
        lemma_exchange_from(args, chain_nodes, world, next, (questions - 1) as nat);
    }
}

/// An exchange ends after at most one question for each node of the command line
/// and five more, and it ends with what the command line leads to.
pub proof fn lemma_exchange_settles(
    args: ArgsView,
    chain_nodes: Seq<Seq<char>>,
    world: World,
    questions: nat,
)
    requires
        questions >= args.arg_enode.len() + 5,
    ensures
        exchange(args, chain_nodes, world, no_answers(), questions) == settled(
            args,
            chain_nodes,
            world,
        ),
        is_settled(settled(args, chain_nodes, world)),
{
    lemma_exchange_from(args, chain_nodes, world, no_answers(), questions);
}

/// The settings are reached exactly where no node of the command line is
/// refused, or none is wanted, each address that is asked about is one, and the
/// address for peers is given at most once.
pub proof fn lemma_ready_when(args: ArgsView, chain_nodes: Seq<Seq<char>>, world: World)
    ensures
        settled(args, chain_nodes, world) is Ready <==> {
            &&& args.flag_no_bootstrap || (forall|i: int|
                0 <= i < args.arg_enode.len() ==> (world.is_node)(#[trigger] args.arg_enode[i]))
            &&& forall|i: int|
                0 <= i < address_questions(args).len() ==> (world.address)(
                    #[trigger] address_questions(args)[i],
                ) is Some
            &&& args.flag_address is None || args.flag_public_address is None
        },
{
    let all = args.arg_enode.map_values(world.is_node);
    lemma_accepted(all);
    let n = valid_nodes(args, world);
    if n < args.arg_enode.len() {
        assert(!all[n as int]);
        assert(!(world.is_node)(args.arg_enode[n as int]));
    } else {
        assert forall|i: int| 0 <= i < args.arg_enode.len() implies (world.is_node)(
            #[trigger] args.arg_enode[i],
        ) by {
            assert(all[i]);
        }
    }
    let questions = address_questions(args);
    assert(questions.len() > 0);
    if (world.address)(questions[0]) is Some && questions.len() > 1 {
        assert(args.flag_address is None);
        assert((world.address)(questions[1]) is Some || settled_addresses(args, world) is Die);
    }
}

/// The first node of the command line that is none is the one that is
/// complained about.
pub proof fn lemma_first_bad_node_named(
    args: ArgsView,
    chain_nodes: Seq<Seq<char>>,
    world: World,
    i: int,
)
    requires
        !args.flag_no_bootstrap,
        0 <= i < args.arg_enode.len(),
        !(world.is_node)(args.arg_enode[i]),
        forall|j: int| 0 <= j < i ==> (world.is_node)(#[trigger] args.arg_enode[j]),
    ensures
        settled(args, chain_nodes, world) == NetStepView::Die(
            FatalView::InvalidNode(args.arg_enode[i]),
        ),
{
    let all = args.arg_enode.map_values(world.is_node);
    assert forall|j: int| 0 <= j < i implies #[trigger] all[j] by {
        assert((world.is_node)(args.arg_enode[j]));
    }
    lemma_accepted_is(all, i as nat);
}

/// Where no node is wanted at first, there is none in the settings, none is ever
/// asked about, and the nodes of the chain and of the command line do not matter.
pub proof fn lemma_no_bootstrap(
    args: ArgsView,
    chain_nodes: Seq<Seq<char>>,
    other_nodes: Seq<Seq<char>>,
    world: World,
    answers: NetAnswersView,
)
    requires
        args.flag_no_bootstrap,
    ensures
        settled(args, chain_nodes, world) matches NetStepView::Ready(c) ==> c.boot_nodes
            == Seq::<Seq<char>>::empty(),
        settled(args, chain_nodes, world) == settled(args, other_nodes, world),
        settled(args, chain_nodes, world) == settled(
            ArgsView { arg_enode: other_nodes, ..args },
            chain_nodes,
            world,
        ),
        !(net_step(args, chain_nodes, answers) is CheckNode),
{
}

/// Each node in the settings is one of the chain's or has been found to be one.
pub proof fn lemma_boot_nodes_checked(args: ArgsView, chain_nodes: Seq<Seq<char>>, world: World)
    ensures
        settled(args, chain_nodes, world) matches NetStepView::Ready(c) ==> (c.boot_nodes
            == chain_nodes || forall|i: int|
            0 <= i < c.boot_nodes.len() ==> (world.is_node)(#[trigger] c.boot_nodes[i])),
{
    lemma_ready_when(args, chain_nodes, world);
}

/// An address for both purposes leads to the same as the same address for each
/// of them, where it is one; where it is none, both are refused.
pub proof fn lemma_address_for_both(
    args: ArgsView,
    chain_nodes: Seq<Seq<char>>,
    world: World,
    url: Seq<char>,
)
    requires
        args.flag_address == Some(url),
        args.flag_public_address is None,
    ensures
        ({
            let apart = ArgsView {
                flag_address: None,
                flag_listen_address: url,
                flag_public_address: Some(url),
                ..args
            };
            let one = settled(args, chain_nodes, world);
            let two = settled(apart, chain_nodes, world);
            &&& (world.address)(url) is Some ==> one == two
            &&& (world.address)(url) is None ==> one is Die && two is Die
        }),
{
    let apart = ArgsView {
        flag_address: None,
        flag_listen_address: url,
        flag_public_address: Some(url),
        ..args
    };
    assert(valid_nodes(args, world) == valid_nodes(apart, world));
}

/// The address for peers cannot be given both ways, whatever the addresses are.
pub proof fn lemma_conflicting_addresses(
    args: ArgsView,
    chain_nodes: Seq<Seq<char>>,
    world: World,
)
    requires
        args.flag_address is Some,
        args.flag_public_address is Some,
    ensures
        settled(args, chain_nodes, world) is Die,
{
}

/// A text that writes a key out is used as that key, and any other text is
/// hashed; without a text no key is set.
pub proof fn lemma_secret_used(args: ArgsView, chain_nodes: Seq<Seq<char>>, world: World)
    ensures
        settled(args, chain_nodes, world) matches NetStepView::Ready(c) ==> {
            &&& c.use_secret is Some <==> args.flag_node_key is Some
            &&& args.flag_node_key matches Some(text) ==> match (world.secret)(text) {
                Some(key) => c.use_secret == Some(key),
                None => c.use_secret == Some((world.hash)(text)),
            }
        },
{
}

} // verus!
