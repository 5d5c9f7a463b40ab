//! The network settings of the full client.
//!
//! Whether a text is a node, an address or a key is not decided here. The client
//! asks, one question at a time, and goes on with the answers: each of the
//! functions below says, from the answers so far, what to ask next or what came
//! out.

use vstd::prelude::*;

use crate::args::ArgsView;
use crate::configuration::{at_home, Configuration};
use crate::fatal::{Fatal, FatalView};
use crate::text::{join_path, joined};
use crate::usage::{clone_texts, text_view};

verus! {

/// An address and a port.
#[derive(Clone, Copy, Debug, PartialEq, Eq)]
pub enum SocketAddr {
    /// Four bytes and a port.
    V4([u8; 4], u16),
    /// Eight segments, a port, the flow information and the scope.
    V6([u16; 8], u16, u32, u32),
}

/// A node's secret key.
#[derive(Clone, Copy, Debug, PartialEq, Eq)]
pub struct Secret(pub [u8; 32]);

/// The settings that the network is started with.
#[derive(Debug)]
pub struct NetworkConfiguration {
    /// Whether to find the outer address by UPnP.
    pub nat_enabled: bool,
    /// The nodes to connect to first.
    pub boot_nodes: Vec<String>,
    /// The address to listen on.
    pub listen_address: Option<SocketAddr>,
    /// The address that peers may connect to.
    pub public_address: Option<SocketAddr>,
    /// The node's key.
    pub use_secret: Option<Secret>,
    /// Whether to look for new peers.
    pub discovery_enabled: bool,
    /// How many peers to try to keep.
    pub ideal_peers: u32,
    /// The directory of the network's own files.
    pub config_path: Option<String>,
}

/// The value of a [`NetworkConfiguration`].
pub struct NetworkConfigurationView {
    pub nat_enabled: bool,
    pub boot_nodes: Seq<Seq<char>>,
    pub listen_address: Option<SocketAddr>,
    pub public_address: Option<SocketAddr>,
    pub use_secret: Option<Secret>,
    pub discovery_enabled: bool,
    pub ideal_peers: nat,
    pub config_path: Option<Seq<char>>,
}

impl View for NetworkConfiguration {
    type V = NetworkConfigurationView;

    open spec fn view(&self) -> NetworkConfigurationView {
        NetworkConfigurationView {
            nat_enabled: self.nat_enabled,
            boot_nodes: self.boot_nodes.deep_view(),
            listen_address: self.listen_address,
            public_address: self.public_address,
            use_secret: self.use_secret,
            discovery_enabled: self.discovery_enabled,
            ideal_peers: self.ideal_peers as nat,
            config_path: text_view(self.config_path),
        }
    }
}

/// What is to be done about the nodes to connect to first.
#[derive(Debug)]
pub enum NodesStep {
    /// Find out whether a text is a node.
    Check(String),
    /// These are the nodes.
    Done(Vec<String>),
    /// Give up.
    Die(Fatal),
}

/// The value of a [`NodesStep`].
pub enum NodesStepView {
    Check(Seq<char>),
    Done(Seq<Seq<char>>),
    Die(FatalView),
}

impl View for NodesStep {
    type V = NodesStepView;

    open spec fn view(&self) -> NodesStepView {
        match *self {
            NodesStep::Check(s) => NodesStepView::Check(s@),
            NodesStep::Done(l) => NodesStepView::Done(l.deep_view()),
            NodesStep::Die(d) => NodesStepView::Die(d@),
        }
    }
}

/// How many answers, from the first on, are yes.
pub open spec fn accepted(answers: Seq<bool>) -> nat
    decreases answers.len(),
{
    if answers.len() == 0 || !answers[0] {
        0
    } else {
        1 + accepted(answers.drop_first())
    }
}

/// What is to be done about the nodes to connect to first: none are wanted, or
/// those of the chain are, or those of the command line are, each of which must
/// be one. `answers` says which of them are, in their order.
pub open spec fn nodes_step(
    args: ArgsView,
    chain_nodes: Seq<Seq<char>>,
    answers: Seq<bool>,
) -> NodesStepView {
    let n = accepted(answers);
    if args.flag_no_bootstrap {
        NodesStepView::Done(Seq::empty())
    } else if args.arg_enode.len() == 0 {
        NodesStepView::Done(chain_nodes)
    } else if n >= args.arg_enode.len() {
        NodesStepView::Done(args.arg_enode)
    } else if n < answers.len() {
        NodesStepView::Die(FatalView::InvalidNode(args.arg_enode[n as int]))
    } else {
        NodesStepView::Check(args.arg_enode[n as int])
    }
}

/// What is to be done about the addresses.
#[derive(Debug)]
pub enum AddressStep {
    /// Find out which address a text is, if it is one.
    Parse(String),
    /// These are the address to listen on and the address for peers.
    Done(Option<SocketAddr>, Option<SocketAddr>),
    /// Give up.
    Die(Fatal),
}

/// The value of an [`AddressStep`].
pub enum AddressStepView {
    Parse(Seq<char>),
    Done(Option<SocketAddr>, Option<SocketAddr>),
    Die(FatalView),
}

impl View for AddressStep {
    type V = AddressStepView;

    open spec fn view(&self) -> AddressStepView {
        match *self {
            AddressStep::Parse(s) => AddressStepView::Parse(s@),
            AddressStep::Done(l, p) => AddressStepView::Done(l, p),
            AddressStep::Die(d) => AddressStepView::Die(d@),
        }
    }
}

/// The texts that are asked about as addresses, in order.
pub open spec fn address_questions(args: ArgsView) -> Seq<Seq<char>> {
    match (args.flag_address, args.flag_public_address) {
        (Some(both), _) => seq![both],
        (None, Some(public)) => seq![args.flag_listen_address, public],
        (None, None) => seq![args.flag_listen_address],
    }
}

/// The complaint about a question that is answered with no.
pub open spec fn address_refusal(args: ArgsView, question: int) -> FatalView {
    match args.flag_address {
        Some(both) => FatalView::InvalidAddress(both),
        None => if question == 0 {
            FatalView::InvalidListenAddress(args.flag_listen_address)
        } else {
            FatalView::InvalidPublicAddress(args.flag_public_address.unwrap())
        },
    }
}

/// The two addresses, once all the questions are answered with yes; the address
/// for peers may not be given twice.
pub open spec fn addresses_of(
    args: ArgsView,
    answers: Seq<Option<SocketAddr>>,
) -> AddressStepView {
    match (args.flag_address, args.flag_public_address) {
        (Some(_), Some(_)) => AddressStepView::Die(FatalView::ConflictingAddresses),
        (Some(_), None) => AddressStepView::Done(answers[0], answers[0]),
        (None, Some(_)) => AddressStepView::Done(answers[0], answers[1]),
        (None, None) => AddressStepView::Done(answers[0], None),
    }
}

/// What is to be done about the addresses, from what the texts that were asked
/// about are.
pub open spec fn address_step(
    args: ArgsView,
    answers: Seq<Option<SocketAddr>>,
) -> AddressStepView {
    let questions = address_questions(args);
    if answers.len() > 0 && answers[0] is None {
        AddressStepView::Die(address_refusal(args, 0))
    } else if answers.len() < 1 {
        AddressStepView::Parse(questions[0])
    } else if questions.len() > 1 && answers.len() > 1 && answers[1] is None {
        AddressStepView::Die(address_refusal(args, 1))
    } else if questions.len() > 1 && answers.len() < 2 {
        AddressStepView::Parse(questions[1])
    } else {
        addresses_of(args, answers)
    }
}

/// What is to be done about the node's key.
#[derive(Debug)]
pub enum SecretStep {
    /// Find out which key a text writes out, if it does.
    Parse(String),
    /// Hash a text into a key.
    Hash(String),
    /// This is the key.
    Done(Option<Secret>),
}

/// The value of a [`SecretStep`].
pub enum SecretStepView {
    Parse(Seq<char>),
    Hash(Seq<char>),
    Done(Option<Secret>),
}

impl View for SecretStep {
    type V = SecretStepView;

    open spec fn view(&self) -> SecretStepView {
        match *self {
            SecretStep::Parse(s) => SecretStepView::Parse(s@),
            SecretStep::Hash(s) => SecretStepView::Hash(s@),
            SecretStep::Done(k) => SecretStepView::Done(k),
        }
    }
}

/// What is to be done about the node's key: a text that writes one out is that
/// key, and any other text is hashed into one.
pub open spec fn secret_step(
    args: ArgsView,
    parsed: Option<Option<Secret>>,
    hashed: Option<Secret>,
) -> SecretStepView {
    match args.flag_node_key {
        None => SecretStepView::Done(None),
        Some(text) => match (parsed, hashed) {
            (None, _) => SecretStepView::Parse(text),
            (Some(Some(key)), _) => SecretStepView::Done(Some(key)),
            (Some(None), None) => SecretStepView::Hash(text),
            (Some(None), Some(key)) => SecretStepView::Done(Some(key)),
        },
    }
}

/// The answers so far to what was asked about the network settings.
#[derive(Debug)]
pub struct NetAnswers {
    /// Whether the texts asked about are nodes.
    pub nodes: Vec<bool>,
    /// Which addresses the texts asked about are.
    pub addresses: Vec<Option<SocketAddr>>,
    /// Which key the text asked about writes out.
    pub secret: Option<Option<Secret>>,
    /// The key that the text asked about is hashed into.
    pub hash: Option<Secret>,
    /// The home directory.
    pub home: Option<String>,
}

/// The value of a [`NetAnswers`].
pub struct NetAnswersView {
    pub nodes: Seq<bool>,
    pub addresses: Seq<Option<SocketAddr>>,
    pub secret: Option<Option<Secret>>,
    pub hash: Option<Secret>,
    pub home: Option<Seq<char>>,
}

impl View for NetAnswers {
    type V = NetAnswersView;

    open spec fn view(&self) -> NetAnswersView {
        NetAnswersView {
            nodes: self.nodes@,
            addresses: self.addresses@,
            secret: self.secret,
            hash: self.hash,
            home: text_view(self.home),
        }
    }
}

/// No answer yet.
pub open spec fn no_answers() -> NetAnswersView {
    NetAnswersView {
        nodes: Seq::empty(),
        addresses: Seq::empty(),
        secret: None,
        hash: None,
        home: None,
    }
}

impl NetAnswers {
    /// No answer yet.
    pub fn new() -> (r: NetAnswers)
        ensures
            r@ == no_answers(),
    {
        let r = NetAnswers {
            nodes: Vec::new(),
            addresses: Vec::new(),
            secret: None,
            hash: None,
            home: None,
        };
        assert(r.nodes@ =~= Seq::<bool>::empty());
        assert(r.addresses@ =~= Seq::<Option<SocketAddr>>::empty());
        r
    }
}

/// What is to be done about the network settings.
#[derive(Debug)]
pub enum NetStep {
    /// Find out whether a text is a node; add the answer to `nodes`.
    CheckNode(String),
    /// Find out which address a text is; add the answer to `addresses`.
    ParseAddress(String),
    /// Find out which key a text writes out; put the answer into `secret`.
    ParseSecret(String),
    /// Hash a text into a key; put it into `hash`.
    HashSecret(String),
    /// Find out the home directory; put it into `home`.
    FindHome,
    /// These are the settings.
    Ready(NetworkConfiguration),
    /// Give up.
    Die(Fatal),
}

/// The value of a [`NetStep`].
pub enum NetStepView {
    CheckNode(Seq<char>),
    ParseAddress(Seq<char>),
    ParseSecret(Seq<char>),
    HashSecret(Seq<char>),
    FindHome,
    Ready(NetworkConfigurationView),
    Die(FatalView),
}

impl View for NetStep {
    type V = NetStepView;

    open spec fn view(&self) -> NetStepView {
        match *self {
            NetStep::CheckNode(s) => NetStepView::CheckNode(s@),
            NetStep::ParseAddress(s) => NetStepView::ParseAddress(s@),
            NetStep::ParseSecret(s) => NetStepView::ParseSecret(s@),
            NetStep::HashSecret(s) => NetStepView::HashSecret(s@),
            NetStep::FindHome => NetStepView::FindHome,
            NetStep::Ready(c) => NetStepView::Ready(c@),
            NetStep::Die(d) => NetStepView::Die(d@),
        }
    }
}

/// What is to be done about the network settings: first the nodes are settled,
/// then the addresses, then the key, then the home directory.
pub open spec fn net_step(
    args: ArgsView,
    chain_nodes: Seq<Seq<char>>,
    answers: NetAnswersView,
) -> NetStepView {
    match nodes_step(args, chain_nodes, answers.nodes) {
        NodesStepView::Check(s) => NetStepView::CheckNode(s),
        NodesStepView::Die(d) => NetStepView::Die(d),
        NodesStepView::Done(boot_nodes) => match address_step(args, answers.addresses) {
            AddressStepView::Parse(s) => NetStepView::ParseAddress(s),
            AddressStepView::Die(d) => NetStepView::Die(d),
            AddressStepView::Done(listen_address, public_address) => match secret_step(
                args,
                answers.secret,
                answers.hash,
            ) {
                SecretStepView::Parse(s) => NetStepView::ParseSecret(s),
                SecretStepView::Hash(s) => NetStepView::HashSecret(s),
                SecretStepView::Done(use_secret) => match answers.home {
                    None => NetStepView::FindHome,
                    Some(home) => NetStepView::Ready(
                        NetworkConfigurationView {
                            nat_enabled: args.flag_upnp,
                            boot_nodes,
                            listen_address,
                            public_address,
                            use_secret,
                            discovery_enabled: !args.flag_no_discovery,
                            ideal_peers: args.flag_peers,
                            config_path: Some(
                                joined(at_home(args.flag_db_path, home), "network"@),
                            ),
                        },
                    ),
                },
            },
        },
    }
}

/// A node to connect to first, where it is one.
pub open spec fn normalized(e: Seq<char>, is_valid: bool) -> Option<Seq<char>> {
    if is_valid {
        Some(e)
    } else {
        None
    }
}

impl Configuration {
    /// A node to connect to first, where it is one.
    pub fn normalize_enode(e: &str, is_valid: bool) -> (r: Option<String>)
        ensures
            text_view(r) == (if is_valid { Some(e@) } else { None }),
            text_view(r) == normalized(e@, is_valid),
    {
        match is_valid {
            true => Some(e.to_owned()),
            false => None,
        }
    }

    /// What to do about the nodes to connect to first.
    pub fn init_nodes(&self, chain_nodes: &Vec<String>, answers: &Vec<bool>) -> (r: NodesStep)
        ensures
            r@ == nodes_step(self.args@, chain_nodes.deep_view(), answers@),
    {
        if self.args.flag_no_bootstrap {
            let none: Vec<String> = Vec::new();
            assert(none.deep_view() =~= Seq::<Seq<char>>::empty());
            return NodesStep::Done(none);
        }
        let given = &self.args.arg_enode;
        if given.len() == 0 {
            return NodesStep::Done(clone_texts(chain_nodes));
        }
        let mut nodes: Vec<String> = Vec::new();
        let mut i: usize = 0;
        assert(answers@.skip(0) =~= answers@);
        while i < given.len()
            invariant
                !self.args@.flag_no_bootstrap,
                self.args@.arg_enode.len() > 0,
                *given == self.args.arg_enode,
                i <= given@.len(),
                i <= answers@.len(),
                accepted(answers@) == i + accepted(answers@.skip(i as int)),
                nodes.deep_view() =~= given.deep_view().take(i as int),
            decreases given@.len() - i,
        {
            if i == answers.len() {
                return NodesStep::Check(given[i].clone());
            }
            assert(answers@.skip(i as int).drop_first() =~= answers@.skip(i + 1));
            match Configuration::normalize_enode(given[i].as_str(), answers[i]) {
                Some(node) => {
                    let ghost before = nodes.deep_view();
                    nodes.push(node);
                    assert(nodes.deep_view() =~= before.push(given@[i as int]@));
                },
                None => {
                    return NodesStep::Die(Fatal::InvalidNode(given[i].clone()));
                },
            }
            i = i + 1;
        }
        assert(given.deep_view().take(i as int) =~= given.deep_view());
        NodesStep::Done(nodes)
    }

    /// What to do about the addresses.
    pub fn net_addresses(&self, answers: &Vec<Option<SocketAddr>>) -> (r: AddressStep)
        ensures
            r@ == address_step(self.args@, answers@),
    {
        let mut used: usize = 0;
        let mut listen_address: Option<SocketAddr> = None;
        let mut public_address: Option<SocketAddr> = None;
        if let Some(text) = &self.args.flag_address {
            if answers.len() == 0 {
                return AddressStep::Parse(text.clone());
            }
            public_address = answers[0];
            if public_address.is_none() {
                return AddressStep::Die(Fatal::InvalidAddress(text.clone()));
            }
            listen_address = public_address;
        }
        if listen_address.is_none() {
            if answers.len() == 0 {
                return AddressStep::Parse(self.args.flag_listen_address.clone());
            }
            listen_address = answers[0];
            if listen_address.is_none() {
                return AddressStep::Die(
                    Fatal::InvalidListenAddress(self.args.flag_listen_address.clone()),
                );
            }
            used = 1;
        }
        if let Some(text) = &self.args.flag_public_address {
            if public_address.is_some() {
                return AddressStep::Die(Fatal::ConflictingAddresses);
            }
            if answers.len() == used {
                return AddressStep::Parse(text.clone());
            }
            public_address = answers[used];
            if public_address.is_none() {
                return AddressStep::Die(Fatal::InvalidPublicAddress(text.clone()));
            }
        }
        AddressStep::Done(listen_address, public_address)
    }

    /// What to do about the node's key.
    pub fn node_secret(&self, parsed: Option<Option<Secret>>, hashed: Option<Secret>) -> (r:
        SecretStep)
        ensures
            r@ == secret_step(self.args@, parsed, hashed),
    {
        match &self.args.flag_node_key {
            None => SecretStep::Done(None),
            Some(text) => match parsed {
                None => SecretStep::Parse(text.clone()),
                Some(Some(key)) => SecretStep::Done(Some(key)),
                Some(None) => match hashed {
                    None => SecretStep::Hash(text.clone()),
                    Some(key) => SecretStep::Done(Some(key)),
                },
            },
        }
    }

    /// What to do about the network settings.
    pub fn net_settings(&self, chain_nodes: &Vec<String>, answers: &NetAnswers) -> (r: NetStep)
        ensures
            r@ == net_step(self.args@, chain_nodes.deep_view(), answers@),
    {
        let boot_nodes = match self.init_nodes(chain_nodes, &answers.nodes) {
            NodesStep::Check(text) => {
                return NetStep::CheckNode(text);
            },
            NodesStep::Die(fatal) => {
                return NetStep::Die(fatal);
            },
            NodesStep::Done(nodes) => nodes,
        };
        let (listen_address, public_address) = match self.net_addresses(&answers.addresses) {
            AddressStep::Parse(text) => {
                return NetStep::ParseAddress(text);
            },
            AddressStep::Die(fatal) => {
                return NetStep::Die(fatal);
            },
            AddressStep::Done(listen_address, public_address) => (listen_address, public_address),
        };
        let use_secret = match self.node_secret(answers.secret, answers.hash) {
            SecretStep::Parse(text) => {
                return NetStep::ParseSecret(text);
            },
            SecretStep::Hash(text) => {
                return NetStep::HashSecret(text);
            },
            SecretStep::Done(use_secret) => use_secret,
        };
        let home = match &answers.home {
            None => {
                return NetStep::FindHome;
            },
            Some(home) => home,
        };
        proof {
            reveal_strlit("network");
        }
        let config_path = join_path(self.path(home.as_str()).as_str(), "network");
        NetStep::Ready(
            NetworkConfiguration {
                nat_enabled: self.args.flag_upnp,
                boot_nodes,
                listen_address,
                public_address,
                use_secret,
                discovery_enabled: !self.args.flag_no_discovery,
                ideal_peers: self.args.flag_peers,
                config_path: Some(config_path),
            },
        )
    }
}

} // verus!
