//! What the full client does with its command line.

use vstd::prelude::*;

use crate::args::{parses_to, Args, ArgsView, USAGE};
use crate::fatal::{Fatal, FatalView};
use crate::text::{lemma_replaced_at_start, lemma_replaced_without_match, occurs};
use crate::text::{replace_text, replaced, same_text};
use crate::usage::{match_outcome, text_view, UsageError};

verus! {

/// The full client's command line.
#[derive(Debug)]
pub struct Configuration {
    pub args: Args,
}

/// The chain to follow.
#[derive(Debug)]
pub enum ChainSpec {
    /// The main chain.
    Frontier,
    /// The test chain.
    Morden,
    /// The chain from before the main one.
    Olympic,
    /// The chain that a file describes.
    File(String),
}

/// The value of a [`ChainSpec`].
pub enum ChainSpecView {
    Frontier,
    Morden,
    Olympic,
    File(Seq<char>),
}

impl View for ChainSpec {
    type V = ChainSpecView;

    open spec fn view(&self) -> ChainSpecView {
        match *self {
            ChainSpec::Frontier => ChainSpecView::Frontier,
            ChainSpec::Morden => ChainSpecView::Morden,
            ChainSpec::Olympic => ChainSpecView::Olympic,
            ChainSpec::File(s) => ChainSpecView::File(s@),
        }
    }
}

/// The chain that a name stands for; what is not a name is a file.
pub open spec fn chain_of(name: Seq<char>) -> ChainSpecView {
    if name == "frontier"@ || name == "mainnet"@ {
        ChainSpecView::Frontier
    } else if name == "morden"@ || name == "testnet"@ {
        ChainSpecView::Morden
    } else if name == "olympic"@ {
        ChainSpecView::Olympic
    } else {
        ChainSpecView::File(name)
    }
}

/// A path with the home directory in each place where `$HOME` stands.
pub open spec fn at_home(path: Seq<char>, home: Seq<char>) -> Seq<char> {
    replaced(path, "$HOME"@, home)
}

/// Puts the home directory into a path.
fn put_home(path: &str, home: &str) -> (r: String)
    ensures
        r@ == at_home(path@, home@),
{
    proof {
        reveal_strlit("$HOME");
    }
    replace_text(path, "$HOME", home)
}

/// What the client is to do.
#[derive(Debug)]
pub enum Execution {
    /// Show the version, and nothing else.
    PrintVersion,
    /// Run, after going into the background and leaving the process number in a
    /// file where one is given.
    Client { daemonize: Option<String> },
}

/// The value of an [`Execution`].
pub enum ExecutionView {
    PrintVersion,
    Client { daemonize: Option<Seq<char>> },
}

impl View for Execution {
    type V = ExecutionView;

    open spec fn view(&self) -> ExecutionView {
        match *self {
            Execution::PrintVersion => ExecutionView::PrintVersion,
            Execution::Client { daemonize } => ExecutionView::Client {
                daemonize: text_view(daemonize),
            },
        }
    }
}

/// What a command line has the client do: the version comes before everything else.
pub open spec fn execution_of(args: ArgsView) -> ExecutionView {
    if args.flag_version {
        ExecutionView::PrintVersion
    } else if args.cmd_daemon {
        ExecutionView::Client { daemonize: Some(args.arg_pid_file) }
    } else {
        ExecutionView::Client { daemonize: None }
    }
}

/// What the client is run with.
#[derive(Debug)]
pub struct ClientPlan {
    /// The directives for the logger.
    pub logging: Option<String>,
    /// The chain to follow.
    pub chain: ChainSpec,
    /// The preferred size of the blockchain cache, in bytes.
    pub cache_pref_size: usize,
    /// The greatest size of the blockchain cache, in bytes.
    pub cache_max_size: usize,
}

/// The value of a [`ClientPlan`].
pub struct ClientPlanView {
    pub logging: Option<Seq<char>>,
    pub chain: ChainSpecView,
    pub cache_pref_size: nat,
    pub cache_max_size: nat,
}

impl View for ClientPlan {
    type V = ClientPlanView;

    open spec fn view(&self) -> ClientPlanView {
        ClientPlanView {
            logging: text_view(self.logging),
            chain: self.chain@,
            cache_pref_size: self.cache_pref_size as nat,
            cache_max_size: self.cache_max_size as nat,
        }
    }
}

/// What a command line has the client run with.
pub open spec fn plan_of(args: ArgsView) -> ClientPlanView {
    ClientPlanView {
        logging: args.flag_logging,
        chain: chain_of(args.flag_chain),
        cache_pref_size: args.flag_cache_pref_size,
        cache_max_size: args.flag_cache_max_size,
    }
}

/// The directory of the database and the configuration that a command line leads to.
pub open spec fn db_dir(args: ArgsView, home: Seq<char>) -> Seq<char> {
    at_home(args.flag_db_path, home)
}

/// The directory of the key files that a command line leads to.
pub open spec fn keys_dir(args: ArgsView, home: Seq<char>) -> Seq<char> {
    at_home(args.flag_keys_path, home)
}

/// What is to be done about the JSON-RPC server.
#[derive(Debug)]
pub enum RpcStep {
    /// There is none.
    Disabled,
    /// Find out whether a text is an address.
    Parse(String),
    /// Serve on an address.
    Start(String),
    /// Give up.
    Die(Fatal),
}

/// The value of an [`RpcStep`].
pub enum RpcStepView {
    Disabled,
    Parse(Seq<char>),
    Start(Seq<char>),
    Die(FatalView),
}

impl View for RpcStep {
    type V = RpcStepView;

    open spec fn view(&self) -> RpcStepView {
        match *self {
            RpcStep::Disabled => RpcStepView::Disabled,
            RpcStep::Parse(s) => RpcStepView::Parse(s@),
            RpcStep::Start(s) => RpcStepView::Start(s@),
            RpcStep::Die(d) => RpcStepView::Die(d@),
        }
    }
}

/// What is to be done about the JSON-RPC server, once it is known, or not yet,
/// whether its address is one.
pub open spec fn rpc_step(enabled: bool, url: Seq<char>, is_address: Option<bool>) -> RpcStepView {
    if !enabled {
        RpcStepView::Disabled
    } else {
        match is_address {
            None => RpcStepView::Parse(url),
            Some(true) => RpcStepView::Start(url),
            Some(false) => RpcStepView::Die(FatalView::InvalidJsonrpcUrl(url)),
        }
    }
}

impl Configuration {
    /// Reads a command line, whose first word is the program's name.
    pub fn parse(argv: &Vec<String>) -> (r: Result<Configuration, UsageError>)
        ensures
            parses_to(
                match_outcome(USAGE@, argv.deep_view()),
                (match r {
                    Ok(c) => Ok(c.args),
                    Err(e) => Err(e),
                }),
            ),
    {
        match Args::parse(argv) {
            Ok(args) => Ok(Configuration { args }),
            Err(e) => Err(e),
        }
    }

    /// The directory of the database and the configuration.
    pub fn path(&self, home: &str) -> (r: String)
        ensures
            r@ == at_home(self.args@.flag_db_path, home@),
            r@ == db_dir(self.args@, home@),
    {
        put_home(self.args.flag_db_path.as_str(), home)
    }

    /// The directory of the key files.
    pub fn _keys_path(&self, home: &str) -> (r: String)
        ensures
            r@ == at_home(self.args@.flag_keys_path, home@),
            r@ == keys_dir(self.args@, home@),
    {
        put_home(self.args.flag_keys_path.as_str(), home)
    }

    /// The chain to follow.
    pub fn spec(&self) -> (r: ChainSpec)
        ensures
            r@ == chain_of(self.args@.flag_chain),
    {
        let name = self.args.flag_chain.as_str();
        if same_text(name, "frontier") || same_text(name, "mainnet") {
            ChainSpec::Frontier
        } else if same_text(name, "morden") || same_text(name, "testnet") {
            ChainSpec::Morden
        } else if same_text(name, "olympic") {
            ChainSpec::Olympic
        } else {
            ChainSpec::File(self.args.flag_chain.clone())
        }
    }

    /// What to do: the version comes before everything else.
    pub fn execute(&self) -> (r: Execution)
        ensures
            r@ == execution_of(self.args@),
            match r {
                Execution::PrintVersion => self.args@.flag_version,
                Execution::Client { daemonize } => !self.args@.flag_version && text_view(daemonize)
                    == (if self.args@.cmd_daemon {
                    Some(self.args@.arg_pid_file)
                } else {
                    None
                }),
            },
    {
        if self.args.flag_version {
            return Execution::PrintVersion;
        }
        if self.args.cmd_daemon {
            Execution::Client { daemonize: Some(self.args.arg_pid_file.clone()) }
        } else {
            Execution::Client { daemonize: None }
        }
    }

    /// What to run the client with.
    pub fn execute_client(&self) -> (r: ClientPlan)
        ensures
            r@ == plan_of(self.args@),
            text_view(r.logging) == self.args@.flag_logging,
            r.chain@ == chain_of(self.args@.flag_chain),
            r.cache_pref_size == self.args.flag_cache_pref_size,
            r.cache_max_size == self.args.flag_cache_max_size,
    {
        ClientPlan {
            logging: clone_optional(&self.args.flag_logging),
            chain: self.spec(),
            cache_pref_size: self.args.flag_cache_pref_size,
            cache_max_size: self.args.flag_cache_max_size,
        }
    }

    /// What to do about the JSON-RPC server. `is_address` says whether the text
    /// that was asked about is an address, once that is known.
    pub fn jsonrpc(&self, is_address: Option<bool>) -> (r: RpcStep)
        ensures
            r@ == rpc_step(self.args@.flag_jsonrpc, self.args@.flag_jsonrpc_url, is_address),
    {
        if !self.args.flag_jsonrpc {
            return RpcStep::Disabled;
        }
        let url = self.args.flag_jsonrpc_url.clone();
        match is_address {
            None => RpcStep::Parse(url),
            Some(true) => RpcStep::Start(url),
            Some(false) => RpcStep::Die(Fatal::InvalidJsonrpcUrl(url)),
        }
    }
}

/// A copy of an optional text.
pub fn clone_optional(s: &Option<String>) -> (r: Option<String>)
    ensures
        text_view(r) == text_view(*s),
{
    match s {
        Some(s) => Some(s.clone()),
        None => None,
    }
}

/// What the version is shown as.
pub open spec fn version_lines(version: Seq<char>) -> Seq<char> {
    "Parity
  version "@ + version
        + "
Copyright 2015, 2016 Ethcore (UK) Limited
License GPLv3+: GNU GPL version 3 or later <http://gnu.org/licenses/gpl.html>.
This is free software: you are free to change and redistribute it.
There is NO WARRANTY, to the extent permitted by law.

By Wood/Paronyan/Kotewicz/Drwięga/Volf."@
}

/// Writes what the version is shown as.
pub fn print_version(version: &str) -> (r: String)
    ensures
        r@ == version_lines(version@),
{
    let mut text = "Parity
  version ".to_owned();
    text.append(version);
    text.append(
        "
Copyright 2015, 2016 Ethcore (UK) Limited
License GPLv3+: GNU GPL version 3 or later <http://gnu.org/licenses/gpl.html>.
This is free software: you are free to change and redistribute it.
There is NO WARRANTY, to the extent permitted by law.

By Wood/Paronyan/Kotewicz/Drwięga/Volf.",
    );
    text
}

/// A path that does not name the home directory is taken as it is.
pub proof fn lemma_path_without_home(path: Seq<char>, home: Seq<char>)
    requires
        !occurs(path, "$HOME"@),
    ensures
        at_home(path, home) == path,
{
    reveal_strlit("$HOME");
    lemma_replaced_without_match(path, "$HOME"@, home);
}

/// A path that starts at the home directory, and does not name it again, leads
/// from there.
pub proof fn lemma_path_from_home(rest: Seq<char>, home: Seq<char>)
    requires
        !occurs(rest, "$HOME"@),
    ensures
        at_home("$HOME"@ + rest, home) == home + rest,
{
    reveal_strlit("$HOME");
    lemma_replaced_at_start("$HOME"@, rest, home);
    lemma_replaced_without_match(rest, "$HOME"@, home);
}

/// The main chain and the test chain go by two names each, and those two, the
/// chain from before the main one and the files are told apart.
pub proof fn lemma_chain_names(name: Seq<char>)
    ensures
        chain_of("frontier"@) == chain_of("mainnet"@),
        chain_of("morden"@) == chain_of("testnet"@),
        chain_of("frontier"@) is Frontier,
        chain_of("morden"@) is Morden,
        chain_of("olympic"@) is Olympic,
        chain_of(name) is File <==> name != "frontier"@ && name != "mainnet"@ && name != "morden"@
            && name != "testnet"@ && name != "olympic"@,
        chain_of(name) is File ==> chain_of(name) == ChainSpecView::File(name),
{
    reveal_strlit("frontier");
    reveal_strlit("mainnet");
    reveal_strlit("morden");
    reveal_strlit("testnet");
    reveal_strlit("olympic");
    assert("morden"@[0] != "frontier"@[0] && "morden"@[1] != "mainnet"@[1]);
    assert("olympic"@[0] != "frontier"@[0] && "olympic"@[0] != "mainnet"@[0]);
    assert("olympic"@[0] != "morden"@[0] && "olympic"@[0] != "testnet"@[0]);
}

/// The server is started only where it was asked for and its address is one; an
/// address that is none is refused only where the server was asked for.
pub proof fn lemma_rpc_started_on_an_address(enabled: bool, url: Seq<char>, is_address: bool)
    ensures
        rpc_step(enabled, url, Some(is_address)) is Start <==> enabled && is_address,
        rpc_step(enabled, url, Some(is_address)) is Die <==> enabled && !is_address,
        rpc_step(enabled, url, Some(is_address)) is Start ==> rpc_step(
            enabled,
            url,
            Some(is_address),
        ) == RpcStepView::Start(url),
        rpc_step(enabled, url, None) is Parse <==> enabled,
{
}

} // verus!
