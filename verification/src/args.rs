//! The command line of the full client.

use vstd::prelude::*;

use crate::usage::{
    agree, answers_refusal, first_of, list_under, match_outcome, match_values, number_fault,
    optional_text, presence_fault, text_view, ArgValues, ArgView, Refusal, UsageError,
};

verus! {

/// The usage text, by which command lines are read.
pub const USAGE: &'static str = "
Parity. Ethereum Client.
  By Wood/Paronyan/Kotewicz/Drwięga/Volf.
  Copyright 2015, 2016 Ethcore (UK) Limited

Usage:
  parity daemon <pid-file> [options] [ --no-bootstrap | <enode>... ]
  parity [options] [ --no-bootstrap | <enode>... ]

Options:
  --chain CHAIN            Specify the blockchain type. CHAIN may be either a JSON chain specification file
                           or frontier, mainnet, morden, or testnet [default: frontier].
  -d --db-path PATH        Specify the database & configuration directory path [default: $HOME/.parity]
  --keys-path PATH         Specify the path for JSON key files to be found [default: $HOME/.web3/keys]

  --no-bootstrap           Don't bother trying to connect to any nodes initially.
  --listen-address URL     Specify the IP/port on which to listen for peers [default: 0.0.0.0:30304].
  --public-address URL     Specify the IP/port on which peers may connect.
  --address URL            Equivalent to --listen-address URL --public-address URL.
  --peers NUM  	           Try to manintain that many peers [default: 25].
  --no-discovery   	       Disable new peer discovery.
  --upnp                   Use UPnP to try to figure out the correct network settings.
  --node-key KEY           Specify node secret key, either as 64-character hex string or input to SHA3 operation.

  --cache-pref-size BYTES  Specify the prefered size of the blockchain cache in bytes [default: 16384].
  --cache-max-size BYTES   Specify the maximum size of the blockchain cache in bytes [default: 262144].

  -j --jsonrpc             Enable the JSON-RPC API sever.
  --jsonrpc-url URL        Specify URL for JSON-RPC API server [default: 127.0.0.1:8545].

  -l --logging LOGGING     Specify the logging level.
  -v --version             Show information about version.
  -h --help                Show this screen.
";

/// The part of the usage text that shows the command lines.
pub const USAGE_LINES: &'static str = "Usage:
  parity daemon <pid-file> [options] [ --no-bootstrap | <enode>... ]
  parity [options] [ --no-bootstrap | <enode>... ]";

/// What a command line asks for.
#[derive(Debug)]
pub struct Args {
    /// Whether to run in the background.
    pub cmd_daemon: bool,
    /// Where the background process leaves its number.
    pub arg_pid_file: String,
    /// The nodes to connect to first.
    pub arg_enode: Vec<String>,
    /// The chain: a name, or a file that describes one.
    pub flag_chain: String,
    /// The directory of the database and the configuration.
    pub flag_db_path: String,
    /// The directory of the key files.
    pub flag_keys_path: String,
    /// Whether to connect to no node at first.
    pub flag_no_bootstrap: bool,
    /// The address to listen on for peers.
    pub flag_listen_address: String,
    /// The address that peers may connect to.
    pub flag_public_address: Option<String>,
    /// The address for both.
    pub flag_address: Option<String>,
    /// How many peers to try to keep.
    pub flag_peers: u32,
    /// Whether to look for no new peers.
    pub flag_no_discovery: bool,
    /// Whether to find the network settings by UPnP.
    pub flag_upnp: bool,
    /// The node's secret key, or what it is hashed from.
    pub flag_node_key: Option<String>,
    /// The preferred size of the blockchain cache, in bytes.
    pub flag_cache_pref_size: usize,
    /// The greatest size of the blockchain cache, in bytes.
    pub flag_cache_max_size: usize,
    /// Whether to serve the JSON-RPC interface.
    pub flag_jsonrpc: bool,
    /// The address to serve it on.
    pub flag_jsonrpc_url: String,
    /// The logging directives.
    pub flag_logging: Option<String>,
    /// Whether to show the version.
    pub flag_version: bool,
}

/// The value of an [`Args`].
pub struct ArgsView {
    pub cmd_daemon: bool,
    pub arg_pid_file: Seq<char>,
    pub arg_enode: Seq<Seq<char>>,
    pub flag_chain: Seq<char>,
    pub flag_db_path: Seq<char>,
    pub flag_keys_path: Seq<char>,
    pub flag_no_bootstrap: bool,
    pub flag_listen_address: Seq<char>,
    pub flag_public_address: Option<Seq<char>>,
    pub flag_address: Option<Seq<char>>,
    pub flag_peers: nat,
    pub flag_no_discovery: bool,
    pub flag_upnp: bool,
    pub flag_node_key: Option<Seq<char>>,
    pub flag_cache_pref_size: nat,
    pub flag_cache_max_size: nat,
    pub flag_jsonrpc: bool,
    pub flag_jsonrpc_url: Seq<char>,
    pub flag_logging: Option<Seq<char>>,
    pub flag_version: bool,
}

impl View for Args {
    type V = ArgsView;

    open spec fn view(&self) -> ArgsView {
        ArgsView {
            cmd_daemon: self.cmd_daemon,
            arg_pid_file: self.arg_pid_file@,
            arg_enode: self.arg_enode.deep_view(),
            flag_chain: self.flag_chain@,
            flag_db_path: self.flag_db_path@,
            flag_keys_path: self.flag_keys_path@,
            flag_no_bootstrap: self.flag_no_bootstrap,
            flag_listen_address: self.flag_listen_address@,
            flag_public_address: text_view(self.flag_public_address),
            flag_address: text_view(self.flag_address),
            flag_peers: self.flag_peers as nat,
            flag_no_discovery: self.flag_no_discovery,
            flag_upnp: self.flag_upnp,
            flag_node_key: text_view(self.flag_node_key),
            flag_cache_pref_size: self.flag_cache_pref_size as nat,
            flag_cache_max_size: self.flag_cache_max_size as nat,
            flag_jsonrpc: self.flag_jsonrpc,
            flag_jsonrpc_url: self.flag_jsonrpc_url@,
            flag_logging: text_view(self.flag_logging),
            flag_version: self.flag_version,
        }
    }
}

/// What values ask for, where none of them is at fault.
pub open spec fn args_of(values: Map<Seq<char>, ArgView>) -> ArgsView {
    ArgsView {
        cmd_daemon: values["daemon"@].flag(),
        arg_pid_file: values["<pid-file>"@].text(),
        arg_enode: list_under(values, "<enode>"@),
        flag_chain: values["--chain"@].text(),
        flag_db_path: values["--db-path"@].text(),
        flag_keys_path: values["--keys-path"@].text(),
        flag_no_bootstrap: values["--no-bootstrap"@].flag(),
        flag_listen_address: values["--listen-address"@].text(),
        flag_public_address: optional_text(values, "--public-address"@),
        flag_address: optional_text(values, "--address"@),
        flag_peers: values["--peers"@].number(u32::MAX as nat).unwrap(),
        flag_no_discovery: values["--no-discovery"@].flag(),
        flag_upnp: values["--upnp"@].flag(),
        flag_node_key: optional_text(values, "--node-key"@),
        flag_cache_pref_size: values["--cache-pref-size"@].number(usize::MAX as nat).unwrap(),
        flag_cache_max_size: values["--cache-max-size"@].number(usize::MAX as nat).unwrap(),
        flag_jsonrpc: values["--jsonrpc"@].flag(),
        flag_jsonrpc_url: values["--jsonrpc-url"@].text(),
        flag_logging: optional_text(values, "--logging"@),
        flag_version: values["--version"@].flag(),
    }
}

/// The first complaint about values, in the order of the fields. A list, or a text
/// that may be missing, gives none.
pub open spec fn args_fault(values: Map<Seq<char>, ArgView>) -> Option<Seq<char>> {
    let fault = presence_fault(values, "daemon"@, "cmd_daemon"@);
    let fault = first_of(fault, presence_fault(values, "<pid-file>"@, "arg_pid_file"@));
    let fault = first_of(fault, presence_fault(values, "--chain"@, "flag_chain"@));
    let fault = first_of(fault, presence_fault(values, "--db-path"@, "flag_db_path"@));
    let fault = first_of(fault, presence_fault(values, "--keys-path"@, "flag_keys_path"@));
    let fault = first_of(fault, presence_fault(values, "--no-bootstrap"@, "flag_no_bootstrap"@));
    let fault = first_of(
        fault,
        presence_fault(
            values,
            "--listen-address"@,
            "flag_listen_address"@,
        ),
    );
    let fault = first_of(
        fault,
        number_fault(
            values,
            "--peers"@,
            "flag_peers"@,
            "u32"@,
            u32::MAX as nat,
        ),
    );
    let fault = first_of(fault, presence_fault(values, "--no-discovery"@, "flag_no_discovery"@));
    let fault = first_of(fault, presence_fault(values, "--upnp"@, "flag_upnp"@));
    let fault = first_of(
        fault,
        number_fault(
            values,
            "--cache-pref-size"@,
            "flag_cache_pref_size"@,
            "usize"@,
            usize::MAX as nat,
        ),
    );
    let fault = first_of(
        fault,
        number_fault(
            values,
            "--cache-max-size"@,
            "flag_cache_max_size"@,
            "usize"@,
            usize::MAX as nat,
        ),
    );
    let fault = first_of(fault, presence_fault(values, "--jsonrpc"@, "flag_jsonrpc"@));
    let fault = first_of(fault, presence_fault(values, "--jsonrpc-url"@, "flag_jsonrpc_url"@));
    let fault = first_of(fault, presence_fault(values, "--version"@, "flag_version"@));
    fault
}

/// The keys that the fields are read from.
fn keys() -> (r: Vec<&'static str>)
    ensures
        r@.len() == 20,
        r@[0]@ == "daemon"@,
        r@[1]@ == "<pid-file>"@,
        r@[2]@ == "<enode>"@,
        r@[3]@ == "--chain"@,
        r@[4]@ == "--db-path"@,
        r@[5]@ == "--keys-path"@,
        r@[6]@ == "--no-bootstrap"@,
        r@[7]@ == "--listen-address"@,
        r@[8]@ == "--public-address"@,
        r@[9]@ == "--address"@,
        r@[10]@ == "--peers"@,
        r@[11]@ == "--no-discovery"@,
        r@[12]@ == "--upnp"@,
        r@[13]@ == "--node-key"@,
        r@[14]@ == "--cache-pref-size"@,
        r@[15]@ == "--cache-max-size"@,
        r@[16]@ == "--jsonrpc"@,
        r@[17]@ == "--jsonrpc-url"@,
        r@[18]@ == "--logging"@,
        r@[19]@ == "--version"@,
{
    vec![
        "daemon",
        "<pid-file>",
        "<enode>",
        "--chain",
        "--db-path",
        "--keys-path",
        "--no-bootstrap",
        "--listen-address",
        "--public-address",
        "--address",
        "--peers",
        "--no-discovery",
        "--upnp",
        "--node-key",
        "--cache-pref-size",
        "--cache-max-size",
        "--jsonrpc",
        "--jsonrpc-url",
        "--logging",
        "--version",
    ]
}

impl Args {
    /// Reads values into fields.
    pub fn decode(values: &ArgValues) -> (r: Result<Args, UsageError>)
        ensures
            match r {
                Ok(args) => args_fault(values@) is None && args@ == args_of(values@),
                Err(e) => e.fatal && args_fault(values@) == Some(e.text@),
            },
    {
        let cmd_daemon = values.read_bool("daemon", "cmd_daemon")?;
        let arg_pid_file = values.read_text("<pid-file>", "arg_pid_file")?;
        let arg_enode = values.read_list("<enode>");
        let flag_chain = values.read_text("--chain", "flag_chain")?;
        let flag_db_path = values.read_text("--db-path", "flag_db_path")?;
        let flag_keys_path = values.read_text("--keys-path", "flag_keys_path")?;
        let flag_no_bootstrap = values.read_bool("--no-bootstrap", "flag_no_bootstrap")?;
        let flag_listen_address = values.read_text("--listen-address", "flag_listen_address")?;
        let flag_public_address = values.read_optional("--public-address");
        let flag_address = values.read_optional("--address");
        let flag_peers: u32 = values.read_number(
            "--peers",
            "flag_peers",
            "u32",
            u32::MAX as u64,
        )? as u32;
        let flag_no_discovery = values.read_bool("--no-discovery", "flag_no_discovery")?;
        let flag_upnp = values.read_bool("--upnp", "flag_upnp")?;
        let flag_node_key = values.read_optional("--node-key");
        let flag_cache_pref_size: usize = values.read_number(
            "--cache-pref-size",
            "flag_cache_pref_size",
            "usize",
            usize::MAX as u64,
        )? as usize;
        let flag_cache_max_size: usize = values.read_number(
            "--cache-max-size",
            "flag_cache_max_size",
            "usize",
            usize::MAX as u64,
        )? as usize;
        let flag_jsonrpc = values.read_bool("--jsonrpc", "flag_jsonrpc")?;
        let flag_jsonrpc_url = values.read_text("--jsonrpc-url", "flag_jsonrpc_url")?;
        let flag_logging = values.read_optional("--logging");
        let flag_version = values.read_bool("--version", "flag_version")?;
        Ok(Args {
            cmd_daemon,
            arg_pid_file,
            arg_enode,
            flag_chain,
            flag_db_path,
            flag_keys_path,
            flag_no_bootstrap,
            flag_listen_address,
            flag_public_address,
            flag_address,
            flag_peers,
            flag_no_discovery,
            flag_upnp,
            flag_node_key,
            flag_cache_pref_size,
            flag_cache_max_size,
            flag_jsonrpc,
            flag_jsonrpc_url,
            flag_logging,
            flag_version,
        })
    }

    /// Reads a command line, whose first word is the program's name.
    pub fn parse(argv: &Vec<String>) -> (r: Result<Args, UsageError>)
        ensures
            parses_to(match_outcome(USAGE@, argv.deep_view()), r),
    {
        let keys = keys();
        let values = match_values(USAGE, argv, &keys)?;
        proof {
            let found = match_outcome(USAGE@, argv.deep_view())->Ok_0;
            assert(agree(values@, found, keys@[0]@));
            assert(agree(values@, found, keys@[1]@));
            assert(agree(values@, found, keys@[2]@));
            assert(agree(values@, found, keys@[3]@));
            assert(agree(values@, found, keys@[4]@));
            assert(agree(values@, found, keys@[5]@));
            assert(agree(values@, found, keys@[6]@));
            assert(agree(values@, found, keys@[7]@));
            assert(agree(values@, found, keys@[8]@));
            assert(agree(values@, found, keys@[9]@));
            assert(agree(values@, found, keys@[10]@));
            assert(agree(values@, found, keys@[11]@));
            assert(agree(values@, found, keys@[12]@));
            assert(agree(values@, found, keys@[13]@));
            assert(agree(values@, found, keys@[14]@));
            assert(agree(values@, found, keys@[15]@));
            assert(agree(values@, found, keys@[16]@));
            assert(agree(values@, found, keys@[17]@));
            assert(agree(values@, found, keys@[18]@));
            assert(agree(values@, found, keys@[19]@));
        }
        Args::decode(&values)
    }
}

/// What comes of a command line after it has been matched: help or a refusal
/// where it does not match, a refusal where a value is at fault, and otherwise
/// what it asks for.
pub open spec fn parses_to(
    outcome: Result<Map<Seq<char>, ArgView>, Refusal>,
    r: Result<Args, UsageError>,
) -> bool {
    match (outcome, r) {
        (Err(refusal), Err(e)) => e.fatal == !(refusal is Help) && answers_refusal(
            USAGE@,
            refusal,
            e.text@,
        ),
        (Ok(values), Err(e)) => e.fatal && args_fault(values) == Some(e.text@),
        (Ok(values), Ok(args)) => args_fault(values) is None && args@ == args_of(values),
        (Err(_), Ok(_)) => false,
    }
}

} // verus!
