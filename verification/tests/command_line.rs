use docopt::Docopt;
use parity::args::{Args, USAGE, USAGE_LINES};
use parity::configuration::{print_version, ChainSpec, Configuration, Execution, RpcStep};
use parity::fatal::{die_with_message, Fatal};
use parity::usage::{ArgValue, ArgValues};
use rustc_serialize::{Decodable, Decoder};

fn words(words: &[&str]) -> Vec<String> {
    words.iter().map(|w| w.to_string()).collect()
}

fn configure(given: &[&str]) -> Configuration {
    match Configuration::parse(&words(given)) {
        Ok(c) => c,
        Err(e) => panic!("{}", e.text),
    }
}

/// The same fields, read by docopt's own decoder.
struct Decoded(Args);

fn field<D: Decoder, T: Decodable>(d: &mut D, name: &str) -> Result<T, D::Error> {
    d.read_struct_field(name, 0, |d| Decodable::decode(d))
}

impl Decodable for Decoded {
    fn decode<D: Decoder>(d: &mut D) -> Result<Decoded, D::Error> {
        d.read_struct("Args", 20, |d| {
            Ok(Decoded(Args {
                cmd_daemon: field(d, "cmd_daemon")?,
                arg_pid_file: field(d, "arg_pid_file")?,
                arg_enode: field(d, "arg_enode")?,
                flag_chain: field(d, "flag_chain")?,
                flag_db_path: field(d, "flag_db_path")?,
                flag_keys_path: field(d, "flag_keys_path")?,
                flag_no_bootstrap: field(d, "flag_no_bootstrap")?,
                flag_listen_address: field(d, "flag_listen_address")?,
                flag_public_address: field(d, "flag_public_address")?,
                flag_address: field(d, "flag_address")?,
                flag_peers: field(d, "flag_peers")?,
                flag_no_discovery: field(d, "flag_no_discovery")?,
                flag_upnp: field(d, "flag_upnp")?,
                flag_node_key: field(d, "flag_node_key")?,
                flag_cache_pref_size: field(d, "flag_cache_pref_size")?,
                flag_cache_max_size: field(d, "flag_cache_max_size")?,
                flag_jsonrpc: field(d, "flag_jsonrpc")?,
                flag_jsonrpc_url: field(d, "flag_jsonrpc_url")?,
                flag_logging: field(d, "flag_logging")?,
                flag_version: field(d, "flag_version")?,
            }))
        })
    }
}

fn same_as_decoded(given: &[&str]) {
    let decoded: Result<Decoded, docopt::Error> =
        Docopt::new(USAGE).and_then(|d| d.argv(given.iter().cloned()).decode());
    match (Configuration::parse(&words(given)), decoded) {
        (Ok(c), Ok(d)) => assert_eq!(format!("{:?}", c.args), format!("{:?}", d.0)),
        (Err(e), Err(f)) => {
            assert_eq!(e.fatal, f.fatal());
            assert_eq!(e.text, f.to_string());
        }
        (Ok(c), Err(f)) => panic!("{:?} but {}", c.args, f),
        (Err(e), Ok(_)) => panic!("{}", e.text),
    }
}

#[test]
fn if_works() {
}

#[test]
fn defaults_are_those_of_the_usage_text() {
    let args = configure(&["parity"]).args;
    assert!(!args.cmd_daemon);
    assert_eq!(args.arg_pid_file, "");
    assert!(args.arg_enode.is_empty());
    assert_eq!(args.flag_chain, "frontier");
    assert_eq!(args.flag_db_path, "$HOME/.parity");
    assert_eq!(args.flag_keys_path, "$HOME/.web3/keys");
    assert!(!args.flag_no_bootstrap);
    assert_eq!(args.flag_listen_address, "0.0.0.0:30304");
    assert_eq!(args.flag_public_address, None);
    assert_eq!(args.flag_address, None);
    assert_eq!(args.flag_peers, 25);
    assert!(!args.flag_no_discovery);
    assert!(!args.flag_upnp);
    assert_eq!(args.flag_node_key, None);
    assert_eq!(args.flag_cache_pref_size, 16384);
    assert_eq!(args.flag_cache_max_size, 262144);
    assert!(!args.flag_jsonrpc);
    assert_eq!(args.flag_jsonrpc_url, "127.0.0.1:8545");
    assert_eq!(args.flag_logging, None);
    assert!(!args.flag_version);
}

#[test]
fn flags_are_read() {
    let args = configure(&[
        "parity", "daemon", "/run/parity.pid", "--chain", "morden", "-d", "/data", "--keys-path",
        "/keys", "--listen-address", "1.2.3.4:1", "--public-address", "5.6.7.8:2", "--peers", "7",
        "--no-discovery", "--upnp", "--node-key", "abc", "--cache-pref-size", "1",
        "--cache-max-size", "2", "-j", "--jsonrpc-url", "127.0.0.1:1", "-l", "debug", "-v",
        "enode://a", "enode://b",
    ])
    .args;
    assert!(args.cmd_daemon);
    assert_eq!(args.arg_pid_file, "/run/parity.pid");
    assert_eq!(args.arg_enode, words(&["enode://a", "enode://b"]));
    assert_eq!(args.flag_chain, "morden");
    assert_eq!(args.flag_db_path, "/data");
    assert_eq!(args.flag_keys_path, "/keys");
    assert_eq!(args.flag_listen_address, "1.2.3.4:1");
    assert_eq!(args.flag_public_address, Some("5.6.7.8:2".to_string()));
    assert_eq!(args.flag_peers, 7);
    assert!(args.flag_no_discovery && args.flag_upnp && args.flag_jsonrpc && args.flag_version);
    assert_eq!(args.flag_node_key, Some("abc".to_string()));
    assert_eq!(args.flag_cache_pref_size, 1);
    assert_eq!(args.flag_cache_max_size, 2);
    assert_eq!(args.flag_jsonrpc_url, "127.0.0.1:1");
    assert_eq!(args.flag_logging, Some("debug".to_string()));
}

#[test]
fn help_shows_the_usage_text() {
    match Configuration::parse(&words(&["parity", "--help"])) {
        Err(e) => {
            assert!(!e.fatal);
            assert_eq!(e.exit_code(), 0);
            assert_eq!(e.text, USAGE.trim());
            assert_eq!(e.text, USAGE[1..USAGE.len() - 1]);
        }
        Ok(_) => panic!("help was not shown"),
    }
}

#[test]
fn unknown_flag_is_refused() {
    match Configuration::parse(&words(&["parity", "--colour"])) {
        Err(e) => {
            assert!(e.fatal);
            assert_eq!(e.exit_code(), 1);
            assert_eq!(e.text, format!("Unknown flag: '--colour'\n\n{}", USAGE_LINES));
        }
        Ok(_) => panic!("the flag was taken"),
    }
}

/// What a refused command line is answered with, before the command lines.
fn complaint(line: &[&str]) -> String {
    match Configuration::parse(&words(line)) {
        Err(e) => {
            assert!(e.fatal);
            let behind = format!("\n\n{}", USAGE_LINES);
            assert!(e.text.ends_with(&behind));
            e.text[..e.text.len() - behind.len()].to_string()
        }
        Ok(_) => panic!("the command line was taken"),
    }
}

#[test]
fn closest_flag_is_suggested() {
    assert_eq!(
        complaint(&["parity", "--peerz"]),
        "Unknown flag: '--peerz'. Did you mean '--peers'?"
    );
    assert_eq!(
        complaint(&["parity", "--chian", "morden"]),
        "Unknown flag: '--chian'. Did you mean '--chain'?"
    );
    assert_eq!(complaint(&["parity", "-z"]), "Unknown flag: '-z'");
}

#[test]
fn arguments_of_flags_are_counted() {
    assert_eq!(
        complaint(&["parity", "--peers"]),
        "Expected argument for flag '--peers' but reached end of arguments."
    );
    assert_eq!(
        complaint(&["parity", "-l"]),
        "Expected argument for flag '--logging' but reached end of arguments."
    );
    assert_eq!(
        complaint(&["parity", "--upnp=x"]),
        "Flag '--upnp' cannot have an argument, but found 'x'."
    );
}

#[test]
fn nodes_and_no_bootstrap_exclude_each_other() {
    match Configuration::parse(&words(&["parity", "--no-bootstrap", "enode://a"])) {
        Err(e) => {
            assert!(e.fatal);
            assert_eq!(e.text, format!("Invalid arguments.\n\n{}", USAGE_LINES));
        }
        Ok(_) => panic!("both were taken"),
    }
    assert!(configure(&["parity", "--no-bootstrap"]).args.flag_no_bootstrap);
}

#[test]
fn bad_numbers_are_refused() {
    match Configuration::parse(&words(&["parity", "--peers", "many"])) {
        Err(e) => {
            assert!(e.fatal);
            assert_eq!(e.text, "Could not decode 'many' to u32 for '--peers'.");
        }
        Ok(_) => panic!("the number was taken"),
    }
    match Configuration::parse(&words(&["parity", "--cache-max-size", "1e3"])) {
        Err(e) => assert_eq!(e.text, "Could not decode '1e3' to usize for '--cache-max-size'."),
        Ok(_) => panic!("the number was taken"),
    }
}

#[test]
fn command_lines_are_read_as_docopt_decodes_them() {
    same_as_decoded(&["parity"]);
    same_as_decoded(&["parity", "--help"]);
    same_as_decoded(&["parity", "-h"]);
    same_as_decoded(&["parity", "--version"]);
    same_as_decoded(&["parity", "daemon"]);
    same_as_decoded(&["parity", "daemon", "x.pid"]);
    same_as_decoded(&["parity", "daemon", "x.pid", "enode://a"]);
    same_as_decoded(&["parity", "enode://a", "enode://b"]);
    same_as_decoded(&["parity", "--no-bootstrap"]);
    same_as_decoded(&["parity", "--no-bootstrap", "enode://a"]);
    same_as_decoded(&["parity", "--peers", ""]);
    same_as_decoded(&["parity", "--peers", "  "]);
    same_as_decoded(&["parity", "--peers", "\u{2003}"]);
    same_as_decoded(&["parity", "--peers", " 7"]);
    same_as_decoded(&["parity", "--peers", "+7"]);
    same_as_decoded(&["parity", "--peers", "+"]);
    same_as_decoded(&["parity", "--peers=-7"]);
    same_as_decoded(&["parity", "--peers", "007"]);
    same_as_decoded(&["parity", "--peers", "4294967295"]);
    same_as_decoded(&["parity", "--peers", "4294967296"]);
    same_as_decoded(&["parity", "--cache-pref-size", "18446744073709551615"]);
    same_as_decoded(&["parity", "--cache-pref-size", "18446744073709551616"]);
    same_as_decoded(&["parity", "--cache-pref-size", "x", "--peers", "y"]);
    same_as_decoded(&["parity", "--address", ""]);
    same_as_decoded(&["parity", "--address", "1.2.3.4:5", "--public-address=6.7.8.9:10"]);
    same_as_decoded(&["parity", "--node-key", "\u{e4}"]);
    same_as_decoded(&["parity", "-\u{e4}"]);
    same_as_decoded(&["parity", "--=x"]);
    same_as_decoded(&["parity", "-jlinfo"]);
    same_as_decoded(&["parity", "-j", "-j"]);
    same_as_decoded(&["parity", "--", "--peers"]);
    same_as_decoded(&[]);
}

#[test]
fn missing_values_are_named() {
    let none = ArgValues { entries: Vec::new() };
    match Args::decode(&none) {
        Err(e) => {
            assert!(e.fatal);
            assert_eq!(
                e.text,
                "Could not find argument 'daemon' (from struct field 'cmd_daemon').\nNote that \
                 each struct field must have the right key prefix, which must\nbe one of `cmd_`, \
                 `flag_` or `arg_`."
            );
        }
        Ok(_) => panic!("nothing was read as something"),
    }
}

#[test]
fn values_are_read_by_their_kind() {
    let values = ArgValues {
        entries: vec![
            ("a".to_string(), ArgValue::Plain(None)),
            ("a".to_string(), ArgValue::Plain(Some("x".to_string()))),
            ("b".to_string(), ArgValue::Counted(3)),
            ("c".to_string(), ArgValue::List(words(&["p", "q"]))),
            ("d".to_string(), ArgValue::Switch(true)),
        ],
    };
    assert_eq!(values.read_optional("a"), Some("x".to_string()));
    assert_eq!(values.read_list("a"), words(&["x"]));
    assert_eq!(values.read_list("c"), words(&["p", "q"]));
    assert!(values.read_list("none").is_empty());
    assert_eq!(values.read_optional("none"), None);
    assert_eq!(values.read_number("b", "f", "u32", 5).ok(), Some(3));
    assert_eq!(values.read_number("b", "f", "u32", 2).ok(), None);
    assert_eq!(values.read_number("d", "f", "u32", 2).ok(), Some(0));
    assert_eq!(values.read_bool("d", "f").ok(), Some(true));
    assert_eq!(values.read_text("d", "f").ok(), Some(String::new()));
    assert_eq!(values.read_bool("e", "f").ok(), None);
}

#[test]
fn home_is_put_into_paths() {
    let c = configure(&["parity"]);
    assert_eq!(c.path("/home/eve"), "/home/eve/.parity");
    assert_eq!(c._keys_path("/home/eve"), "/home/eve/.web3/keys");
    let c = configure(&["parity", "-d", "/data", "--keys-path", "$HOME/a/$HOME$HOM"]);
    assert_eq!(c.path("/home/eve"), "/data");
    assert_eq!(c._keys_path("/h"), "/h/a//h$HOM");
}

#[test]
fn chains_go_by_their_names() {
    let chain = |name: &str| configure(&["parity", "--chain", name]).spec();
    assert!(matches!(chain("frontier"), ChainSpec::Frontier));
    assert!(matches!(chain("mainnet"), ChainSpec::Frontier));
    assert!(matches!(chain("morden"), ChainSpec::Morden));
    assert!(matches!(chain("testnet"), ChainSpec::Morden));
    assert!(matches!(chain("olympic"), ChainSpec::Olympic));
    match chain("Frontier") {
        ChainSpec::File(name) => assert_eq!(name, "Frontier"),
        _ => panic!("the name was taken"),
    }
}

#[test]
fn version_comes_before_the_daemon() {
    let c = configure(&["parity", "daemon", "x.pid", "--version"]);
    assert!(matches!(c.execute(), Execution::PrintVersion));
    let c = configure(&["parity", "daemon", "x.pid"]);
    match c.execute() {
        Execution::Client { daemonize } => assert_eq!(daemonize, Some("x.pid".to_string())),
        Execution::PrintVersion => panic!("the version was not asked for"),
    }
    match configure(&["parity"]).execute() {
        Execution::Client { daemonize } => assert_eq!(daemonize, None),
        Execution::PrintVersion => panic!("the version was not asked for"),
    }
}

#[test]
fn client_is_run_with_what_was_given() {
    let c = configure(&[
        "parity", "-l", "trace", "--chain", "olympic", "--cache-pref-size", "10",
        "--cache-max-size", "20",
    ]);
    let plan = c.execute_client();
    assert_eq!(plan.logging, Some("trace".to_string()));
    assert!(matches!(plan.chain, ChainSpec::Olympic));
    assert_eq!(plan.cache_pref_size, 10);
    assert_eq!(plan.cache_max_size, 20);
}

#[test]
fn rpc_server_is_started_on_an_address() {
    let c = configure(&["parity"]);
    assert!(matches!(c.jsonrpc(None), RpcStep::Disabled));
    assert!(matches!(c.jsonrpc(Some(false)), RpcStep::Disabled));
    let c = configure(&["parity", "-j", "--jsonrpc-url", "here"]);
    match c.jsonrpc(None) {
        RpcStep::Parse(url) => assert_eq!(url, "here"),
        _ => panic!("the address was not asked about"),
    }
    match c.jsonrpc(Some(true)) {
        RpcStep::Start(url) => assert_eq!(url, "here"),
        _ => panic!("the server was not started"),
    }
    match c.jsonrpc(Some(false)) {
        RpcStep::Die(fatal) => assert_eq!(
            fatal.message(),
            "here: Invalid JSONRPC listen address given with --jsonrpc-url. Should be of the \
             form 'IP:port'."
        ),
        _ => panic!("the address was taken"),
    }
}

#[test]
fn messages_name_what_is_wrong() {
    let s = |s: &str| s.to_string();
    let said = [
        (
            Fatal::ChainFile(s("f")),
            "f: Couldn't read chain specification file. Sure it exists?",
        ),
        (Fatal::InvalidNode(s("n")), "n: Invalid node address format given for a boot node."),
        (Fatal::InvalidAddress(s("a")), "a: Invalid listen/public address given with --address"),
        (
            Fatal::InvalidListenAddress(s("a")),
            "a: Invalid listen/public address given with --listen-address",
        ),
        (
            Fatal::InvalidPublicAddress(s("a")),
            "a: Invalid listen/public address given with --public-address",
        ),
        (
            Fatal::ConflictingAddresses,
            "Conflicting flags provided: --address and --public-address",
        ),
        (Fatal::Daemonize(s("no")), "Couldn't daemonize; no"),
    ];
    for (fatal, text) in said.iter() {
        assert_eq!(fatal.message(), *text);
        assert_eq!(fatal.line(), format!("ERROR: {}", text));
    }
    assert_eq!(die_with_message("x"), "ERROR: x");
}

#[test]
fn version_is_shown_with_the_licence() {
    assert_eq!(
        print_version("1.0"),
        "Parity\n  version 1.0\nCopyright 2015, 2016 Ethcore (UK) Limited\nLicense GPLv3+: GNU \
         GPL version 3 or later <http://gnu.org/licenses/gpl.html>.\nThis is free software: you \
         are free to change and redistribute it.\nThere is NO WARRANTY, to the extent permitted \
         by law.\n\nBy Wood/Paronyan/Kotewicz/Drwi\u{119}ga/Volf."
    );
}
