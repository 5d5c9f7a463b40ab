use parity::configuration::Configuration;
use parity::fatal::Fatal;
use parity::network::{
    AddressStep, NetAnswers, NetStep, NetworkConfiguration, NodesStep, Secret, SecretStep,
    SocketAddr,
};

fn words(words: &[&str]) -> Vec<String> {
    words.iter().map(|w| w.to_string()).collect()
}

fn configure(given: &[&str]) -> Configuration {
    let mut argv = vec!["parity"];
    argv.extend_from_slice(given);
    match Configuration::parse(&words(&argv)) {
        Ok(c) => c,
        Err(e) => panic!("{}", e.text),
    }
}

fn address(s: &str) -> Option<SocketAddr> {
    match s {
        "0.0.0.0:30304" => Some(SocketAddr::V4([0, 0, 0, 0], 30304)),
        "1.2.3.4:5" => Some(SocketAddr::V4([1, 2, 3, 4], 5)),
        "[::1]:6" => Some(SocketAddr::V6([0, 0, 0, 0, 0, 0, 0, 1], 6, 0, 0)),
        _ => None,
    }
}

fn exchange(c: &Configuration, chain_nodes: &[&str]) -> (Result<NetworkConfiguration, Fatal>, usize) {
    let chain_nodes = words(chain_nodes);
    let mut answers = NetAnswers::new();
    let mut questions: usize = 0;
    loop {
        match c.net_settings(&chain_nodes, &answers) {
            NetStep::CheckNode(s) => answers.nodes.push(s.starts_with("enode://")),
            NetStep::ParseAddress(s) => answers.addresses.push(address(&s)),
            NetStep::ParseSecret(s) => {
                answers.secret = Some(if s == "key" { Some(Secret([1; 32])) } else { None })
            }
            NetStep::HashSecret(s) => answers.hash = Some(Secret([s.len() as u8; 32])),
            NetStep::FindHome => answers.home = Some("/home/eve".to_string()),
            NetStep::Ready(settings) => return (Ok(settings), questions),
            NetStep::Die(fatal) => return (Err(fatal), questions),
        }
        questions += 1;
    }
}

fn ready(c: &Configuration, chain_nodes: &[&str]) -> NetworkConfiguration {
    match exchange(c, chain_nodes) {
        (Ok(settings), _) => settings,
        (Err(fatal), _) => panic!("{}", fatal.message()),
    }
}

fn refused(c: &Configuration) -> String {
    match exchange(c, &["enode://chain"]) {
        (Ok(_), _) => panic!("nothing was refused"),
        (Err(fatal), _) => fatal.message(),
    }
}

#[test]
fn settings_follow_the_defaults() {
    let settings = ready(&configure(&[]), &["enode://chain"]);
    assert!(!settings.nat_enabled);
    assert_eq!(settings.boot_nodes, words(&["enode://chain"]));
    assert_eq!(settings.listen_address, Some(SocketAddr::V4([0, 0, 0, 0], 30304)));
    assert_eq!(settings.public_address, None);
    assert_eq!(settings.use_secret, None);
    assert!(settings.discovery_enabled);
    assert_eq!(settings.ideal_peers, 25);
    assert_eq!(settings.config_path, Some("/home/eve/.parity/network".to_string()));
}

#[test]
fn settings_follow_the_flags() {
    let settings = ready(
        &configure(&["--upnp", "--no-discovery", "--peers", "3", "-d", "/data/"]),
        &[],
    );
    assert!(settings.nat_enabled);
    assert!(!settings.discovery_enabled);
    assert_eq!(settings.ideal_peers, 3);
    assert_eq!(settings.config_path, Some("/data/network".to_string()));
}

#[test]
fn nodes_of_the_command_line_come_first() {
    let c = configure(&["enode://a", "enode://b"]);
    let (settings, questions) = exchange(&c, &["enode://chain"]);
    assert_eq!(settings.unwrap().boot_nodes, words(&["enode://a", "enode://b"]));
    assert!(questions <= 2 + 5);
}

#[test]
fn first_bad_node_is_named() {
    let c = configure(&["enode://a", "b", "c"]);
    assert_eq!(refused(&c), "b: Invalid node address format given for a boot node.");
    let (_, questions) = exchange(&c, &[]);
    assert_eq!(questions, 2);
}

#[test]
fn no_bootstrap_leaves_no_nodes() {
    let c = configure(&["--no-bootstrap"]);
    assert!(ready(&c, &["enode://chain"]).boot_nodes.is_empty());
    let mut c = configure(&["b"]);
    c.args.flag_no_bootstrap = true;
    assert!(ready(&c, &["enode://chain"]).boot_nodes.is_empty());
}

#[test]
fn nodes_are_asked_about_one_by_one() {
    let c = configure(&["x", "y"]);
    match c.init_nodes(&words(&[]), &vec![]) {
        NodesStep::Check(s) => assert_eq!(s, "x"),
        _ => panic!("the first node was not asked about"),
    }
    match c.init_nodes(&words(&[]), &vec![true]) {
        NodesStep::Check(s) => assert_eq!(s, "y"),
        _ => panic!("the second node was not asked about"),
    }
    match c.init_nodes(&words(&[]), &vec![true, true, false]) {
        NodesStep::Done(nodes) => assert_eq!(nodes, words(&["x", "y"])),
        _ => panic!("the nodes were not taken"),
    }
    match c.init_nodes(&words(&[]), &vec![false]) {
        NodesStep::Die(fatal) => assert!(matches!(fatal, Fatal::InvalidNode(_))),
        _ => panic!("the node was taken"),
    }
    assert_eq!(Configuration::normalize_enode("x", true), Some("x".to_string()));
    assert_eq!(Configuration::normalize_enode("x", false), None);
}

#[test]
fn one_address_serves_both_purposes() {
    let one = ready(&configure(&["--address", "1.2.3.4:5"]), &[]);
    let two = ready(
        &configure(&["--listen-address", "1.2.3.4:5", "--public-address", "1.2.3.4:5"]),
        &[],
    );
    assert_eq!(one.listen_address, Some(SocketAddr::V4([1, 2, 3, 4], 5)));
    assert_eq!(format!("{:?}", one), format!("{:?}", two));
}

#[test]
fn addresses_are_told_apart() {
    let settings = ready(
        &configure(&["--listen-address", "1.2.3.4:5", "--public-address", "[::1]:6"]),
        &[],
    );
    assert_eq!(settings.listen_address, Some(SocketAddr::V4([1, 2, 3, 4], 5)));
    assert_eq!(
        settings.public_address,
        Some(SocketAddr::V6([0, 0, 0, 0, 0, 0, 0, 1], 6, 0, 0))
    );
}

#[test]
fn bad_addresses_are_refused() {
    assert_eq!(
        refused(&configure(&["--address", "a"])),
        "a: Invalid listen/public address given with --address"
    );
    assert_eq!(
        refused(&configure(&["--listen-address", "a"])),
        "a: Invalid listen/public address given with --listen-address"
    );
    assert_eq!(
        refused(&configure(&["--public-address", "a"])),
        "a: Invalid listen/public address given with --public-address"
    );
    assert_eq!(
        refused(&configure(&["--address", "1.2.3.4:5", "--public-address", "a"])),
        "Conflicting flags provided: --address and --public-address"
    );
    assert_eq!(
        refused(&configure(&["--address", "a", "--public-address", "b"])),
        "a: Invalid listen/public address given with --address"
    );
    assert_eq!(
        refused(&configure(&["--listen-address", "a", "--public-address", "b"])),
        "a: Invalid listen/public address given with --listen-address"
    );
}

#[test]
fn addresses_are_asked_about_in_order() {
    let c = configure(&["--public-address", "p", "--listen-address", "l"]);
    let a = Some(SocketAddr::V4([1, 1, 1, 1], 1));
    match c.net_addresses(&vec![]) {
        AddressStep::Parse(s) => assert_eq!(s, "l"),
        _ => panic!("the address to listen on was not asked about"),
    }
    match c.net_addresses(&vec![a]) {
        AddressStep::Parse(s) => assert_eq!(s, "p"),
        _ => panic!("the address for peers was not asked about"),
    }
    match c.net_addresses(&vec![a, None]) {
        AddressStep::Die(fatal) => assert!(matches!(fatal, Fatal::InvalidPublicAddress(_))),
        _ => panic!("the address was taken"),
    }
    match c.net_addresses(&vec![a, a]) {
        AddressStep::Done(listen, public) => assert_eq!((listen, public), (a, a)),
        _ => panic!("the addresses were not taken"),
    }
}

#[test]
fn keys_are_written_out_or_hashed() {
    assert_eq!(ready(&configure(&["--node-key", "key"]), &[]).use_secret, Some(Secret([1; 32])));
    assert_eq!(ready(&configure(&["--node-key", "word"]), &[]).use_secret, Some(Secret([4; 32])));
    let c = configure(&["--node-key", "word"]);
    match c.node_secret(Some(None), None) {
        SecretStep::Hash(s) => assert_eq!(s, "word"),
        _ => panic!("the text was not hashed"),
    }
    match c.node_secret(None, None) {
        SecretStep::Parse(s) => assert_eq!(s, "word"),
        _ => panic!("the text was not asked about"),
    }
}
