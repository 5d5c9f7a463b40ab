use parity::basic::args::{Args, USAGE, USAGE_LINES};
use parity::basic::setup::init_nodes;

fn words(words: &[&str]) -> Vec<String> {
    words.iter().map(|w| w.to_string()).collect()
}

fn parse(given: &[&str]) -> Args {
    match Args::parse(&words(given)) {
        Ok(args) => args,
        Err(e) => panic!("{}", e.text),
    }
}

#[test]
fn basic_command_line_is_read() {
    let args = parse(&["parity"]);
    assert!(args.arg_enode.is_empty());
    assert_eq!(args.flag_logging, "");
    assert!(!args.flag_help);
    let args = parse(&["parity", "-l", "debug", "a", "b"]);
    assert_eq!(args.arg_enode, words(&["a", "b"]));
    assert_eq!(args.flag_logging, "debug");
}

#[test]
fn basic_help_and_refusal() {
    match Args::parse(&words(&["parity", "-h"])) {
        Err(e) => {
            assert_eq!(e.exit_code(), 0);
            assert_eq!(e.text, USAGE.trim());
        }
        Ok(_) => panic!("help was not shown"),
    }
    match Args::parse(&words(&["parity", "--peers", "3"])) {
        Err(e) => {
            assert_eq!(e.exit_code(), 1);
            assert_eq!(e.text, format!("Unknown flag: '--peers'\n\n{}", USAGE_LINES));
        }
        Ok(_) => panic!("the flag was taken"),
    }
}

#[test]
fn basic_nodes_of_the_chain_are_used_where_none_are_given() {
    let chain = words(&["enode://chain"]);
    assert_eq!(init_nodes(&parse(&["parity"]), &chain), chain);
    assert_eq!(init_nodes(&parse(&["parity", "x"]), &chain), words(&["x"]));
}
