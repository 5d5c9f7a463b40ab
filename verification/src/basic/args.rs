//! The command line of the basic client.

use vstd::prelude::*;

use crate::usage::{
    agree, answers_refusal, first_of, list_under, match_outcome, match_values, presence_fault,
    ArgValues, ArgView, Refusal, UsageError,
};

verus! {

/// The usage text, by which command lines are read.
pub const USAGE: &'static str = "
Parity. Ethereum Client.

Usage:
  parity [options]
  parity [options] <enode>...

Options:
  -l --logging LOGGING  Specify the logging level
  -h --help             Show this screen.
";

/// The part of the usage text that shows the command lines.
pub const USAGE_LINES: &'static str = "Usage:
  parity [options]
  parity [options] <enode>...";

/// What a command line asks for.
#[derive(Debug)]
pub struct Args {
    /// The nodes to connect to first.
    pub arg_enode: Vec<String>,
    /// Whether to show the usage text.
    pub flag_help: bool,
    /// The logging directives, which are empty where none are given.
    pub flag_logging: String,
}

/// The value of an [`Args`].
pub struct ArgsView {
    pub arg_enode: Seq<Seq<char>>,
    pub flag_help: bool,
    pub flag_logging: Seq<char>,
}

impl View for Args {
    type V = ArgsView;

    open spec fn view(&self) -> ArgsView {
        ArgsView {
            arg_enode: self.arg_enode.deep_view(),
            flag_help: self.flag_help,
            flag_logging: self.flag_logging@,
        }
    }
}

/// What values ask for, where none of them is at fault.
pub open spec fn args_of(values: Map<Seq<char>, ArgView>) -> ArgsView {
    ArgsView {
        arg_enode: list_under(values, "<enode>"@),
        flag_help: values["--help"@].flag(),
        flag_logging: values["--logging"@].text(),
    }
}

/// The first complaint about values, in the order of the fields.
pub open spec fn args_fault(values: Map<Seq<char>, ArgView>) -> Option<Seq<char>> {
    first_of(
        presence_fault(values, "--help"@, "flag_help"@),
        presence_fault(values, "--logging"@, "flag_logging"@),
    )
}

impl Args {
    /// Reads values into fields.
    pub fn decode(values: &ArgValues) -> (r: Result<Args, UsageError>)
        ensures
            match r {
                Ok(args) => args_fault(values@) is None && args@ == args_of(values@),
                Err(e) => e.fatal && args_fault(values@) == Some(e.text@),
            },
    {
        let arg_enode = values.read_list("<enode>");
        let flag_help = values.read_bool("--help", "flag_help")?;
        let flag_logging = values.read_text("--logging", "flag_logging")?;
        Ok(Args { arg_enode, flag_help, flag_logging })
    }

    /// Reads a command line, whose first word is the program's name.
    pub fn parse(argv: &Vec<String>) -> (r: Result<Args, UsageError>)
        ensures
            parses_to(match_outcome(USAGE@, argv.deep_view()), r),
    {
        let keys: Vec<&str> = vec!["<enode>", "--help", "--logging"];
        let values = match_values(USAGE, argv, &keys)?;
        proof {
            let found = match_outcome(USAGE@, argv.deep_view())->Ok_0;
            assert(agree(values@, found, keys@[0]@));
            assert(agree(values@, found, keys@[1]@));
            assert(agree(values@, found, keys@[2]@));
        }
        Args::decode(&values)
    }
}

/// What comes of a command line after it has been matched: help or a refusal
/// where it does not match, a refusal where a value is at fault, and otherwise
/// what it asks for.
pub open spec fn parses_to(
    outcome: Result<Map<Seq<char>, ArgView>, Refusal>,
    r: Result<Args, UsageError>,
) -> bool {
    match (outcome, r) {
        (Err(refusal), Err(e)) => e.fatal == !(refusal is Help) && answers_refusal(
            USAGE@,
            refusal,
            e.text@,
        ),
        (Ok(values), Err(e)) => e.fatal && args_fault(values) == Some(e.text@),
        (Ok(values), Ok(args)) => args_fault(values) is None && args@ == args_of(values),
        (Err(_), Ok(_)) => false,
    }
}

} // verus!
