//! Command lines matched against a usage text.
//!
//! The matching itself is docopt's. This module turns what docopt found into
//! plain values and reads those into booleans, texts, lists and numbers.

use docopt::{ArgvMap, Docopt, Value};
use vstd::prelude::*;

use crate::args;
use crate::basic;
use crate::text::{
    blank, decimal, is_blank, lemma_decimal_not_blank, lemma_decimal_read_back, parse_unsigned,
    same_text, unsigned_value,
};

verus! {

/// What a command line gave for one flag, argument or command.
#[derive(Debug)]
pub enum ArgValue {
    /// A flag without an argument, or a command.
    Switch(bool),
    /// How often a repeatable flag or command occurred.
    Counted(u64),
    /// An argument, where it is there.
    Plain(Option<String>),
    /// All the arguments of a repeatable one.
    List(Vec<String>),
}

/// The value of an [`ArgValue`].
pub enum ArgView {
    Switch(bool),
    Counted(u64),
    Plain(Option<Seq<char>>),
    List(Seq<Seq<char>>),
}

impl View for ArgValue {
    type V = ArgView;

    open spec fn view(&self) -> ArgView {
        match *self {
            ArgValue::Switch(b) => ArgView::Switch(b),
            ArgValue::Counted(n) => ArgView::Counted(n),
            ArgValue::Plain(None) => ArgView::Plain(None),
            ArgValue::Plain(Some(s)) => ArgView::Plain(Some(s@)),
            ArgValue::List(l) => ArgView::List(l.deep_view()),
        }
    }
}

impl ArgView {
    /// The value as a boolean: whether there is anything.
    pub open spec fn flag(self) -> bool {
        match self {
            ArgView::Switch(b) => b,
            ArgView::Counted(n) => n > 0,
            ArgView::Plain(s) => s is Some,
            ArgView::List(l) => l.len() > 0,
        }
    }

    /// The value as a text, which is empty unless it is an argument that is
    /// there.
    pub open spec fn text(self) -> Seq<char> {
        match self {
            ArgView::Plain(Some(s)) => s,
            _ => Seq::empty(),
        }
    }

    /// The value as a list of texts.
    pub open spec fn list(self) -> Seq<Seq<char>> {
        match self {
            ArgView::Plain(Some(s)) => seq![s],
            ArgView::List(l) => l,
            _ => Seq::empty(),
        }
    }

    /// The value as a number that is at most `max`: a count stands for itself,
    /// a blank text for zero, any other text must be a decimal number.
    pub open spec fn number(self, max: nat) -> Option<nat> {
        match self {
            ArgView::Counted(n) => if n <= max {
                Some(n as nat)
            } else {
                None
            },
            _ => if blank(self.text()) {
                Some(0)
            } else {
                unsigned_value(self.text(), max)
            },
        }
    }
}

/// The map that docopt makes of a command line.
#[verifier::external_type_specification]
#[verifier::external_body]
pub struct ExArgvMap(ArgvMap);

/// What a map of docopt's holds under each key and each synonym of a key.
pub uninterp spec fn argv_values(map: ArgvMap) -> Map<Seq<char>, ArgView>;

/// Why docopt does not match a command line.
pub enum Refusal {
    /// It asks for help.
    Help,
    /// It has a flag that the usage text has not. Of the long flags and the commands
    /// of the usage text, `closest` are those that take the fewest changes of a
    /// character to get to from the flag, if they take at most two; it is empty where
    /// all take more, and for a short flag.
    UnknownFlag { flag: Seq<char>, closest: Set<Seq<char>> },
    /// It ends where a flag's argument should be.
    MissingArgument(Seq<char>),
    /// It gives an argument to a flag that takes none.
    ExtraArgument { flag: Seq<char>, argument: Seq<char> },
    /// It is none of those that the usage text provides for.
    NoMatch,
}

/// How docopt matches a command line, whose first word is the program's name,
/// against a usage text: the values that it finds, or why it finds none.
pub uninterp spec fn match_outcome(usage: Seq<char>, argv: Seq<Seq<char>>) -> Result<
    Map<Seq<char>, ArgView>,
    Refusal,
>;

/// The usage texts of the two clients.
pub open spec fn is_client_usage(usage: Seq<char>) -> bool {
    usage == args::USAGE@ || usage == basic::args::USAGE@
}

/// The part of a client's usage text that shows the command lines.
pub open spec fn usage_lines(usage: Seq<char>) -> Seq<char> {
    if usage == args::USAGE@ {
        args::USAGE_LINES@
    } else {
        basic::args::USAGE_LINES@
    }
}

/// What is said of a flag that the usage text has not, perhaps with another one that
/// could have been meant.
pub open spec fn unknown_flag_text(flag: Seq<char>, meant: Option<Seq<char>>) -> Seq<char> {
    match meant {
        Some(meant) => "Unknown flag: '"@ + flag + "'. Did you mean '"@ + meant + "'?"@,
        None => "Unknown flag: '"@ + flag + "'"@,
    }
}

/// A complaint with a client's command lines behind it.
pub open spec fn with_usage_lines(usage: Seq<char>, complaint: Seq<char>) -> Seq<char> {
    complaint + "\n\n"@ + usage_lines(usage)
}

/// Whether a text is what a refusal is answered with: help is the usage text
/// without the line breaks at its two ends, and any other answer is a complaint
/// with the command lines behind it. Where flags are close to an unknown one, the
/// complaint suggests one of the closest.
pub open spec fn answers_refusal(usage: Seq<char>, refusal: Refusal, text: Seq<char>) -> bool {
    match refusal {
        Refusal::Help => text == usage.subrange(1, usage.len() - 1),
        Refusal::UnknownFlag { flag, closest } => if closest.is_empty() {
            text == with_usage_lines(usage, unknown_flag_text(flag, None))
        } else {
            exists|meant: Seq<char>| #[trigger]
                closest.contains(meant) && text == with_usage_lines(
                    usage,
                    unknown_flag_text(flag, Some(meant)),
                )
        },
        Refusal::MissingArgument(flag) => text == with_usage_lines(
            usage,
            "Expected argument for flag '"@ + flag + "' but reached end of arguments."@,
        ),
        Refusal::ExtraArgument { flag, argument } => text == with_usage_lines(
            usage,
            "Flag '"@ + flag + "' cannot have an argument, but found '"@ + argument + "'."@,
        ),
        Refusal::NoMatch => text == with_usage_lines(usage, "Invalid arguments."@),
    }
}

/// Calls `Docopt::parse` on the parser that `Docopt::new` makes of a usage text
/// and `Docopt::argv` gives a command line.
///
/// The values found, and why none are found, depend on the usage text and the
/// command line alone, and [`match_outcome`] names them. A refusal is fatal
/// unless help is asked for, and its text is as [`answers_refusal`] says. Where
/// several flags are closest to an unknown one, which of them docopt suggests is left
/// open: it depends on the order of a hash map.
///
/// On a usage text of another form docopt may panic: a short flag outside ASCII
/// makes it cut a word within a character.
#[verifier::external_body]
fn match_usage(usage: &str, argv: &Vec<String>) -> (r: Result<ArgvMap, (bool, String)>)
    requires
        is_client_usage(usage@),
    ensures
        match (match_outcome(usage@, argv.deep_view()), r) {
            (Ok(values), Ok(map)) => argv_values(map) == values,
            (Err(refusal), Err((fatal, text))) => {
                &&& fatal == !(refusal is Help)
                &&& answers_refusal(usage@, refusal, text@)
            },
            _ => false,
        },
{
    Docopt::new(usage)
        .and_then(|parser| parser.argv(argv.iter()).parse())
        .map_err(|e| (e.fatal(), e.to_string()))
}

/// Calls `ArgvMap::find`, which gives the value under a key, if there is one.
#[verifier::external_body]
fn find(map: &ArgvMap, key: &str) -> (r: Option<ArgValue>)
    ensures
        match r {
            Some(v) => argv_values(*map).dom().contains(key@) && argv_values(*map)[key@] == v@,
            None => !argv_values(*map).dom().contains(key@),
        },
{
    map.find(key).map(|value| match *value {
        Value::Switch(b) => ArgValue::Switch(b),
        Value::Counted(n) => ArgValue::Counted(n),
        Value::Plain(ref s) => ArgValue::Plain(s.clone()),
        Value::List(ref l) => ArgValue::List(l.clone()),
    })
}

/// Why a command line is not carried out: it asks for help, or it is refused.
#[derive(Debug)]
pub struct UsageError {
    /// Whether the command line is refused.
    pub fatal: bool,
    /// What to tell the user.
    pub text: String,
}

/// The status that a program exits with: one where its command line is refused.
pub open spec fn exit_status(fatal: bool) -> int {
    if fatal {
        1
    } else {
        0
    }
}

impl UsageError {
    /// The status that the program exits with: zero where help was asked for.
    pub fn exit_code(&self) -> (r: i32)
        ensures
            r == (if self.fatal { 1int } else { 0 }),
            r == exit_status(self.fatal),
    {
        if self.fatal {
            1
        } else {
            0
        }
    }
}

/// The values that a command line gave, each under the name that the usage text
/// has for it.
#[derive(Debug)]
pub struct ArgValues {
    pub entries: Vec<(String, ArgValue)>,
}

/// The values of a list of entries; of two under one name the later one counts.
pub open spec fn entries_map(entries: Seq<(String, ArgValue)>) -> Map<Seq<char>, ArgView>
    decreases entries.len(),
{
    if entries.len() == 0 {
        Map::empty()
    } else {
        entries_map(entries.drop_last()).insert(entries.last().0@, entries.last().1@)
    }
}

impl View for ArgValues {
    type V = Map<Seq<char>, ArgView>;

    open spec fn view(&self) -> Map<Seq<char>, ArgView> {
        entries_map(self.entries@)
    }
}

/// Whether two maps hold the same under a key.
pub open spec fn agree(
    a: Map<Seq<char>, ArgView>,
    b: Map<Seq<char>, ArgView>,
    key: Seq<char>,
) -> bool {
    &&& a.dom().contains(key) == b.dom().contains(key)
    &&& a.dom().contains(key) ==> a[key] == b[key]
}

/// Takes the values under some keys out of a map of docopt's.
fn gather(map: &ArgvMap, keys: &Vec<&str>) -> (r: ArgValues)
    ensures
        forall|j: int|
            0 <= j < keys@.len() ==> agree(r@, argv_values(*map), (#[trigger] keys@[j])@),
{
    let mut values = ArgValues { entries: Vec::new() };
    let mut i: usize = 0;
    while i < keys.len()
        invariant
            i <= keys@.len(),
            values@.submap_of(argv_values(*map)),
            forall|j: int|
                0 <= j < i ==> agree(values@, argv_values(*map), (#[trigger] keys@[j])@),
        decreases keys@.len() - i,
    {
        let ghost before = values@;
        if let Some(value) = find(map, keys[i]) {
            let key = keys[i].to_owned();
            let ghost old_entries = values.entries@;
            values.entries.push((key, value));
            assert(values.entries@.drop_last() =~= old_entries);
            assert(values@ == before.insert(keys@[i as int]@, value@));
        }
        i = i + 1;
    }
    values
}

/// Matches a command line against a client's usage text and takes out the
/// values under some keys.
pub fn match_values(usage: &str, argv: &Vec<String>, keys: &Vec<&str>) -> (r: Result<
    ArgValues,
    UsageError,
>)
    requires
        is_client_usage(usage@),
    ensures
        match (match_outcome(usage@, argv.deep_view()), r) {
            (Ok(found), Ok(values)) => forall|j: int|
                0 <= j < keys@.len() ==> agree(values@, found, (#[trigger] keys@[j])@),
            (Err(refusal), Err(e)) => e.fatal == !(refusal is Help) && answers_refusal(
                usage@,
                refusal,
                e.text@,
            ),
            _ => false,
        },
{
    match match_usage(usage, argv) {
        Ok(map) => Ok(gather(&map, keys)),
        Err((fatal, text)) => Err(UsageError { fatal, text }),
    }
}

/// What is said of a value that the usage text does not provide for.
pub open spec fn missing_text(key: Seq<char>, field: Seq<char>) -> Seq<char> {
    "Could not find argument '"@ + key + "' (from struct field '"@ + field
        + "').
Note that each struct field must have the right key prefix, which must
be one of `cmd_`, `flag_` or `arg_`."@
}

/// What is said of a text that is not the number it should be.
pub open spec fn undecodable_text(
    text: Seq<char>,
    kind: Seq<char>,
    key: Seq<char>,
) -> Seq<char> {
    "Could not decode '"@ + text + "' to "@ + kind + " for '"@ + key + "'."@
}

/// The first of two complaints.
pub open spec fn first_of(a: Option<Seq<char>>, b: Option<Seq<char>>) -> Option<Seq<char>> {
    if a is Some {
        a
    } else {
        b
    }
}

/// The complaint about a value that must be there.
pub open spec fn presence_fault(
    values: Map<Seq<char>, ArgView>,
    key: Seq<char>,
    field: Seq<char>,
) -> Option<Seq<char>> {
    if values.dom().contains(key) {
        None
    } else {
        Some(missing_text(key, field))
    }
}

/// The complaint about a value that must be a number.
pub open spec fn number_fault(
    values: Map<Seq<char>, ArgView>,
    key: Seq<char>,
    field: Seq<char>,
    kind: Seq<char>,
    max: nat,
) -> Option<Seq<char>> {
    if !values.dom().contains(key) {
        Some(missing_text(key, field))
    } else if values[key].number(max) is None {
        Some(undecodable_text(values[key].text(), kind, key))
    } else {
        None
    }
}

/// The text under a key, where there is anything under it.
pub open spec fn optional_text(
    values: Map<Seq<char>, ArgView>,
    key: Seq<char>,
) -> Option<Seq<char>> {
    if values.dom().contains(key) && values[key].flag() {
        Some(values[key].text())
    } else {
        None
    }
}

/// The list under a key, which is empty where there is nothing under it.
pub open spec fn list_under(
    values: Map<Seq<char>, ArgView>,
    key: Seq<char>,
) -> Seq<Seq<char>> {
    if values.dom().contains(key) {
        values[key].list()
    } else {
        Seq::empty()
    }
}

/// The view of an optional text.
pub open spec fn text_view(s: Option<String>) -> Option<Seq<char>> {
    match s {
        Some(s) => Some(s@),
        None => None,
    }
}

/// Refuses a command line.
fn refuse(text: String) -> (r: UsageError)
    ensures
        r.fatal,
        r.text@ == text@,
{
    UsageError { fatal: true, text }
}

/// Writes the complaint about a missing value.
fn missing(key: &str, field: &str) -> (r: UsageError)
    ensures
        r.fatal,
        r.text@ == missing_text(key@, field@),
{
    let mut text = "Could not find argument '".to_owned();
    text.append(key);
    text.append("' (from struct field '");
    text.append(field);
    text.append(
        "').
Note that each struct field must have the right key prefix, which must
be one of `cmd_`, `flag_` or `arg_`.",
    );
    refuse(text)
}

/// Writes the complaint about a text that is no number.
fn undecodable(given: &str, kind: &str, key: &str) -> (r: UsageError)
    ensures
        r.fatal,
        r.text@ == undecodable_text(given@, kind@, key@),
{
    let mut text = "Could not decode '".to_owned();
    text.append(given);
    text.append("' to ");
    text.append(kind);
    text.append(" for '");
    text.append(key);
    text.append("'.");
    refuse(text)
}

impl ArgValue {
    /// Whether there is anything.
    pub fn flag(&self) -> (r: bool)
        ensures
            r == self@.flag(),
    {
        match self {
            ArgValue::Switch(b) => *b,
            ArgValue::Counted(n) => *n > 0,
            ArgValue::Plain(s) => s.is_some(),
            ArgValue::List(l) => l.len() > 0,
        }
    }

    /// The value as a text.
    pub fn text(&self) -> (r: String)
        ensures
            r@ == self@.text(),
    {
        match self {
            ArgValue::Plain(Some(s)) => s.clone(),
            _ => String::new(),
        }
    }

    /// The value as a list of texts.
    pub fn list(&self) -> (r: Vec<String>)
        ensures
            r.deep_view() == self@.list(),
    {
        match self {
            ArgValue::Plain(Some(s)) => {
                let mut list: Vec<String> = Vec::new();
                list.push(s.clone());
                assert(list.deep_view() =~= seq![s@]);
                list
            },
            ArgValue::List(l) => clone_texts(l),
            _ => {
                let list: Vec<String> = Vec::new();
                assert(list.deep_view() =~= Seq::<Seq<char>>::empty());
                list
            },
        }
    }

    /// The value as a number that is at most `max`.
    pub fn number(&self, max: u64) -> (r: Option<u64>)
        ensures
            match r {
                Some(n) => self@.number(max as nat) == Some(n as nat),
                None => self@.number(max as nat) is None,
            },
    {
        if let ArgValue::Counted(n) = self {
            if *n <= max {
                Some(*n)
            } else {
                None
            }
        } else {
            let text = self.text();
            if is_blank(text.as_str()) {
                Some(0)
            } else {
                parse_unsigned(text.as_str(), max)
            }
        }
    }
}

/// A copy of a list of texts.
pub fn clone_texts(list: &Vec<String>) -> (r: Vec<String>)
    ensures
        r.deep_view() == list.deep_view(),
{
    let mut copy: Vec<String> = Vec::new();
    let mut i: usize = 0;
    while i < list.len()
        invariant
            i <= list@.len(),
            copy@ == list@.take(i as int),
        decreases list@.len() - i,
    {
        copy.push(list[i].clone());
        assert(list@.take(i + 1) =~= list@.take(i as int).push(list@[i as int]));
        i = i + 1;
    }
    assert(list@.take(i as int) =~= list@);
    copy
}

impl ArgValues {
    /// The value under a key.
    pub fn get(&self, key: &str) -> (r: Option<&ArgValue>)
        ensures
            match r {
                Some(v) => self@.dom().contains(key@) && self@[key@] == v@,
                None => !self@.dom().contains(key@),
            },
    {
        let mut i: usize = self.entries.len();
        assert(self.entries@.take(i as int) =~= self.entries@);
        while i > 0
            invariant
                i <= self.entries@.len(),
                agree(self@, entries_map(self.entries@.take(i as int)), key@),
            decreases i,
        {
            let ghost head = self.entries@.take(i as int);
            assert(head.drop_last() =~= self.entries@.take(i - 1));
            assert(head.last() == self.entries@[i - 1]);
            i = i - 1;
            if same_text(self.entries[i].0.as_str(), key) {
                return Some(&self.entries[i].1);
            }
        }
        None
    }

    /// Reads a boolean that must be there.
    pub fn read_bool(&self, key: &str, field: &str) -> (r: Result<bool, UsageError>)
        ensures
            match r {
                Ok(b) => presence_fault(self@, key@, field@) is None && b == self@[key@].flag(),
                Err(e) => e.fatal && presence_fault(self@, key@, field@) == Some(e.text@),
            },
    {
        match self.get(key) {
            Some(value) => Ok(value.flag()),
            None => Err(missing(key, field)),
        }
    }

    /// Reads a text that must be there.
    pub fn read_text(&self, key: &str, field: &str) -> (r: Result<String, UsageError>)
        ensures
            match r {
                Ok(s) => presence_fault(self@, key@, field@) is None && s@ == self@[key@].text(),
                Err(e) => e.fatal && presence_fault(self@, key@, field@) == Some(e.text@),
            },
    {
        match self.get(key) {
            Some(value) => Ok(value.text()),
            None => Err(missing(key, field)),
        }
    }

    /// Reads a text that may be missing.
    pub fn read_optional(&self, key: &str) -> (r: Option<String>)
        ensures
            text_view(r) == optional_text(self@, key@),
    {
        match self.get(key) {
            Some(value) => if value.flag() {
                Some(value.text())
            } else {
                None
            },
            None => None,
        }
    }

    /// Reads a list of texts.
    pub fn read_list(&self, key: &str) -> (r: Vec<String>)
        ensures
            r.deep_view() == list_under(self@, key@),
    {
        match self.get(key) {
            Some(value) => value.list(),
            None => {
                let list: Vec<String> = Vec::new();
                assert(list.deep_view() =~= Seq::<Seq<char>>::empty());
                list
            },
        }
    }

    /// Reads a number that must be there and at most `max`.
    pub fn read_number(&self, key: &str, field: &str, kind: &str, max: u64) -> (r: Result<
        u64,
        UsageError,
    >)
        ensures
            match r {
                Ok(n) => number_fault(self@, key@, field@, kind@, max as nat) is None
                    && self@[key@].number(max as nat) == Some(n as nat),
                Err(e) => e.fatal && number_fault(self@, key@, field@, kind@, max as nat) == Some(
                    e.text@,
                ),
            },
    {
        match self.get(key) {
            Some(value) => match value.number(max) {
                Some(n) => Ok(n),
                None => Err(undecodable(value.text().as_str(), kind, key)),
            },
            None => Err(missing(key, field)),
        }
    }
}

/// A number that is given in decimal is read as itself.
pub proof fn lemma_number_read_back(n: nat, max: nat)
    requires
        n <= max,
    ensures
        ArgView::Plain(Some(decimal(n))).number(max) == Some(n),
{
    lemma_decimal_not_blank(n);
    lemma_decimal_read_back(n, max);
}

} // verus!
