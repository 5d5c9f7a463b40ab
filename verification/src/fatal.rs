//! What the client gives up over, and what it says then.

use vstd::prelude::*;

verus! {

/// Why the client gives up.
#[derive(Debug)]
pub enum Fatal {
    /// The file that should describe the chain cannot be read.
    ChainFile(String),
    /// A node to connect to first is not written as one.
    InvalidNode(String),
    /// The address for both purposes is none.
    InvalidAddress(String),
    /// The address to listen on is none.
    InvalidListenAddress(String),
    /// The address that peers may connect to is none.
    InvalidPublicAddress(String),
    /// The address that peers may connect to is given twice.
    ConflictingAddresses,
    /// The address to serve JSON-RPC on is none.
    InvalidJsonrpcUrl(String),
    /// The client cannot go into the background; the reason is given.
    Daemonize(String),
}

/// The value of a [`Fatal`].
pub enum FatalView {
    ChainFile(Seq<char>),
    InvalidNode(Seq<char>),
    InvalidAddress(Seq<char>),
    InvalidListenAddress(Seq<char>),
    InvalidPublicAddress(Seq<char>),
    ConflictingAddresses,
    InvalidJsonrpcUrl(Seq<char>),
    Daemonize(Seq<char>),
}

impl View for Fatal {
    type V = FatalView;

    open spec fn view(&self) -> FatalView {
        match *self {
            Fatal::ChainFile(s) => FatalView::ChainFile(s@),
            Fatal::InvalidNode(s) => FatalView::InvalidNode(s@),
            Fatal::InvalidAddress(s) => FatalView::InvalidAddress(s@),
            Fatal::InvalidListenAddress(s) => FatalView::InvalidListenAddress(s@),
            Fatal::InvalidPublicAddress(s) => FatalView::InvalidPublicAddress(s@),
            Fatal::ConflictingAddresses => FatalView::ConflictingAddresses,
            Fatal::InvalidJsonrpcUrl(s) => FatalView::InvalidJsonrpcUrl(s@),
            Fatal::Daemonize(s) => FatalView::Daemonize(s@),
        }
    }
}

impl FatalView {
    /// What the user is told.
    pub open spec fn message(self) -> Seq<char> {
        match self {
            FatalView::ChainFile(s) => s
                + ": Couldn't read chain specification file. Sure it exists?"@,
            FatalView::InvalidNode(s) => s
                + ": Invalid node address format given for a boot node."@,
            FatalView::InvalidAddress(s) => s
                + ": Invalid listen/public address given with --address"@,
            FatalView::InvalidListenAddress(s) => s
                + ": Invalid listen/public address given with --listen-address"@,
            FatalView::InvalidPublicAddress(s) => s
                + ": Invalid listen/public address given with --public-address"@,
            FatalView::ConflictingAddresses =>
                "Conflicting flags provided: --address and --public-address"@,
            FatalView::InvalidJsonrpcUrl(s) => s
                + ": Invalid JSONRPC listen address given with --jsonrpc-url. Should be of the form 'IP:port'."@,
            FatalView::Daemonize(s) => "Couldn't daemonize; "@ + s,
        }
    }
}

/// A text with another behind it.
fn followed_by(s: &String, tail: &str) -> (r: String)
    ensures
        r@ == s@ + tail@,
{
    let mut text = s.clone();
    text.append(tail);
    text
}

/// The line that is printed of a message.
pub open spec fn error_line(msg: Seq<char>) -> Seq<char> {
    "ERROR: "@ + msg
}

impl Fatal {
    /// What the user is told.
    pub fn message(&self) -> (r: String)
        ensures
            r@ == self@.message(),
    {
        match self {
            Fatal::ChainFile(s) => followed_by(
                s,
                ": Couldn't read chain specification file. Sure it exists?",
            ),
            Fatal::InvalidNode(s) => followed_by(
                s,
                ": Invalid node address format given for a boot node.",
            ),
            Fatal::InvalidAddress(s) => followed_by(
                s,
                ": Invalid listen/public address given with --address",
            ),
            Fatal::InvalidListenAddress(s) => followed_by(
                s,
                ": Invalid listen/public address given with --listen-address",
            ),
            Fatal::InvalidPublicAddress(s) => followed_by(
                s,
                ": Invalid listen/public address given with --public-address",
            ),
            Fatal::ConflictingAddresses =>
                "Conflicting flags provided: --address and --public-address".to_owned(),
            Fatal::InvalidJsonrpcUrl(s) => followed_by(
                s,
                ": Invalid JSONRPC listen address given with --jsonrpc-url. Should be of the form 'IP:port'.",
            ),
            Fatal::Daemonize(s) => followed_by(&"Couldn't daemonize; ".to_owned(), s.as_str()),
        }
    }

    /// The line that the client prints before it exits with status one.
    pub fn line(&self) -> (r: String)
        ensures
            r@ == "ERROR: "@ + self@.message(),
            r@ == error_line(self@.message()),
    {
        die_with_message(self.message().as_str())
    }
}

/// The line that the client prints of a message before it exits with status one.
pub fn die_with_message(msg: &str) -> (r: String)
    ensures
        r@ == "ERROR: "@ + msg@,
        r@ == error_line(msg@),
{
    followed_by(&"ERROR: ".to_owned(), msg)
}

} // verus!
