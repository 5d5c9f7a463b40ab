//! What an Ethereum client decides from its command line and its readings.
//!
//! The full client is made of [`args`], [`configuration`], [`network`],
//! [`logging`] and [`informant`]; the client with few options is [`basic`].
//! Nothing here reads the environment, the network or a clock: what such a reading
//! gives is an argument. Nothing here writes either, but for one thing: env_logger
//! warns on standard output of what it cannot read in a text that sets up a logger.

pub mod args;
pub mod basic;
pub mod configuration;
pub mod exchange;
pub mod fatal;
pub mod informant;
pub mod laws;
pub mod logging;
pub mod network;
pub mod pattern;
pub mod status;
pub mod text;
pub mod timer;
pub mod u256;
pub mod usage;
