//! A client with few options, which follows the main chain.

pub mod args;
pub mod informant;
pub mod setup;
