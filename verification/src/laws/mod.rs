//! What holds of the clients, said of what goes in and what comes out.

pub mod basic;
pub mod basic_status;
pub mod command_line;
pub mod configuration;
pub mod logging;
pub mod network;
pub mod numbers;
pub mod patterns;
pub mod status;
pub mod usage;
pub mod values;
