//! Decision logic of a small Discord bot: what it subscribes to, how it is
//! configured, which messages invoke a command, what it logs, and the order in
//! which it starts up and shuts down. Everything that touches the network, the
//! environment or the terminal is left to the program built around this crate.

pub mod report;
pub mod intents;
pub mod config;
pub mod bootstrap;
pub mod history;
pub mod commands;
