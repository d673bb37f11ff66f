//! The router: the node-wide registry of connections and the commands that
//! change it.
pub mod command;
pub mod connection;
pub mod error;
pub mod registry;
