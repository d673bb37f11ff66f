//! Sequences: the exchanges a connection carries, each under its own id.
pub mod error;
pub mod server;
pub mod splitter;
