//! Connections to peers: their events, errors and tasks, and the steps of
//! their event loop that decrypt and encrypt.
pub mod connection;
pub mod error;
pub mod message;
pub mod state;
pub mod task;
pub mod packet;
