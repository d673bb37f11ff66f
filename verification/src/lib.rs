//! Protocol and state logic of a small encrypted peer-to-peer node.
//!
//! Peers connect over TCP, agree on an AES-256-GCM key through an X25519
//! exchange (the key is derived with HKDF-SHA256), and then exchange packets
//! that ask a peer to forward data or to take a list of hosts. The node keeps
//! its configuration (known hosts, port, signing key, PGP key files) and a
//! registry of open connections.
//!
//! The node keeps several connection designs side by side, each with its own
//! packets and handlers:
//! - `config`: the configuration and how a fresh one is made;
//! - `crypto`, `encrypt`: a connection's cipher, key exchange, key derivation
//!   and the decryption of PGP messages addressed to the node;
//! - `protocol`, `sequence`, `net`, `router`: packets tagged with a sequence
//!   id, the open sequences of a connection, the steps of a connection's
//!   event loop, its tasks, and the registry of connections;
//! - `connection`, `control`: a connection that serves one intent after the
//!   key exchange, and the controller's commands;
//! - `handle`: a connection that returns to waiting for an intent after each
//!   request;
//! - `con`, `handler`, `packet`: a connection that only exchanges keys;
//! - `outbox`: a channel that records what is handed to it;
//! - `primitives`: the outside crates, behind their contracts.
pub mod con;
pub mod config;
pub mod connection;
pub mod control;
pub mod crypto;
pub mod encrypt;
pub mod handle;
pub mod handler;
pub mod net;
pub mod outbox;
pub mod packet;
pub mod primitives;
pub mod protocol;
pub mod router;
pub mod sequence;
