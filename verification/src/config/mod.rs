//! Node configuration: known hosts, listening port, identity keys.
pub mod data;
pub mod error;
pub mod store;

use crate::config::data::Hosts;
use crate::primitives::generate_signing_key;
use vstd::prelude::*;

verus! {

/// The configuration of a node, with the PGP key pair held as two strings.
pub struct Config {
    pub hosts: Hosts,
    pub port: u16,
    pub signature: ed25519_dalek::SigningKey,
    pub pgp_public: String,
    pub pgp_private: String,
}

impl Config {
    /// The configuration written on a first run: no hosts, the given port, a
    /// fresh signing key and empty PGP fields.
    pub fn first_run(port: u16) -> (r: Self)
        ensures
            r.hosts.0@.len() == 0,
            r.port == port,
            r.pgp_public@ == Seq::<char>::empty(),
            r.pgp_private@ == Seq::<char>::empty(),
    {
        Config {
            hosts: Hosts(Vec::new()),
            port,
            signature: generate_signing_key(),
            pgp_public: String::new(),
            pgp_private: String::new(),
        }
    }

    /// The identifier this node is known by; for now always empty.
    pub fn compute_identifier(&self) -> (r: String)
        ensures
            r@ == Seq::<char>::empty(),
    {
        String::new()
    }
}

} // verus!
