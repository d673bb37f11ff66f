//! The stored configuration, with its PGP key pair, and how a fresh one is made.
use crate::config::data::hosts::Hosts;
use crate::config::data::pgp::PgpKey;
use crate::config::error::ConfigError;
use crate::primitives::{generate_signing_key, random_u32};
use vstd::prelude::*;

verus! {

/// The lowest port a fresh configuration listens on.
pub const MIN_PORT: u16 = 8000;

/// The configuration of a node.
pub struct Config {
    pub hosts: Hosts,
    pub port: u16,
    pub signature: ed25519_dalek::SigningKey,
    pub pgp: PgpKey,
}

/// The port picked from a random number: `r % (65535 - 8000) + 8000`.
pub open spec fn port_of_random(r: u32) -> int {
    (r as int) % (65535 - MIN_PORT as int) + MIN_PORT as int
}

/// The port a fresh configuration listens on, from a random number. It lies
/// in `8000..65535`.
pub fn port_from_random(r: u32) -> (p: u16)
    ensures
        p as int == port_of_random(r),
        MIN_PORT <= p < 65535,
{
    ((r % 57535u32) as u16) + MIN_PORT
}

impl Config {
    /// A fresh configuration: no hosts, a random port in `8000..65535`, a new
    /// signing key and an empty PGP key pair.
    pub fn new_default() -> (r: Self)
        ensures
            r.hosts.0@.len() == 0,
            MIN_PORT <= r.port < 65535,
            exists|x: u32| r.port as int == port_of_random(x),
            r.pgp.public@ == Seq::<char>::empty(),
            r.pgp.private@ == Seq::<char>::empty(),
    {
        let x = random_u32();
        let port = port_from_random(x);
        Config {
            hosts: Hosts(Vec::new()),
            signature: generate_signing_key(),
            pgp: PgpKey::empty(),
            port,
        }
    }

    /// The error `read_or_create` answers with after it created a fresh
    /// configuration at `path`.
    pub fn created_at(path: &str) -> (e: ConfigError)
        ensures
            e matches ConfigError::PartialConfigError(p) && p@ == path@,
    {
        ConfigError::PartialConfigError(path.to_owned())
    }

    /// The identifier this node is known by; for now always empty.
    pub fn compute_identifier(&self) -> (r: String)
        ensures
            r@ == Seq::<char>::empty(),
    {
        String::new()
    }
}

} // verus!
