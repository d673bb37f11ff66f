//! Plain configuration data.
pub mod hosts;
pub mod pgp;

use vstd::prelude::*;

verus! {

/// The addresses of the peers this node knows.
#[derive(Clone, Debug)]
pub struct Hosts(pub Vec<String>);

/// Why a configuration could not be read or written.
#[derive(Clone, Copy, Debug, PartialEq, Eq, Structural)]
pub enum ConfigError {
    IOError,
    ParseError,
}

} // verus!
