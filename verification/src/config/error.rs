//! Errors of reading, writing and creating the configuration.
use vstd::prelude::*;

verus! {

/// Why a configuration could not be used.
#[derive(Clone, Debug)]
pub enum ConfigError {
    IOError,
    ParseError,
    /// A configuration was just created at this path and needs keys.
    PartialConfigError(String),
}

} // verus!
