//! Errors of the router.
use vstd::prelude::*;

verus! {

/// Why the router stopped.
#[derive(Clone, Copy, Debug, PartialEq, Eq, Structural)]
pub enum RouterError {
    ClosedChannelError,
}

} // verus!
