//! What the initiator of a sequence wants from it.
use vstd::prelude::*;

verus! {

/// The purpose of a sequence.
#[derive(Clone, Copy, Debug, PartialEq, Eq, Structural)]
pub enum Intent {
    /// Set up encryption for the connection.
    Encrypt,
    /// Forward data to other hosts.
    Fwd,
    /// Exchange host lists.
    Sync,
}

} // verus!
