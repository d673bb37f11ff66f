//! The sequence that sets up a connection's encryption.
use vstd::prelude::*;

verus! {

/// The setup sequence with the given id.
#[derive(Clone, Copy, Debug, PartialEq, Eq, Structural)]
pub struct SetupSequence {
    pub id: u128,
}

impl SetupSequence {
    /// A setup sequence for id `id`.
    pub fn new_sequence(id: u128) -> (r: SetupSequence)
        ensures
            r.id == id,
    {
        SetupSequence { id }
    }
}

} // verus!
