//! Errors of handling a packet within its sequence.
use vstd::prelude::*;

verus! {

/// Why a packet could not be handled within its sequence.
#[derive(Clone, Copy, Debug, PartialEq, Eq, Structural)]
pub enum SequenceError {
    /// The packet is not one the sequence accepts now.
    PacketOrderError,
    /// A reply could not be queued.
    IOError,
}

} // verus!
