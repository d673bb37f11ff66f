//! Errors of handling a packet.
use vstd::prelude::*;

verus! {

/// Why a packet could not be handled.
#[derive(Clone, Copy, Debug, PartialEq, Eq, Structural)]
pub enum HandlerError {
    /// The packet is not one the current handler accepts.
    PacketOrderError,
    /// A reply or a command could not be queued.
    IOError,
}

} // verus!
