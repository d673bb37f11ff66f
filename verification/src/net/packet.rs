//! The packets of the request-serving design, in which a connection
//! returns to waiting for an intent after each request.
use vstd::prelude::*;

verus! {

/// A packet on the wire.
#[derive(Clone, Debug)]
pub enum Packet {
    /// The sender's X25519 public value.
    CommonKeyPacket([u8; 32]),
    /// The end of the current request.
    CommonEndSequencePacket,
    ServerboundIntentPacket(Intent),
    ServerboundFwdDataPacket(u128, Vec<u8>),
    ServerboundSyncPacket(Vec<String>),
}

/// What the client wants from the next request.
#[derive(Clone, Copy, Debug, PartialEq, Eq, Structural)]
pub enum Intent {
    Fwd,
    Sync,
}

} // verus!
