//! The packets of the connection that only exchanges keys.
use vstd::prelude::*;

verus! {

/// A packet on the wire.
#[derive(Clone, Debug)]
pub enum Packet {
    /// The sender's X25519 public value.
    KeyPacket([u8; 32]),
    /// Another packet, encrypted: the ciphertext and its nonce.
    EncryptedPacket(Vec<u8>, [u8; 12]),

    ServerboundIntentPacket(Intent),
}

/// What the client wants from the connection.
#[derive(Clone, Copy, Debug, PartialEq, Eq, Structural)]
pub enum Intent {
    Fwd,
    Sync,
}

} // verus!
