//! The packets peers exchange on a connection.
use vstd::prelude::*;

verus! {

/// A packet on the wire. Keys are X25519 public values, ids are 128-bit
/// sequence ids.
#[derive(Clone, Debug)]
pub enum Packet {
    /// Another packet, encrypted: the ciphertext and its nonce.
    EncryptedPacket(Vec<u8>, [u8; 12]),
    /// The sender's X25519 public value.
    CommonKeyPacket([u8; 32]),
    ServerboundIntentPacket(Intent),
    ServerboundFwdDataPacket(u128, Vec<u8>),
    ServerboundSyncPacket(Vec<String>),
}

/// What the client wants from this connection.
#[derive(Clone, Copy, Debug, PartialEq, Eq, Structural)]
pub enum Intent {
    Fwd,
    Sync,
}

} // verus!
