//! A packet and the sequence it belongs to.
use crate::primitives::nil_uuid;
use crate::protocol::packet::intent::Intent;
use vstd::prelude::*;

verus! {

/// A packet tagged with the id of its sequence.
#[derive(Clone, Debug)]
pub struct OuterPacket {
    pub sequence_id: u128,
    content: Packet,
}

/// "Server" and "client" in this context refer to the initializer and the target of the sequence respectively
#[derive(Clone, Debug)]
pub enum Packet {
    /// An encrypted packet: the ciphertext and its nonce.
    Encrypted(Vec<u8>, [u8; 12]),

    // common
    EndSequence,

    // clientbound
    ClientboundKeyExchange([u8; 32]),

    // serverbound
    ServerboundKeyExchange([u8; 32]),
    ServerboundIntent(Intent, u128),
    ServerboundForwardData(u128, Vec<u8>),
    ServerboundSyncHosts(Vec<String>),
}

impl OuterPacket {
    /// The id of the sequence the packet belongs to.
    pub closed spec fn sequence_view(&self) -> u128 {
        self.sequence_id
    }

    /// The packet inside.
    pub closed spec fn content_view(&self) -> Packet {
        self.content
    }

    /// A tagged packet from its parts.
    pub fn new(sequence_id: u128, content: Packet) -> (r: OuterPacket)
        ensures
            r.sequence_view() == sequence_id,
            r.content_view() == content,
    {
        OuterPacket { sequence_id, content }
    }

    /// The id of the sequence the packet belongs to.
    pub fn sequence(&self) -> (r: u128)
        ensures
            r == self.sequence_view(),
    {
        self.sequence_id
    }

    /// Takes the packet out.
    pub fn unwrap(self) -> (r: Packet)
        ensures
            r == self.content_view(),
    {
        self.content
    }

    /// Looks at the packet inside.
    pub fn peek<'a>(&'a self) -> (r: &'a Packet)
        ensures
            *r == self.content_view(),
    {
        &self.content
    }
}

impl Packet {
    /// An encrypted packet; it belongs to no sequence, so its id is nil.
    pub fn new_encrypted(data: Vec<u8>, nonce: [u8; 12]) -> (r: OuterPacket)
        ensures
            r.sequence_view() == 0,
            r.content_view() == Packet::Encrypted(data, nonce),
    {
        OuterPacket { sequence_id: nil_uuid(), content: Packet::Encrypted(data, nonce) }
    }

    /// The initiator's public key of sequence `sequence_id`.
    pub fn new_server_key_exchange(sequence_id: u128, key: [u8; 32]) -> (r: OuterPacket)
        ensures
            r.sequence_view() == sequence_id,
            r.content_view() == Packet::ServerboundKeyExchange(key),
    {
        OuterPacket { sequence_id, content: Packet::ServerboundKeyExchange(key) }
    }

    /// The target's public key of sequence `sequence_id`.
    pub fn new_client_key_exchange(sequence_id: u128, key: [u8; 32]) -> (r: OuterPacket)
        ensures
            r.sequence_view() == sequence_id,
            r.content_view() == Packet::ClientboundKeyExchange(key),
    {
        OuterPacket { sequence_id, content: Packet::ClientboundKeyExchange(key) }
    }

    /// The end of sequence `sequence_id`.
    pub fn new_end_sequence(sequence_id: u128) -> (r: OuterPacket)
        ensures
            r.sequence_view() == sequence_id,
            r.content_view() == Packet::EndSequence,
    {
        OuterPacket { sequence_id, content: Packet::EndSequence }
    }

    /// The intent that opens sequence `sequence_id`; it names the sequence
    /// again inside.
    pub fn new_server_intent(sequence_id: u128, intent: Intent) -> (r: OuterPacket)
        ensures
            r.sequence_view() == sequence_id,
            r.content_view() == Packet::ServerboundIntent(intent, sequence_id),
    {
        OuterPacket { sequence_id, content: Packet::ServerboundIntent(intent, sequence_id) }
    }
}

} // verus!
