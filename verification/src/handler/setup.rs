//! The key exchange handler of the connection that only exchanges keys.
use crate::con::Message;
use crate::crypto::x25519_public_of;
use crate::encrypt::{session_key, EncryptionHandler};
use crate::handler::{Handler, PacketHandler};
use crate::packet::Packet;
use vstd::prelude::*;

verus! {

/// Which end of a connection this node is.
#[derive(Clone, Copy, Debug, PartialEq, Eq, Structural)]
pub enum Side {
    Client,
    Server,
}

/// Takes the peer's key and derives the connection's AES key from it.
#[derive(Clone, Copy, Debug, PartialEq, Eq, Structural)]
pub struct SetupPacketHandler;

/// What taking the peer's key packet does to the encryption state: the
/// secret is used up and both ends hold the same session key.
pub open spec fn exchanged(packet: Packet, old_e: EncryptionHandler, new_e: EncryptionHandler) -> bool {
    let peer = packet->KeyPacket_0;
    &&& new_e.x25_secret is None
    &&& new_e.aes_key() == Some(session_key(old_e.x25_secret->0@, peer@))
    &&& forall|b: Seq<u8>|
        b.len() == 32 && peer@ == #[trigger] x25519_public_of(b)
            ==> new_e.aes_key() == Some(session_key(b, x25519_public_of(old_e.x25_secret->0@)))
    &&& new_e.x25_public == old_e.x25_public
    &&& new_e.pgp_private == old_e.pgp_private
    &&& new_e.pgp_pass == old_e.pgp_pass
}

impl PacketHandler for SetupPacketHandler {
    open spec fn accepts(self, packet: Packet, encrypt: EncryptionHandler) -> bool {
        Handler::Setup(self).accepts(packet, encrypt)
    }

    fn handle(self, packet: Packet, _channel: &tokio::sync::mpsc::UnboundedSender<Message>, encrypt: &mut EncryptionHandler) -> (r: Handler)
        ensures
            r == Handler::Setup(self),
            exchanged(packet, *old(encrypt), *final(encrypt)),
    {
        match packet {
            Packet::KeyPacket(public) => {
                let _ = encrypt.complete_exchange(public);
            },
            _ => {},
        };
        Handler::Setup(self)
    }
}

} // verus!
