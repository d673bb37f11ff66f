//! The packet handler of the connection that only exchanges keys.
pub mod setup;

use crate::con::Message;
use crate::encrypt::EncryptionHandler;
use crate::packet::Packet;
use setup::SetupPacketHandler;
use vstd::prelude::*;

verus! {

/// The handler a connection is in.
#[derive(Clone, Copy, Debug, PartialEq, Eq, Structural)]
pub enum Handler {
    Setup(SetupPacketHandler),
}

/// A handler of packets.
pub trait PacketHandler: Sized {
    /// Whether the handler can take `packet` with this encryption state.
    spec fn accepts(self, packet: Packet, encrypt: EncryptionHandler) -> bool;

    /// Handles `packet`; returns the handler for the next packet.
    fn handle(self, packet: Packet, channel: &tokio::sync::mpsc::UnboundedSender<Message>, encrypt: &mut EncryptionHandler) -> Handler
        requires
            self.accepts(packet, *old(encrypt)),
    ;
}

impl Handler {
    /// Whether the current handler can take `packet`: only the peer's key,
    /// and only while the X25519 secret is unused.
    pub open spec fn accepts(self, packet: Packet, encrypt: EncryptionHandler) -> bool {
        packet is KeyPacket && encrypt.x25_secret is Some
    }

    /// Handles `packet` with the current handler; returns the next one.
    pub fn handle(self, packet: Packet, channel: &tokio::sync::mpsc::UnboundedSender<Message>, encrypt: &mut EncryptionHandler) -> (r: Handler)
        requires
            self.accepts(packet, *old(encrypt)),
        ensures
            r == self,
            setup::exchanged(packet, *old(encrypt), *final(encrypt)),
    {
        match self {
            Handler::Setup(handler) => handler.handle(packet, channel, encrypt),
        }
    }
}

} // verus!
