//! The handler of a host list the peer sends.
use crate::connection::handler::{deliver, step_outcome, Handler, HandlerError, PacketHandler, Step};
use crate::connection::packet::Packet;
use crate::connection::state::Message;
use crate::outbox::Outbox;
use crate::encrypt::EncryptionHandler;
use vstd::prelude::*;

verus! {

/// Accepts the peer's host list, then ends the connection.
#[derive(Clone, Copy, Debug, PartialEq, Eq, Structural)]
pub struct SyncPacketHandler;

impl SyncPacketHandler {
    /// Takes the host list and ends the connection. Refuses every other
    /// packet.
    pub fn step(self, packet: Packet) -> (r: Result<Step, HandlerError>)
        ensures
            step_outcome(Handler::Sync(self), packet, r),
    {
        match packet {
            Packet::ServerboundSyncPacket(_) => Ok(Step { next: Handler::Sync(self), message: Some(Message::End) }),
            _ => Err(HandlerError::PacketOrderError),
        }
    }
}

impl PacketHandler for SyncPacketHandler {
    open spec fn as_handler(self) -> Handler {
        Handler::Sync(self)
    }

    fn new_handler() -> (r: Handler)
        ensures
            r == Handler::Sync(SyncPacketHandler),
    {
        Handler::Sync(SyncPacketHandler {})
    }

    fn handle(self, packet: Packet, channel: &mut Outbox<Message>, _encrypt: &mut EncryptionHandler) -> (r: Result<Handler, HandlerError>) {
        match self.step(packet) {
            Ok(s) => deliver(s, channel),
            Err(e) => Err(e),
        }
    }
}

} // verus!
