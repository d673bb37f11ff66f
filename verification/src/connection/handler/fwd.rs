//! The handler of a forwarding request.
use crate::connection::handler::{deliver, step_outcome, Handler, HandlerError, PacketHandler, Step};
use crate::connection::packet::Packet;
use crate::connection::state::Message;
use crate::outbox::Outbox;
use crate::encrypt::EncryptionHandler;
use vstd::prelude::*;

verus! {

/// Accepts the data to forward, then ends the connection.
#[derive(Clone, Copy, Debug, PartialEq, Eq, Structural)]
pub struct ForwardPacketHandler;

impl ForwardPacketHandler {
    /// Takes the data to forward and ends the connection. Refuses every other
    /// packet.
    pub fn step(self, packet: Packet) -> (r: Result<Step, HandlerError>)
        ensures
            step_outcome(Handler::Fwd(self), packet, r),
    {
        match packet {
            Packet::ServerboundFwdDataPacket(_, _) => Ok(Step { next: Handler::Fwd(self), message: Some(Message::End) }),
            _ => Err(HandlerError::PacketOrderError),
        }
    }
}

impl PacketHandler for ForwardPacketHandler {
    open spec fn as_handler(self) -> Handler {
        Handler::Fwd(self)
    }

    fn new_handler() -> (r: Handler)
        ensures
            r == Handler::Fwd(ForwardPacketHandler),
    {
        Handler::Fwd(ForwardPacketHandler {})
    }

    fn handle(self, packet: Packet, channel: &mut Outbox<Message>, _encrypt: &mut EncryptionHandler) -> (r: Result<Handler, HandlerError>) {
        match self.step(packet) {
            Ok(s) => deliver(s, channel),
            Err(e) => Err(e),
        }
    }
}

} // verus!
