//! The first handler of a connection: the key exchange and the client's intent.
use crate::connection::handler::fwd::ForwardPacketHandler;
use crate::connection::handler::sync::SyncPacketHandler;
use crate::connection::handler::{deliver, handled_encryption, step_outcome, Handler, HandlerError, PacketHandler, Step};
use crate::connection::packet::{Intent, Packet};
use crate::connection::state::Message;
use crate::outbox::Outbox;
use crate::encrypt::EncryptionHandler;
use vstd::prelude::*;

verus! {

/// Handles the key exchange, then the intent that picks the next handler.
#[derive(Clone, Copy, Debug, PartialEq, Eq, Structural)]
pub struct SetupPacketHandler;

impl SetupPacketHandler {
    /// Takes the peer's key, completing the exchange, and stays; or takes the
    /// intent and hands over to the handler it names. Queues nothing. Refuses
    /// every other packet.
    pub fn step(self, packet: Packet, encrypt: &mut EncryptionHandler) -> (r: Result<Step, HandlerError>)
        requires
            packet is CommonKeyPacket ==> old(encrypt).x25_secret is Some,
        ensures
            step_outcome(Handler::Setup(self), packet, r),
            handled_encryption(Handler::Setup(self), packet, *old(encrypt), *final(encrypt)),
    {
        match packet {
            Packet::CommonKeyPacket(public) => {
                if encrypt.complete_exchange(public).is_err() {
                    return Err(HandlerError::IOError);
                }
                Ok(Step { next: Handler::Setup(self), message: None })
            },
            Packet::ServerboundIntentPacket(intent) => {
                let next = match intent {
                    Intent::Fwd => ForwardPacketHandler::new_handler(),
                    Intent::Sync => SyncPacketHandler::new_handler(),
                };
                Ok(Step { next, message: None })
            },
            _ => Err(HandlerError::PacketOrderError),
        }
    }
}

impl PacketHandler for SetupPacketHandler {
    open spec fn as_handler(self) -> Handler {
        Handler::Setup(self)
    }

    fn new_handler() -> (r: Handler)
        ensures
            r == Handler::Setup(SetupPacketHandler),
    {
        Handler::Setup(SetupPacketHandler {})
    }

    fn handle(self, packet: Packet, channel: &mut Outbox<Message>, encrypt: &mut EncryptionHandler) -> (r: Result<Handler, HandlerError>) {
        match self.step(packet, encrypt) {
            Ok(s) => deliver(s, channel),
            Err(e) => Err(e),
        }
    }
}

} // verus!
