//! The handler that waits for the next request's intent.
use crate::encrypt::EncryptionHandler;
use crate::handle::handlers::fwd::ForwardPacketHandler;
use crate::handle::handlers::sync::SyncPacketHandler;
use crate::handle::util::error::HandlerError;
use crate::handle::util::handler::{lemma_step_then_deliver, deliver, handled_encryption, step_outcome, Handler, PacketHandler, Step};
use crate::handle::util::state::PacketState;
use crate::net::packet::{Intent, Packet};
use vstd::prelude::*;

verus! {

/// Takes an intent and hands over to the handler it names; also takes the
/// peer's key.
#[derive(Clone, Copy, Debug, PartialEq, Eq, Structural)]
pub struct IntentPacketHandler;

impl IntentPacketHandler {
    /// Takes the peer's key, completing the exchange, and keeps waiting; or
    /// takes an intent and hands over to the handler it names. Queues nothing.
    /// Refuses every other packet.
    pub fn step(self, packet: Packet, encryption: &mut EncryptionHandler) -> (r: Result<Step, HandlerError>)
        requires
            packet is CommonKeyPacket ==> old(encryption).x25_secret is Some,
        ensures
            step_outcome(Handler::Intent(self), packet, Seq::empty(), r),
            handled_encryption(Handler::Intent(self), packet, *old(encryption), *final(encryption)),
    {
        match packet {
            Packet::CommonKeyPacket(public) => {
                if encryption.complete_exchange(public).is_err() {
                    return Err(HandlerError::IOError);
                }
                Ok(Step { next: Handler::Intent(self), message: None, command: None })
            },
            Packet::ServerboundIntentPacket(intent) => {
                let next = match intent {
                    Intent::Fwd => ForwardPacketHandler::new_handler(),
                    Intent::Sync => SyncPacketHandler::new_handler(),
                };
                Ok(Step { next, message: None, command: None })
            },
            _ => Err(HandlerError::PacketOrderError),
        }
    }
}

impl PacketHandler for IntentPacketHandler {
    open spec fn as_handler(self) -> Handler {
        Handler::Intent(self)
    }

    fn new_handler() -> (r: Handler)
        ensures
            r == Handler::Intent(IntentPacketHandler),
    {
        Handler::Intent(IntentPacketHandler {})
    }

    fn handle(self, packet: Packet, state: &mut PacketState, encryption: &mut EncryptionHandler) -> (r: Result<Handler, HandlerError>) {
        match self.step(packet, encryption) {
            Ok(s) => {
                let ghost oc = state.channel.sent();
                let ghost ok = state.controller.sent();
                let r = deliver(s, state);
                proof {
                    lemma_step_then_deliver(Handler::Intent(self), packet, state.origin@, s, oc, state.channel.sent(), ok, state.controller.sent(), r);
                }
                r
            },
            Err(e) => Err(e),
        }
    }
}

} // verus!
