//! The first handler: the peer's key.
use crate::encrypt::EncryptionHandler;
use crate::handle::handlers::intent::IntentPacketHandler;
use crate::handle::util::error::HandlerError;
use crate::handle::util::handler::{lemma_step_then_deliver, deliver, handled_encryption, step_outcome, Handler, PacketHandler, Step};
use crate::handle::util::state::PacketState;
use crate::net::packet::Packet;
use vstd::prelude::*;

verus! {

/// Takes the peer's key, then waits for an intent.
#[derive(Clone, Copy, Debug, PartialEq, Eq, Structural)]
pub struct SetupPacketHandler;

impl SetupPacketHandler {
    /// Takes the peer's key, completing the exchange, and waits for an
    /// intent; queues nothing. Refuses every other packet.
    pub fn step(self, packet: Packet, encryption: &mut EncryptionHandler) -> (r: Result<Step, HandlerError>)
        requires
            packet is CommonKeyPacket ==> old(encryption).x25_secret is Some,
        ensures
            step_outcome(Handler::Encrypt(self), packet, Seq::empty(), r),
            handled_encryption(Handler::Encrypt(self), packet, *old(encryption), *final(encryption)),
    {
        match packet {
            Packet::CommonKeyPacket(public) => {
                if encryption.complete_exchange(public).is_err() {
                    return Err(HandlerError::IOError);
                }
                Ok(Step { next: Handler::Intent(IntentPacketHandler {}), message: None, command: None })
            },
            _ => Err(HandlerError::PacketOrderError),
        }
    }
}

impl PacketHandler for SetupPacketHandler {
    open spec fn as_handler(self) -> Handler {
        Handler::Encrypt(self)
    }

    fn new_handler() -> (r: Handler)
        ensures
            r == Handler::Encrypt(SetupPacketHandler),
    {
        Handler::Encrypt(SetupPacketHandler {})
    }

    fn handle(self, packet: Packet, state: &mut PacketState, encryption: &mut EncryptionHandler) -> (r: Result<Handler, HandlerError>) {
        match self.step(packet, encryption) {
            Ok(s) => {
                let ghost oc = state.channel.sent();
                let ghost ok = state.controller.sent();
                let r = deliver(s, state);
                proof {
                    lemma_step_then_deliver(Handler::Encrypt(self), packet, state.origin@, s, oc, state.channel.sent(), ok, state.controller.sent(), r);
                }
                r
            },
            Err(e) => Err(e),
        }
    }
}

} // verus!
