//! The handler of a forwarding request.
use crate::control::state::Command;
use crate::encrypt::EncryptionHandler;
use crate::handle::handlers::intent::IntentPacketHandler;
use crate::handle::util::error::HandlerError;
use crate::handle::util::handler::{lemma_step_then_deliver, deliver, step_outcome, Handler, PacketHandler, Step};
use crate::handle::util::state::PacketState;
use crate::net::packet::Packet;
use crate::net::state::Message;
use vstd::prelude::*;

verus! {

/// Takes the data to forward: ends the request, passes the data to the
/// controller with the peer's address, and waits for the next intent.
#[derive(Clone, Copy, Debug, PartialEq, Eq, Structural)]
pub struct ForwardPacketHandler;

impl ForwardPacketHandler {
    /// Takes the data to forward from the peer at `origin`: the request ends
    /// on the connection's channel, the controller is given the address,
    /// sequence id and data, and the next intent is awaited. Refuses every
    /// other packet.
    pub fn step(self, packet: Packet, origin: &str) -> (r: Result<Step, HandlerError>)
        ensures
            step_outcome(Handler::Fwd(self), packet, origin@, r),
    {
        match packet {
            Packet::ServerboundFwdDataPacket(id, data) => {
                let command = Command::ForwardData { origin: origin.to_owned(), id, data };
                Ok(Step {
                    next: Handler::Intent(IntentPacketHandler {}),
                    message: Some(Message::Packet(Packet::CommonEndSequencePacket)),
                    command: Some(command),
                })
            },
            _ => Err(HandlerError::PacketOrderError),
        }
    }
}

impl PacketHandler for ForwardPacketHandler {
    open spec fn as_handler(self) -> Handler {
        Handler::Fwd(self)
    }

    fn new_handler() -> (r: Handler)
        ensures
            r == Handler::Fwd(ForwardPacketHandler),
    {
        Handler::Fwd(ForwardPacketHandler {})
    }

    fn handle(self, packet: Packet, state: &mut PacketState, _encryption: &mut EncryptionHandler) -> (r: Result<Handler, HandlerError>) {
        match self.step(packet, state.origin) {
            Ok(s) => {
                let ghost oc = state.channel.sent();
                let ghost ok = state.controller.sent();
                let r = deliver(s, state);
                proof {
                    lemma_step_then_deliver(Handler::Fwd(self), packet, state.origin@, s, oc, state.channel.sent(), ok, state.controller.sent(), r);
                }
                r
            },
            Err(e) => Err(e),
        }
    }
}

} // verus!
