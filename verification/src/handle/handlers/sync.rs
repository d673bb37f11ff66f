//! The handler of a host list the peer sends.
use crate::encrypt::EncryptionHandler;
use crate::handle::handlers::intent::IntentPacketHandler;
use crate::handle::util::error::HandlerError;
use crate::handle::util::handler::{lemma_step_then_deliver, deliver, step_outcome, Handler, PacketHandler, Step};
use crate::handle::util::state::PacketState;
use crate::net::packet::Packet;
use crate::net::state::Message;
use vstd::prelude::*;

verus! {

/// Takes the peer's host list, ends the request, and waits for the next
/// intent.
#[derive(Clone, Copy, Debug, PartialEq, Eq, Structural)]
pub struct SyncPacketHandler;

impl SyncPacketHandler {
    /// Takes the peer's host list: the request ends on the connection's
    /// channel and the next intent is awaited. Refuses every other packet.
    pub fn step(self, packet: Packet) -> (r: Result<Step, HandlerError>)
        ensures
            step_outcome(Handler::Sync(self), packet, Seq::empty(), r),
    {
        match packet {
            Packet::ServerboundSyncPacket(_) => Ok(Step {
                next: Handler::Intent(IntentPacketHandler {}),
                message: Some(Message::Packet(Packet::CommonEndSequencePacket)),
                command: None,
            }),
            _ => Err(HandlerError::PacketOrderError),
        }
    }
}

impl PacketHandler for SyncPacketHandler {
    open spec fn as_handler(self) -> Handler {
        Handler::Sync(self)
    }

    fn new_handler() -> (r: Handler)
        ensures
            r == Handler::Sync(SyncPacketHandler),
    {
        Handler::Sync(SyncPacketHandler {})
    }

    fn handle(self, packet: Packet, state: &mut PacketState, _encryption: &mut EncryptionHandler) -> (r: Result<Handler, HandlerError>) {
        match self.step(packet) {
            Ok(s) => {
                let ghost oc = state.channel.sent();
                let ghost ok = state.controller.sent();
                let r = deliver(s, state);
                proof {
                    lemma_step_then_deliver(Handler::Sync(self), packet, state.origin@, s, oc, state.channel.sent(), ok, state.controller.sent(), r);
                }
                r
            },
            Err(e) => Err(e),
        }
    }
}

} // verus!
