//! The packet handlers of a connection: a state machine over the packets a
//! peer may send next.
pub mod fwd;
pub mod setup;
pub mod sync;

use crate::connection::packet::{Intent, Packet};
use crate::connection::state::{Channel, Message};
use crate::outbox::{handed, Outbox};
use crate::encrypt::{session_key, EncryptionHandler};
use crate::crypto::x25519_public_of;
use fwd::ForwardPacketHandler;
use setup::SetupPacketHandler;
use sync::SyncPacketHandler;
use vstd::prelude::*;

verus! {

type ControllerChannel = crate::control::state::Channel;

/// Why a packet could not be handled.
#[derive(Clone, Copy, Debug, PartialEq, Eq, Structural)]
pub enum HandlerError {
    /// The packet is not one the current handler accepts.
    PacketOrderError,
    /// A reply could not be queued.
    IOError,
}

/// The handler a connection is in.
#[derive(Clone, Copy, PartialEq, Eq, Structural)]
pub enum Handler {
    Setup(SetupPacketHandler),
    Fwd(ForwardPacketHandler),
    Sync(SyncPacketHandler),
}

/// What packet handlers may reach besides their connection.
pub struct PacketState {
    pub controller: ControllerChannel,
}

/// The handler an intent asks for.
pub open spec fn handler_for(intent: Intent) -> Handler {
    match intent {
        Intent::Fwd => Handler::Fwd(ForwardPacketHandler),
        Intent::Sync => Handler::Sync(SyncPacketHandler),
    }
}

/// The handler that follows `handler` on `packet`, or `None` when `handler`
/// does not accept `packet`.
pub open spec fn next_handler(handler: Handler, packet: Packet) -> Option<Handler> {
    match (handler, packet) {
        (Handler::Setup(_), Packet::CommonKeyPacket(_)) => Some(handler),
        (Handler::Setup(_), Packet::ServerboundIntentPacket(intent)) => Some(handler_for(intent)),
        (Handler::Fwd(_), Packet::ServerboundFwdDataPacket(_, _)) => Some(handler),
        (Handler::Sync(_), Packet::ServerboundSyncPacket(_)) => Some(handler),
        _ => None,
    }
}

/// Whether handling `packet` queues a message on the connection's channel.
pub open spec fn replies(handler: Handler, packet: Packet) -> bool {
    match (handler, packet) {
        (Handler::Fwd(_), Packet::ServerboundFwdDataPacket(_, _)) => true,
        (Handler::Sync(_), Packet::ServerboundSyncPacket(_)) => true,
        _ => false,
    }
}

/// Whether the encryption state is ready for `handler` to handle `packet`:
/// a key packet in setup uses up the X25519 secret, which must still be there.
pub open spec fn handle_ready(handler: Handler, packet: Packet, encrypt: EncryptionHandler) -> bool {
    (handler is Setup && packet is CommonKeyPacket) ==> encrypt.x25_secret is Some
}

/// What handling `packet` does to the encryption state: a key packet in
/// setup completes the exchange, every other packet leaves it unchanged.
pub open spec fn handled_encryption(
    handler: Handler,
    packet: Packet,
    old_e: EncryptionHandler,
    new_e: EncryptionHandler,
) -> bool {
    if handler is Setup && packet is CommonKeyPacket {
        let peer = packet->CommonKeyPacket_0;
        &&& new_e.x25_secret is None
        &&& new_e.aes_key() == Some(session_key(old_e.x25_secret->0@, peer@))
        &&& forall|b: Seq<u8>|
            b.len() == 32 && peer@ == #[trigger] x25519_public_of(b)
                ==> new_e.aes_key() == Some(session_key(b, x25519_public_of(old_e.x25_secret->0@)))
        &&& new_e.x25_public == old_e.x25_public
        &&& new_e.pgp_private == old_e.pgp_private
        &&& new_e.pgp_pass == old_e.pgp_pass
    } else {
        new_e == old_e
    }
}

/// The outcome of handling `packet` in `handler`: the next handler, a packet
/// order error, or, where a reply was due and could not be queued, an
/// input/output error.
pub open spec fn handle_outcome(handler: Handler, packet: Packet, r: Result<Handler, HandlerError>) -> bool {
    match next_handler(handler, packet) {
        None => r == Err::<Handler, HandlerError>(HandlerError::PacketOrderError),
        Some(next) => {
            ||| r == Ok::<Handler, HandlerError>(next)
            ||| (replies(handler, packet) && r == Err::<Handler, HandlerError>(HandlerError::IOError))
        },
    }
}

/// What handling one packet comes to: the next handler and a message to
/// queue on the connection's channel.
pub struct Step {
    pub next: Handler,
    pub message: Option<Message>,
}

/// Whether `s` is what `handler` does with `packet`: data to forward and a
/// host list each end the connection; every other accepted packet queues
/// nothing.
pub open spec fn is_step(handler: Handler, packet: Packet, s: Step) -> bool {
    &&& next_handler(handler, packet) == Some(s.next)
    &&& if replies(handler, packet) {
        s.message == Some(Message::End)
    } else {
        s.message is None
    }
}

/// The outcome of deciding what `handler` does with `packet`: a packet order
/// error exactly when the handler does not take it, and its step otherwise.
pub open spec fn step_outcome(handler: Handler, packet: Packet, r: Result<Step, HandlerError>) -> bool {
    match next_handler(handler, packet) {
        None => r matches Err(e) && e == HandlerError::PacketOrderError,
        Some(_) => r matches Ok(s) && is_step(handler, packet, s),
    }
}

/// What delivering a step comes to, from whether its message could be
/// queued (`true` where it had none): its next handler, or an input/output
/// error.
pub fn delivered(next: Handler, queued: bool) -> (r: Result<Handler, HandlerError>)
    ensures
        r == (if queued {
            Ok::<Handler, HandlerError>(next)
        } else {
            Err::<Handler, HandlerError>(HandlerError::IOError)
        }),
{
    if queued {
        Ok(next)
    } else {
        Err(HandlerError::IOError)
    }
}

/// Queues the step's message, if any, on `channel` and moves to its next
/// handler. A step with nothing to queue always succeeds; a message that
/// cannot be queued is an input/output error.
pub fn deliver(s: Step, channel: &mut Outbox<Message>) -> (r: Result<Handler, HandlerError>)
    ensures
        match s.message {
            Some(m) => handed(old(channel).sent(), final(channel).sent(), m),
            None => final(channel).sent() == old(channel).sent(),
        },
        r == if s.message is None || final(channel).sent().last().1 {
            Ok::<Handler, HandlerError>(s.next)
        } else {
            Err::<Handler, HandlerError>(HandlerError::IOError)
        },
{
    let queued = match s.message {
        Some(message) => channel.send(message),
        None => true,
    };
    delivered(s.next, queued)
}

/// What handling `packet` in `handler` hands to the connection's channel
/// (`oc` before, `nc` after): the connection's end after data to forward or a
/// host list, nothing otherwise.
pub open spec fn handled_sends(handler: Handler, packet: Packet, oc: Seq<(Message, bool)>, nc: Seq<(Message, bool)>) -> bool {
    if replies(handler, packet) {
        handed(oc, nc, Message::End)
    } else {
        nc == oc
    }
}

/// Whether the reply that handling `packet` in `handler` is due, if any, could
/// be queued, judging by what the connection's channel recorded (`nc`).
pub open spec fn reply_queued(handler: Handler, packet: Packet, nc: Seq<(Message, bool)>) -> bool {
    !replies(handler, packet) || nc.last().1
}

/// A handler of packets.
pub trait PacketHandler: Sized {
    /// The handler as a state of the connection.
    spec fn as_handler(self) -> Handler;

    /// A fresh handler of this kind.
    fn new_handler() -> Handler;

    /// Handles `packet`, queueing replies on `channel`; returns the handler
    /// for the next packet.
    fn handle(self, packet: Packet, channel: &mut Outbox<Message>, encrypt: &mut EncryptionHandler) -> (r: Result<Handler, HandlerError>)
        requires
            handle_ready(self.as_handler(), packet, *old(encrypt)),
        ensures
            handle_outcome(self.as_handler(), packet, r),
            handled_encryption(self.as_handler(), packet, *old(encrypt), *final(encrypt)),
            handled_sends(self.as_handler(), packet, old(channel).sent(), final(channel).sent()),
            next_handler(self.as_handler(), packet) is Some ==> (r is Ok <==> reply_queued(self.as_handler(), packet, final(channel).sent())),
    ;
}

impl Handler {
    /// The handler's name, as its debug output shows it.
    pub fn name(&self) -> (r: &'static str)
        ensures
            r@ == match self {
                Handler::Setup(_) => "Setup"@,
                Handler::Fwd(_) => "Fwd"@,
                Handler::Sync(_) => "Sync"@,
            },
    {
        match self {
            Handler::Setup(_) => "Setup",
            Handler::Fwd(_) => "Fwd",
            Handler::Sync(_) => "Sync",
        }
    }

    /// What the current handler does with `packet`.
    pub fn step(self, packet: Packet, encrypt: &mut EncryptionHandler) -> (r: Result<Step, HandlerError>)
        requires
            handle_ready(self, packet, *old(encrypt)),
        ensures
            step_outcome(self, packet, r),
            handled_encryption(self, packet, *old(encrypt), *final(encrypt)),
    {
        match self {
            Handler::Setup(handler) => handler.step(packet, encrypt),
            Handler::Fwd(handler) => handler.step(packet),
            Handler::Sync(handler) => handler.step(packet),
        }
    }

    /// Handles `packet` with the current handler; returns the next one.
    pub fn handle(self, packet: Packet, channel: &mut Outbox<Message>, encrypt: &mut EncryptionHandler) -> (r: Result<Handler, HandlerError>)
        requires
            handle_ready(self, packet, *old(encrypt)),
        ensures
            handle_outcome(self, packet, r),
            handled_encryption(self, packet, *old(encrypt), *final(encrypt)),
            handled_sends(self, packet, old(channel).sent(), final(channel).sent()),
            next_handler(self, packet) is Some ==> (r is Ok <==> reply_queued(self, packet, final(channel).sent())),
    {
        match self {
            Handler::Setup(handler) => handler.handle(packet, channel, encrypt),
            Handler::Fwd(handler) => handler.handle(packet, channel, encrypt),
            Handler::Sync(handler) => handler.handle(packet, channel, encrypt),
        }
    }
}

/// An intent packet in setup selects the handler the intent names.
pub proof fn lemma_intent_selects_handler(intent: Intent)
    ensures
        next_handler(Handler::Setup(SetupPacketHandler), Packet::ServerboundIntentPacket(intent))
            == Some(handler_for(intent)),
{
}

/// Setup accepts the peer's key and then an intent, which leads to the
/// handler the intent names.
pub proof fn lemma_handshake(key: [u8; 32], intent: Intent)
    ensures
        next_handler(Handler::Setup(SetupPacketHandler), Packet::CommonKeyPacket(key))
            == Some(Handler::Setup(SetupPacketHandler)),
        next_handler(
            next_handler(Handler::Setup(SetupPacketHandler), Packet::CommonKeyPacket(key))->0,
            Packet::ServerboundIntentPacket(intent),
        ) == Some(handler_for(intent)),
{
}

/// Once a connection has left setup it stays with the handler its intent
/// chose: every packet that handler accepts keeps it, every other is refused.
pub proof fn lemma_intent_handler_is_final(intent: Intent, packet: Packet)
    ensures
        next_handler(handler_for(intent), packet) is None
            || next_handler(handler_for(intent), packet) == Some(handler_for(intent)),
{
}

/// Handling a packet in the connection's handler is handling it in the
/// handler it holds: each handler, taken as the connection's state, is the
/// variant that holds it, so `Handler::handle` and the held handler's `handle`
/// promise the same.
pub proof fn lemma_handler_holds_its_handler(s: SetupPacketHandler, f: ForwardPacketHandler, y: SyncPacketHandler)
    ensures
        s.as_handler() == Handler::Setup(s),
        f.as_handler() == Handler::Fwd(f),
        y.as_handler() == Handler::Sync(y),
{
}

/// What the contract of `handle` promises fixes its result once the channel
/// has recorded what was handed to it: two results that both meet it on the
/// same record are equal. So `Handler::handle` and the held handler's
/// `handle`, which promise the same, come to the same result on the same
/// record.
pub proof fn lemma_handle_result_determined(
    handler: Handler,
    packet: Packet,
    nc: Seq<(Message, bool)>,
    r1: Result<Handler, HandlerError>,
    r2: Result<Handler, HandlerError>,
)
    requires
        handle_outcome(handler, packet, r1),
        handle_outcome(handler, packet, r2),
        next_handler(handler, packet) is Some ==> (r1 is Ok <==> reply_queued(handler, packet, nc)),
        next_handler(handler, packet) is Some ==> (r2 is Ok <==> reply_queued(handler, packet, nc)),
    ensures
        r1 == r2,
{
}

/// Each handler takes exactly the packets of its stage: setup the peer's key
/// and an intent, the forwarding handler data to forward, the sync handler a
/// host list. Handling any other packet, in any of them, fails with a packet
/// order error, whatever the outcome is otherwise.
pub proof fn lemma_handlers_refuse_other_packets(packet: Packet, r: Result<Handler, HandlerError>, d: Result<Step, HandlerError>)
    ensures
        next_handler(Handler::Setup(SetupPacketHandler), packet) is Some
            <==> (packet is CommonKeyPacket || packet is ServerboundIntentPacket),
        next_handler(Handler::Fwd(ForwardPacketHandler), packet) is Some <==> packet is ServerboundFwdDataPacket,
        next_handler(Handler::Sync(SyncPacketHandler), packet) is Some <==> packet is ServerboundSyncPacket,
        handle_outcome(Handler::Fwd(ForwardPacketHandler), packet, r) && !(packet is ServerboundFwdDataPacket)
            ==> r == Err::<Handler, HandlerError>(HandlerError::PacketOrderError),
        handle_outcome(Handler::Sync(SyncPacketHandler), packet, r) && !(packet is ServerboundSyncPacket)
            ==> r == Err::<Handler, HandlerError>(HandlerError::PacketOrderError),
        handle_outcome(Handler::Setup(SetupPacketHandler), packet, r)
            && !(packet is CommonKeyPacket || packet is ServerboundIntentPacket)
            ==> r == Err::<Handler, HandlerError>(HandlerError::PacketOrderError),
        step_outcome(Handler::Fwd(ForwardPacketHandler), packet, d) && !(packet is ServerboundFwdDataPacket)
            ==> d == Err::<Step, HandlerError>(HandlerError::PacketOrderError),
        step_outcome(Handler::Sync(SyncPacketHandler), packet, d) && !(packet is ServerboundSyncPacket)
            ==> d == Err::<Step, HandlerError>(HandlerError::PacketOrderError),
        step_outcome(Handler::Setup(SetupPacketHandler), packet, d)
            && !(packet is CommonKeyPacket || packet is ServerboundIntentPacket)
            ==> d == Err::<Step, HandlerError>(HandlerError::PacketOrderError),
{
}

/// Where each accepted packet leads: the peer's key keeps setup; the intent
/// to forward leads to the forwarding handler and the intent to sync to the
/// sync handler; data to forward and a host list keep their handler.
pub proof fn lemma_accepted_packets_lead_on(key: [u8; 32], id: u128, data: Vec<u8>, hosts: Vec<String>)
    ensures
        next_handler(Handler::Setup(SetupPacketHandler), Packet::CommonKeyPacket(key))
            == Some(Handler::Setup(SetupPacketHandler)),
        next_handler(Handler::Setup(SetupPacketHandler), Packet::ServerboundIntentPacket(Intent::Fwd))
            == Some(Handler::Fwd(ForwardPacketHandler)),
        next_handler(Handler::Setup(SetupPacketHandler), Packet::ServerboundIntentPacket(Intent::Sync))
            == Some(Handler::Sync(SyncPacketHandler)),
        next_handler(Handler::Fwd(ForwardPacketHandler), Packet::ServerboundFwdDataPacket(id, data))
            == Some(Handler::Fwd(ForwardPacketHandler)),
        next_handler(Handler::Sync(SyncPacketHandler), Packet::ServerboundSyncPacket(hosts))
            == Some(Handler::Sync(SyncPacketHandler)),
{
}

/// Only the request handlers reply, and only to their own packet: the
/// forwarding handler to data to forward and the sync handler to a host
/// list, each by ending the connection; handling it succeeds exactly when
/// that reply could be queued. No other handling hands anything over.
pub proof fn lemma_requests_end_the_connection(
    handler: Handler,
    packet: Packet,
    oc: Seq<(Message, bool)>,
    nc: Seq<(Message, bool)>,
    r: Result<Handler, HandlerError>,
)
    requires
        handle_outcome(handler, packet, r),
        handled_sends(handler, packet, oc, nc),
        next_handler(handler, packet) is Some ==> (r is Ok <==> reply_queued(handler, packet, nc)),
    ensures
        (handler is Fwd && packet is ServerboundFwdDataPacket) || (handler is Sync && packet is ServerboundSyncPacket)
            ==> nc.len() == oc.len() + 1 && nc == oc.push(nc.last()) && nc.last().0 == Message::End
                && (r is Ok <==> nc.last().1),
        !((handler is Fwd && packet is ServerboundFwdDataPacket) || (handler is Sync && packet is ServerboundSyncPacket))
            ==> nc == oc,
{
}

} // verus!
