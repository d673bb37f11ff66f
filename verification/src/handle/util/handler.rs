//! The handler a connection is in, and its transitions.
use crate::crypto::x25519_public_of;
use crate::encrypt::{session_key, EncryptionHandler};
use crate::handle::handlers::fwd::ForwardPacketHandler;
use crate::handle::handlers::intent::IntentPacketHandler;
use crate::handle::handlers::setup::SetupPacketHandler;
use crate::handle::handlers::sync::SyncPacketHandler;
use crate::handle::util::error::HandlerError;
use crate::handle::util::state::PacketState;
use crate::outbox::handed;
use crate::control::state::Command;
use crate::net::packet::{Intent, Packet};
use crate::net::state::Message;
use vstd::prelude::*;

verus! {

/// The handler a connection is in.
#[derive(Clone, Copy, PartialEq, Eq, Structural)]
pub enum Handler {
    Encrypt(SetupPacketHandler),
    Fwd(ForwardPacketHandler),
    Sync(SyncPacketHandler),
    Intent(IntentPacketHandler),
}

/// The handler an intent asks for.
pub open spec fn handler_for(intent: Intent) -> Handler {
    match intent {
        Intent::Fwd => Handler::Fwd(ForwardPacketHandler),
        Intent::Sync => Handler::Sync(SyncPacketHandler),
    }
}

/// The handler that waits for the next intent.
pub open spec fn waiting() -> Handler {
    Handler::Intent(IntentPacketHandler)
}

/// The handler that follows `handler` on `packet`, or `None` when `handler`
/// does not accept `packet`.
pub open spec fn next_handler(handler: Handler, packet: Packet) -> Option<Handler> {
    match (handler, packet) {
        (Handler::Encrypt(_), Packet::CommonKeyPacket(_)) => Some(waiting()),
        (Handler::Intent(_), Packet::CommonKeyPacket(_)) => Some(waiting()),
        (Handler::Intent(_), Packet::ServerboundIntentPacket(intent)) => Some(handler_for(intent)),
        (Handler::Fwd(_), Packet::ServerboundFwdDataPacket(_, _)) => Some(waiting()),
        (Handler::Sync(_), Packet::ServerboundSyncPacket(_)) => Some(waiting()),
        _ => None,
    }
}

/// Whether handling `packet` queues a message or a command.
pub open spec fn replies(handler: Handler, packet: Packet) -> bool {
    match (handler, packet) {
        (Handler::Fwd(_), Packet::ServerboundFwdDataPacket(_, _)) => true,
        (Handler::Sync(_), Packet::ServerboundSyncPacket(_)) => true,
        _ => false,
    }
}

/// Whether `handler` takes `packet` as the peer's key.
pub open spec fn takes_key(handler: Handler, packet: Packet) -> bool {
    (handler is Encrypt || handler is Intent) && packet is CommonKeyPacket
}

/// Whether the encryption state is ready for `handler` to handle `packet`:
/// taking the peer's key uses up the X25519 secret, which must still be there.
pub open spec fn handle_ready(handler: Handler, packet: Packet, encrypt: EncryptionHandler) -> bool {
    takes_key(handler, packet) ==> encrypt.x25_secret is Some
}

/// What handling `packet` does to the encryption state: taking the peer's
/// key completes the exchange, every other packet leaves it unchanged.
pub open spec fn handled_encryption(
    handler: Handler,
    packet: Packet,
    old_e: EncryptionHandler,
    new_e: EncryptionHandler,
) -> bool {
    if takes_key(handler, packet) {
        let peer = packet->CommonKeyPacket_0;
        &&& new_e.x25_secret is None
        &&& new_e.aes_key() == Some(session_key(old_e.x25_secret->0@, peer@))
        &&& forall|b: Seq<u8>|
            b.len() == 32 && peer@ == #[trigger] x25519_public_of(b)
                ==> new_e.aes_key() == Some(session_key(b, x25519_public_of(old_e.x25_secret->0@)))
        &&& new_e.x25_public == old_e.x25_public
        &&& new_e.pgp_private == old_e.pgp_private
        &&& new_e.pgp_pass == old_e.pgp_pass
    } else {
        new_e == old_e
    }
}

/// The outcome of handling `packet` in `handler`: the next handler, a packet
/// order error, or, where a reply was due and could not be queued, an
/// input/output error.
pub open spec fn handle_outcome(handler: Handler, packet: Packet, r: Result<Handler, HandlerError>) -> bool {
    match next_handler(handler, packet) {
        None => r == Err::<Handler, HandlerError>(HandlerError::PacketOrderError),
        Some(next) => {
            ||| r == Ok::<Handler, HandlerError>(next)
            ||| (replies(handler, packet) && r == Err::<Handler, HandlerError>(HandlerError::IOError))
        },
    }
}

/// What handling one packet comes to: the next handler, a message to queue
/// on the connection's own channel, and then a command to queue for the
/// controller.
pub struct Step {
    pub next: Handler,
    pub message: Option<Message>,
    pub command: Option<Command>,
}

/// The message that ends the current request.
pub open spec fn end_of_request() -> Message {
    Message::Packet(Packet::CommonEndSequencePacket)
}

/// Whether `s` is what `handler` does with `packet` from the peer at
/// `origin`: data to forward ends the request and goes to the controller with
/// the peer's address, sequence id and bytes; a host list ends the request;
/// every other accepted packet queues nothing.
pub open spec fn is_step(handler: Handler, packet: Packet, origin: Seq<char>, s: Step) -> bool {
    &&& next_handler(handler, packet) == Some(s.next)
    &&& match (handler, packet) {
        (Handler::Fwd(_), Packet::ServerboundFwdDataPacket(id, data)) => {
            &&& s.message == Some(end_of_request())
            &&& s.command matches Some(Command::ForwardData { origin: o, id: i, data: d })
            &&& o@ == origin
            &&& i == id
            &&& d@ == data@
        },
        (Handler::Sync(_), Packet::ServerboundSyncPacket(_)) => {
            &&& s.message == Some(end_of_request())
            &&& s.command is None
        },
        _ => s.message is None && s.command is None,
    }
}

/// The outcome of deciding what `handler` does with `packet`: a packet order
/// error exactly when the handler does not take it, and its step otherwise.
pub open spec fn step_outcome(handler: Handler, packet: Packet, origin: Seq<char>, r: Result<Step, HandlerError>) -> bool {
    match next_handler(handler, packet) {
        None => r matches Err(e) && e == HandlerError::PacketOrderError,
        Some(_) => r matches Ok(s) && is_step(handler, packet, origin, s),
    }
}

/// What delivering a step comes to, from whether its message could be
/// queued and then whether its command could (`true` where there was nothing
/// to queue): its next handler when both could, an input/output error
/// otherwise.
pub fn delivered(next: Handler, message_queued: bool, command_queued: bool) -> (r: Result<Handler, HandlerError>)
    ensures
        r == (if message_queued && command_queued {
            Ok::<Handler, HandlerError>(next)
        } else {
            Err::<Handler, HandlerError>(HandlerError::IOError)
        }),
{
    if message_queued && command_queued {
        Ok(next)
    } else {
        Err(HandlerError::IOError)
    }
}

/// Whether the step's message, if it has one, could be queued, judging by
/// what the connection's channel recorded (`nc`).
pub open spec fn message_queued(s: Step, nc: Seq<(Message, bool)>) -> bool {
    s.message is None || nc.last().1
}

/// Whether the step's command, if it has one and was handed over, could be
/// queued, judging by what the controller's channel recorded (`nk`).
pub open spec fn command_queued(s: Step, nk: Seq<(Command, bool)>) -> bool {
    s.command is None || nk.last().1
}

/// Whether delivering `s` handed exactly its message to the connection's
/// channel (`oc` before, `nc` after) and its command to the controller (`ok`
/// before, `nk` after), and came to `r`: the command is handed over only when
/// the message could be queued; the outcome is the next handler when all
/// that was handed over could be queued, an input/output error otherwise.
pub open spec fn delivery(
    s: Step,
    oc: Seq<(Message, bool)>,
    nc: Seq<(Message, bool)>,
    ok: Seq<(Command, bool)>,
    nk: Seq<(Command, bool)>,
    r: Result<Handler, HandlerError>,
) -> bool {
    &&& match s.message {
        Some(m) => handed(oc, nc, m),
        None => nc == oc,
    }
    &&& match s.command {
        Some(c) => if message_queued(s, nc) {
            handed(ok, nk, c)
        } else {
            nk == ok
        },
        None => nk == ok,
    }
    &&& r == if message_queued(s, nc) && command_queued(s, nk) {
        Ok::<Handler, HandlerError>(s.next)
    } else {
        Err::<Handler, HandlerError>(HandlerError::IOError)
    }
}

/// Queues the step's message on the connection's channel, then its command
/// for the controller, and moves to its next handler. A step with nothing to
/// queue always succeeds; a message or command that cannot be queued is an
/// input/output error, and the command is not handed over after a failed
/// message.
pub fn deliver(s: Step, state: &mut PacketState) -> (r: Result<Handler, HandlerError>)
    ensures
        delivery(s, old(state).channel.sent(), final(state).channel.sent(), old(state).controller.sent(), final(state).controller.sent(), r),
        final(state).origin == old(state).origin,
{
    let message_queued = match s.message {
        Some(message) => state.channel.send(message),
        None => true,
    };
    if !message_queued {
        return delivered(s.next, false, true);
    }
    let command_queued = match s.command {
        Some(command) => state.controller.send(command),
        None => true,
    };
    delivered(s.next, message_queued, command_queued)
}

/// Whether `c` hands the controller the data `data` of sequence `id` that
/// arrived from the peer at `origin`.
pub open spec fn is_forward_command(c: Command, origin: Seq<char>, id: u128, data: Seq<u8>) -> bool {
    c matches Command::ForwardData { origin: o, id: i, data: d } && o@ == origin && i == id && d@ == data
}

/// What handling `packet` in `handler` for the peer at `origin` handed to the
/// connection's channel (`oc` before, `nc` after) and to the controller (`ok`
/// before, `nk` after), and what it came to: data to forward hands the end of
/// the request to the channel and then, if that could be queued, the data with
/// the peer's address and sequence id to the controller; a host list hands the
/// end of the request to the channel; each succeeds exactly when all it handed
/// over could be queued. Every other packet hands nothing over.
pub open spec fn handled_sends(
    handler: Handler,
    packet: Packet,
    origin: Seq<char>,
    oc: Seq<(Message, bool)>,
    nc: Seq<(Message, bool)>,
    ok: Seq<(Command, bool)>,
    nk: Seq<(Command, bool)>,
    r: Result<Handler, HandlerError>,
) -> bool {
    match (handler, packet) {
        (Handler::Fwd(_), Packet::ServerboundFwdDataPacket(id, data)) => {
            &&& handed(oc, nc, end_of_request())
            &&& if nc.last().1 {
                &&& nk.len() == ok.len() + 1
                &&& nk == ok.push(nk.last())
                &&& is_forward_command(nk.last().0, origin, id, data@)
                &&& r == if nk.last().1 {
                    Ok::<Handler, HandlerError>(waiting())
                } else {
                    Err::<Handler, HandlerError>(HandlerError::IOError)
                }
            } else {
                nk == ok && r == Err::<Handler, HandlerError>(HandlerError::IOError)
            }
        },
        (Handler::Sync(_), Packet::ServerboundSyncPacket(_)) => {
            &&& handed(oc, nc, end_of_request())
            &&& nk == ok
            &&& r == if nc.last().1 {
                Ok::<Handler, HandlerError>(waiting())
            } else {
                Err::<Handler, HandlerError>(HandlerError::IOError)
            }
        },
        _ => nc == oc && nk == ok,
    }
}

/// Handling `packet` is deciding its step and delivering it: the outcome and
/// what was handed to each channel follow.
pub proof fn lemma_step_then_deliver(
    handler: Handler,
    packet: Packet,
    origin: Seq<char>,
    s: Step,
    oc: Seq<(Message, bool)>,
    nc: Seq<(Message, bool)>,
    ok: Seq<(Command, bool)>,
    nk: Seq<(Command, bool)>,
    r: Result<Handler, HandlerError>,
)
    requires
        is_step(handler, packet, origin, s),
        delivery(s, oc, nc, ok, nk, r),
    ensures
        handle_outcome(handler, packet, r),
        handled_sends(handler, packet, origin, oc, nc, ok, nk, r),
{
    match (handler, packet) {
        (Handler::Fwd(_), Packet::ServerboundFwdDataPacket(id, data)) => {
            if nc.last().1 {
                assert(nk.last().0 == s.command->0);
            }
        },
        _ => {},
    }
}

/// A handler of packets.
pub trait PacketHandler: Sized {
    /// The handler as a state of the connection.
    spec fn as_handler(self) -> Handler;

    /// A fresh handler of this kind.
    fn new_handler() -> Handler;

    /// Handles `packet`; returns the handler for the next packet.
    fn handle(self, packet: Packet, state: &mut PacketState, encryption: &mut EncryptionHandler) -> (r: Result<Handler, HandlerError>)
        requires
            handle_ready(self.as_handler(), packet, *old(encryption)),
        ensures
            handle_outcome(self.as_handler(), packet, r),
            handled_encryption(self.as_handler(), packet, *old(encryption), *final(encryption)),
            handled_sends(self.as_handler(), packet, old(state).origin@, old(state).channel.sent(), final(state).channel.sent(), old(state).controller.sent(), final(state).controller.sent(), r),
            final(state).origin == old(state).origin,
    ;
}

impl Handler {
    /// The handler's name, as its debug output shows it.
    pub fn name(&self) -> (r: &'static str)
        ensures
            r@ == match self {
                Handler::Encrypt(_) => "Encrypt"@,
                Handler::Fwd(_) => "Fwd"@,
                Handler::Sync(_) => "Sync"@,
                Handler::Intent(_) => "Intent"@,
            },
    {
        match self {
            Handler::Encrypt(_) => "Encrypt",
            Handler::Fwd(_) => "Fwd",
            Handler::Sync(_) => "Sync",
            Handler::Intent(_) => "Intent",
        }
    }

    /// What the current handler does with `packet` from the peer at `origin`.
    pub fn step(self, packet: Packet, origin: &str, encryption: &mut EncryptionHandler) -> (r: Result<Step, HandlerError>)
        requires
            handle_ready(self, packet, *old(encryption)),
        ensures
            step_outcome(self, packet, origin@, r),
            handled_encryption(self, packet, *old(encryption), *final(encryption)),
    {
        match self {
            Handler::Encrypt(handler) => handler.step(packet, encryption),
            Handler::Fwd(handler) => handler.step(packet, origin),
            Handler::Sync(handler) => handler.step(packet),
            Handler::Intent(handler) => handler.step(packet, encryption),
        }
    }

    /// Handles `packet` with the current handler; returns the next one.
    pub fn handle(self, packet: Packet, state: &mut PacketState, encryption: &mut EncryptionHandler) -> (r: Result<Handler, HandlerError>)
        requires
            handle_ready(self, packet, *old(encryption)),
        ensures
            handle_outcome(self, packet, r),
            handled_encryption(self, packet, *old(encryption), *final(encryption)),
            handled_sends(self, packet, old(state).origin@, old(state).channel.sent(), final(state).channel.sent(), old(state).controller.sent(), final(state).controller.sent(), r),
            final(state).origin == old(state).origin,
            !replies(self, packet) && next_handler(self, packet) is Some ==> r is Ok,
    {
        match self {
            Handler::Encrypt(handler) => handler.handle(packet, state, encryption),
            Handler::Fwd(handler) => handler.handle(packet, state, encryption),
            Handler::Sync(handler) => handler.handle(packet, state, encryption),
            Handler::Intent(handler) => handler.handle(packet, state, encryption),
        }
    }
}

/// A new connection must first take the peer's key; it then waits for an
/// intent, which selects the handler the intent names.
pub proof fn lemma_key_then_intent(key: [u8; 32], intent: Intent, packet: Packet)
    ensures
        !(packet is CommonKeyPacket) ==> next_handler(Handler::Encrypt(SetupPacketHandler), packet) is None,
        next_handler(Handler::Encrypt(SetupPacketHandler), Packet::CommonKeyPacket(key)) == Some(waiting()),
        next_handler(waiting(), Packet::ServerboundIntentPacket(intent)) == Some(handler_for(intent)),
{
}

/// Every request ends where it started: the handler an intent selected goes
/// back to waiting for the next intent on the one packet it accepts, and
/// refuses every other packet.
pub proof fn lemma_request_returns_to_waiting(intent: Intent, packet: Packet)
    ensures
        next_handler(handler_for(intent), packet) is None
            || next_handler(handler_for(intent), packet) == Some(waiting()),
{
}

/// Handling a packet in the connection's handler is handling it in the
/// handler it holds: each handler, taken as the connection's state, is the
/// variant that holds it, so `Handler::handle` and the held handler's `handle`
/// promise the same.
pub proof fn lemma_handler_holds_its_handler(
    s: SetupPacketHandler,
    f: ForwardPacketHandler,
    y: SyncPacketHandler,
    i: IntentPacketHandler,
)
    ensures
        s.as_handler() == Handler::Encrypt(s),
        f.as_handler() == Handler::Fwd(f),
        y.as_handler() == Handler::Sync(y),
        i.as_handler() == Handler::Intent(i),
{
}

/// What the contract of `handle` promises fixes its result once the two
/// channels have recorded what was handed to them: two results that both
/// meet it on the same records are equal. So `Handler::handle` and the held
/// handler's `handle`, which promise the same, come to the same result on the
/// same records.
pub proof fn lemma_handle_result_determined(
    handler: Handler,
    packet: Packet,
    origin: Seq<char>,
    oc: Seq<(Message, bool)>,
    nc: Seq<(Message, bool)>,
    ok: Seq<(Command, bool)>,
    nk: Seq<(Command, bool)>,
    r1: Result<Handler, HandlerError>,
    r2: Result<Handler, HandlerError>,
)
    requires
        handle_outcome(handler, packet, r1),
        handle_outcome(handler, packet, r2),
        handled_sends(handler, packet, origin, oc, nc, ok, nk, r1),
        handled_sends(handler, packet, origin, oc, nc, ok, nk, r2),
    ensures
        r1 == r2,
{
}

/// Each handler takes exactly the packets of its stage: a new connection
/// the peer's key, the waiting handler the peer's key or an intent, the
/// forwarding handler data to forward, the sync handler a host list. Handling
/// any other packet, in any of them, fails with a packet order error and
/// queues nothing, whatever the outcome is otherwise.
pub proof fn lemma_handlers_refuse_other_packets(
    packet: Packet,
    origin: Seq<char>,
    r: Result<Handler, HandlerError>,
    d: Result<Step, HandlerError>,
)
    ensures
        next_handler(Handler::Encrypt(SetupPacketHandler), packet) is Some <==> packet is CommonKeyPacket,
        next_handler(Handler::Intent(IntentPacketHandler), packet) is Some
            <==> (packet is CommonKeyPacket || packet is ServerboundIntentPacket),
        next_handler(Handler::Fwd(ForwardPacketHandler), packet) is Some <==> packet is ServerboundFwdDataPacket,
        next_handler(Handler::Sync(SyncPacketHandler), packet) is Some <==> packet is ServerboundSyncPacket,
        handle_outcome(Handler::Encrypt(SetupPacketHandler), packet, r) && !(packet is CommonKeyPacket)
            ==> r == Err::<Handler, HandlerError>(HandlerError::PacketOrderError),
        handle_outcome(Handler::Intent(IntentPacketHandler), packet, r)
            && !(packet is CommonKeyPacket || packet is ServerboundIntentPacket)
            ==> r == Err::<Handler, HandlerError>(HandlerError::PacketOrderError),
        handle_outcome(Handler::Fwd(ForwardPacketHandler), packet, r) && !(packet is ServerboundFwdDataPacket)
            ==> r == Err::<Handler, HandlerError>(HandlerError::PacketOrderError),
        handle_outcome(Handler::Sync(SyncPacketHandler), packet, r) && !(packet is ServerboundSyncPacket)
            ==> r == Err::<Handler, HandlerError>(HandlerError::PacketOrderError),
        step_outcome(Handler::Encrypt(SetupPacketHandler), packet, origin, d) && !(packet is CommonKeyPacket)
            ==> (d matches Err(e) && e == HandlerError::PacketOrderError),
        step_outcome(Handler::Intent(IntentPacketHandler), packet, origin, d)
            && !(packet is CommonKeyPacket || packet is ServerboundIntentPacket)
            ==> (d matches Err(e) && e == HandlerError::PacketOrderError),
        step_outcome(Handler::Fwd(ForwardPacketHandler), packet, origin, d) && !(packet is ServerboundFwdDataPacket)
            ==> (d matches Err(e) && e == HandlerError::PacketOrderError),
        step_outcome(Handler::Sync(SyncPacketHandler), packet, origin, d) && !(packet is ServerboundSyncPacket)
            ==> (d matches Err(e) && e == HandlerError::PacketOrderError),
{
}

/// Where each accepted packet leads: the peer's key, in a new connection or
/// while waiting, leads to waiting for an intent; the intent to forward leads
/// to the forwarding handler and the intent to sync to the sync handler; data
/// to forward and a host list each end the request and lead back to waiting.
pub proof fn lemma_accepted_packets_lead_on(key: [u8; 32], id: u128, data: Vec<u8>, hosts: Vec<String>)
    ensures
        next_handler(Handler::Encrypt(SetupPacketHandler), Packet::CommonKeyPacket(key))
            == Some(Handler::Intent(IntentPacketHandler)),
        next_handler(Handler::Intent(IntentPacketHandler), Packet::CommonKeyPacket(key))
            == Some(Handler::Intent(IntentPacketHandler)),
        next_handler(Handler::Intent(IntentPacketHandler), Packet::ServerboundIntentPacket(Intent::Fwd))
            == Some(Handler::Fwd(ForwardPacketHandler)),
        next_handler(Handler::Intent(IntentPacketHandler), Packet::ServerboundIntentPacket(Intent::Sync))
            == Some(Handler::Sync(SyncPacketHandler)),
        next_handler(Handler::Fwd(ForwardPacketHandler), Packet::ServerboundFwdDataPacket(id, data))
            == Some(Handler::Intent(IntentPacketHandler)),
        next_handler(Handler::Sync(SyncPacketHandler), Packet::ServerboundSyncPacket(hosts))
            == Some(Handler::Intent(IntentPacketHandler)),
{
}

/// What the request handlers hand over: data to forward ends the request on
/// the connection's channel and, once that is queued, gives the controller
/// one command with the peer's address, the sequence id and the data;
/// handling succeeds, going back to waiting, exactly when both were queued. A
/// host list ends the request and gives the controller nothing. No other
/// handling hands anything over.
pub proof fn lemma_requests_hand_over(
    handler: Handler,
    packet: Packet,
    origin: Seq<char>,
    oc: Seq<(Message, bool)>,
    nc: Seq<(Message, bool)>,
    ok: Seq<(Command, bool)>,
    nk: Seq<(Command, bool)>,
    r: Result<Handler, HandlerError>,
    id: u128,
    data: Vec<u8>,
    hosts: Vec<String>,
)
    requires
        handled_sends(handler, packet, origin, oc, nc, ok, nk, r),
    ensures
        handler is Fwd && packet == Packet::ServerboundFwdDataPacket(id, data) ==> {
            &&& nc.len() == oc.len() + 1
            &&& nc.last().0 == Message::Packet(Packet::CommonEndSequencePacket)
            &&& nc.last().1 ==> nk.len() == ok.len() + 1 && (nk.last().0 matches Command::ForwardData {
                origin: o,
                id: i,
                data: d,
            } && o@ == origin && i == id && d@ == data@)
            &&& (r == Ok::<Handler, HandlerError>(Handler::Intent(IntentPacketHandler)) <==> (nc.last().1 && nk.last().1))
            &&& !(r is Ok) ==> r == Err::<Handler, HandlerError>(HandlerError::IOError)
        },
        handler is Sync && packet == Packet::ServerboundSyncPacket(hosts) ==> {
            &&& nc.len() == oc.len() + 1
            &&& nc.last().0 == Message::Packet(Packet::CommonEndSequencePacket)
            &&& nk == ok
            &&& (r == Ok::<Handler, HandlerError>(Handler::Intent(IntentPacketHandler)) <==> nc.last().1)
        },
        !((handler is Fwd && packet is ServerboundFwdDataPacket) || (handler is Sync && packet is ServerboundSyncPacket))
            ==> nc == oc && nk == ok,
{
}

} // verus!
