//! A connection to a peer: the decisions of its event loop. Reading and
//! writing the socket, and decoding packets, are the caller's.
pub mod handler;
pub mod packet;
pub mod state;

use crate::connection::handler::setup::SetupPacketHandler;
use crate::connection::handler::{
    HandlerError, handle_outcome, handle_ready, handled_encryption, handled_sends, next_handler, reply_queued, Handler, PacketHandler,
};
use crate::connection::packet::Packet;
use crate::connection::state::{ConnectionError, ConnectionState, Message};
use crate::outbox::Outbox;
use crate::crypto::x25519_public_of;
use crate::encrypt::aes::Aes;
use crate::encrypt::{EncryptError, EncryptionHandler, GlobalKeys};
use crate::primitives::{aes256gcm_open, aes256gcm_seal, aes_gcm_max_plaintext};
use vstd::prelude::*;

verus! {

/// Whether the callback is due: keys have gone both ways and it has not run.
pub open spec fn callback_due<C>(s: ConnectionState<C>) -> bool {
    s.sent_key && s.recv_key && s.callback is Some
}

/// The state after asking for the callback, and the callback handed out.
pub open spec fn after_invoke<C>(s: ConnectionState<C>) -> (ConnectionState<C>, Option<C>) {
    if callback_due(s) {
        (ConnectionState { callback: None, ..s }, s.callback)
    } else {
        (s, None)
    }
}

impl<C> ConnectionState<C> {
    /// The state of a new connection: a fresh encryption handler with the
    /// node's PGP key material, the setup handler, no key sent or received yet.
    pub fn new(keys: &GlobalKeys, callback: Option<C>) -> (r: Self)
        ensures
            r.handler == Handler::Setup(SetupPacketHandler),
            !r.sent_key,
            !r.recv_key,
            r.callback == callback,
            r.encryption.aes_key() is None,
            r.encryption.x25_secret is Some,
            r.encryption.x25_public is Some,
            r.encryption.x25_public->0@ == x25519_public_of(r.encryption.x25_secret->0@),
            r.encryption.pgp_private@ == keys.private_key_view(),
            r.encryption.pgp_pass@ == keys.passphrase_view(),
    {
        ConnectionState {
            encryption: EncryptionHandler::from(keys),
            handler: SetupPacketHandler::new_handler(),
            sent_key: false,
            recv_key: false,
            callback,
        }
    }

    /// Hands out the callback once keys have gone both ways; afterwards, and
    /// before, hands out nothing.
    pub fn invoke_callback(&mut self) -> (r: Option<C>)
        ensures
            (*final(self), r) == after_invoke(*old(self)),
    {
        if !self.sent_key || !self.recv_key {
            return None;
        }
        self.callback.take()
    }

    /// Notes that the peer's key arrived; hands out the callback if now due.
    pub fn on_key_received(&mut self) -> (r: Option<C>)
        ensures
            (*final(self), r) == after_invoke(ConnectionState { recv_key: true, ..*old(self) }),
    {
        self.recv_key = true;
        self.invoke_callback()
    }

    /// The packet that starts the exchange: this end's public value, which
    /// is used up.
    pub fn start_exchange(&mut self) -> (r: Packet)
        requires
            old(self).encryption.x25_public is Some,
        ensures
            r == Packet::CommonKeyPacket(old(self).encryption.x25_public->0),
            *final(self) == (ConnectionState {
                encryption: EncryptionHandler { x25_public: None, ..old(self).encryption },
                ..*old(self)
            }),
    {
        let public = self.encryption.x25_public.take().unwrap();
        Packet::CommonKeyPacket(public)
    }

    /// Notes that this end's key went out; hands out the callback if now due.
    pub fn on_key_sent(&mut self) -> (r: Option<C>)
        ensures
            (*final(self), r) == after_invoke(ConnectionState { sent_key: true, ..*old(self) }),
    {
        self.sent_key = true;
        self.invoke_callback()
    }

    /// Passes a decoded packet to the current handler and moves to the next.
    pub fn handle_packet(&mut self, packet: Packet, input: &mut Outbox<Message>) -> (r: Result<(), ConnectionError>)
        requires
            handle_ready(old(self).handler, packet, old(self).encryption),
        ensures
            handled_encryption(old(self).handler, packet, old(self).encryption, final(self).encryption),
            match r {
                Ok(()) => handle_outcome(old(self).handler, packet, Ok(final(self).handler)),
                Err(ConnectionError::HandlerError(e)) => handle_outcome(old(self).handler, packet, Err(e)),
                Err(_) => false,
            },
            r is Err ==> final(self).handler == old(self).handler,
            handled_sends(old(self).handler, packet, old(input).sent(), final(input).sent()),
            next_handler(old(self).handler, packet) is Some ==> (r is Ok <==> reply_queued(old(self).handler, packet, final(input).sent())),
            final(self).sent_key == old(self).sent_key,
            final(self).recv_key == old(self).recv_key,
            final(self).callback == old(self).callback,
    {
        match self.handler.handle(packet, input, &mut self.encryption) {
            Ok(next) => {
                self.handler = next;
                Ok(())
            },
            Err(e) => Err(ConnectionError::HandlerError(e)),
        }
    }

    /// Decrypts the payload of an encrypted packet.
    pub fn open_encrypted(&self, data: &[u8], nonce: [u8; 12]) -> (r: Result<Vec<u8>, ConnectionError>)
        requires
            self.encryption.cipher is Some,
        ensures
            match aes256gcm_open(self.encryption.aes_key()->0, nonce@, data@) {
                Some(p) => r matches Ok(q) && q@ == p,
                None => r == Err::<Vec<u8>, ConnectionError>(
                    ConnectionError::EncryptError(crate::encrypt::EncryptError::AesDecryptError),
                ),
            },
    {
        match self.encryption.decrypt(data, nonce) {
            Ok(p) => Ok(p),
            Err(e) => Err(ConnectionError::EncryptError(e)),
        }
    }

    /// Encrypts an encoded packet under a fresh nonce, ready to be written.
    pub fn seal(&self, data: &[u8]) -> (r: Result<Packet, ConnectionError>)
        requires
            self.encryption.cipher is Some,
        ensures
            (data@.len() <= aes_gcm_max_plaintext()) == (r is Ok),
            r is Err ==> r == Err::<Packet, ConnectionError>(
                ConnectionError::EncryptError(crate::encrypt::EncryptError::AesEncryptError),
            ),
            r matches Ok(p) ==> p matches Packet::EncryptedPacket(c, n) && {
                &&& c@ == aes256gcm_seal(self.encryption.aes_key()->0, n@, data@)
                &&& c@.len() == data@.len() + 16
                &&& aes256gcm_open(self.encryption.aes_key()->0, n@, c@) == Some(data@)
            },
    {
        match self.encryption.encrypt(data) {
            Ok((nonce, encrypted)) => Ok(Packet::EncryptedPacket(encrypted, nonce)),
            Err(e) => Err(ConnectionError::EncryptError(e)),
        }
    }
}

/// What a connection's event loop is handed: an event from its channel, or
/// what came of an action it was asked to carry out.
pub enum Event {
    /// An event from the connection's channel.
    Message(Message),
    /// The packet decoded from the plaintext of an encrypted packet.
    Decoded(Packet),
    /// The encoding of a packet that is to leave encrypted.
    Encoded(Vec<u8>),
    /// A packet whose key, if it carried one, has already been noted.
    Noted(Packet),
    /// The plaintext of an encrypted packet did not decode as a packet.
    Undecodable,
    /// A packet to send could not be encoded.
    Unencodable,
}

/// What a connection's event loop does next.
pub enum Action<C> {
    /// Wait for the next event.
    Continue,
    /// Decode the bytes as a packet and hand it back as `Event::Decoded`.
    Decode(Vec<u8>),
    /// Encode the packet and hand the bytes back as `Event::Encoded`.
    Encode(Packet),
    /// Write the packet to the peer.
    Write(Packet),
    /// Write this end's key to the peer, then run the callback if there is
    /// one. A failed write is reported as a serialization error.
    WriteKey(Packet, Option<C>),
    /// Run the callback, then hand the packet back as `Event::Noted`.
    Callback(C, Packet),
    /// Close the connection, cleanly or with an error.
    Stop(Result<(), ConnectionError>),
}

/// The state after a packet arrives and, if it carries the peer's key, the
/// key is noted; with the callback that noting hands out.
pub open spec fn noted<C>(s: ConnectionState<C>, packet: Packet) -> (ConnectionState<C>, Option<C>) {
    if packet is CommonKeyPacket {
        after_invoke(ConnectionState { recv_key: true, ..s })
    } else {
        (s, None)
    }
}

/// Whether `s` may take `event`: an encrypted packet arrives, and a packet
/// leaves encrypted, only after the key exchange; the exchange starts once;
/// and a packet handed to the setup handler as a key finds the X25519 secret
/// still there.
pub open spec fn step_ready<C>(s: ConnectionState<C>, event: Event) -> bool {
    match event {
        Event::Message(Message::Packet(p)) => if p is EncryptedPacket {
            s.encryption.cipher is Some
        } else {
            handle_ready(s.handler, p, s.encryption)
        },
        Event::Message(Message::StartExchange) => s.encryption.x25_public is Some,
        Event::Decoded(p) => handle_ready(s.handler, p, s.encryption),
        Event::Noted(p) => handle_ready(s.handler, p, s.encryption),
        Event::Encoded(_) => s.encryption.cipher is Some,
        _ => true,
    }
}

/// What handing `packet` to the current handler of `s` comes to: the next
/// handler and nothing more, or a stop with the handler's error, the handler
/// then unchanged. Only a key in setup changes the encryption state.
pub open spec fn handled<C>(
    s: ConnectionState<C>,
    t: ConnectionState<C>,
    packet: Packet,
    oc: Seq<(Message, bool)>,
    nc: Seq<(Message, bool)>,
    r: Action<C>,
) -> bool {
    &&& handled_encryption(s.handler, packet, s.encryption, t.encryption)
    &&& handled_sends(s.handler, packet, oc, nc)
    &&& next_handler(s.handler, packet) is Some ==> (r is Continue <==> reply_queued(s.handler, packet, nc))
    &&& t.sent_key == s.sent_key
    &&& t.recv_key == s.recv_key
    &&& t.callback == s.callback
    &&& match r {
        Action::Continue => handle_outcome(s.handler, packet, Ok(t.handler)),
        Action::Stop(Err(ConnectionError::HandlerError(e))) => handle_outcome(s.handler, packet, Err(e))
            && t.handler == s.handler,
        _ => false,
    }
}

/// What a decoded packet that arrives comes to: its key is noted first; when
/// that hands out the callback, the callback runs before the packet is
/// handled; otherwise the packet is handled at once.
pub open spec fn arrived<C>(
    s: ConnectionState<C>,
    t: ConnectionState<C>,
    packet: Packet,
    oc: Seq<(Message, bool)>,
    nc: Seq<(Message, bool)>,
    r: Action<C>,
) -> bool {
    match noted(s, packet).1 {
        Some(cb) => r == Action::Callback(cb, packet) && t == noted(s, packet).0 && nc == oc,
        None => handled(noted(s, packet).0, t, packet, oc, nc, r),
    }
}

/// What `event` comes to in state `s`, with `t` the state after it and `oc`,
/// `nc` what had been handed to the connection's channel before and after.
/// Only a packet handed to the handler hands anything to the channel.
pub open spec fn step_outcome<C>(
    s: ConnectionState<C>,
    event: Event,
    t: ConnectionState<C>,
    oc: Seq<(Message, bool)>,
    nc: Seq<(Message, bool)>,
    r: Action<C>,
) -> bool {
    &&& match event {
        Event::Message(Message::Packet(Packet::EncryptedPacket(_, _))) => nc == oc,
        Event::Message(Message::Packet(_)) | Event::Decoded(_) | Event::Noted(_) => true,
        _ => nc == oc,
    }
    &&& match event {
        Event::Message(Message::Packet(p)) => match p {
            Packet::EncryptedPacket(bytes, nonce) => t == s && match aes256gcm_open(s.encryption.aes_key()->0, nonce@, bytes@) {
                Some(b) => r matches Action::Decode(c) && c@ == b,
                None => r == Action::<C>::Stop(Err(ConnectionError::EncryptError(EncryptError::AesDecryptError))),
            },
            _ => arrived(s, t, p, oc, nc, r),
        },
        Event::Decoded(p) => arrived(s, t, p, oc, nc, r),
        Event::Noted(p) => handled(s, t, p, oc, nc, r),
        Event::Message(Message::StartExchange) => {
            let sent = ConnectionState {
                encryption: EncryptionHandler { x25_public: None, ..s.encryption },
                sent_key: true,
                ..s
            };
            &&& r == Action::WriteKey(Packet::CommonKeyPacket(s.encryption.x25_public->0), after_invoke(sent).1)
            &&& t == after_invoke(sent).0
        },
        Event::Message(Message::SendPacket(p)) => t == s && r == Action::<C>::Encode(p),
        Event::Encoded(data) => t == s && if data@.len() <= aes_gcm_max_plaintext() {
            r matches Action::Write(p) && p matches Packet::EncryptedPacket(c, n) && {
                &&& c@ == aes256gcm_seal(s.encryption.aes_key()->0, n@, data@)
                &&& c@.len() == data@.len() + 16
                &&& aes256gcm_open(s.encryption.aes_key()->0, n@, c@) == Some(data@)
            }
        } else {
            r == Action::<C>::Stop(Err(ConnectionError::EncryptError(EncryptError::AesEncryptError)))
        },
        Event::Message(Message::End) => t == s && r == Action::<C>::Stop(Ok(())),
        Event::Message(Message::EndError(e)) => t == s && r == Action::<C>::Stop(Err(e)),
        Event::Undecodable => t == s && r == Action::<C>::Stop(Err(ConnectionError::SerializationError)),
        Event::Unencodable => t == s && r == Action::<C>::Stop(Err(ConnectionError::SerializationError)),
    }
}

/// What one connection's loop seals and writes, the loop of a connection
/// holding the same AES key decrypts back to the same encoding.
pub proof fn lemma_written_packets_decrypt<C>(
    s: ConnectionState<C>,
    t: ConnectionState<C>,
    data: Vec<u8>,
    p: Packet,
    t2: ConnectionState<C>,
    oc: Seq<(Message, bool)>,
    nc: Seq<(Message, bool)>,
    r: Action<C>,
)
    requires
        step_outcome(s, Event::Encoded(data), s, oc, oc, Action::Write(p)),
        t.encryption.aes_key() == s.encryption.aes_key(),
        step_outcome(t, Event::Message(Message::Packet(p)), t2, oc, nc, r),
    ensures
        r matches Action::Decode(c) && c@ == data@,
        t2 == t,
        nc == oc,
{
}

impl<C> ConnectionState<C> {
    /// Takes one event of the connection and says what comes of it. A key
    /// that arrives is noted before its packet is handled, and the callback
    /// that keys going both ways hand out runs before the handler sees the
    /// packet; the exchange starts by writing this end's key, after which the
    /// callback may run. Packets to send are encoded, sealed and written;
    /// `End` stops the connection cleanly and `EndError` with its error.
    pub fn step(&mut self, event: Event, input: &mut Outbox<Message>) -> (r: Action<C>)
        requires
            step_ready(*old(self), event),
        ensures
            step_outcome(*old(self), event, *final(self), old(input).sent(), final(input).sent(), r),
    {
        match event {
            Event::Message(Message::Packet(packet)) => match packet {
                Packet::EncryptedPacket(bytes, nonce) => match self.open_encrypted(bytes.as_slice(), nonce) {
                    Ok(plain) => Action::Decode(plain),
                    Err(e) => Action::Stop(Err(e)),
                },
                _ => self.arrive(packet, input),
            },
            Event::Decoded(packet) => self.arrive(packet, input),
            Event::Noted(packet) => self.hand_over(packet, input),
            Event::Message(Message::StartExchange) => {
                let key = self.start_exchange();
                let callback = self.on_key_sent();
                Action::WriteKey(key, callback)
            },
            Event::Message(Message::SendPacket(packet)) => Action::Encode(packet),
            Event::Encoded(data) => match self.seal(data.as_slice()) {
                Ok(packet) => Action::Write(packet),
                Err(e) => Action::Stop(Err(e)),
            },
            Event::Message(Message::End) => Action::Stop(Ok(())),
            Event::Message(Message::EndError(e)) => Action::Stop(Err(e)),
            Event::Undecodable => Action::Stop(Err(ConnectionError::SerializationError)),
            Event::Unencodable => Action::Stop(Err(ConnectionError::SerializationError)),
        }
    }

    /// Notes the key a decoded packet carries, then runs the callback first
    /// or hands the packet over.
    fn arrive(&mut self, packet: Packet, input: &mut Outbox<Message>) -> (r: Action<C>)
        requires
            handle_ready(old(self).handler, packet, old(self).encryption),
        ensures
            arrived(*old(self), *final(self), packet, old(input).sent(), final(input).sent(), r),
    {
        let callback = if let Packet::CommonKeyPacket(_) = packet {
            self.on_key_received()
        } else {
            None
        };
        match callback {
            Some(cb) => Action::Callback(cb, packet),
            None => self.hand_over(packet, input),
        }
    }

    /// Hands a packet to the current handler.
    fn hand_over(&mut self, packet: Packet, input: &mut Outbox<Message>) -> (r: Action<C>)
        requires
            handle_ready(old(self).handler, packet, old(self).encryption),
        ensures
            handled(*old(self), *final(self), packet, old(input).sent(), final(input).sent(), r),
    {
        match self.handle_packet(packet, input) {
            Ok(()) => Action::Continue,
            Err(e) => Action::Stop(Err(e)),
        }
    }
}

/// Whichever key goes second, this end's or the peer's, hands out the
/// callback, once: writing this end's key after the peer's arrived hands the
/// callback out with the key, and the peer's key arriving after this end's
/// went out hands it out before the key is handled. Either way the
/// connection no longer holds it. While only one key has gone, nothing is
/// handed out and the callback stays.
pub proof fn lemma_second_key_hands_out_callback<C>(
    s: ConnectionState<C>,
    t: ConnectionState<C>,
    oc: Seq<(Message, bool)>,
    nc: Seq<(Message, bool)>,
    r: Action<C>,
    cb: C,
    key: [u8; 32],
)
    requires
        s.callback == Some(cb),
    ensures
        s.recv_key && !s.sent_key && step_outcome(s, Event::Message(Message::StartExchange), t, oc, nc, r)
            ==> r == Action::WriteKey(Packet::CommonKeyPacket(s.encryption.x25_public->0), Some(cb))
                && t.callback is None && t.sent_key && t.recv_key && nc == oc,
        !s.recv_key && !s.sent_key && step_outcome(s, Event::Message(Message::StartExchange), t, oc, nc, r)
            ==> r == Action::<C>::WriteKey(Packet::CommonKeyPacket(s.encryption.x25_public->0), None)
                && t.callback == Some(cb) && t.sent_key,
        s.sent_key && !s.recv_key && step_outcome(s, Event::Message(Message::Packet(Packet::CommonKeyPacket(key))), t, oc, nc, r)
            ==> r == Action::Callback(cb, Packet::CommonKeyPacket(key)) && t.callback is None && t.recv_key
                && t.handler == s.handler && t.encryption == s.encryption && nc == oc,
        !s.sent_key && !s.recv_key && step_outcome(s, Event::Message(Message::Packet(Packet::CommonKeyPacket(key))), t, oc, nc, r)
            ==> !(r is Callback) && t.callback == Some(cb) && t.recv_key,
{
}

/// A packet that is not a key, arriving unencrypted or decoded from an
/// encrypted one, goes to the current handler: a packet the handler refuses
/// stops the connection as out of order and leaves it as it was; a packet it
/// takes moves the connection to the handler that follows when the loop goes
/// on. Both ways of arriving come to the same.
pub proof fn lemma_packets_go_to_the_handler<C>(
    s: ConnectionState<C>,
    t: ConnectionState<C>,
    oc: Seq<(Message, bool)>,
    nc: Seq<(Message, bool)>,
    r: Action<C>,
    p: Packet,
)
    requires
        !(p is CommonKeyPacket),
        !(p is EncryptedPacket),
        step_outcome(s, Event::Decoded(p), t, oc, nc, r) || step_outcome(s, Event::Message(Message::Packet(p)), t, oc, nc, r),
    ensures
        next_handler(s.handler, p) is None ==> r == Action::<C>::Stop(
            Err(ConnectionError::HandlerError(HandlerError::PacketOrderError)),
        ) && t.handler == s.handler && nc == oc,
        next_handler(s.handler, p) is Some && r is Continue ==> t.handler == next_handler(s.handler, p)->0,
        t.callback == s.callback,
{
}

/// The loop's other events: a packet to send is first encoded, unchanged;
/// encoded bytes within AES-GCM's limit are sealed into an encrypted packet
/// that opens again to them, and are written; `End` stops the connection
/// cleanly and `EndError` with its own error; bytes that do not decode or
/// encode stop it with a serialization error. None of these changes the
/// state or hands anything to the channel.
pub proof fn lemma_loop_events<C>(
    s: ConnectionState<C>,
    t: ConnectionState<C>,
    oc: Seq<(Message, bool)>,
    nc: Seq<(Message, bool)>,
    r: Action<C>,
    p: Packet,
    data: Vec<u8>,
    e: ConnectionError,
)
    ensures
        step_outcome(s, Event::Message(Message::SendPacket(p)), t, oc, nc, r) ==> r == Action::<C>::Encode(p) && t == s && nc == oc,
        step_outcome(s, Event::Message(Message::End), t, oc, nc, r) ==> r == Action::<C>::Stop(Ok(())) && t == s && nc == oc,
        step_outcome(s, Event::Message(Message::EndError(e)), t, oc, nc, r) ==> r == Action::<C>::Stop(Err(e)) && t == s && nc == oc,
        step_outcome(s, Event::Undecodable, t, oc, nc, r) ==> r == Action::<C>::Stop(Err(ConnectionError::SerializationError)) && t == s,
        step_outcome(s, Event::Unencodable, t, oc, nc, r) ==> r == Action::<C>::Stop(Err(ConnectionError::SerializationError)) && t == s,
        step_outcome(s, Event::Encoded(data), t, oc, nc, r) && data@.len() <= aes_gcm_max_plaintext()
            ==> t == s && nc == oc && (r matches Action::Write(Packet::EncryptedPacket(c, n))
                && aes256gcm_open(s.encryption.aes_key()->0, n@, c@) == Some(data@)),
{
}

/// The callback is handed out at most once: after it has been handed out,
/// asking again gives nothing.
pub proof fn lemma_callback_once<C>(s: ConnectionState<C>)
    ensures
        after_invoke(s).1 is Some ==> after_invoke(after_invoke(s).0).1 is None,
{
}

/// The callback is handed out exactly when keys have gone both ways,
/// whichever went first.
pub proof fn lemma_callback_after_both_keys<C>(s: ConnectionState<C>)
    requires
        !s.sent_key,
        !s.recv_key,
        s.callback is Some,
    ensures
        after_invoke(ConnectionState { sent_key: true, ..s }).1 is None,
        after_invoke(ConnectionState { recv_key: true, ..s }).1 is None,
        after_invoke(ConnectionState { recv_key: true, ..after_invoke(ConnectionState { sent_key: true, ..s }).0 }).1 == s.callback,
        after_invoke(ConnectionState { sent_key: true, ..after_invoke(ConnectionState { recv_key: true, ..s }).0 }).1 == s.callback,
{
}

} // verus!
