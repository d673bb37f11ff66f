//! The events and state of a connection that only exchanges keys, and the
//! decisions of its event loop. Reading and writing the socket, and decoding
//! and encoding packets, are the caller's.
use crate::encrypt::aes::Aes;
use crate::encrypt::EncryptionHandler;
use crate::handler::setup::{exchanged, SetupPacketHandler};
use crate::handler::Handler;
use crate::packet::Packet;
use crate::primitives::{aes256gcm_open, aes256gcm_seal, aes_gcm_max_plaintext};
use crate::crypto::x25519_public_of;
use vstd::prelude::*;

verus! {

/// An event of a connection.
pub enum Message {
    StartExchange,
    Packet(Packet),
    SendPacket(Packet),
    End,
}

/// The state of a connection's event loop.
pub struct ConnectionState {
    pub encryption: EncryptionHandler,
    pub handler: Handler,
}

/// What a connection's event loop is handed: an event from its channel, or
/// what came of an action it was asked to carry out.
pub enum Event {
    /// An event from the connection's channel.
    Message(Message),
    /// The packet decoded from the plaintext of an encrypted packet.
    Decoded(Packet),
    /// The encoding of a packet that is to leave encrypted.
    Encoded(Vec<u8>),
}

/// What a connection's event loop does next.
pub enum Action {
    /// Wait for the next event.
    Continue,
    /// Decode the bytes as a packet and hand it back as `Event::Decoded`.
    Decode(Vec<u8>),
    /// Encode the packet and hand the bytes back as `Event::Encoded`.
    Encode(Packet),
    /// Write the packet to the peer.
    Write(Packet),
    /// Close the connection.
    Stop,
}

/// Whether `s` can take `event`: an encrypted packet arrives only after the
/// exchange; a packet handed to the handler is the
/// peer's key, while the secret is unused; the exchange starts once; and a
/// packet leaves encrypted only after the exchange and within AES-GCM's
/// length limit.
pub open spec fn step_ready(s: ConnectionState, event: Event) -> bool {
    match event {
        Event::Message(Message::Packet(p)) => match p {
            Packet::EncryptedPacket(_, _) => s.encryption.cipher is Some,
            _ => s.handler.accepts(p, s.encryption),
        },
        Event::Decoded(p) => s.handler.accepts(p, s.encryption),
        Event::Message(Message::StartExchange) => s.encryption.x25_public is Some,
        Event::Encoded(data) => s.encryption.cipher is Some && data@.len() <= aes_gcm_max_plaintext(),
        _ => true,
    }
}

/// What `event` comes to in state `s`, with `t` the state after it: an
/// encrypted packet is decrypted for decoding, and one that does not
/// authenticate stops the connection; the peer's key completes the
/// exchange; the exchange starts by writing this end's key, which is used up;
/// a packet to send is encoded, then sealed and written; `End` stops the
/// connection.
pub open spec fn step_outcome(s: ConnectionState, event: Event, t: ConnectionState, r: Action) -> bool {
    match event {
        Event::Message(Message::Packet(p)) => match p {
            Packet::EncryptedPacket(bytes, nonce) => t == s && match aes256gcm_open(s.encryption.aes_key()->0, nonce@, bytes@) {
                Some(b) => r matches Action::Decode(c) && c@ == b,
                None => r == Action::Stop,
            },
            _ => t.handler == s.handler && exchanged(p, s.encryption, t.encryption) && r == Action::Continue,
        },
        Event::Decoded(p) => t.handler == s.handler && exchanged(p, s.encryption, t.encryption) && r == Action::Continue,
        Event::Message(Message::StartExchange) => {
            &&& r == Action::Write(Packet::KeyPacket(s.encryption.x25_public->0))
            &&& t == ConnectionState { encryption: EncryptionHandler { x25_public: None, ..s.encryption }, ..s }
        },
        Event::Message(Message::SendPacket(p)) => t == s && r == Action::Encode(p),
        Event::Encoded(data) => t == s && (r matches Action::Write(Packet::EncryptedPacket(c, n)) && {
            &&& c@ == aes256gcm_seal(s.encryption.aes_key()->0, n@, data@)
            &&& c@.len() == data@.len() + 16
            &&& aes256gcm_open(s.encryption.aes_key()->0, n@, c@) == Some(data@)
        }),
        Event::Message(Message::End) => t == s && r == Action::Stop,
    }
}

impl ConnectionState {
    /// The state of a new connection: a fresh encryption handler with no PGP
    /// key material, in the setup handler.
    pub fn new() -> (r: Self)
        ensures
            r.handler == Handler::Setup(SetupPacketHandler),
            r.encryption.aes_key() is None,
            r.encryption.x25_secret is Some,
            r.encryption.x25_public is Some,
            r.encryption.x25_public->0@ == x25519_public_of(r.encryption.x25_secret->0@),
    {
        ConnectionState { encryption: EncryptionHandler::new(), handler: Handler::Setup(SetupPacketHandler) }
    }

    /// Takes one event of the connection and says what comes of it.
    pub fn step(&mut self, event: Event, input: &tokio::sync::mpsc::UnboundedSender<Message>) -> (r: Action)
        requires
            step_ready(*old(self), event),
        ensures
            step_outcome(*old(self), event, *final(self), r),
    {
        match event {
            Event::Message(Message::Packet(packet)) => match packet {
                Packet::EncryptedPacket(bytes, nonce) => match self.encryption.decrypt(bytes.as_slice(), nonce) {
                    Ok(plain) => Action::Decode(plain),
                    Err(_) => Action::Stop,
                },
                _ => {
                    self.handler = self.handler.handle(packet, input, &mut self.encryption);
                    Action::Continue
                },
            },
            Event::Decoded(packet) => {
                self.handler = self.handler.handle(packet, input, &mut self.encryption);
                Action::Continue
            },
            Event::Message(Message::StartExchange) => {
                let public = self.encryption.x25_public.take().unwrap();
                Action::Write(Packet::KeyPacket(public))
            },
            Event::Message(Message::SendPacket(packet)) => Action::Encode(packet),
            Event::Encoded(data) => match self.encryption.encrypt(data.as_slice()) {
                Ok((nonce, encrypted)) => Action::Write(Packet::EncryptedPacket(encrypted, nonce)),
                Err(_) => Action::Stop,
            },
            Event::Message(Message::End) => Action::Stop,
        }
    }
}

/// What the loop of a connection that only exchanges keys does: the
/// exchange starts by writing this end's key, which is then used up; the
/// peer's key completes the exchange and the handler stays in setup; a packet
/// to send is encoded unchanged, and its encoding is sealed into an encrypted
/// packet that opens again to it; an encrypted packet that does not
/// authenticate stops the connection, as does `End`.
pub proof fn lemma_key_only_loop(
    s: ConnectionState,
    t: ConnectionState,
    r: Action,
    p: Packet,
    key: [u8; 32],
    data: Vec<u8>,
    bytes: Vec<u8>,
    nonce: [u8; 12],
)
    ensures
        step_outcome(s, Event::Message(Message::StartExchange), t, r)
            ==> r == Action::Write(Packet::KeyPacket(s.encryption.x25_public->0)) && t.encryption.x25_public is None
                && t.handler == s.handler,
        step_outcome(s, Event::Message(Message::Packet(Packet::KeyPacket(key))), t, r)
            ==> r == Action::Continue && t.handler == s.handler && t.encryption.x25_secret is None
                && t.encryption.aes_key() is Some,
        step_outcome(s, Event::Message(Message::SendPacket(p)), t, r) ==> r == Action::Encode(p) && t == s,
        step_outcome(s, Event::Encoded(data), t, r) ==> t == s && (r matches Action::Write(Packet::EncryptedPacket(c, n))
            && aes256gcm_open(s.encryption.aes_key()->0, n@, c@) == Some(data@)),
        step_outcome(s, Event::Message(Message::Packet(Packet::EncryptedPacket(bytes, nonce))), t, r)
            && aes256gcm_open(s.encryption.aes_key()->0, nonce@, bytes@) is None ==> r == Action::Stop && t == s,
        step_outcome(s, Event::Message(Message::End), t, r) ==> r == Action::Stop && t == s,
{
}

} // verus!
