//! The decisions of a connection's event loop: what each event comes to,
//! decrypting what arrives and encrypting what leaves. Decoding and encoding
//! packets, and the socket, are the caller's.
use crate::crypto::aes::{decrypt_result, Aes};
use crate::crypto::{Cipher, CipherError};
use crate::net::error::ConnectionHandleError;
use crate::net::message::Message;
use crate::net::state::{ConnectionState, RouterChannel};
use crate::net::task::init_sends;
use crate::outbox::Outbox;
use crate::primitives::{aes256gcm_open, aes256gcm_seal, aes_gcm_max_plaintext};
use crate::protocol::packet::{OuterPacket, Packet};
use crate::protocol::state::PacketState;
use crate::sequence::error::SequenceError;
use crate::sequence::server::setup::SetupSequence;
use vstd::prelude::*;

verus! {

/// What decrypting an arriving packet gives: the plaintext of an encrypted
/// packet, to be decoded as the packet it carries; `None` for any other packet.
pub open spec fn opened(encryption: Cipher, packet: OuterPacket) -> Result<Option<Seq<u8>>, ConnectionHandleError> {
    match packet.content_view() {
        Packet::Encrypted(bytes, nonce) => match decrypt_result(encryption.aes_key(), bytes@, nonce@) {
            Ok(p) => Ok(Some(p)),
            Err(e) => Err(ConnectionHandleError::EncryptError(e)),
        },
        _ => Ok(None),
    }
}

/// Decrypts an arriving packet if it is encrypted.
pub fn open_packet(encryption: &Cipher, packet: &OuterPacket) -> (r: Result<Option<Vec<u8>>, ConnectionHandleError>)
    ensures
        match opened(*encryption, *packet) {
            Ok(Some(p)) => r matches Ok(Some(q)) && q@ == p,
            Ok(None) => r matches Ok(None),
            Err(e) => r == Err::<Option<Vec<u8>>, ConnectionHandleError>(e),
        },
{
    match packet.peek() {
        Packet::Encrypted(bytes, nonce) => match encryption.decrypt(bytes.as_slice(), *nonce) {
            Ok(p) => Ok(Some(p)),
            Err(e) => Err(ConnectionHandleError::EncryptError(e)),
        },
        _ => Ok(None),
    }
}

/// Encrypts an encoded packet into the encrypted packet that carries it.
/// Decrypting the result with the same cipher gives `data` back.
pub fn seal_packet(encryption: &Cipher, data: &[u8]) -> (r: Result<OuterPacket, ConnectionHandleError>)
    ensures
        encryption.aes_key() is None ==> r == Err::<OuterPacket, ConnectionHandleError>(
            ConnectionHandleError::EncryptError(CipherError::EarlyCallError),
        ),
        encryption.aes_key() is Some ==> (data@.len() <= aes_gcm_max_plaintext()) == (r is Ok),
        encryption.aes_key() is Some && data@.len() > aes_gcm_max_plaintext() ==> r == Err::<OuterPacket, ConnectionHandleError>(
            ConnectionHandleError::EncryptError(CipherError::AesEncryptError),
        ),
        r matches Ok(p) ==> {
            &&& p.sequence_view() == 0
            &&& p.content_view() matches Packet::Encrypted(c, n)
            &&& c@ == aes256gcm_seal(encryption.aes_key()->0, n@, data@)
            &&& c@.len() == data@.len() + 16
            &&& opened(*encryption, p) == Ok::<Option<Seq<u8>>, ConnectionHandleError>(Some(data@))
        },
{
    match encryption.encrypt(data) {
        Ok((nonce, encrypted)) => Ok(Packet::new_encrypted(encrypted, nonce)),
        Err(e) => Err(ConnectionHandleError::EncryptError(e)),
    }
}

/// What a connection's event loop is handed: an event from its channel, or
/// what came of an action it was asked to carry out.
pub enum Event {
    /// An event from the connection's channel.
    Message(Message),
    /// The packet decoded from the plaintext of an encrypted packet.
    Decoded(OuterPacket),
    /// The encoding of a packet that is to leave encrypted.
    Encoded(Vec<u8>),
    /// The plaintext of an encrypted packet did not decode as a packet.
    Undecodable,
    /// A packet to send could not be encoded.
    Unencodable,
}

/// What a connection's event loop does next.
pub enum Action {
    /// Wait for the next event.
    Continue,
    /// Decode the bytes as a packet and hand it back as `Event::Decoded`.
    Decode(Vec<u8>),
    /// Encode the packet and hand the bytes back as `Event::Encoded`.
    Encode(OuterPacket),
    /// Write the packet to the peer as it is.
    Write(OuterPacket),
    /// Close the connection, cleanly or with an error.
    Stop(Result<(), ConnectionHandleError>),
}

/// What a packet that needs no decryption comes to: nothing more when it
/// belongs to an open sequence; otherwise the connection stops, the packet
/// being out of order.
pub open spec fn routed(s: ConnectionState, packet: OuterPacket, r: Action) -> bool {
    if s.handler@.contains_key(packet.sequence_view()) {
        r == Action::Continue
    } else {
        r == Action::Stop(Err(ConnectionHandleError::HandlerError(SequenceError::PacketOrderError)))
    }
}

/// What the encoding `data` of a packet comes to: the encrypted packet that
/// carries it, to be written; or, where it cannot be encrypted, a stop.
pub open spec fn sealed(encryption: Cipher, data: Seq<u8>, r: Action) -> bool {
    if encryption.aes_key() is None {
        r == Action::Stop(Err(ConnectionHandleError::EncryptError(CipherError::EarlyCallError)))
    } else if data.len() > aes_gcm_max_plaintext() {
        r == Action::Stop(Err(ConnectionHandleError::EncryptError(CipherError::AesEncryptError)))
    } else {
        r matches Action::Write(p) && {
            &&& p.sequence_view() == 0
            &&& p.content_view() matches Packet::Encrypted(c, n)
            &&& c@ == aes256gcm_seal(encryption.aes_key()->0, n@, data)
            &&& c@.len() == data.len() + 16
            &&& opened(encryption, p) == Ok::<Option<Seq<u8>>, ConnectionHandleError>(Some(data))
        }
    }
}

/// What `event` comes to in state `s`, for every event but a task: an arriving
/// packet is decrypted and decoded first if it is encrypted, then routed; a
/// packet to send encrypted is encoded, then sealed and written; a packet to
/// send directly is written as it is; `End` stops the connection cleanly and
/// `EndError` with its error.
pub open spec fn step_action(s: ConnectionState, event: Event, r: Action) -> bool {
    match event {
        Event::Message(Message::HandlePacket(p)) => match opened(s.encryption, p) {
            Ok(Some(b)) => r matches Action::Decode(c) && c@ == b,
            Ok(None) => routed(s, p, r),
            Err(e) => r == Action::Stop(Err(e)),
        },
        Event::Message(Message::SendPacket(p)) => r == Action::Encode(p),
        Event::Message(Message::SendPacketDirect(p)) => r == Action::Write(p),
        Event::Message(Message::ExecuteTask(_)) => r is Continue || r matches Action::Stop(Err(_)),
        Event::Message(Message::End) => r == Action::Stop(Ok(())),
        Event::Message(Message::EndError(e)) => r == Action::Stop(Err(e)),
        Event::Decoded(p) => routed(s, p, r),
        Event::Encoded(data) => sealed(s.encryption, data@, r),
        Event::Undecodable => r == Action::Stop(Err(ConnectionHandleError::SerializationError)),
        Event::Unencodable => r == Action::Stop(Err(ConnectionHandleError::SerializationError)),
    }
}

/// What one connection's loop seals and writes, the loop of a connection
/// holding the same AES key decrypts back to the same encoding.
pub proof fn lemma_written_packets_decrypt(s: ConnectionState, t: ConnectionState, data: Vec<u8>, p: OuterPacket, r: Action)
    requires
        step_action(s, Event::Encoded(data), Action::Write(p)),
        t.encryption.aes_key() == s.encryption.aes_key(),
        step_action(t, Event::Message(Message::HandlePacket(p)), r),
    ensures
        r matches Action::Decode(c) && c@ == data@,
{
}

/// A packet that arrives unencrypted, or is decoded from an encrypted one, is
/// routed to its sequence: the loop goes on exactly when the sequence is
/// open, and otherwise stops because the packet is out of order. Both ways of
/// arriving come to the same.
pub proof fn lemma_packets_are_routed(s: ConnectionState, p: OuterPacket, r: Action, q: Action)
    ensures
        step_action(s, Event::Decoded(p), r) && s.handler@.contains_key(p.sequence_view()) ==> r == Action::Continue,
        step_action(s, Event::Decoded(p), r) && !s.handler@.contains_key(p.sequence_view()) ==> r == Action::Stop(
            Err(ConnectionHandleError::HandlerError(SequenceError::PacketOrderError)),
        ),
        !(p.content_view() is Encrypted) && step_action(s, Event::Message(Message::HandlePacket(p)), q)
            && s.handler@.contains_key(p.sequence_view()) ==> q == Action::Continue,
        !(p.content_view() is Encrypted) && step_action(s, Event::Message(Message::HandlePacket(p)), q)
            && !s.handler@.contains_key(p.sequence_view()) ==> q == Action::Stop(
            Err(ConnectionHandleError::HandlerError(SequenceError::PacketOrderError)),
        ),
{
}

/// The loop's other events: a packet to send directly is written exactly as
/// it is; a packet to send encrypted is first encoded, unchanged; `End` stops
/// the connection cleanly and `EndError` with its own error; bytes that do
/// not decode or encode stop it with a serialization error; an arriving
/// encrypted packet that decrypts is handed on for decoding as its plaintext.
pub proof fn lemma_loop_events(s: ConnectionState, p: OuterPacket, e: ConnectionHandleError, r: Action)
    ensures
        step_action(s, Event::Message(Message::SendPacketDirect(p)), r) ==> r == Action::Write(p),
        step_action(s, Event::Message(Message::SendPacket(p)), r) ==> r == Action::Encode(p),
        step_action(s, Event::Message(Message::End), r) ==> r == Action::Stop(Ok(())),
        step_action(s, Event::Message(Message::EndError(e)), r) ==> r == Action::Stop(Err(e)),
        step_action(s, Event::Undecodable, r) ==> r == Action::Stop(Err(ConnectionHandleError::SerializationError)),
        step_action(s, Event::Unencodable, r) ==> r == Action::Stop(Err(ConnectionHandleError::SerializationError)),
        step_action(s, Event::Message(Message::HandlePacket(p)), r) && p.content_view() is Encrypted && s.encryption.aes_key() is Some
            && aes256gcm_open(s.encryption.aes_key()->0, p.content_view()->Encrypted_1@, p.content_view()->Encrypted_0@) is Some
            ==> (r matches Action::Decode(c) && Some(c@) == aes256gcm_open(
                s.encryption.aes_key()->0,
                p.content_view()->Encrypted_1@,
                p.content_view()->Encrypted_0@,
            )),
{
}

/// Encryption failures stop the loop with the cipher's error: an encrypted
/// packet before the key exchange, or one that does not authenticate; a
/// packet to seal before the key exchange, or one longer than AES-GCM takes.
/// Encoded bytes within the limit are written as an encrypted packet of no
/// sequence that opens again to those bytes.
pub proof fn lemma_encryption_failures_stop(s: ConnectionState, p: OuterPacket, data: Vec<u8>, r: Action)
    ensures
        step_action(s, Event::Message(Message::HandlePacket(p)), r) && p.content_view() is Encrypted
            && s.encryption.aes_key() is None
            ==> r == Action::Stop(Err(ConnectionHandleError::EncryptError(CipherError::EarlyCallError))),
        step_action(s, Event::Message(Message::HandlePacket(p)), r) && p.content_view() is Encrypted
            && s.encryption.aes_key() is Some
            && aes256gcm_open(s.encryption.aes_key()->0, p.content_view()->Encrypted_1@, p.content_view()->Encrypted_0@) is None
            ==> r == Action::Stop(Err(ConnectionHandleError::EncryptError(CipherError::AesDecryptError))),
        step_action(s, Event::Encoded(data), r) && s.encryption.aes_key() is None
            ==> r == Action::Stop(Err(ConnectionHandleError::EncryptError(CipherError::EarlyCallError))),
        step_action(s, Event::Encoded(data), r) && s.encryption.aes_key() is Some && data@.len() > aes_gcm_max_plaintext()
            ==> r == Action::Stop(Err(ConnectionHandleError::EncryptError(CipherError::AesEncryptError))),
        step_action(s, Event::Encoded(data), r) && s.encryption.aes_key() is Some && data@.len() <= aes_gcm_max_plaintext()
            ==> (r matches Action::Write(q) && q.sequence_view() == 0 && (q.content_view() matches Packet::Encrypted(c, n)
                && aes256gcm_open(s.encryption.aes_key()->0, n@, c@) == Some(data@))),
{
}

/// The task's own result that an action of the event loop carries on: going
/// on after success, stopping with the task's error otherwise.
pub open spec fn task_result(r: Action) -> Result<(), ConnectionHandleError> {
    match r {
        Action::Stop(Err(e)) => Err(e),
        _ => Ok(()),
    }
}

impl ConnectionState {
    /// Takes one event of the connection at `origin` and says what comes of
    /// it. Only a task changes the state: it runs with this connection's
    /// channels, cipher and open sequences, and its error stops the
    /// connection.
    pub fn step(&mut self, event: Event, origin: &str, channel: &mut Outbox<Message>, controller: &RouterChannel) -> (r: Action)
        requires
            old(self).handler.wf(),
        ensures
            final(self).handler.wf(),
            step_action(*old(self), event, r),
            !(event matches Event::Message(Message::ExecuteTask(_))) ==> {
                &&& *final(self) == *old(self)
                &&& final(channel).sent() == old(channel).sent()
            },
            event matches Event::Message(Message::ExecuteTask(_)) ==> {
                &&& final(self).encryption == old(self).encryption
                &&& (r is Continue || (r matches Action::Stop(Err(_))))
                &&& exists|id: u128|
                    !old(self).handler@.contains_key(id) && id != 0
                        && final(self).handler@ == old(self).handler@.insert(id, SetupSequence { id })
                        && init_sends(id, old(self).encryption.x25_public, old(channel).sent(), final(channel).sent(), task_result(r))
            },
    {
        match event {
            Event::Message(Message::HandlePacket(packet)) => match open_packet(&self.encryption, &packet) {
                Ok(Some(bytes)) => Action::Decode(bytes),
                Ok(None) => self.route(&packet),
                Err(e) => Action::Stop(Err(e)),
            },
            Event::Decoded(packet) => self.route(&packet),
            Event::Message(Message::SendPacket(packet)) => Action::Encode(packet),
            Event::Encoded(data) => match seal_packet(&self.encryption, data.as_slice()) {
                Ok(packet) => Action::Write(packet),
                Err(e) => Action::Stop(Err(e)),
            },
            Event::Message(Message::SendPacketDirect(packet)) => Action::Write(packet),
            Event::Message(Message::ExecuteTask(task)) => {
                let result = task.call(
                    PacketState {
                        origin,
                        channel,
                        controller,
                        encryption: &mut self.encryption,
                        handler: Some(&mut self.handler),
                    },
                );
                match result {
                    Ok(()) => Action::Continue,
                    Err(e) => Action::Stop(Err(e)),
                }
            },
            Event::Message(Message::End) => Action::Stop(Ok(())),
            Event::Message(Message::EndError(e)) => Action::Stop(Err(e)),
            Event::Undecodable => Action::Stop(Err(ConnectionHandleError::SerializationError)),
            Event::Unencodable => Action::Stop(Err(ConnectionHandleError::SerializationError)),
        }
    }

    /// Routes a packet that needs no decryption to its sequence.
    fn route(&self, packet: &OuterPacket) -> (r: Action)
        ensures
            routed(*self, *packet, r),
    {
        match self.handler.handle_packet(packet) {
            Ok(()) => Action::Continue,
            Err(e) => Action::Stop(Err(ConnectionHandleError::HandlerError(e))),
        }
    }
}

} // verus!
