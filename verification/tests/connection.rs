use eep2p::outbox::Outbox;
use eep2p::crypto::aes::Aes;
use eep2p::connection::handler::fwd::ForwardPacketHandler;
use eep2p::connection::handler::setup::SetupPacketHandler;
use eep2p::connection::handler::{Handler, HandlerError};
use eep2p::connection::packet::{Intent, Packet};
use eep2p::connection::state::{ConnectionError, ConnectionState, Message};
use eep2p::crypto::{Cipher, CipherKeys, EncryptError as CipherError};
use eep2p::encrypt::{EncryptError, GlobalKeys};
use eep2p::net::connection::{open_packet, seal_packet};
use eep2p::connection::{Action, Event};
use eep2p::net::error::ConnectionHandleError;
use eep2p::protocol::packet::Packet as WirePacket;
use pgp::composed::{ArmorOptions, EncryptionCaps, KeyType, SecretKeyParamsBuilder, SubkeyParamsBuilder};
use pgp::crypto::ecc_curve::ECCCurve;

fn armored_key() -> String {
    let mut encryption = SubkeyParamsBuilder::default();
    encryption
        .key_type(KeyType::ECDH(ECCCurve::Curve25519Legacy))
        .can_sign(false)
        .can_encrypt(EncryptionCaps::All)
        .can_authenticate(false);
    let mut params = SecretKeyParamsBuilder::default();
    params
        .key_type(KeyType::Ed25519Legacy)
        .can_certify(true)
        .can_sign(true)
        .primary_user_id("node <node@example.org>".into())
        .subkeys(vec![encryption.build().unwrap()]);
    let key = params.build().unwrap().generate(aes_gcm::aead::OsRng).unwrap();
    key.to_armored_string(ArmorOptions::default()).unwrap()
}

fn global_keys() -> GlobalKeys {
    GlobalKeys::from("pass", &armored_key())
}

#[test]
fn new_connection_state_starts_in_setup() {
    let s: ConnectionState<u8> = ConnectionState::new(&global_keys(), Some(1));
    assert!(s.handler == Handler::Setup(SetupPacketHandler));
    assert!(!s.sent_key && !s.recv_key);
    assert!(s.callback == Some(1));
    assert!(s.encryption.cipher.is_none());
    assert!(s.encryption.x25_secret.is_some() && s.encryption.x25_public.is_some());
}

#[test]
fn callback_runs_once_after_both_keys() {
    let mut s: ConnectionState<&str> = ConnectionState::new(&global_keys(), Some("cb"));
    assert!(s.invoke_callback() == None);
    assert!(s.on_key_sent() == None);
    assert!(s.on_key_received() == Some("cb"));
    assert!(s.invoke_callback() == None);
    assert!(s.on_key_received() == None);

    let mut t: ConnectionState<&str> = ConnectionState::new(&global_keys(), Some("cb"));
    assert!(t.on_key_received() == None);
    assert!(t.on_key_sent() == Some("cb"));
    assert!(t.callback.is_none());

    let mut u: ConnectionState<&str> = ConnectionState::new(&global_keys(), None);
    assert!(u.on_key_sent() == None);
    assert!(u.on_key_received() == None);
}

#[test]
fn start_exchange_sends_and_uses_up_the_public_key() {
    let mut s: ConnectionState<()> = ConnectionState::new(&global_keys(), None);
    let public = s.encryption.x25_public.unwrap();
    match s.start_exchange() {
        Packet::CommonKeyPacket(k) => assert!(k == public),
        _ => panic!("expected a key packet"),
    }
    assert!(s.encryption.x25_public.is_none());
}

#[test]
fn two_connection_states_agree_and_exchange_packets() {
    let (tx, _rx) = tokio::sync::mpsc::unbounded_channel::<Message>();
    let mut out = Outbox::new(tx.clone());
    let mut a: ConnectionState<()> = ConnectionState::new(&global_keys(), None);
    let mut b: ConnectionState<()> = ConnectionState::new(&global_keys(), None);
    let ka = a.start_exchange();
    let kb = b.start_exchange();
    assert!(a.handle_packet(kb, &mut out) == Ok(()));
    assert!(b.handle_packet(ka, &mut out) == Ok(()));
    assert!(a.encryption.cipher == b.encryption.cipher);
    let sealed = a.seal(b"encoded packet").unwrap();
    match sealed {
        Packet::EncryptedPacket(data, nonce) => {
            assert!(b.open_encrypted(&data, nonce) == Ok(b"encoded packet".to_vec()));
            let mut bad = data.clone();
            bad[0] ^= 0xff;
            assert!(b.open_encrypted(&bad, nonce) == Err(ConnectionError::EncryptError(EncryptError::AesDecryptError)));
        }
        _ => panic!("expected an encrypted packet"),
    }
    assert!(b.handle_packet(Packet::ServerboundIntentPacket(Intent::Fwd), &mut out) == Ok(()));
    assert!(b.handler == Handler::Fwd(ForwardPacketHandler));
    assert!(b.handle_packet(Packet::ServerboundIntentPacket(Intent::Fwd), &mut out) == Err(ConnectionError::HandlerError(HandlerError::PacketOrderError)));
    assert!(b.handler == Handler::Fwd(ForwardPacketHandler));
}

fn cipher_pair() -> (Cipher, Cipher) {
    let keys = CipherKeys::from("pass", &armored_key());
    let mut a = Cipher::from(&keys);
    let mut b = Cipher::from(&keys);
    let shared = [5u8; 32];
    a.derive_key(&shared, b"x25519-aes256gcm-v1").unwrap();
    b.derive_key(&shared, b"x25519-aes256gcm-v1").unwrap();
    (a, b)
}

#[test]
fn sealed_packets_open_on_the_other_end() {
    let (a, b) = cipher_pair();
    let sealed = seal_packet(&a, b"inner packet").unwrap();
    assert!(sealed.sequence_id == 0);
    assert!(matches!(sealed.peek(), WirePacket::Encrypted(_, _)));
    assert!(open_packet(&b, &sealed) == Ok(Some(b"inner packet".to_vec())));
}

#[test]
fn plain_packets_are_passed_through() {
    let (a, _) = cipher_pair();
    let plain = WirePacket::new_end_sequence(3);
    assert!(open_packet(&a, &plain) == Ok(None));
}

#[test]
fn sealing_before_the_exchange_is_an_early_call() {
    let c = Cipher::from(&CipherKeys::from("", &armored_key()));
    assert!(seal_packet(&c, b"x").unwrap_err() == ConnectionHandleError::EncryptError(CipherError::EarlyCallError));
    let enc = WirePacket::new_encrypted(vec![0; 20], [0; 12]);
    assert!(open_packet(&c, &enc) == Err(ConnectionHandleError::EncryptError(CipherError::EarlyCallError)));
}

#[test]
fn garbage_does_not_open() {
    let (a, _) = cipher_pair();
    let enc = WirePacket::new_encrypted(vec![1; 20], [0; 12]);
    assert!(open_packet(&a, &enc) == Err(ConnectionHandleError::EncryptError(CipherError::AesDecryptError)));
}

#[test]
fn event_loop_steps_through_an_exchange() {
    let (tx, _rx) = tokio::sync::mpsc::unbounded_channel::<Message>();
    let mut out = Outbox::new(tx.clone());
    let mut a: ConnectionState<&str> = ConnectionState::new(&global_keys(), Some("ready"));
    let mut b: ConnectionState<&str> = ConnectionState::new(&global_keys(), None);
    let pa = a.encryption.x25_public.unwrap();
    let pb = b.encryption.x25_public.unwrap();

    // a starts: its key is written, nothing is due yet
    match a.step(Event::Message(Message::StartExchange), &mut out) {
        Action::WriteKey(Packet::CommonKeyPacket(k), None) => assert!(k == pa),
        _ => panic!("expected the key to be written"),
    }
    assert!(a.sent_key && a.encryption.x25_public.is_none());

    // b's key arrives at a: the callback runs before the packet is handled
    let key_b = match b.step(Event::Message(Message::StartExchange), &mut out) {
        Action::WriteKey(p, None) => p,
        _ => panic!("expected the key to be written"),
    };
    let noted = match a.step(Event::Message(Message::Packet(key_b)), &mut out) {
        Action::Callback(cb, p) => {
            assert!(cb == "ready");
            p
        }
        _ => panic!("expected the callback first"),
    };
    assert!(a.recv_key && a.callback.is_none());
    assert!(a.encryption.cipher.is_none());
    assert!(matches!(a.step(Event::Noted(noted), &mut out), Action::Continue));
    assert!(a.encryption.cipher.is_some());

    // a's key arrives at b, which has no callback: handled at once
    assert!(matches!(b.step(Event::Message(Message::Packet(Packet::CommonKeyPacket(pa))), &mut out), Action::Continue));
    assert!(a.encryption.cipher == b.encryption.cipher);
    let _ = pb;

    // a packet to send is encoded, then sealed and written
    let intent = Packet::ServerboundIntentPacket(Intent::Sync);
    assert!(matches!(a.step(Event::Message(Message::SendPacket(intent)), &mut out), Action::Encode(Packet::ServerboundIntentPacket(Intent::Sync))));
    let sealed = match a.step(Event::Encoded(b"encoded intent".to_vec()), &mut out) {
        Action::Write(p) => p,
        _ => panic!("expected a sealed packet"),
    };
    match &sealed {
        Packet::EncryptedPacket(c, _) => assert!(c.len() == b"encoded intent".len() + 16),
        _ => panic!("expected an encrypted packet"),
    }

    // at b the encrypted packet is decrypted, then handed back decoded
    match b.step(Event::Message(Message::Packet(sealed)), &mut out) {
        Action::Decode(bytes) => assert!(bytes == b"encoded intent".to_vec()),
        _ => panic!("expected the plaintext to decode"),
    }
    assert!(matches!(b.step(Event::Decoded(Packet::ServerboundIntentPacket(Intent::Sync)), &mut out), Action::Continue));
    assert!(b.handler == Handler::Sync(eep2p::connection::handler::sync::SyncPacketHandler));
}

#[test]
fn event_loop_stops_on_end_and_on_errors() {
    let (tx, _rx) = tokio::sync::mpsc::unbounded_channel::<Message>();
    let mut out = Outbox::new(tx.clone());
    let mut s: ConnectionState<()> = ConnectionState::new(&global_keys(), None);
    assert!(matches!(s.step(Event::Message(Message::End), &mut out), Action::Stop(Ok(()))));
    assert!(matches!(
        s.step(Event::Message(Message::EndError(ConnectionError::SerializationError)), &mut out),
        Action::Stop(Err(ConnectionError::SerializationError))
    ));
    assert!(matches!(
        s.step(Event::Message(Message::Packet(Packet::ServerboundSyncPacket(vec![]))), &mut out),
        Action::Stop(Err(ConnectionError::HandlerError(HandlerError::PacketOrderError)))
    ));
    assert!(s.handler == Handler::Setup(SetupPacketHandler));
}

#[test]
fn key_exchange_loop_stops_when_packets_do_not_decode_or_encode() {
    let (tx, _rx) = tokio::sync::mpsc::unbounded_channel::<Message>();
    let mut out = Outbox::new(tx.clone());
    let mut s: ConnectionState<()> = ConnectionState::new(&global_keys(), None);
    assert!(matches!(s.step(Event::Undecodable, &mut out), Action::Stop(Err(ConnectionError::SerializationError))));
    assert!(matches!(s.step(Event::Unencodable, &mut out), Action::Stop(Err(ConnectionError::SerializationError))));
}
