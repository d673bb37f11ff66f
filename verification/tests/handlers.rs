use eep2p::outbox::Outbox;
use eep2p::con::{Action as KeyAction, ConnectionState as KeyState, Event as KeyEvent, Message as KeyMessage};
use eep2p::packet::Packet as KeyPacket;
use eep2p::handler::setup::SetupPacketHandler as FirstSetup;
use eep2p::handler::Handler as FirstHandler;
use eep2p::connection::handler::fwd::ForwardPacketHandler;
use eep2p::connection::handler::setup::SetupPacketHandler;
use eep2p::connection::handler::sync::SyncPacketHandler;
use eep2p::connection::handler::{Handler, HandlerError, PacketHandler};
use eep2p::connection::packet::{Intent, Packet};
use eep2p::connection::state::Message;
use eep2p::encrypt::EncryptionHandler;
use pgp::composed::{ArmorOptions, EncryptionCaps, KeyType, SecretKeyParamsBuilder, SubkeyParamsBuilder};
use pgp::crypto::ecc_curve::ECCCurve;

fn armored_key() -> String {
    let mut encryption = SubkeyParamsBuilder::default();
    encryption
        .key_type(KeyType::ECDH(ECCCurve::Curve25519Legacy))
        .can_sign(false)
        .can_encrypt(EncryptionCaps::All)
        .can_authenticate(false);
    let mut params = SecretKeyParamsBuilder::default();
    params
        .key_type(KeyType::Ed25519Legacy)
        .can_certify(true)
        .can_sign(true)
        .primary_user_id("node <node@example.org>".into())
        .subkeys(vec![encryption.build().unwrap()]);
    let key = params.build().unwrap().generate(aes_gcm::aead::OsRng).unwrap();
    key.to_armored_string(ArmorOptions::default()).unwrap()
}

fn handler_with_secret(secret: [u8; 32]) -> EncryptionHandler {
    EncryptionHandler {
        cipher: None,
        x25_secret: Some(secret),
        x25_public: None,
        pgp_private: String::new(),
        pgp_pass: String::new(),
    }
}

fn fresh_public() -> [u8; 32] {
    let keys = eep2p::encrypt::GlobalKeys::from("", &armored_key());
    EncryptionHandler::from(&keys).x25_public.unwrap()
}

#[test]
fn setup_takes_the_key_and_stays() {
    let (tx, _rx) = tokio::sync::mpsc::unbounded_channel::<Message>();
    let mut out = Outbox::new(tx.clone());
    let mut e = handler_with_secret([7u8; 32]);
    let peer = fresh_public();
    let h = SetupPacketHandler::new_handler();
    let next = h.handle(Packet::CommonKeyPacket(peer), &mut out, &mut e).unwrap();
    assert!(next == Handler::Setup(SetupPacketHandler));
    assert!(e.cipher.is_some());
    assert!(e.x25_secret.is_none());
}

#[test]
fn setup_intent_picks_the_handler() {
    let (tx, _rx) = tokio::sync::mpsc::unbounded_channel::<Message>();
    let mut out = Outbox::new(tx.clone());
    let mut e = handler_with_secret([7u8; 32]);
    let h = Handler::Setup(SetupPacketHandler);
    assert!(h.handle(Packet::ServerboundIntentPacket(Intent::Fwd), &mut out, &mut e) == Ok(Handler::Fwd(ForwardPacketHandler)));
    assert!(h.handle(Packet::ServerboundIntentPacket(Intent::Sync), &mut out, &mut e) == Ok(Handler::Sync(SyncPacketHandler)));
    assert!(e.cipher.is_none());
    assert!(e.x25_secret.is_some());
}

#[test]
fn packets_out_of_order_are_refused() {
    let (tx, _rx) = tokio::sync::mpsc::unbounded_channel::<Message>();
    let mut out = Outbox::new(tx.clone());
    let mut e = handler_with_secret([7u8; 32]);
    let setup = Handler::Setup(SetupPacketHandler);
    let fwd = Handler::Fwd(ForwardPacketHandler);
    let sync = Handler::Sync(SyncPacketHandler);
    assert!(setup.handle(Packet::ServerboundFwdDataPacket(1, vec![1]), &mut out, &mut e) == Err(HandlerError::PacketOrderError));
    assert!(setup.handle(Packet::EncryptedPacket(vec![], [0; 12]), &mut out, &mut e) == Err(HandlerError::PacketOrderError));
    assert!(fwd.handle(Packet::ServerboundSyncPacket(vec![]), &mut out, &mut e) == Err(HandlerError::PacketOrderError));
    assert!(fwd.handle(Packet::CommonKeyPacket([0; 32]), &mut out, &mut e) == Err(HandlerError::PacketOrderError));
    assert!(sync.handle(Packet::ServerboundIntentPacket(Intent::Fwd), &mut out, &mut e) == Err(HandlerError::PacketOrderError));
    assert!(e.x25_secret.is_some());
}

#[test]
fn forward_handler_ends_the_connection() {
    let (tx, mut rx) = tokio::sync::mpsc::unbounded_channel::<Message>();
    let mut out = Outbox::new(tx.clone());
    let mut e = handler_with_secret([7u8; 32]);
    let fwd = Handler::Fwd(ForwardPacketHandler);
    assert!(fwd.handle(Packet::ServerboundFwdDataPacket(5, vec![1, 2]), &mut out, &mut e) == Ok(fwd));
    assert!(matches!(rx.try_recv(), Ok(Message::End)));
    assert!(rx.try_recv().is_err());
}

#[test]
fn sync_handler_ends_the_connection() {
    let (tx, mut rx) = tokio::sync::mpsc::unbounded_channel::<Message>();
    let mut out = Outbox::new(tx.clone());
    let mut e = handler_with_secret([7u8; 32]);
    let sync = Handler::Sync(SyncPacketHandler);
    assert!(sync.handle(Packet::ServerboundSyncPacket(vec!["a:1".to_string()]), &mut out, &mut e) == Ok(sync));
    assert!(matches!(rx.try_recv(), Ok(Message::End)));
}

#[test]
fn a_closed_channel_is_an_io_error() {
    let (tx, rx) = tokio::sync::mpsc::unbounded_channel::<Message>();
    let mut out = Outbox::new(tx.clone());
    drop(rx);
    let mut e = handler_with_secret([7u8; 32]);
    let fwd = Handler::Fwd(ForwardPacketHandler);
    assert!(fwd.handle(Packet::ServerboundFwdDataPacket(5, vec![]), &mut out, &mut e) == Err(HandlerError::IOError));
    let sync = Handler::Sync(SyncPacketHandler);
    assert!(sync.handle(Packet::ServerboundSyncPacket(vec![]), &mut out, &mut e) == Err(HandlerError::IOError));
}

#[test]
fn handler_names() {
    assert!(Handler::Setup(SetupPacketHandler).name() == "Setup");
    assert!(Handler::Fwd(ForwardPacketHandler).name() == "Fwd");
    assert!(Handler::Sync(SyncPacketHandler).name() == "Sync");
}

#[test]
fn first_version_setup_handler_takes_the_key() {
    let (tx, _rx) = tokio::sync::mpsc::unbounded_channel::<eep2p::con::Message>();
    let mut e = handler_with_secret([3u8; 32]);
    let h = FirstHandler::Setup(FirstSetup);
    let peer = fresh_public();
    assert!(h.handle(eep2p::packet::Packet::KeyPacket(peer), &tx, &mut e) == h);
    assert!(e.cipher.is_some());
    assert!(e.x25_secret.is_none());
}

#[test]
fn delivery_fails_exactly_when_the_message_is_not_queued() {
    let next = Handler::Fwd(ForwardPacketHandler);
    assert!(eep2p::connection::handler::delivered(next, true) == Ok(next));
    assert!(eep2p::connection::handler::delivered(next, false) == Err(HandlerError::IOError));
}

#[test]
fn key_only_connections_exchange_keys_and_packets() {
    let (tx, _rx) = tokio::sync::mpsc::unbounded_channel::<KeyMessage>();
    let mut a = KeyState::new();
    let mut b = KeyState::new();
    assert!(a.handler == FirstHandler::Setup(FirstSetup));
    let ka = match a.step(KeyEvent::Message(KeyMessage::StartExchange), &tx) {
        KeyAction::Write(p) => p,
        _ => panic!("expected the key to be written"),
    };
    assert!(a.encryption.x25_public.is_none());
    let kb = match b.step(KeyEvent::Message(KeyMessage::StartExchange), &tx) {
        KeyAction::Write(p) => p,
        _ => panic!("expected the key to be written"),
    };
    assert!(matches!(a.step(KeyEvent::Message(KeyMessage::Packet(kb)), &tx), KeyAction::Continue));
    assert!(matches!(b.step(KeyEvent::Message(KeyMessage::Packet(ka)), &tx), KeyAction::Continue));
    assert!(a.encryption.cipher.is_some() && a.encryption.cipher == b.encryption.cipher);
    assert!(matches!(
        a.step(KeyEvent::Message(KeyMessage::SendPacket(KeyPacket::ServerboundIntentPacket(eep2p::packet::Intent::Fwd))), &tx),
        KeyAction::Encode(KeyPacket::ServerboundIntentPacket(eep2p::packet::Intent::Fwd))
    ));
    let sealed = match a.step(KeyEvent::Encoded(b"intent".to_vec()), &tx) {
        KeyAction::Write(p) => p,
        _ => panic!("expected a sealed packet"),
    };
    assert!(matches!(&sealed, KeyPacket::EncryptedPacket(c, _) if c.len() == b"intent".len() + 16));
    match b.step(KeyEvent::Message(KeyMessage::Packet(sealed)), &tx) {
        KeyAction::Decode(bytes) => assert!(bytes == b"intent".to_vec()),
        _ => panic!("expected the plaintext to decode"),
    }
    assert!(matches!(b.step(KeyEvent::Message(KeyMessage::End), &tx), KeyAction::Stop));
}
