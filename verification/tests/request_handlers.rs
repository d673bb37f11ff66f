use eep2p::outbox::Outbox;
use eep2p::control::state::Command;
use eep2p::control::registry::Registry;
use eep2p::control::{forward_message, handle_command};
use eep2p::config::data::Hosts;
use eep2p::encrypt::EncryptionHandler;
use eep2p::handle::handlers::fwd::ForwardPacketHandler;
use eep2p::handle::handlers::intent::IntentPacketHandler;
use eep2p::handle::handlers::setup::SetupPacketHandler;
use eep2p::handle::handlers::sync::SyncPacketHandler;
use eep2p::handle::util::error::HandlerError;
use eep2p::handle::util::handler::{Handler, PacketHandler};
use eep2p::handle::util::state::PacketState;
use eep2p::net::packet::{Intent, Packet};
use eep2p::net::state::Message;
use pgp::composed::{ArmorOptions, EncryptionCaps, KeyType, SecretKeyParamsBuilder, SubkeyParamsBuilder};
use pgp::crypto::ecc_curve::ECCCurve;

fn armored_key() -> String {
    let mut encryption = SubkeyParamsBuilder::default();
    encryption
        .key_type(KeyType::ECDH(ECCCurve::Curve25519Legacy))
        .can_sign(false)
        .can_encrypt(EncryptionCaps::All)
        .can_authenticate(false);
    let mut params = SecretKeyParamsBuilder::default();
    params
        .key_type(KeyType::Ed25519Legacy)
        .can_certify(true)
        .can_sign(true)
        .primary_user_id("node <node@example.org>".into())
        .subkeys(vec![encryption.build().unwrap()]);
    let key = params.build().unwrap().generate(aes_gcm::aead::OsRng).unwrap();
    key.to_armored_string(ArmorOptions::default()).unwrap()
}

fn handler_with_secret(secret: [u8; 32]) -> EncryptionHandler {
    EncryptionHandler {
        cipher: None,
        x25_secret: Some(secret),
        x25_public: None,
        pgp_private: String::new(),
        pgp_pass: String::new(),
    }
}

fn fresh_public() -> [u8; 32] {
    let keys = eep2p::encrypt::GlobalKeys::from("", &armored_key());
    EncryptionHandler::from(&keys).x25_public.unwrap()
}

#[test]
fn a_full_request_cycle() {
    let (tx, mut rx) = tokio::sync::mpsc::unbounded_channel::<Message>();
    let (ctx, mut crx) = tokio::sync::mpsc::unbounded_channel::<Command>();
    let mut state = PacketState { origin: "10.0.0.2:9000", channel: Outbox::new(tx.clone()), controller: Outbox::new(ctx.clone()) };
    let mut e = handler_with_secret([1u8; 32]);

    let h = SetupPacketHandler::new_handler();
    assert!(h == Handler::Encrypt(SetupPacketHandler));
    let peer = fresh_public();
    let h = h.handle(Packet::CommonKeyPacket(peer), &mut state, &mut e).unwrap();
    assert!(h == Handler::Intent(IntentPacketHandler));
    assert!(e.cipher.is_some());

    let h = h.handle(Packet::ServerboundIntentPacket(Intent::Fwd), &mut state, &mut e).unwrap();
    assert!(h == Handler::Fwd(ForwardPacketHandler));
    let h = h.handle(Packet::ServerboundFwdDataPacket(77, vec![9, 8]), &mut state, &mut e).unwrap();
    assert!(h == Handler::Intent(IntentPacketHandler));
    assert!(matches!(rx.try_recv(), Ok(Message::Packet(Packet::CommonEndSequencePacket))));
    match crx.try_recv() {
        Ok(Command::ForwardData { origin, id, data }) => {
            assert!(origin == "10.0.0.2:9000");
            assert!(id == 77);
            assert!(data == vec![9, 8]);
        }
        _ => panic!("expected a forward command"),
    }

    let h = h.handle(Packet::ServerboundIntentPacket(Intent::Sync), &mut state, &mut e).unwrap();
    assert!(h == Handler::Sync(SyncPacketHandler));
    let h = h.handle(Packet::ServerboundSyncPacket(vec![]), &mut state, &mut e).unwrap();
    assert!(h == Handler::Intent(IntentPacketHandler));
    assert!(matches!(rx.try_recv(), Ok(Message::Packet(Packet::CommonEndSequencePacket))));
}

#[test]
fn setup_refuses_anything_but_a_key() {
    let (tx, _rx) = tokio::sync::mpsc::unbounded_channel::<Message>();
    let (ctx, _crx) = tokio::sync::mpsc::unbounded_channel::<Command>();
    let mut state = PacketState { origin: "", channel: Outbox::new(tx.clone()), controller: Outbox::new(ctx.clone()) };
    let mut e = handler_with_secret([1u8; 32]);
    let h = Handler::Encrypt(SetupPacketHandler);
    assert!(h.handle(Packet::ServerboundIntentPacket(Intent::Fwd), &mut state, &mut e) == Err(HandlerError::PacketOrderError));
    assert!(h.handle(Packet::CommonEndSequencePacket, &mut state, &mut e) == Err(HandlerError::PacketOrderError));
    let w = Handler::Intent(IntentPacketHandler);
    assert!(w.handle(Packet::ServerboundFwdDataPacket(1, vec![]), &mut state, &mut e) == Err(HandlerError::PacketOrderError));
    assert!(e.cipher.is_none());
}

#[test]
fn intent_handler_also_takes_a_key() {
    let (tx, _rx) = tokio::sync::mpsc::unbounded_channel::<Message>();
    let (ctx, _crx) = tokio::sync::mpsc::unbounded_channel::<Command>();
    let mut state = PacketState { origin: "", channel: Outbox::new(tx.clone()), controller: Outbox::new(ctx.clone()) };
    let mut e = handler_with_secret([1u8; 32]);
    let w = IntentPacketHandler::new_handler();
    let peer = fresh_public();
    assert!(w.handle(Packet::CommonKeyPacket(peer), &mut state, &mut e) == Ok(w));
    assert!(e.x25_secret.is_none());
}

#[test]
fn forward_fails_when_the_controller_is_gone() {
    let (tx, _rx) = tokio::sync::mpsc::unbounded_channel::<Message>();
    let (ctx, crx) = tokio::sync::mpsc::unbounded_channel::<Command>();
    drop(crx);
    let mut state = PacketState { origin: "", channel: Outbox::new(tx.clone()), controller: Outbox::new(ctx.clone()) };
    let mut e = handler_with_secret([1u8; 32]);
    let f = ForwardPacketHandler::new_handler();
    assert!(f.handle(Packet::ServerboundFwdDataPacket(1, vec![]), &mut state, &mut e) == Err(HandlerError::IOError));
}

#[test]
fn request_handler_names() {
    assert!(Handler::Encrypt(SetupPacketHandler).name() == "Encrypt");
    assert!(Handler::Intent(IntentPacketHandler).name() == "Intent");
    assert!(SyncPacketHandler::new_handler().name() == "Sync");
    assert!(ForwardPacketHandler::new_handler().name() == "Fwd");
}

#[test]
fn forward_step_ends_the_request_and_hands_the_data_on() {
    let s = ForwardPacketHandler.step(Packet::ServerboundFwdDataPacket(77, vec![9, 8]), "10.0.0.2:9000").unwrap();
    assert!(s.next == Handler::Intent(IntentPacketHandler));
    assert!(matches!(s.message, Some(Message::Packet(Packet::CommonEndSequencePacket))));
    match s.command {
        Some(Command::ForwardData { origin, id, data }) => {
            assert_eq!(origin, "10.0.0.2:9000");
            assert_eq!(id, 77);
            assert_eq!(data, vec![9, 8]);
        }
        _ => panic!("expected the data for the controller"),
    }
    assert!(matches!(
        ForwardPacketHandler.step(Packet::ServerboundSyncPacket(vec![]), "x"),
        Err(HandlerError::PacketOrderError)
    ));
}

#[test]
fn sync_step_ends_the_request_only() {
    let s = SyncPacketHandler.step(Packet::ServerboundSyncPacket(vec!["a:1".into()])).unwrap();
    assert!(s.next == Handler::Intent(IntentPacketHandler));
    assert!(matches!(s.message, Some(Message::Packet(Packet::CommonEndSequencePacket))));
    assert!(s.command.is_none());
}

#[test]
fn intent_and_key_steps_queue_nothing() {
    let mut e = handler_with_secret([3u8; 32]);
    let s = Handler::Intent(IntentPacketHandler).step(Packet::ServerboundIntentPacket(Intent::Fwd), "", &mut e).unwrap();
    assert!(s.next == Handler::Fwd(ForwardPacketHandler));
    assert!(s.message.is_none() && s.command.is_none());
    let s = Handler::Encrypt(SetupPacketHandler).step(Packet::CommonKeyPacket(fresh_public()), "", &mut e).unwrap();
    assert!(s.next == Handler::Intent(IntentPacketHandler));
    assert!(s.message.is_none() && s.command.is_none());
    assert!(e.cipher.is_some() && e.x25_secret.is_none());
}

#[test]
fn controller_forwards_data_to_every_host() {
    let mut registry = Registry::new(Hosts(vec!["a:1".into(), "b:2".into()]));
    let sends = handle_command(&mut registry, Command::ForwardData { origin: "o:3".into(), id: 5, data: vec![7, 7] });
    assert_eq!(sends.len(), 2);
    assert_eq!(sends[0].0, "a:1");
    assert_eq!(sends[1].0, "b:2");
    for (_, m) in &sends {
        assert!(matches!(m, Message::SendPacket(Packet::ServerboundFwdDataPacket(5, d)) if *d == vec![7, 7]));
    }
    let none = handle_command(&mut Registry::new(Hosts(vec![])), Command::ForwardData { origin: "o".into(), id: 1, data: vec![] });
    assert!(none.is_empty());
    assert!(matches!(forward_message(2, &vec![1]), Message::SendPacket(Packet::ServerboundFwdDataPacket(2, d)) if d == vec![1]));
}

#[test]
fn delivery_needs_both_message_and_command_queued() {
    let next = Handler::Intent(IntentPacketHandler);
    assert!(eep2p::handle::util::handler::delivered(next, true, true) == Ok(next));
    assert!(eep2p::handle::util::handler::delivered(next, false, true) == Err(HandlerError::IOError));
    assert!(eep2p::handle::util::handler::delivered(next, true, false) == Err(HandlerError::IOError));
}
