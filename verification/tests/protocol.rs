use eep2p::outbox::Outbox;
use eep2p::crypto::aes::Aes;
use eep2p::net::message::Message;
use eep2p::net::state::ConnectionState;
use eep2p::net::task::{setup_intent_message, setup_key_message, Task};
use eep2p::net::connection::{open_packet, Action, Event};
use eep2p::sequence::error::SequenceError;
use eep2p::protocol::state::PacketState;
use eep2p::router::command::state::Command;
use eep2p::net::error::ConnectionHandleError;
use eep2p::protocol::packet::intent::Intent;
use eep2p::protocol::packet::{OuterPacket, Packet};
use eep2p::sequence::splitter::SequenceSplitter;
use pgp::composed::{ArmorOptions, EncryptionCaps, KeyType, SecretKeyParamsBuilder, SubkeyParamsBuilder};
use pgp::crypto::ecc_curve::ECCCurve;

fn armored_key() -> String {
    let mut encryption = SubkeyParamsBuilder::default();
    encryption
        .key_type(KeyType::ECDH(ECCCurve::Curve25519Legacy))
        .can_sign(false)
        .can_encrypt(EncryptionCaps::All)
        .can_authenticate(false);
    let mut params = SecretKeyParamsBuilder::default();
    params
        .key_type(KeyType::Ed25519Legacy)
        .can_certify(true)
        .can_sign(true)
        .primary_user_id("node <node@example.org>".into())
        .subkeys(vec![encryption.build().unwrap()]);
    let key = params.build().unwrap().generate(aes_gcm::aead::OsRng).unwrap();
    key.to_armored_string(ArmorOptions::default()).unwrap()
}

#[test]
fn packet_constructors() {
    let p = Packet::new_encrypted(vec![1, 2], [3; 12]);
    assert_eq!(p.sequence_id, 0);
    assert!(matches!(p.unwrap(), Packet::Encrypted(d, n) if d == vec![1, 2] && n == [3; 12]));

    let p = Packet::new_server_key_exchange(42, [7; 32]);
    assert_eq!(p.sequence_id, 42);
    assert!(matches!(p.peek(), Packet::ServerboundKeyExchange(k) if *k == [7; 32]));

    let p = Packet::new_client_key_exchange(43, [8; 32]);
    assert_eq!(p.sequence_id, 43);
    assert!(matches!(p.peek(), Packet::ClientboundKeyExchange(k) if *k == [8; 32]));

    let p = Packet::new_end_sequence(44);
    assert_eq!(p.sequence_id, 44);
    assert!(matches!(p.peek(), Packet::EndSequence));

    let p = Packet::new_server_intent(45, Intent::Encrypt);
    assert_eq!(p.sequence_id, 45);
    assert!(matches!(p.unwrap(), Packet::ServerboundIntent(Intent::Encrypt, 45)));

    let p = OuterPacket::new(9, Packet::ServerboundSyncHosts(vec!["h".into()]));
    assert_eq!(p.sequence_id, 9);
    assert!(matches!(p.unwrap(), Packet::ServerboundSyncHosts(h) if h == vec!["h".to_string()]));
}

#[test]
fn init_connection_opens_a_setup_sequence() {
    let keys = eep2p::crypto::CipherKeys::from("", &armored_key());
    let mut state = ConnectionState::new(eep2p::crypto::Cipher::from(&keys));
    let public = state.encryption.x25_public.unwrap();
    let (tx, mut rx) = tokio::sync::mpsc::unbounded_channel::<Message>();
    let mut out = Outbox::new(tx.clone());
    let (ctx, mut crx) = tokio::sync::mpsc::unbounded_channel::<Command>();
    let r = Task::InitConnection.call(PacketState {
        origin: "",
        channel: &mut out,
        controller: &ctx,
        encryption: &mut state.encryption,
        handler: Some(&mut state.handler),
    });
    assert_eq!(r, Ok(()));
    let first = match rx.try_recv() {
        Ok(Message::SendPacketDirect(p)) => p,
        _ => panic!("expected the intent packet"),
    };
    let id = first.sequence_id;
    assert!(matches!(first.unwrap(), Packet::ServerboundIntent(Intent::Encrypt, i) if i == id));
    match rx.try_recv() {
        Ok(Message::SendPacketDirect(p)) => {
            assert_eq!(p.sequence_id, id);
            assert!(matches!(p.unwrap(), Packet::ServerboundKeyExchange(k) if k == public));
        }
        _ => panic!("expected the key packet"),
    }
    assert!(rx.try_recv().is_err());
    assert!(crx.try_recv().is_err());
    assert!(state.handler.contains(id));
    assert_eq!(state.encryption.x25_public, Some(public));
}

#[test]
fn init_connection_without_the_sequences_is_an_illegal_state() {
    let keys = eep2p::crypto::CipherKeys::from("", &armored_key());
    let mut cipher = eep2p::crypto::Cipher::from(&keys);
    let (tx, mut rx) = tokio::sync::mpsc::unbounded_channel::<Message>();
    let mut out = Outbox::new(tx.clone());
    let (ctx, _crx) = tokio::sync::mpsc::unbounded_channel::<Command>();
    let r = Task::InitConnection.call(PacketState {
        origin: "",
        channel: &mut out,
        controller: &ctx,
        encryption: &mut cipher,
        handler: None,
    });
    assert_eq!(r, Err(ConnectionHandleError::IllegalStateError));
    assert!(rx.try_recv().is_err());
}

#[test]
fn init_connection_without_a_public_key_is_an_illegal_state() {
    let keys = eep2p::crypto::CipherKeys::from("", &armored_key());
    let mut cipher = eep2p::crypto::Cipher::from(&keys);
    cipher.x25_public = None;
    let mut handler = SequenceSplitter::new();
    let (tx, mut rx) = tokio::sync::mpsc::unbounded_channel::<Message>();
    let mut out = Outbox::new(tx.clone());
    let (ctx, _crx) = tokio::sync::mpsc::unbounded_channel::<Command>();
    let r = Task::InitConnection.call(PacketState {
        origin: "",
        channel: &mut out,
        controller: &ctx,
        encryption: &mut cipher,
        handler: Some(&mut handler),
    });
    assert_eq!(r, Err(ConnectionHandleError::IllegalStateError));
    let id = match rx.try_recv() {
        Ok(Message::SendPacketDirect(p)) => {
            let id = p.sequence_id;
            assert!(matches!(p.unwrap(), Packet::ServerboundIntent(Intent::Encrypt, i) if i == id));
            id
        }
        _ => panic!("expected the intent packet"),
    };
    assert!(rx.try_recv().is_err());
    assert!(handler.contains(id));
}

#[test]
fn init_connection_on_a_closed_channel_is_an_io_error() {
    let keys = eep2p::crypto::CipherKeys::from("", &armored_key());
    let mut cipher = eep2p::crypto::Cipher::from(&keys);
    let mut handler = SequenceSplitter::new();
    let (tx, rx) = tokio::sync::mpsc::unbounded_channel::<Message>();
    let mut out = Outbox::new(tx.clone());
    drop(rx);
    let (ctx, _crx) = tokio::sync::mpsc::unbounded_channel::<Command>();
    let r = Task::InitConnection.call(PacketState {
        origin: "",
        channel: &mut out,
        controller: &ctx,
        encryption: &mut cipher,
        handler: Some(&mut handler),
    });
    assert_eq!(r, Err(ConnectionHandleError::IOError));
}

#[test]
fn setup_messages_carry_the_sequence_id() {
    match setup_intent_message(11) {
        Message::SendPacketDirect(p) => {
            assert_eq!(p.sequence_id, 11);
            assert!(matches!(p.unwrap(), Packet::ServerboundIntent(Intent::Encrypt, 11)));
        }
        _ => panic!("expected an unencrypted packet"),
    }
    match setup_key_message(12, [4; 32]) {
        Message::SendPacketDirect(p) => {
            assert_eq!(p.sequence_id, 12);
            assert!(matches!(p.unwrap(), Packet::ServerboundKeyExchange(k) if k == [4; 32]));
        }
        _ => panic!("expected an unencrypted packet"),
    }
}

#[test]
fn event_loop_writes_direct_packets_as_they_are() {
    let keys = eep2p::crypto::CipherKeys::from("", &armored_key());
    let mut state = ConnectionState::new(eep2p::crypto::Cipher::from(&keys));
    let (tx, _rx) = tokio::sync::mpsc::unbounded_channel::<Message>();
    let mut out = Outbox::new(tx.clone());
    let (ctx, _crx) = tokio::sync::mpsc::unbounded_channel::<Command>();
    let direct = Packet::new_server_key_exchange(3, [1; 32]);
    match state.step(Event::Message(Message::SendPacketDirect(direct)), "", &mut out, &ctx) {
        Action::Write(p) => {
            assert_eq!(p.sequence_id, 3);
            assert!(matches!(p.unwrap(), Packet::ServerboundKeyExchange(k) if k == [1; 32]));
        }
        _ => panic!("expected the packet to be written unencrypted"),
    }
    assert!(matches!(state.step(Event::Message(Message::End), "", &mut out, &ctx), Action::Stop(Ok(()))));
    assert!(matches!(
        state.step(Event::Message(Message::EndError(ConnectionHandleError::IOError)), "", &mut out, &ctx),
        Action::Stop(Err(ConnectionHandleError::IOError))
    ));
    match state.step(Event::Message(Message::SendPacket(Packet::new_end_sequence(4))), "", &mut out, &ctx) {
        Action::Encode(p) => assert_eq!(p.sequence_id, 4),
        _ => panic!("expected the packet to be encoded first"),
    }
    assert!(matches!(
        state.step(Event::Encoded(vec![1, 2, 3]), "", &mut out, &ctx),
        Action::Stop(Err(ConnectionHandleError::EncryptError(eep2p::crypto::EncryptError::EarlyCallError)))
    ));
}

#[test]
fn event_loop_routes_packets_to_open_sequences() {
    let keys = eep2p::crypto::CipherKeys::from("", &armored_key());
    let mut state = ConnectionState::new(eep2p::crypto::Cipher::from(&keys));
    let (tx, mut rx) = tokio::sync::mpsc::unbounded_channel::<Message>();
    let mut out = Outbox::new(tx.clone());
    let (ctx, _crx) = tokio::sync::mpsc::unbounded_channel::<Command>();
    assert!(matches!(
        state.step(Event::Message(Message::HandlePacket(Packet::new_end_sequence(9))), "", &mut out, &ctx),
        Action::Stop(Err(ConnectionHandleError::HandlerError(SequenceError::PacketOrderError)))
    ));
    assert!(matches!(state.step(Event::Message(Message::ExecuteTask(Task::InitConnection)), "", &mut out, &ctx), Action::Continue));
    let id = match rx.try_recv() {
        Ok(Message::SendPacketDirect(p)) => p.sequence_id,
        _ => panic!("expected the intent packet"),
    };
    assert!(matches!(
        state.step(Event::Message(Message::HandlePacket(Packet::new_end_sequence(id))), "", &mut out, &ctx),
        Action::Continue
    ));
    assert!(matches!(state.step(Event::Decoded(Packet::new_end_sequence(id)), "", &mut out, &ctx), Action::Continue));
}

#[test]
fn event_loop_decrypts_and_seals_after_the_exchange() {
    let keys = eep2p::crypto::CipherKeys::from("", &armored_key());
    let mut cipher = eep2p::crypto::Cipher::from(&keys);
    cipher.derive_key(&[9u8; 32], b"transcript").unwrap();
    let mut other = eep2p::crypto::Cipher::from(&keys);
    other.derive_key(&[9u8; 32], b"transcript").unwrap();
    let mut state = ConnectionState::new(cipher);
    let (tx, _rx) = tokio::sync::mpsc::unbounded_channel::<Message>();
    let mut out = Outbox::new(tx.clone());
    let (ctx, _crx) = tokio::sync::mpsc::unbounded_channel::<Command>();
    let sealed = match state.step(Event::Encoded(b"inner".to_vec()), "", &mut out, &ctx) {
        Action::Write(p) => p,
        _ => panic!("expected a sealed packet"),
    };
    assert_eq!(sealed.sequence_id, 0);
    assert!(open_packet(&other, &sealed) == Ok(Some(b"inner".to_vec())));
    let mut receiver = ConnectionState::new(other);
    match receiver.step(Event::Message(Message::HandlePacket(sealed)), "", &mut out, &ctx) {
        Action::Decode(bytes) => assert_eq!(bytes, b"inner".to_vec()),
        _ => panic!("expected the plaintext to decode"),
    }
}


#[test]
fn event_loop_stops_when_packets_do_not_decode_or_encode() {
    let keys = eep2p::crypto::CipherKeys::from("", &armored_key());
    let mut state = ConnectionState::new(eep2p::crypto::Cipher::from(&keys));
    let (tx, _rx) = tokio::sync::mpsc::unbounded_channel::<Message>();
    let mut out = Outbox::new(tx.clone());
    let (ctx, _crx) = tokio::sync::mpsc::unbounded_channel::<Command>();
    assert!(matches!(
        state.step(Event::Undecodable, "", &mut out, &ctx),
        Action::Stop(Err(ConnectionHandleError::SerializationError))
    ));
    assert!(matches!(
        state.step(Event::Unencodable, "", &mut out, &ctx),
        Action::Stop(Err(ConnectionHandleError::SerializationError))
    ));
}
