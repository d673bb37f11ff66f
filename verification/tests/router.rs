use eep2p::config::data::Hosts;
use eep2p::net::message::Message;
use eep2p::router::registry::{close_message, ConnectionTable, Registry};
use eep2p::sequence::server::setup::SetupSequence;
use eep2p::sequence::splitter::SequenceSplitter;

#[test]
fn registry_starts_with_its_hosts() {
    let r = Registry::new(Hosts(vec!["a:1".into(), "b:2".into()]));
    assert_eq!(r.hosts.0, vec!["a:1".to_string(), "b:2".to_string()]);
}

#[test]
fn table_insert_returns_the_replaced_channel() {
    let (tx1, mut rx1) = tokio::sync::mpsc::unbounded_channel::<Message>();
    let (tx2, mut rx2) = tokio::sync::mpsc::unbounded_channel::<Message>();
    let (tx3, _rx3) = tokio::sync::mpsc::unbounded_channel::<Message>();
    let mut t = ConnectionTable::new();
    assert!(t.insert("peer:1".into(), tx1).is_none());
    assert!(t.insert("peer:2".into(), tx3).is_none());
    let previous = t.insert("peer:1".into(), tx2).expect("a replaced channel");
    previous.send(Message::End).unwrap();
    assert!(matches!(rx1.try_recv(), Ok(Message::End)));
    assert!(rx2.try_recv().is_err());
}

#[test]
fn adding_a_connection_closes_the_one_it_replaces() {
    let (tx1, mut rx1) = tokio::sync::mpsc::unbounded_channel::<Message>();
    let (tx2, mut rx2) = tokio::sync::mpsc::unbounded_channel::<Message>();
    let (tx3, mut rx3) = tokio::sync::mpsc::unbounded_channel::<Message>();
    let mut r = Registry::new(Hosts(vec![]));
    assert!(r.add_connection("peer:1".into(), tx1).is_none());
    assert!(r.add_connection("peer:9".into(), tx3).is_none());
    assert!(rx1.try_recv().is_err());
    let replaced = r.add_connection("peer:1".into(), tx2).expect("the replaced connection");
    assert!(matches!(rx1.try_recv(), Ok(Message::End)));
    assert!(rx1.try_recv().is_err());
    assert!(replaced.channel().send(Message::End).is_ok());
    assert!(matches!(rx1.try_recv(), Ok(Message::End)));
    assert!(rx2.try_recv().is_err());
    assert!(rx3.try_recv().is_err());
}

#[test]
fn replacing_a_connection_whose_loop_is_gone_is_fine() {
    let (tx1, rx1) = tokio::sync::mpsc::unbounded_channel::<Message>();
    drop(rx1);
    let (tx2, _rx2) = tokio::sync::mpsc::unbounded_channel::<Message>();
    let mut r = Registry::new(Hosts(vec![]));
    r.add_connection("peer:1".into(), tx1);
    r.add_connection("peer:1".into(), tx2);
}

#[test]
fn splitter_opens_and_replaces_sequences() {
    let mut s = SequenceSplitter::new();
    assert!(!s.contains(5));
    s.insert_sequence(5, SetupSequence::new_sequence(5));
    s.insert_sequence(6, SetupSequence::new_sequence(6));
    assert!(s.contains(5) && s.contains(6) && !s.contains(7));
    s.insert_sequence(5, SetupSequence::new_sequence(5));
    assert!(s.contains(5));
    assert_eq!(SetupSequence::new_sequence(8).id, 8);
}

#[test]
fn replaced_connections_are_sent_end() {
    assert!(matches!(close_message(), Message::End));
}
