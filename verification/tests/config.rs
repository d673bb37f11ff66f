use eep2p::config::data::pgp::PgpKey;
use eep2p::config::error::ConfigError;
use eep2p::config::store::{port_from_random, Config, MIN_PORT};

#[test]
fn empty_pgp_key_has_empty_halves() {
    let k = PgpKey::empty();
    assert_eq!(k.public, "");
    assert_eq!(k.private, "");
}

#[test]
fn port_from_random_stays_in_range() {
    assert_eq!(port_from_random(0), 8000);
    assert_eq!(port_from_random(57534), 65534);
    assert_eq!(port_from_random(57535), 8000);
    assert_eq!(port_from_random(1234), 9234);
    assert_eq!(port_from_random(u32::MAX), 45080);
    assert_eq!(MIN_PORT, 8000);
}

#[test]
fn new_default_config_is_empty_with_a_port_in_range() {
    let c = Config::new_default();
    assert!(c.hosts.0.is_empty());
    assert!(c.port >= 8000 && c.port < 65535);
    assert_eq!(c.pgp.public, "");
    assert_eq!(c.pgp.private, "");
    assert_eq!(c.compute_identifier(), "");
}

#[test]
fn created_config_reports_its_path() {
    match Config::created_at("./eep2p.json") {
        ConfigError::PartialConfigError(p) => assert_eq!(p, "./eep2p.json"),
        other => panic!("unexpected {other:?}"),
    }
}

#[test]
fn first_run_config_keeps_the_port() {
    let c = eep2p::config::Config::first_run(12345);
    assert_eq!(c.port, 12345);
    assert!(c.hosts.0.is_empty());
    assert_eq!(c.pgp_public, "");
    assert_eq!(c.pgp_private, "");
    assert_eq!(c.compute_identifier(), "");
}
