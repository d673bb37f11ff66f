//! The outside crates this library relies on, each behind a declared
//! contract, and the names given to what they compute.
use aes_gcm::aead::rand_core::RngCore;
use aes_gcm::aead::{Aead, AeadCore, KeyInit};
use vstd::prelude::*;

verus! {

/// The sending half of an unbounded tokio channel.
#[verifier::external_type_specification]
#[verifier::external_body]
#[verifier::reject_recursive_types(T)]
pub struct ExUnboundedSender<T>(tokio::sync::mpsc::UnboundedSender<T>);

/// `Clone` of an `UnboundedSender`: another handle on the same channel.
/// Nothing is promised, since the handle is opaque here.
pub assume_specification<T>[ <tokio::sync::mpsc::UnboundedSender<T> as std::clone::Clone>::clone ](
    sender: &tokio::sync::mpsc::UnboundedSender<T>,
) -> tokio::sync::mpsc::UnboundedSender<T>;

/// Sends `msg` on `channel` with `tokio::sync::mpsc::UnboundedSender::send`.
/// The call fails exactly when the receiving half has been closed or dropped,
/// which this library cannot observe, so nothing is promised of the result.
#[verifier::external_body]
pub(crate) fn channel_send<T>(channel: &tokio::sync::mpsc::UnboundedSender<T>, msg: T) -> (r: Result<(), ()>) {
    channel.send(msg).map_err(|_| ())
}

/// The X25519 function of RFC 7748 (`x25519_dalek::x25519`) on a scalar `k`
/// and a u-coordinate `u`.
pub uninterp spec fn x25519_spec(k: Seq<u8>, u: Seq<u8>) -> Seq<u8>;

/// The X25519 base point (u = 9).
pub open spec fn x25519_basepoint() -> Seq<u8> {
    Seq::new(32, |i: int| if i == 0 { 9u8 } else { 0u8 })
}


/// `x25519_dalek::x25519`: the bare X25519 function on a 32-byte scalar and
/// a 32-byte u-coordinate. Beside naming the result, the contract states the
/// Diffie-Hellman agreement that the crate documents (Alice's and Bob's
/// shared values are equal): when `u` is the public value of some scalar `b`,
/// the result equals `b` applied to the public value of `k`.
#[verifier::external_body]
pub(crate) fn x25519(k: [u8; 32], u: [u8; 32]) -> (r: [u8; 32])
    ensures
        r@ == x25519_spec(k@, u@),
        forall|b: Seq<u8>|
            b.len() == 32 && u@ == #[trigger] x25519_spec(b, x25519_basepoint())
                ==> r@ == x25519_spec(b, x25519_spec(k@, x25519_basepoint())),
{
    x25519_dalek::x25519(k, u)
}

/// The X25519 base point as bytes.
pub(crate) fn basepoint_bytes() -> (r: [u8; 32])
    ensures
        r@ == x25519_basepoint(),
{
    let r: [u8; 32] = [9u8, 0, 0, 0, 0, 0, 0, 0, 0, 0, 0, 0, 0, 0, 0, 0, 0, 0, 0, 0, 0, 0, 0, 0, 0, 0, 0, 0, 0, 0, 0, 0];
    assert(r@ =~= x25519_basepoint());
    r
}


/// A fresh X25519 secret scalar: `x25519_dalek::StaticSecret::random()`,
/// which fills 32 bytes from the operating system's generator. Nothing is
/// promised of the bytes.
#[verifier::external_body]
pub(crate) fn random_x25519_secret() -> (r: [u8; 32]) {
    x25519_dalek::StaticSecret::random().to_bytes()
}

/// HKDF-SHA256 (RFC 5869) with the given salt, input key material and info,
/// expanded to 32 bytes.
pub uninterp spec fn hkdf_sha256_32(salt: Seq<u8>, ikm: Seq<u8>, info: Seq<u8>) -> Seq<u8>;

/// `hkdf::Hkdf::<sha2::Sha256>::new(Some(salt), ikm)` followed by `expand(info, ..)`
/// into a 32-byte buffer. `expand` fails only when more than 255 * 32 bytes
/// are asked for, so this call always succeeds.
#[verifier::external_body]
pub(crate) fn hkdf_sha256_expand32(salt: &[u8], ikm: &[u8; 32], info: &[u8]) -> (r: Result<[u8; 32], ()>)
    ensures
        r is Ok,
        r matches Ok(k) ==> k@ == hkdf_sha256_32(salt@, ikm@, info@),
{
    let mut okm = [0u8; 32];
    hkdf::Hkdf::<sha2::Sha256>::new(Some(salt), ikm).expand(info, &mut okm).map(|_| okm).map_err(|_| ())
}

/// The AES-256-GCM ciphertext (with its 16-byte tag appended) of `plaintext`
/// under `key` and `nonce`, with no associated data.
pub uninterp spec fn aes256gcm_seal(key: Seq<u8>, nonce: Seq<u8>, plaintext: Seq<u8>) -> Seq<u8>;

/// What AES-256-GCM decryption of `ciphertext` under `key` and `nonce` gives:
/// `None` when the tag does not authenticate or the length is out of range.
pub uninterp spec fn aes256gcm_open(key: Seq<u8>, nonce: Seq<u8>, ciphertext: Seq<u8>) -> Option<Seq<u8>>;

/// The longest plaintext AES-GCM accepts (`aes_gcm::P_MAX`, 2^36 bytes).
pub open spec fn aes_gcm_max_plaintext() -> int {
    0x10_0000_0000
}

/// `aes_gcm::Aes256Gcm::new(key).encrypt(nonce, data)`. The source refuses only
/// a plaintext longer than `P_MAX`; otherwise it returns the ciphertext
/// followed by the 16-byte tag. As for every AEAD, decrypting that output
/// with the same key and nonce gives the plaintext back.
#[verifier::external_body]
pub(crate) fn aes256gcm_encrypt(key: &[u8; 32], nonce: &[u8; 12], data: &[u8]) -> (r: Result<Vec<u8>, ()>)
    ensures
        (data@.len() <= aes_gcm_max_plaintext()) == (r is Ok),
        r matches Ok(c) ==> {
            &&& c@ == aes256gcm_seal(key@, nonce@, data@)
            &&& c@.len() == data@.len() + 16
            &&& aes256gcm_open(key@, nonce@, c@) == Some(data@)
        },
{
    let cipher = aes_gcm::Aes256Gcm::new(aes_gcm::Key::<aes_gcm::Aes256Gcm>::from_slice(key));
    cipher.encrypt(aes_gcm::Nonce::from_slice(nonce), data).map_err(|_| ())
}

/// `aes_gcm::Aes256Gcm::new(key).decrypt(nonce, data)`: the plaintext when the
/// tag authenticates, an error otherwise.
#[verifier::external_body]
pub(crate) fn aes256gcm_decrypt(key: &[u8; 32], nonce: &[u8; 12], data: &[u8]) -> (r: Result<Vec<u8>, ()>)
    ensures
        match aes256gcm_open(key@, nonce@, data@) {
            Some(p) => r matches Ok(q) && q@ == p,
            None => r is Err,
        },
{
    let cipher = aes_gcm::Aes256Gcm::new(aes_gcm::Key::<aes_gcm::Aes256Gcm>::from_slice(key));
    cipher.decrypt(aes_gcm::Nonce::from_slice(nonce), data).map_err(|_| ())
}

/// A fresh 96-bit nonce: `Aes256Gcm::generate_nonce(&mut OsRng)`, random bytes
/// of which nothing is promised.
#[verifier::external_body]
pub(crate) fn aes256gcm_random_nonce() -> (r: [u8; 12]) {
    let nonce = aes_gcm::Aes256Gcm::generate_nonce(&mut aes_gcm::aead::OsRng);
    let mut r = [0u8; 12];
    r.copy_from_slice(&nonce);
    r
}

/// `OsRng.next_u32()`: a random number of which nothing is promised.
#[verifier::external_body]
pub(crate) fn random_u32() -> (r: u32) {
    aes_gcm::aead::OsRng.next_u32()
}

/// `uuid::Uuid::new_v4()` as its 128-bit value. The bits are random except
/// those the source sets (`& 0xFFFFFFFFFFFF4FFFBFFFFFFFFFFFFFFF |
/// 0x40008000000000000000`): the version nibble is 4 and the variant bits are
/// `10`. Nothing else is promised.
#[verifier::external_body]
pub(crate) fn new_uuid_v4() -> (r: u128)
    ensures
        (r >> 76u128) & 0xfu128 == 4u128,
        (r >> 62u128) & 0x3u128 == 2u128,
{
    uuid::Uuid::new_v4().as_u128()
}

/// `uuid::Uuid::nil()` as its 128-bit value, which the source builds from
/// sixteen zero bytes.
#[verifier::external_body]
pub(crate) fn nil_uuid() -> (r: u128)
    ensures
        r == 0,
{
    uuid::Uuid::nil().as_u128()
}

/// An Ed25519 signing key.
#[verifier::external_type_specification]
#[verifier::external_body]
pub struct ExSigningKey(ed25519_dalek::SigningKey);

/// `ed25519_dalek::SigningKey::generate(&mut OsRng)`: a fresh random key.
#[verifier::external_body]
pub(crate) fn generate_signing_key() -> (r: ed25519_dalek::SigningKey) {
    ed25519_dalek::SigningKey::generate(&mut aes_gcm::aead::OsRng)
}

/// A hash map whose entries expire.
#[verifier::external_type_specification]
#[verifier::external_body]
#[verifier::reject_recursive_types(K)]
#[verifier::reject_recursive_types(V)]
#[verifier::reject_recursive_types(TS)]
pub struct ExTimedMap<K, V, TS>(timedmap::TimedMap<K, V, TS>);

/// A point in time of the system's monotonic clock, the time source of a
/// `TimedMap`.
#[verifier::external_type_specification]
#[verifier::external_body]
pub struct ExInstant(std::time::Instant);

/// `timedmap::TimedMap::new()`: an empty map on the system clock.
#[verifier::external_body]
pub(crate) fn timed_map_new<K, V>() -> (r: timedmap::TimedMap<K, V>) {
    timedmap::TimedMap::new()
}

/// Whether `armor` is an ASCII-armored OpenPGP secret key that
/// `pgp::composed::SignedSecretKey::from_string` accepts.
pub uninterp spec fn pgp_secret_key_parses(armor: Seq<char>) -> bool;

/// `SignedSecretKey::from_string(armor)` (pgp's `Deserializable`): whether the
/// text holds an armored secret key. What the parser accepts is named, not
/// stated.
#[verifier::external_body]
pub(crate) fn pgp_check_secret_key(armor: &str) -> (r: bool)
    ensures
        r == pgp_secret_key_parses(armor@),
{
    <::pgp::composed::SignedSecretKey as ::pgp::composed::Deserializable>::from_string(armor).is_ok()
}

/// Whether `data` is an OpenPGP message that `pgp::composed::Message::from_bytes`
/// accepts.
pub uninterp spec fn pgp_message_parses(data: Seq<u8>) -> bool;

/// `pgp::composed::Message::from_bytes(data)`: whether the bytes hold an
/// OpenPGP message. What the parser accepts is named, not stated.
#[verifier::external_body]
pub(crate) fn pgp_check_message(data: &[u8]) -> (r: bool)
    ensures
        r == pgp_message_parses(data@),
{
    ::pgp::composed::Message::from_bytes(data).is_ok()
}

/// The plaintext that decrypting the OpenPGP message `data` with the armored
/// secret key `key_armor` unlocked by `passphrase` gives, or `None` where the
/// key or the message does not parse, or the key cannot open the message.
pub uninterp spec fn pgp_decrypted(key_armor: Seq<char>, passphrase: Seq<char>, data: Seq<u8>) -> Option<Seq<u8>>;

/// Parses the key with `SignedSecretKey::from_string`, the message with
/// `Message::from_bytes`, decrypts it with `Message::decrypt(&passphrase.into(),
/// &key)` and reads the decrypted message out with `as_data_vec`. The result
/// is named; beside that the contract states only what the source shows
/// plainly: bytes that are no message are not decrypted. Which messages a key
/// opens, and what they hold, is left unsaid.
#[verifier::external_body]
pub(crate) fn pgp_decrypt(key_armor: &str, passphrase: &str, data: &[u8]) -> (r: Result<Vec<u8>, ()>)
    ensures
        match pgp_decrypted(key_armor@, passphrase@, data@) {
            Some(p) => r matches Ok(q) && q@ == p,
            None => r is Err,
        },
        !pgp_message_parses(data@) ==> r is Err,
{
    let key = <::pgp::composed::SignedSecretKey as ::pgp::composed::Deserializable>::from_string(key_armor).map_err(|_| ())?.0;
    let message = ::pgp::composed::Message::from_bytes(data).map_err(|_| ())?;
    let mut plain = message.decrypt(&::pgp::types::Password::from(passphrase), &key).map_err(|_| ())?;
    plain.as_data_vec().map_err(|_| ())
}

/// `timedmap::TimedMap::insert(key, value, Duration::from_secs(seconds))`:
/// remembers a forwarding request for that long. The expiry is the current
/// `Instant` plus the lifetime, an addition that panics on overflow, so the
/// lifetime is kept to the controller's own. What the map holds depends on
/// the clock, so nothing is stated of it.
#[verifier::external_body]
pub(crate) fn timed_map_insert(
    map: &timedmap::TimedMap<u128, crate::control::state::FwdConnection>,
    key: u128,
    value: crate::control::state::FwdConnection,
    seconds: u64,
)
    requires
        seconds <= crate::control::LIFETIME,
{
    map.insert(key, value, std::time::Duration::from_secs(seconds))
}

/// An error of the operating system's input and output.
#[verifier::external_type_specification]
#[verifier::external_body]
pub struct ExIoError(std::io::Error);

} // verus!
