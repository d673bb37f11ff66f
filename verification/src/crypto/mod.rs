//! Per-connection encryption: an X25519 exchange, an AES-256-GCM key derived
//! from it with HKDF-SHA256, and the node's PGP key material.
pub mod aes;
pub mod pgp;

use crate::primitives::{
    basepoint_bytes, pgp_check_secret_key, pgp_secret_key_parses, random_x25519_secret, x25519, x25519_basepoint,
    x25519_spec,
};
use vstd::prelude::*;

verus! {

/// The node-wide key material every connection's cipher starts from.
#[derive(Clone)]
pub struct CipherKeys {
    pgp_private_key: String,
    pgp_passphrase: String,
}

/// Why an encryption step failed.
#[derive(Clone, Copy, Debug, PartialEq, Eq, Structural)]
pub enum EncryptError {
    KeyDeriveError,
    MessageDecodeError,
    PgpDecryptError,
    AesEncryptError,
    AesDecryptError,
    /// The AES key was used before the key exchange produced it.
    EarlyCallError,
}

/// The name the cipher's operations give their error.
pub type CipherError = EncryptError;

impl CipherKeys {
    /// The armored PGP private key these keys hold.
    pub closed spec fn private_key_view(&self) -> Seq<char> {
        self.pgp_private_key@
    }

    /// The passphrase of the PGP private key.
    pub closed spec fn passphrase_view(&self) -> Seq<char> {
        self.pgp_passphrase@
    }

    /// Keys made of the node's armored PGP private key and its passphrase.
    /// The key must be a valid armored secret key.
    pub fn from(passwd: &str, private_key: &str) -> (r: Self)
        requires
            pgp_secret_key_parses(private_key@),
        ensures
            r.private_key_view() == private_key@,
            r.passphrase_view() == passwd@,
            pgp_secret_key_parses(r.private_key_view()),
    {
        CipherKeys { pgp_private_key: private_key.to_owned(), pgp_passphrase: passwd.to_owned() }
    }

    /// Keys made of an armored PGP private key and its passphrase, or `None`
    /// when the text is no valid armored secret key.
    pub fn parse(passwd: &str, private_key: &str) -> (r: Option<Self>)
        ensures
            r is Some <==> pgp_secret_key_parses(private_key@),
            r matches Some(k) ==> k.private_key_view() == private_key@ && k.passphrase_view() == passwd@,
    {
        if pgp_check_secret_key(private_key) {
            Some(CipherKeys::from(passwd, private_key))
        } else {
            None
        }
    }
}

/// The X25519 public value of a secret scalar.
pub open spec fn x25519_public_of(secret: Seq<u8>) -> Seq<u8> {
    x25519_spec(secret, x25519_basepoint())
}

/// The state of one connection's encryption.
pub struct Cipher {
    /// The AES-256-GCM key, once derived.
    pub aes_cipher: Option<[u8; 32]>,
    pub x25_secret: Option<[u8; 32]>,
    pub x25_public: Option<[u8; 32]>,
    pub pgp_private: String,
    pub pgp_pass: String,
}

impl Cipher {
    /// The AES-256-GCM key, once the key exchange has produced one.
    pub open spec fn aes_key(&self) -> Option<Seq<u8>> {
        match self.aes_cipher {
            Some(k) => Some(k@),
            None => None,
        }
    }

    /// A cipher for a new connection: no AES key yet, and a fresh X25519
    /// secret with its public value.
    pub fn from(keys: &CipherKeys) -> (r: Self)
        ensures
            r.aes_key() is None,
            r.x25_secret is Some,
            r.x25_public is Some,
            r.x25_public->0@ == x25519_public_of(r.x25_secret->0@),
            r.pgp_private@ == keys.private_key_view(),
            r.pgp_pass@ == keys.passphrase_view(),
    {
        let secret = random_x25519_secret();
        let public = x25519(secret, basepoint_bytes());
        Cipher {
            aes_cipher: None,
            x25_secret: Some(secret),
            x25_public: Some(public),
            pgp_private: keys.pgp_private_key.clone(),
            pgp_pass: keys.pgp_passphrase.clone(),
        }
    }
}

} // verus!
