//! Per-connection encryption state: the X25519 exchange and the AES key
//! derived from it.
pub mod aes;
pub mod pgp;

use crate::crypto::aes::{aes_key_info_bytes, derived_aes_key};
use crate::crypto::x25519_public_of;
use crate::primitives::{
    basepoint_bytes, hkdf_sha256_expand32, pgp_check_secret_key, pgp_secret_key_parses, random_x25519_secret, x25519,
    x25519_spec,
};
use vstd::prelude::*;

verus! {

/// The node-wide PGP key material every connection starts from.
#[derive(Clone)]
pub struct GlobalKeys {
    pgp_private: String,
    pgp_pass: String,
}

/// Why an encryption step failed.
#[derive(Clone, Copy, Debug, PartialEq, Eq, Structural)]
pub enum EncryptError {
    KeyDeriveError,
    MessageDecodeError,
    PgpDecryptError,
    AesEncryptError,
    AesDecryptError,
}

impl GlobalKeys {
    /// The armored PGP private key these keys hold.
    pub closed spec fn private_key_view(&self) -> Seq<char> {
        self.pgp_private@
    }

    /// The passphrase of the PGP private key.
    pub closed spec fn passphrase_view(&self) -> Seq<char> {
        self.pgp_pass@
    }

    /// Keys made of the node's armored PGP private key and a passphrase. The
    /// key must be a valid armored secret key.
    pub fn from(passwd: &str, private_key: &str) -> (r: Self)
        requires
            pgp_secret_key_parses(private_key@),
        ensures
            r.private_key_view() == private_key@,
            r.passphrase_view() == passwd@,
            pgp_secret_key_parses(r.private_key_view()),
    {
        GlobalKeys { pgp_private: private_key.to_owned(), pgp_pass: passwd.to_owned() }
    }

    /// Keys made of an armored PGP private key and a passphrase, or `None`
    /// when the text is no valid armored secret key.
    pub fn parse(passwd: &str, private_key: &str) -> (r: Option<Self>)
        ensures
            r is Some <==> pgp_secret_key_parses(private_key@),
            r matches Some(k) ==> k.private_key_view() == private_key@ && k.passphrase_view() == passwd@,
    {
        if pgp_check_secret_key(private_key) {
            Some(GlobalKeys::from(passwd, private_key))
        } else {
            None
        }
    }
}

/// The transcript both ends of an exchange feed into the key derivation:
/// `b"x25519-aes256gcm-v1"`.
pub open spec fn exchange_transcript() -> Seq<u8> {
    seq![120u8, 50, 53, 53, 49, 57, 45, 97, 101, 115, 50, 53, 54, 103, 99, 109, 45, 118, 49]
}

/// The exchange transcript as bytes.
pub fn exchange_transcript_bytes() -> (r: [u8; 19])
    ensures
        r@ == exchange_transcript(),
{
    let r: [u8; 19] = [120u8, 50, 53, 53, 49, 57, 45, 97, 101, 115, 50, 53, 54, 103, 99, 109, 45, 118, 49];
    assert(r@ =~= exchange_transcript());
    r
}

/// The AES key one end holds after an exchange in which its secret was
/// `own_secret` and the peer sent `peer_public`.
pub open spec fn session_key(own_secret: Seq<u8>, peer_public: Seq<u8>) -> Seq<u8> {
    derived_aes_key(x25519_spec(own_secret, peer_public), exchange_transcript())
}

/// The encryption state of one connection.
pub struct EncryptionHandler {
    /// The AES-256-GCM key, once derived.
    pub cipher: Option<[u8; 32]>,
    pub x25_secret: Option<[u8; 32]>,
    pub x25_public: Option<[u8; 32]>,
    pub pgp_private: String,
    pub pgp_pass: String,
}

impl EncryptionHandler {
    /// The AES key, once derived.
    pub open spec fn aes_key(&self) -> Option<Seq<u8>> {
        match self.cipher {
            Some(k) => Some(k@),
            None => None,
        }
    }

    /// The handler of a new connection: no AES key yet, and a fresh X25519
    /// secret with its public value.
    pub fn from(keys: &GlobalKeys) -> (r: Self)
        ensures
            r.aes_key() is None,
            r.x25_secret is Some,
            r.x25_public is Some,
            r.x25_public->0@ == x25519_public_of(r.x25_secret->0@),
            r.pgp_private@ == keys.private_key_view(),
            r.pgp_pass@ == keys.passphrase_view(),
    {
        let secret = random_x25519_secret();
        let public = x25519(secret, basepoint_bytes());
        EncryptionHandler {
            cipher: None,
            x25_secret: Some(secret),
            x25_public: Some(public),
            pgp_private: keys.pgp_private.clone(),
            pgp_pass: keys.pgp_pass.clone(),
        }
    }

    /// A handler with no PGP key material: no AES key yet, and a fresh X25519
    /// secret with its public value.
    pub fn new() -> (r: Self)
        ensures
            r.aes_key() is None,
            r.x25_secret is Some,
            r.x25_public is Some,
            r.x25_public->0@ == x25519_public_of(r.x25_secret->0@),
            r.pgp_private@ == Seq::<char>::empty(),
            r.pgp_pass@ == Seq::<char>::empty(),
    {
        let secret = random_x25519_secret();
        let public = x25519(secret, basepoint_bytes());
        EncryptionHandler {
            cipher: None,
            x25_secret: Some(secret),
            x25_public: Some(public),
            pgp_private: String::new(),
            pgp_pass: String::new(),
        }
    }

    /// Derives the AES key from a shared secret and the exchange's transcript.
    pub fn derive_aes(&mut self, secret: &[u8; 32], transcript: &[u8]) -> (r: Result<(), EncryptError>)
        ensures
            r is Ok,
            final(self).aes_key() == Some(derived_aes_key(secret@, transcript@)),
            final(self).x25_secret == old(self).x25_secret,
            final(self).x25_public == old(self).x25_public,
            final(self).pgp_private == old(self).pgp_private,
            final(self).pgp_pass == old(self).pgp_pass,
    {
        let info = aes_key_info_bytes();
        let key = match hkdf_sha256_expand32(transcript, secret, &info) {
            Ok(k) => k,
            Err(_) => return Err(EncryptError::KeyDeriveError),
        };
        self.cipher = Some(key);
        Ok(())
    }

    /// Completes the exchange with the peer's public value: the secret is used
    /// up and the AES key becomes the session key of the two. Whatever scalar
    /// the peer's public value came from, the peer derives the same key from
    /// this end's public value.
    pub fn complete_exchange(&mut self, peer_public: [u8; 32]) -> (r: Result<(), EncryptError>)
        requires
            old(self).x25_secret is Some,
        ensures
            r is Ok,
            final(self).x25_secret is None,
            final(self).aes_key() == Some(session_key(old(self).x25_secret->0@, peer_public@)),
            forall|b: Seq<u8>|
                b.len() == 32 && peer_public@ == #[trigger] x25519_public_of(b)
                    ==> final(self).aes_key() == Some(session_key(b, x25519_public_of(old(self).x25_secret->0@))),
            final(self).x25_public == old(self).x25_public,
            final(self).pgp_private == old(self).pgp_private,
            final(self).pgp_pass == old(self).pgp_pass,
    {
        let secret = self.x25_secret.take().unwrap();
        let shared = x25519(secret, peer_public);
        let transcript = exchange_transcript_bytes();
        self.derive_aes(&shared, &transcript)
    }
}

} // verus!
